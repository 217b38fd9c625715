//! What a song does: where its audio is had from, and what is known of it.

use crate::fingerprint::SongMetadata;
use crate::types::{Song, SongOrigin};
use vstd::pervasive::unreached;
use vstd::prelude::*;
use vstd::string::{StrSliceExecFns, StringExecFns};

verus! {

/// Why a song has no metadata to give.
#[derive(Debug, Clone, Copy, PartialEq, Eq, Structural)]
pub enum SongError {
    /// The song's audio is not on disk yet, so there is nothing to look up.
    NotFetched,
}

/// How the error is worded.
pub open spec fn not_fetched_message() -> Seq<char> {
    "Song has not been fetched yet"@
}

impl SongError {
    /// The error in words.
    pub fn message(&self) -> (text: String)
        ensures
            text@ == not_fetched_message(),
    {
        String::from_str("Song has not been fetched yet")
    }
}

/// What the downloader is told.
#[derive(Debug, Clone)]
pub struct DownloadRequest {
    /// Address of the video.
    pub url: String,
    /// Seconds to wait for the network.
    pub socket_timeout: String,
    /// Which of the video's formats is taken.
    pub format: String,
    /// Where the download is kept.
    pub output_directory: String,
    /// How the downloaded file is named.
    pub output_template: String,
    /// Whether the video is fetched, and not only described.
    pub download: bool,
    /// Further arguments, in order.
    pub extra_args: Vec<String>,
}

/// How the audio of a song is had.
#[derive(Debug, Clone)]
pub enum StreamStep {
    /// The audio lies in the file at this path.
    Open(String),
    /// The audio is to be downloaded first.
    Download(DownloadRequest),
}

/// Whether a request asks for the best audio of the video at `url`, as an
/// MP3 named after the video's id, in the download directory.
pub open spec fn is_audio_download(request: DownloadRequest, url: Seq<char>) -> bool {
    &&& request.url@ == url
    &&& request.socket_timeout@ == "15"@
    &&& request.format@ == "bestaudio"@
    &&& request.output_directory@ == "/tmp/jukebox"@
    &&& request.output_template@ == "%(id)s"@
    &&& request.download
    &&& request.extra_args@.len() == 3
    &&& request.extra_args@[0]@ == "-x"@
    &&& request.extra_args@[1]@ == "--audio-format"@
    &&& request.extra_args@[2]@ == "mp3"@
}

/// How the metadata of a song is had.
#[derive(Debug)]
pub enum MetadataStep<'a> {
    /// It is known already.
    Known(&'a SongMetadata),
    /// It is to be looked up from the file at this path.
    Lookup(&'a String),
}

/// The text that precedes the id of a video in its address.
pub open spec fn id_marker() -> Seq<char> {
    "?v="@
}

/// Whether `pattern` stands in `text` at index `i`.
pub open spec fn occurs_at(text: Seq<char>, pattern: Seq<char>, i: int) -> bool {
    &&& 0 <= i
    &&& i + pattern.len() <= text.len()
    &&& text.subrange(i, i + pattern.len()) == pattern
}

/// The first index, from `from` on, at which `pattern` stands in `text`; the
/// length of `text` where it stands nowhere.
pub open spec fn find_from(text: Seq<char>, pattern: Seq<char>, from: int) -> int
    decreases text.len() - from,
{
    if from < 0 || from >= text.len() || from + pattern.len() > text.len() {
        text.len() as int
    } else if occurs_at(text, pattern, from) {
        from
    } else {
        find_from(text, pattern, from + 1)
    }
}

/// Whether an address names a video.
pub open spec fn has_video_id(url: Seq<char>) -> bool {
    find_from(url, id_marker(), 0) < url.len()
}

/// The id of the video that an address names: what follows the first marker,
/// up to the next marker or the end.
pub open spec fn video_id_of(url: Seq<char>) -> Seq<char>
    recommends
        has_video_id(url),
{
    let start = find_from(url, id_marker(), 0) + id_marker().len();
    url.subrange(start, find_from(url, id_marker(), start))
}

/// The directory that downloads are kept in.
pub open spec fn download_dir() -> Seq<char> {
    "/tmp/jukebox/"@
}

/// The ending of a downloaded file's name.
pub open spec fn audio_suffix() -> Seq<char> {
    ".mp3"@
}

/// Where the audio of a downloaded video lies.
pub open spec fn audio_path(name: Seq<char>) -> Seq<char> {
    download_dir() + name + audio_suffix()
}

/// `find_from` gives the least index from `from` on at which the pattern
/// stands, and the length of the text exactly where there is none.
pub proof fn lemma_find_from(text: Seq<char>, pattern: Seq<char>, from: int)
    requires
        0 <= from,
        pattern.len() > 0,
    ensures
        from <= find_from(text, pattern, from) || find_from(text, pattern, from) == text.len(),
        find_from(text, pattern, from) <= text.len(),
        find_from(text, pattern, from) < text.len() ==> occurs_at(
            text,
            pattern,
            find_from(text, pattern, from),
        ),
        forall|i: int|
            from <= i < find_from(text, pattern, from) ==> !occurs_at(text, pattern, i),
    decreases text.len() - from,
{
    if from < text.len() && from + pattern.len() <= text.len() && !occurs_at(
        text,
        pattern,
        from,
    ) {
        lemma_find_from(text, pattern, from + 1);
    }
}

/// Whether the marker stands in the address at index `i`.
fn marker_at(url: &str, len: usize, i: usize) -> (r: bool)
    requires
        len == url@.len(),
        i + 3 <= len,
    ensures
        r == occurs_at(url@, id_marker(), i as int),
{
    proof {
        reveal_strlit("?v=");
    }
    let r = url.get_char(i) == '?' && url.get_char(i + 1) == 'v' && url.get_char(i + 2) == '=';
    proof {
        let piece = url@.subrange(i as int, i + 3);
        if r {
            assert(piece =~= id_marker());
        } else {
            assert(piece[0] == url@[i as int]);
            assert(piece[1] == url@[i + 1]);
            assert(piece[2] == url@[i + 2]);
        }
    }
    r
}

/// The first index, from `from` on, at which the marker stands in the
/// address.
fn find_marker(url: &str, len: usize, from: usize) -> (at: usize)
    requires
        len == url@.len(),
    ensures
        at == find_from(url@, id_marker(), from as int),
{
    proof {
        reveal_strlit("?v=");
    }
    let mut i: usize = from;
    while i < len && len - i >= 3
        invariant
            len == url@.len(),
            id_marker().len() == 3,
            from <= i,
            find_from(url@, id_marker(), i as int) == find_from(url@, id_marker(), from as int),
        decreases len - i,
    {
        if marker_at(url, len, i) {
            return i;
        }
        i = i + 1;
    }
    len
}

/// The id of the video that an address names, where it names one.
pub fn video_id(url: &str) -> (id: Option<String>)
    ensures
        has_video_id(url@) ==> (id matches Some(found) && found@ == video_id_of(url@)),
        !has_video_id(url@) ==> id is None,
{
    proof {
        reveal_strlit("?v=");
        lemma_find_from(url@, id_marker(), 0);
    }
    let len: usize = url.unicode_len();
    let first: usize = find_marker(url, len, 0);
    if first >= len {
        None
    } else {
        let start: usize = first + 3;
        let end: usize = find_marker(url, len, start);
        proof {
            lemma_find_from(url@, id_marker(), start as int);
        }
        Some(String::from_str(url.substring_char(start, end)))
    }
}

impl Song {
    /// A song of the given origin and submitter. An uploaded file is on
    /// disk already; anything else is not.
    pub fn new(origin: SongOrigin, submitter: String) -> (song: Self)
        ensures
            song.origin == origin,
            song.submitter == submitter,
            song.metadata is None,
            song.path == (match origin {
                SongOrigin::FileUpload(path) => Some(path),
                _ => None,
            }),
    {
        let path = match &origin {
            SongOrigin::FileUpload(path) => Some(path.clone()),
            _ => None,
        };
        Song { origin, submitter, metadata: None, path }
    }

    /// Tells whether the song's audio can be had: from an uploaded file or
    /// from a video.
    pub fn is_playable(&self) -> (r: bool)
        ensures
            r == (self.origin is FileUpload || self.origin is Youtube),
    {
        match &self.origin {
            SongOrigin::FileUpload(_) => true,
            SongOrigin::Youtube(_) => true,
            _ => false,
        }
    }

    /// How the song's audio is had: an uploaded file is opened where it
    /// lies, a video is downloaded.
    pub fn as_stream(&self) -> (step: StreamStep)
        requires
            self.origin is FileUpload || self.origin is Youtube,
        ensures
            self.origin matches SongOrigin::FileUpload(path) ==> step == StreamStep::Open(path),
            self.origin matches SongOrigin::Youtube(url) ==> (step matches StreamStep::Download(
                request,
            ) && is_audio_download(request, url@)),
    {
        match &self.origin {
            SongOrigin::FileUpload(path) => StreamStep::Open(path.clone()),
            SongOrigin::Youtube(url) => {
                let mut extra_args: Vec<String> = Vec::new();
                extra_args.push(String::from_str("-x"));
                extra_args.push(String::from_str("--audio-format"));
                extra_args.push(String::from_str("mp3"));
                StreamStep::Download(
                    DownloadRequest {
                        url: url.clone(),
                        socket_timeout: String::from_str("15"),
                        format: String::from_str("bestaudio"),
                        output_directory: String::from_str("/tmp/jukebox"),
                        output_template: String::from_str("%(id)s"),
                        download: true,
                        extra_args,
                    },
                )
            },
            _ => unreached(),
        }
    }

    /// Tells whether a download of this song can be filed: the song is a
    /// video, and its id was reported or stands in its address.
    pub fn can_file(&self, reported_id: &Option<String>) -> (r: bool)
        ensures
            r == (self.origin matches SongOrigin::Youtube(url) && (reported_id is Some
                || has_video_id(url@))),
    {
        match &self.origin {
            SongOrigin::Youtube(url) => reported_id.is_some() || video_id(url.as_str()).is_some(),
            _ => false,
        }
    }

    /// Where the audio of a downloaded video lies. The file is named after
    /// the video's id: the one that the download reported, else the one in
    /// the address. The song is left as it is.
    pub fn download_path(&self, reported_id: &Option<String>) -> (path: String)
        requires
            self.origin matches SongOrigin::Youtube(url) && (reported_id is Some || has_video_id(
                url@,
            )),
        ensures
            self.origin matches SongOrigin::Youtube(url) && path@ == audio_path(
                match reported_id {
                    Some(id) => id@,
                    None => video_id_of(url@),
                },
            ),
    {
        let mut path = String::from_str("/tmp/jukebox/");
        match reported_id {
            Some(id) => path.append(id.as_str()),
            None => match &self.origin {
                SongOrigin::Youtube(url) => match video_id(url.as_str()) {
                    Some(id) => path.append(id.as_str()),
                    None => unreached(),
                },
                _ => unreached(),
            },
        }
        path.append(".mp3");
        path
    }

    /// Records where the audio of a downloaded video lies, as
    /// `download_path` gives it, and hands that path out.
    pub fn downloaded(&mut self, reported_id: Option<String>) -> (path: String)
        requires
            old(self).origin matches SongOrigin::Youtube(url) && (reported_id is Some
                || has_video_id(url@)),
        ensures
            old(self).origin matches SongOrigin::Youtube(url) && path@ == audio_path(
                match reported_id {
                    Some(id) => id@,
                    None => video_id_of(url@),
                },
            ),
            *final(self) == (Song { path: Some(path), ..*old(self) }),
    {
        let path = self.download_path(&reported_id);
        self.path = Some(path.clone());
        path
    }

    /// How the song's metadata is had: it is known, or it is looked up from
    /// the audio on disk. A song whose audio is not on disk has none.
    pub fn fetch_metadata(&self) -> (r: Result<MetadataStep<'_>, SongError>)
        ensures
            match (self.metadata, self.path) {
                (Some(metadata), _) => r == Ok::<MetadataStep, SongError>(
                    MetadataStep::Known(&metadata),
                ),
                (None, Some(path)) => r == Ok::<MetadataStep, SongError>(
                    MetadataStep::Lookup(&path),
                ),
                (None, None) => r == Err::<MetadataStep, SongError>(SongError::NotFetched),
            },
    {
        match &self.metadata {
            Some(metadata) => Ok(MetadataStep::Known(metadata)),
            None => match &self.path {
                Some(path) => Ok(MetadataStep::Lookup(path)),
                None => Err(SongError::NotFetched),
            },
        }
    }

    /// Keeps the metadata that was looked up.
    pub fn set_metadata(&mut self, metadata: SongMetadata)
        ensures
            *final(self) == (Song { metadata: Some(metadata), ..*old(self) }),
    {
        self.metadata = Some(metadata);
    }
}

} // verus!
