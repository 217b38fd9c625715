//! Resolution of a fingerprint into song metadata.
//!
//! The resolution is a chain of lookups, each fed by the answer to the one
//! before. `lookup_song` is one step of it: given the stage that was reached
//! and the answer that came in, it says what to do next.

pub mod acoustid;
pub mod artwork;
pub mod catalog;
pub mod chromaprint;
pub mod error;

use crate::fingerprint::acoustid::{is_best, select_best, success_status, AcoustIDResponse};
use crate::fingerprint::artwork::{
    art_in, art_url, first_image, resolve_art, ArtStep, CoverArtArchiveResponse,
};
use crate::fingerprint::catalog::{
    album_of, artist_of, disambiguate, primary_artist, CanonicalRecording,
};
use crate::fingerprint::chromaprint::{
    calculate_fingerprint, fingerprint_of, fingerprints, read_fingerprint, FingerprintCommand,
    FingerprintData, FingerprintRun,
};
use crate::fingerprint::error::ResolveError;
use vstd::pervasive::unreached;
use vstd::prelude::*;

verus! {

/// What is known of a song.
#[derive(Debug, Clone)]
pub struct SongMetadata {
    pub title: String,
    pub artist: String,
    pub album: String,
    /// Address of the album's cover image.
    pub album_art: Option<String>,
    /// Length of the audio in seconds, as the bit pattern of a binary64
    /// number.
    pub duration_bits: u64,
}

/// A `SongMetadata` as text.
pub struct SongMetadataView {
    pub title: Seq<char>,
    pub artist: Seq<char>,
    pub album: Seq<char>,
    pub album_art: Option<Seq<char>>,
    pub duration_bits: u64,
}

impl View for SongMetadata {
    type V = SongMetadataView;

    open spec fn view(&self) -> SongMetadataView {
        SongMetadataView {
            title: self.title@,
            artist: self.artist@,
            album: self.album@,
            album_art: match self.album_art {
                Some(url) => Some(url@),
                None => None,
            },
            duration_bits: self.duration_bits,
        }
    }
}

/// How far a resolution has come.
#[derive(Debug, Clone)]
pub enum Stage {
    /// Nothing was asked yet.
    Idle,
    /// The file is being fingerprinted.
    Fingerprinting,
    /// The identity service is being asked who the fingerprint belongs to.
    Identifying { duration_bits: u64 },
    /// The catalog is being asked for the recording.
    Enriching { duration_bits: u64 },
    /// The artwork catalog is being asked; all else is settled.
    FetchingArt { found: SongMetadata },
    /// The resolution is over.
    Finished,
}

/// What came in. A call that failed comes in as the text of its failure.
#[derive(Debug)]
pub enum Event {
    /// A file is to be resolved.
    Start(String),
    /// The fingerprinting utility ran, or could not be run.
    Fingerprint(Result<FingerprintRun, String>),
    Identity(Result<AcoustIDResponse, String>),
    Recording(Result<CanonicalRecording, String>),
    Artwork(Result<CoverArtArchiveResponse, String>),
}

/// What is to be done next.
#[derive(Debug)]
pub enum Action {
    /// Fingerprint the file by running this command.
    ComputeFingerprint(FingerprintCommand),
    /// Ask the identity service about this fingerprint.
    LookupIdentity(FingerprintData),
    /// Fetch the recording of this id from the catalog, with its artist
    /// credits and releases.
    FetchRecording(String),
    /// Ask the artwork catalog at this address.
    FetchArtwork(String),
    /// Nothing more: the resolution ended with this result.
    Finish(Result<SongMetadata, ResolveError>),
}

/// Whether the event is the answer that the stage waits for.
pub open spec fn answers(stage: Stage, event: Event) -> bool {
    match (stage, event) {
        (Stage::Idle, Event::Start(_)) => true,
        (Stage::Fingerprinting, Event::Fingerprint(_)) => true,
        (Stage::Identifying { .. }, Event::Identity(_)) => true,
        (Stage::Enriching { .. }, Event::Recording(_)) => true,
        (Stage::FetchingArt { .. }, Event::Artwork(_)) => true,
        _ => false,
    }
}

/// Tells whether the event is the answer that the stage waits for.
pub fn accepts(stage: &Stage, event: &Event) -> (r: bool)
    ensures
        r == answers(*stage, *event),
{
    match (stage, event) {
        (Stage::Idle, Event::Start(_)) => true,
        (Stage::Fingerprinting, Event::Fingerprint(_)) => true,
        (Stage::Identifying { .. }, Event::Identity(_)) => true,
        (Stage::Enriching { .. }, Event::Recording(_)) => true,
        (Stage::FetchingArt { .. }, Event::Artwork(_)) => true,
        _ => false,
    }
}

/// Whether the resolution ends here with this error.
pub open spec fn fails_with(next: (Stage, Action), error: ResolveError) -> bool {
    next.0 == Stage::Finished && next.1 == Action::Finish(
        Err::<SongMetadata, ResolveError>(error),
    )
}

/// Whether the resolution ends here with this metadata.
pub open spec fn finishes_with(next: (Stage, Action), metadata: SongMetadataView) -> bool {
    &&& next.0 == Stage::Finished
    &&& next.1 matches Action::Finish(Ok(found))
    &&& found@ == metadata
}

/// The metadata that a recording gives, before any artwork is known.
pub open spec fn metadata_of(rec: CanonicalRecording, duration_bits: u64) -> SongMetadataView {
    SongMetadataView {
        title: rec.title@,
        artist: artist_of(rec),
        album: album_of(rec).album_title,
        album_art: None,
        duration_bits,
    }
}

/// What follows a run of the fingerprinting utility: a run that counts
/// hands its fingerprint to the identity service, any other ends the
/// resolution.
pub open spec fn after_fingerprint(run: FingerprintRun, next: (Stage, Action)) -> bool {
    match fingerprint_of(run) {
        Ok(fingerprint) => {
            &&& next.0 == Stage::Identifying { duration_bits: fingerprint.duration_bits }
            &&& next.1 == Action::LookupIdentity(fingerprint)
        },
        Err(error) => fails_with(next, error),
    }
}

/// What follows the answer of the identity service. A response that reports
/// success holds a candidate; the best one names the recording to fetch.
pub open spec fn after_identity(response: AcoustIDResponse, duration_bits: u64, next: (
    Stage,
    Action,
)) -> bool {
    if response.status@ != success_status() {
        fails_with(next, ResolveError::LookupFailed(response.status))
    } else if response.results@.len() == 0 {
        fails_with(next, ResolveError::ProtocolViolation)
    } else {
        exists|i: int|
            is_best(response.results@, i) && match response.results@[i].recordings {
                Some(recordings) if recordings@.len() > 0 => {
                    &&& next.0 == Stage::Enriching { duration_bits }
                    &&& next.1 == Action::FetchRecording(recordings@[0].id)
                },
                _ => fails_with(next, ResolveError::NoRecordings),
            }
    }
}

/// What follows the answer of the catalog: with an album chosen its artwork
/// is asked for, without one the resolution is over.
pub open spec fn after_recording(rec: CanonicalRecording, duration_bits: u64, next: (
    Stage,
    Action,
)) -> bool {
    match album_of(rec).album_id {
        Some(id) => {
            &&& next.0 matches Stage::FetchingArt { found }
            &&& found@ == metadata_of(rec, duration_bits)
            &&& next.1 matches Action::FetchArtwork(url)
            &&& url@ == art_url(id)
        },
        None => finishes_with(next, metadata_of(rec, duration_bits)),
    }
}

/// What one step of the resolution leads to.
pub open spec fn follows(stage: Stage, event: Event, next: (Stage, Action)) -> bool {
    match (stage, event) {
        (Stage::Idle, Event::Start(path)) => {
            &&& next.0 == Stage::Fingerprinting
            &&& next.1 matches Action::ComputeFingerprint(command)
            &&& fingerprints(command, path@)
        },
        (Stage::Fingerprinting, Event::Fingerprint(Ok(run))) => after_fingerprint(run, next),
        (Stage::Identifying { duration_bits }, Event::Identity(Ok(response))) => after_identity(
            response,
            duration_bits,
            next,
        ),
        (Stage::Enriching { duration_bits }, Event::Recording(Ok(rec))) => after_recording(
            rec,
            duration_bits,
            next,
        ),
        (Stage::FetchingArt { found }, Event::Artwork(Ok(response))) => finishes_with(
            next,
            SongMetadataView {
                album_art: match art_in(response) {
                    Some(url) => Some(url@),
                    None => None,
                },
                ..found@
            },
        ),
        (_, Event::Fingerprint(Err(message))) => fails_with(
            next,
            ResolveError::Transport(message),
        ),
        (_, Event::Identity(Err(message))) => fails_with(next, ResolveError::Transport(message)),
        (_, Event::Recording(Err(message))) => fails_with(next, ResolveError::Transport(message)),
        (_, Event::Artwork(Err(message))) => fails_with(next, ResolveError::Transport(message)),
        _ => true,
    }
}

/// The failure that an event reports, where it reports one: a call that
/// could not be made, or an answer that could not be read.
pub open spec fn failure_of(event: Event) -> Option<String> {
    match event {
        Event::Fingerprint(Err(message)) => Some(message),
        Event::Fingerprint(Ok(run)) => match run.output {
            Err(message) if run.exit_code == Some(0i32) => Some(message),
            _ => None,
        },
        Event::Identity(Err(message)) => Some(message),
        Event::Recording(Err(message)) => Some(message),
        Event::Artwork(Err(message)) => Some(message),
        _ => None,
    }
}

/// A failed call ends the resolution with its failure, at whatever stage it
/// was made: nothing is asked after it, and no partial result is given.
pub proof fn lemma_failure_ends(stage: Stage, event: Event, next: (Stage, Action))
    requires
        answers(stage, event),
        follows(stage, event, next),
        failure_of(event) is Some,
    ensures
        fails_with(next, ResolveError::Transport(failure_of(event)->Some_0)),
{
}

/// Data that is missing from the catalog never fails a resolution: after
/// the recording came in the artwork is asked for, or the resolution ends
/// with metadata that names title, artist and album.
pub proof fn lemma_recording_never_fails(
    rec: CanonicalRecording,
    duration_bits: u64,
    next: (Stage, Action),
)
    requires
        after_recording(rec, duration_bits, next),
    ensures
        next.1 is FetchArtwork || (next.1 matches Action::Finish(Ok(found)) && found@
            == metadata_of(rec, duration_bits)),
        next.1 is FetchArtwork <==> album_of(rec).album_id is Some,
{
}

/// A run of the fingerprinting utility that did not exit with success ends
/// the resolution, whatever the run printed.
pub proof fn lemma_failed_run_ends(stage: Stage, run: FingerprintRun, next: (Stage, Action))
    requires
        answers(stage, Event::Fingerprint(Ok(run))),
        follows(stage, Event::Fingerprint(Ok(run)), next),
        run.exit_code != Some(0i32),
    ensures
        fails_with(next, ResolveError::FingerprintFailed(run.exit_code)),
{
}

/// An answer of the artwork catalog never fails a resolution, whatever it
/// lists: the metadata is handed out as it was found, with the first image
/// where there is one.
pub proof fn lemma_artwork_completes(
    found: SongMetadata,
    response: CoverArtArchiveResponse,
    next: (Stage, Action),
)
    requires
        follows(Stage::FetchingArt { found }, Event::Artwork(Ok(response)), next),
    ensures
        next.0 == Stage::Finished,
        next.1 matches Action::Finish(Ok(done)) && done@.title == found@.title && done@.artist
            == found@.artist && done@.album == found@.album && done@.duration_bits
            == found@.duration_bits && (done@.album_art is Some <==> response.images@.len() > 0),
{
}

/// A resolution that is over waits for nothing, and one that was not begun
/// waits for a file only.
pub proof fn lemma_finished_is_final(event: Event)
    ensures
        !answers(Stage::Finished, event),
        answers(Stage::Idle, event) <==> event is Start,
{
}

/// Ends the resolution with an error.
fn fail(error: ResolveError) -> (next: (Stage, Action))
    ensures
        fails_with(next, error),
{
    (Stage::Finished, Action::Finish(Err(error)))
}

/// The step after the identity service answered: its best candidate names
/// the recording that is fetched next.
pub fn identified(response: AcoustIDResponse, duration_bits: u64) -> (next: (Stage, Action))
    ensures
        after_identity(response, duration_bits, next),
{
    let ghost results = response.results@;
    match response.candidates() {
        Err(error) => fail(error),
        Ok(candidates) => match select_best(candidates) {
            Err(error) => fail(error),
            Ok(best) => {
                let ghost i = choose|i: int| is_best(results, i) && best == results[i];
                match best.first_recording() {
                    Err(error) => {
                        let next = fail(error);
                        assert(is_best(response.results@, i));
                        next
                    },
                    Ok(recording) => {
                        assert(is_best(response.results@, i));
                        (Stage::Enriching { duration_bits }, Action::FetchRecording(recording.id))
                    },
                }
            },
        },
    }
}

/// The step after the catalog answered: title, artist and album are
/// settled, and the artwork is asked for where an album was chosen.
pub fn enriched(rec: CanonicalRecording, duration_bits: u64) -> (next: (Stage, Action))
    ensures
        after_recording(rec, duration_bits, next),
{
    let choice = disambiguate(&rec);
    let artist = primary_artist(&rec);
    let found = SongMetadata {
        title: rec.title,
        artist,
        album: choice.album_title,
        album_art: None,
        duration_bits,
    };
    match resolve_art(choice.album_id) {
        ArtStep::Settled(album_art) => (
            Stage::Finished,
            Action::Finish(Ok(SongMetadata { album_art, ..found })),
        ),
        ArtStep::Fetch(url) => (Stage::FetchingArt { found }, Action::FetchArtwork(url)),
    }
}

/// One step of the resolution of a song: takes the stage that was reached
/// and the answer that came in, and gives the next stage and what to do.
///
/// A failed call ends the resolution with its failure, at whatever stage.
/// Data that is merely missing does not: an album or artist that cannot be
/// found is named by a placeholder, and the result is complete.
pub fn lookup_song(stage: Stage, event: Event) -> (next: (Stage, Action))
    requires
        answers(stage, event),
    ensures
        follows(stage, event, next),
{
    match event {
        Event::Start(path) => (
            Stage::Fingerprinting,
            Action::ComputeFingerprint(calculate_fingerprint(path.as_str())),
        ),
        Event::Fingerprint(reply) => match reply {
            Ok(run) => match read_fingerprint(run) {
                Ok(fingerprint) => (
                    Stage::Identifying { duration_bits: fingerprint.duration_bits },
                    Action::LookupIdentity(fingerprint),
                ),
                Err(error) => fail(error),
            },
            Err(message) => fail(ResolveError::Transport(message)),
        },
        Event::Identity(reply) => match reply {
            Ok(response) => match stage {
                Stage::Identifying { duration_bits } => identified(response, duration_bits),
                _ => unreached(),
            },
            Err(message) => fail(ResolveError::Transport(message)),
        },
        Event::Recording(reply) => match reply {
            Ok(rec) => match stage {
                Stage::Enriching { duration_bits } => enriched(rec, duration_bits),
                _ => unreached(),
            },
            Err(message) => fail(ResolveError::Transport(message)),
        },
        Event::Artwork(reply) => match stage {
            Stage::FetchingArt { found } => match first_image(reply) {
                Ok(album_art) => (
                    Stage::Finished,
                    Action::Finish(Ok(SongMetadata { album_art, ..found })),
                ),
                Err(error) => fail(error),
            },
            _ => unreached(),
        },
    }
}

} // verus!
