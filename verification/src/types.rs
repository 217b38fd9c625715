//! Songs, and the queues they wait in.

use crate::fingerprint::SongMetadata;
use std::collections::VecDeque;
use vstd::prelude::*;
use vstd::string::StringExecFns;

verus! {

/// Where a song comes from.
#[derive(Debug, Clone)]
pub enum SongOrigin {
    /// A video; the value is its full address.
    Youtube(String),
    /// A track on Spotify; the value is its full address.
    Spotify(String),
    /// A track on Soundcloud; the value is its full address.
    Soundcloud(String),
    /// A file that a user sent; the value is its full local path.
    FileUpload(String),
}

/// A song: how to get at it, who asked for it, and what is known of it.
#[derive(Debug, Clone)]
pub struct Song {
    /// Where the audio comes from.
    pub origin: SongOrigin,
    /// The user who submitted the song.
    pub submitter: String,
    /// Title, artist and album, once they were looked up.
    pub metadata: Option<SongMetadata>,
    /// Where the audio lies on disk, once it does.
    pub path: Option<String>,
}

/// The songs of one user, in the order they were submitted.
pub struct UserQueue {
    /// Id of the user who owns the queue.
    pub user_id: String,
    /// The songs that wait.
    pub q: VecDeque<Song>,
    /// Whether the user's songs are to be drawn in random order.
    pub shuffle: bool,
}

/// The queue that is played from, and the users whose songs feed it, in the
/// order of their turns.
pub struct GlobalQueue {
    /// The songs that are to be played, next one first.
    pub q: VecDeque<Song>,
    /// The users who have songs waiting; the first one is drawn from next.
    pub users: VecDeque<UserQueue>,
}

/// A `UserQueue` as sequences.
pub struct UserQueueView {
    pub user_id: Seq<char>,
    pub q: Seq<Song>,
    pub shuffle: bool,
}

/// A `GlobalQueue` as sequences.
pub struct GlobalQueueView {
    pub q: Seq<Song>,
    pub users: Seq<UserQueueView>,
}

impl View for UserQueue {
    type V = UserQueueView;

    open spec fn view(&self) -> UserQueueView {
        UserQueueView { user_id: self.user_id@, q: self.q@, shuffle: self.shuffle }
    }
}

impl View for GlobalQueue {
    type V = GlobalQueueView;

    open spec fn view(&self) -> GlobalQueueView {
        GlobalQueueView { q: self.q@, users: self.users@.map_values(|u: UserQueue| u@) }
    }
}

impl Default for UserQueue {
    /// The empty queue of a user without a name.
    fn default() -> (queue: Self)
        ensures
            queue@ == (UserQueueView {
                user_id: Seq::<char>::empty(),
                q: Seq::<Song>::empty(),
                shuffle: false,
            }),
    {
        UserQueue { user_id: String::new(), q: VecDeque::new(), shuffle: false }
    }
}

/// The address of the song that stands in where none was chosen.
pub open spec fn default_song_url() -> Seq<char> {
    "https://www.youtube.com/watch?v=dQw4w9WgXcQ"@
}

/// The submitter of the song that stands in where none was chosen.
pub open spec fn default_submitter() -> Seq<char> {
    "joeneil"@
}

impl Default for Song {
    /// A well-known video, not fetched and not looked up.
    fn default() -> (song: Self)
        ensures
            song.origin matches SongOrigin::Youtube(url) && url@ == default_song_url(),
            song.submitter@ == default_submitter(),
            song.metadata is None,
            song.path is None,
    {
        Song {
            origin: SongOrigin::Youtube(
                String::from_str("https://www.youtube.com/watch?v=dQw4w9WgXcQ"),
            ),
            submitter: String::from_str("joeneil"),
            metadata: None,
            path: None,
        }
    }
}

} // verus!
