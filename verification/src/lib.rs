//! A jukebox core: songs submitted by users are queued round-robin, and a
//! song's title, artist, album and cover art are resolved from its acoustic
//! fingerprint through a chain of lookups.
//!
//! Every function here is verified. Network and process calls are made by
//! the caller; the library decides what is asked next and what each answer
//! means.

pub mod fingerprint;
pub mod queue;
pub mod song;
pub mod types;
