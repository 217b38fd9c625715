//! The artwork lookup: which address is asked, and what its answer holds.

use crate::fingerprint::error::ResolveError;
use vstd::prelude::*;
use vstd::string::StringExecFns;

verus! {

/// One image of a release.
#[derive(Debug, Clone)]
pub struct CoverArtImage {
    /// Address of the image.
    pub image: String,
}

/// What the artwork catalog answers for a release.
#[derive(Debug, Clone)]
pub struct CoverArtArchiveResponse {
    /// The images of the release, the preferred one first.
    pub images: Vec<CoverArtImage>,
    /// Address of the release the images belong to.
    pub release: String,
}

/// What the artwork stage does for an album.
#[derive(Debug, Clone)]
pub enum ArtStep {
    /// The artwork is settled without asking anyone.
    Settled(Option<String>),
    /// The artwork catalog is to be asked at this address.
    Fetch(String),
}

/// The address under which the artwork catalog lists a release.
pub open spec fn art_url(album_id: Seq<char>) -> Seq<char> {
    "https://coverartarchive.org/release/"@ + album_id
}

/// Decides how the artwork of an album is found. Without an album there is
/// no artwork, and nothing is asked; with one, the catalog is asked by the
/// album's id.
pub fn resolve_art(album_id: Option<String>) -> (step: ArtStep)
    ensures
        match album_id {
            None => step == ArtStep::Settled(None),
            Some(id) => step matches ArtStep::Fetch(url) && url@ == art_url(id@),
        },
{
    match album_id {
        None => ArtStep::Settled(None),
        Some(id) => {
            let mut url = String::from_str("https://coverartarchive.org/release/");
            url.append(id.as_str());
            ArtStep::Fetch(url)
        },
    }
}

/// The artwork that a response of the catalog holds: its first image. A
/// response that lists no image holds none.
pub open spec fn art_in(response: CoverArtArchiveResponse) -> Option<String> {
    if response.images@.len() > 0 {
        Some(response.images@[0].image)
    } else {
        None
    }
}

/// Reads the artwork out of the catalog's answer: the address of the first
/// image, or none where the answer lists no image. A failed call fails the
/// resolution.
pub fn first_image(reply: Result<CoverArtArchiveResponse, String>) -> (r: Result<
    Option<String>,
    ResolveError,
>)
    ensures
        match reply {
            Ok(response) => r == Ok::<Option<String>, ResolveError>(art_in(response)),
            Err(message) => r == Err::<Option<String>, ResolveError>(
                ResolveError::Transport(message),
            ),
        },
{
    match reply {
        Ok(response) => {
            let mut images = response.images;
            if images.len() > 0 {
                Ok(Some(images.remove(0).image))
            } else {
                Ok(None)
            }
        },
        Err(message) => Err(ResolveError::Transport(message)),
    }
}

} // verus!
