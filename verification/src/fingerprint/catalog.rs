//! The canonical recording, and the choice of the album it is filed under.

use crate::fingerprint::acoustid::{PrimaryType, ReleaseGroup};
use vstd::prelude::*;
use vstd::string::StringExecFns;

verus! {

/// One credited artist of a recording.
#[derive(Debug, Clone)]
pub struct ArtistCredit {
    /// The name under which the artist is credited.
    pub name: String,
}

/// One published edition of a recording.
#[derive(Debug, Clone)]
pub struct Release {
    /// The release group the edition belongs to, where it has one.
    pub release_group: Option<ReleaseGroup>,
}

/// A recording as the catalog describes it.
#[derive(Debug, Clone)]
pub struct CanonicalRecording {
    /// Title of the recording.
    pub title: String,
    /// The credited artists, the primary one first.
    pub artist_credit: Option<Vec<ArtistCredit>>,
    /// The releases the recording appeared on.
    pub releases: Option<Vec<Release>>,
}

/// The album a recording is filed under.
#[derive(Debug, Clone)]
pub struct AlbumChoice {
    /// Title of the album, or a placeholder where none was chosen.
    pub album_title: String,
    /// Id of the chosen release group.
    pub album_id: Option<String>,
}

/// An `AlbumChoice` as text.
pub struct AlbumChoiceView {
    pub album_title: Seq<char>,
    pub album_id: Option<Seq<char>>,
}

impl View for AlbumChoice {
    type V = AlbumChoiceView;

    open spec fn view(&self) -> AlbumChoiceView {
        AlbumChoiceView {
            album_title: self.album_title@,
            album_id: match self.album_id {
                Some(id) => Some(id@),
                None => None,
            },
        }
    }
}

/// The placeholder for a value that no stage could produce.
pub open spec fn not_found() -> Seq<char> {
    "Not Found"@
}

/// The album title of a recording whose releases name no typed group.
pub open spec fn no_album() -> Seq<char> {
    "None"@
}

/// The album title of a recording that was released as a single only.
pub open spec fn single_title() -> Seq<char> {
    "Single"@
}

/// The album title where no group is an album, an EP or a single.
pub open spec fn unrecognized_title() -> Seq<char> {
    "Unrecognized Release Type"@
}

/// The type of the group a release belongs to. A release without a group,
/// or whose group has no type, has none.
pub open spec fn group_type(release: Release) -> Option<PrimaryType> {
    match release.release_group {
        Some(group) => group.release_type,
        None => None,
    }
}

/// Whether some release belongs to a group that has a type.
pub open spec fn any_typed(releases: Seq<Release>) -> bool {
    exists|i: int| 0 <= i < releases.len() && (#[trigger] group_type(releases[i])) is Some
}

/// The index of the first release whose group has type `t`.
pub open spec fn first_of_type(releases: Seq<Release>, t: PrimaryType) -> Option<int>
    decreases releases.len(),
{
    if releases.len() == 0 {
        None
    } else {
        match first_of_type(releases.drop_last(), t) {
            Some(i) => Some(i),
            None => if group_type(releases.last()) == Some(t) {
                Some(releases.len() - 1)
            } else {
                None
            },
        }
    }
}

/// The group of the release at index `i`.
pub open spec fn group_at(releases: Seq<Release>, i: int) -> ReleaseGroup {
    releases[i].release_group->Some_0
}

/// The choice that falls on a group under its own title.
pub open spec fn titled(group: ReleaseGroup) -> AlbumChoiceView {
    AlbumChoiceView { album_title: group.title@, album_id: Some(group.id@) }
}

/// The album chosen among the releases of a recording: the first album;
/// failing that the first EP; failing that the first single, under the title
/// "Single". Groups without a type do not count.
pub open spec fn album_among(releases: Seq<Release>) -> AlbumChoiceView {
    if !any_typed(releases) {
        AlbumChoiceView { album_title: no_album(), album_id: None }
    } else if let Some(i) = first_of_type(releases, PrimaryType::Album) {
        titled(group_at(releases, i))
    } else if let Some(i) = first_of_type(releases, PrimaryType::Ep) {
        titled(group_at(releases, i))
    } else if let Some(i) = first_of_type(releases, PrimaryType::Single) {
        AlbumChoiceView { album_title: single_title(), album_id: Some(group_at(releases, i).id@) }
    } else {
        AlbumChoiceView { album_title: unrecognized_title(), album_id: None }
    }
}

/// The album of a recording. A recording that lists no releases at all has
/// none to be found.
pub open spec fn album_of(rec: CanonicalRecording) -> AlbumChoiceView {
    match rec.releases {
        Some(releases) => album_among(releases@),
        None => AlbumChoiceView { album_title: not_found(), album_id: None },
    }
}

/// The name of the primary artist of a recording: the first one credited.
pub open spec fn artist_of(rec: CanonicalRecording) -> Seq<char> {
    match rec.artist_credit {
        Some(credits) if credits@.len() > 0 => credits@[0].name@,
        _ => not_found(),
    }
}

/// Whether the release at index `i` is the first whose group has type `t`.
pub open spec fn is_first_of(releases: Seq<Release>, t: PrimaryType, i: int) -> bool {
    &&& 0 <= i < releases.len()
    &&& group_type(releases[i]) == Some(t)
    &&& forall|j: int| 0 <= j < i ==> group_type(#[trigger] releases[j]) != Some(t)
}

/// Whether no release belongs to a group of type `t`.
pub open spec fn lacks(releases: Seq<Release>, t: PrimaryType) -> bool {
    forall|j: int| 0 <= j < releases.len() ==> group_type(#[trigger] releases[j]) != Some(t)
}

/// `first_of_type` gives the first release whose group has the type, and
/// `None` exactly where there is no such release.
pub proof fn lemma_first_of_type(releases: Seq<Release>, t: PrimaryType)
    ensures
        match first_of_type(releases, t) {
            Some(i) => is_first_of(releases, t, i) && releases[i].release_group is Some,
            None => lacks(releases, t),
        },
    decreases releases.len(),
{
    if releases.len() > 0 {
        let front = releases.drop_last();
        lemma_first_of_type(front, t);
        assert forall|j: int| 0 <= j < front.len() implies front[j] == releases[j] by {}
    }
}

/// An album wins wherever one is listed, whatever else is listed and
/// wherever it stands; of several albums the first.
pub proof fn lemma_album_wins(releases: Seq<Release>, i: int)
    requires
        is_first_of(releases, PrimaryType::Album, i),
    ensures
        album_among(releases) == titled(group_at(releases, i)),
{
    lemma_first_of_type(releases, PrimaryType::Album);
    assert(group_type(releases[i]) is Some);
}

/// Without an album the first EP wins.
pub proof fn lemma_ep_wins(releases: Seq<Release>, i: int)
    requires
        lacks(releases, PrimaryType::Album),
        is_first_of(releases, PrimaryType::Ep, i),
    ensures
        album_among(releases) == titled(group_at(releases, i)),
{
    lemma_first_of_type(releases, PrimaryType::Album);
    lemma_first_of_type(releases, PrimaryType::Ep);
    assert(group_type(releases[i]) is Some);
}

/// Without an album and an EP the first single wins. Its id is kept, its
/// own title is not.
pub proof fn lemma_single_wins(releases: Seq<Release>, i: int)
    requires
        lacks(releases, PrimaryType::Album),
        lacks(releases, PrimaryType::Ep),
        is_first_of(releases, PrimaryType::Single, i),
    ensures
        album_among(releases) == (AlbumChoiceView {
            album_title: single_title(),
            album_id: Some(group_at(releases, i).id@),
        }),
{
    lemma_first_of_type(releases, PrimaryType::Album);
    lemma_first_of_type(releases, PrimaryType::Ep);
    lemma_first_of_type(releases, PrimaryType::Single);
    assert(group_type(releases[i]) is Some);
}

/// Where groups have types, and none is an album, an EP or a single, the
/// type is not recognized and there is no id.
pub proof fn lemma_no_type_wins(releases: Seq<Release>)
    requires
        any_typed(releases),
        lacks(releases, PrimaryType::Album),
        lacks(releases, PrimaryType::Ep),
        lacks(releases, PrimaryType::Single),
    ensures
        album_among(releases) == (AlbumChoiceView {
            album_title: unrecognized_title(),
            album_id: None,
        }),
{
    lemma_first_of_type(releases, PrimaryType::Album);
    lemma_first_of_type(releases, PrimaryType::Ep);
    lemma_first_of_type(releases, PrimaryType::Single);
}

/// Releases without a group, and groups without a type, do not count: where
/// there is nothing else, there is no album.
pub proof fn lemma_nothing_typed(releases: Seq<Release>)
    requires
        forall|j: int| 0 <= j < releases.len() ==> (#[trigger] group_type(releases[j])) is None,
    ensures
        album_among(releases) == (AlbumChoiceView { album_title: no_album(), album_id: None }),
{
}

/// A choice has an id exactly where an album, an EP or a single is listed;
/// without one the title is a placeholder.
pub proof fn lemma_choice_has_id(releases: Seq<Release>)
    ensures
        album_among(releases).album_id is Some <==> exists|i: int|
            0 <= i < releases.len() && (#[trigger] group_type(releases[i]) == Some(
                PrimaryType::Album,
            ) || group_type(releases[i]) == Some(PrimaryType::Ep) || group_type(releases[i])
                == Some(PrimaryType::Single)),
        album_among(releases).album_id is None ==> album_among(releases).album_title
            == no_album() || album_among(releases).album_title == unrecognized_title(),
{
    lemma_first_of_type(releases, PrimaryType::Album);
    lemma_first_of_type(releases, PrimaryType::Ep);
    lemma_first_of_type(releases, PrimaryType::Single);
    if let Some(i) = first_of_type(releases, PrimaryType::Album) {
        assert(group_type(releases[i]) is Some);
    } else if let Some(i) = first_of_type(releases, PrimaryType::Ep) {
        assert(group_type(releases[i]) is Some);
    } else if let Some(i) = first_of_type(releases, PrimaryType::Single) {
        assert(group_type(releases[i]) is Some);
    }
}

/// The album of a recording depends on its releases alone, and its artist
/// on its credits alone: a missing artist does not change the album, nor a
/// missing album the artist.
pub proof fn lemma_fields_are_independent(a: CanonicalRecording, b: CanonicalRecording)
    ensures
        a.releases == b.releases ==> album_of(a) == album_of(b),
        a.artist_credit == b.artist_credit ==> artist_of(a) == artist_of(b),
{
}

/// Whether the group is of the given type.
fn has_type(group: &ReleaseGroup, t: PrimaryType) -> (r: bool)
    ensures
        r == (group.release_type == Some(t)),
{
    match group.release_type {
        Some(found) => found == t,
        None => false,
    }
}

/// The first group of the given type among the releases.
pub fn find_type<'a>(releases: &'a Vec<Release>, t: PrimaryType) -> (r: Option<&'a ReleaseGroup>)
    ensures
        match first_of_type(releases@, t) {
            Some(i) => r == Some(&group_at(releases@, i)),
            None => r is None,
        },
{
    let mut i: usize = 0;
    while i < releases.len()
        invariant
            i <= releases@.len(),
            first_of_type(releases@.take(i as int), t) is None,
        decreases releases@.len() - i,
    {
        proof {
            let next = releases@.take(i + 1);
            assert(next.drop_last() == releases@.take(i as int));
            assert(next.last() == releases@[i as int]);
            lemma_stays_first(releases@, t, i + 1);
        }
        match &releases[i].release_group {
            Some(group) => {
                if has_type(group, t) {
                    return Some(group);
                }
            },
            None => {},
        }
        i = i + 1;
    }
    assert(releases@.take(i as int) == releases@);
    None
}

/// Once a release of the type is found in a prefix, it stays the first in
/// the whole list.
pub proof fn lemma_stays_first(releases: Seq<Release>, t: PrimaryType, n: int)
    requires
        0 <= n <= releases.len(),
    ensures
        first_of_type(releases.take(n), t) is Some ==> first_of_type(releases, t) == first_of_type(
            releases.take(n),
            t,
        ),
    decreases releases.len() - n,
{
    if n < releases.len() {
        lemma_stays_first(releases, t, n + 1);
        assert(releases.take(n + 1).drop_last() == releases.take(n));
    } else {
        assert(releases.take(n) == releases);
    }
}

/// Whether some release belongs to a group that has a type.
pub fn has_typed_group(releases: &Vec<Release>) -> (r: bool)
    ensures
        r == any_typed(releases@),
{
    let mut i: usize = 0;
    while i < releases.len()
        invariant
            i <= releases@.len(),
            forall|j: int| 0 <= j < i ==> (#[trigger] group_type(releases@[j])) is None,
        decreases releases@.len() - i,
    {
        match &releases[i].release_group {
            Some(group) => {
                if group.release_type.is_some() {
                    assert(group_type(releases@[i as int]) is Some);
                    return true;
                }
            },
            None => {},
        }
        i = i + 1;
    }
    false
}

/// Chooses the album a recording is filed under. It never fails: where the
/// catalog has nothing to choose from, the title says so and there is no id.
pub fn disambiguate(rec: &CanonicalRecording) -> (choice: AlbumChoice)
    ensures
        choice@ == album_of(*rec),
{
    match &rec.releases {
        None => AlbumChoice { album_title: String::from_str("Not Found"), album_id: None },
        Some(releases) => {
            if !has_typed_group(releases) {
                AlbumChoice { album_title: String::from_str("None"), album_id: None }
            } else if let Some(album) = find_type(releases, PrimaryType::Album) {
                AlbumChoice { album_title: album.title.clone(), album_id: Some(album.id.clone()) }
            } else if let Some(ep) = find_type(releases, PrimaryType::Ep) {
                AlbumChoice { album_title: ep.title.clone(), album_id: Some(ep.id.clone()) }
            } else if let Some(single) = find_type(releases, PrimaryType::Single) {
                AlbumChoice {
                    album_title: String::from_str("Single"),
                    album_id: Some(single.id.clone()),
                }
            } else {
                AlbumChoice {
                    album_title: String::from_str("Unrecognized Release Type"),
                    album_id: None,
                }
            }
        },
    }
}

/// The name of the primary artist of a recording, or the placeholder where
/// no artist is credited.
pub fn primary_artist(rec: &CanonicalRecording) -> (name: String)
    ensures
        name@ == artist_of(*rec),
{
    match &rec.artist_credit {
        Some(credits) => {
            if credits.len() > 0 {
                credits[0].name.clone()
            } else {
                String::from_str("Not Found")
            }
        },
        None => String::from_str("Not Found"),
    }
}

} // verus!
