//! The identity lookup: its response, and the choice of the best match.

use crate::fingerprint::chromaprint::FingerprintData;
use crate::fingerprint::error::ResolveError;
use vstd::prelude::*;
use vstd::string::StringExecFns;

verus! {

/// The primary type of a release group.
#[derive(Debug, Clone, Copy, PartialEq, Eq, Structural)]
pub enum PrimaryType {
    Album,
    Single,
    Ep,
    Broadcast,
    Other,
    Unrecognized,
}

/// An artist as the identity service names it.
#[derive(Debug, Clone)]
pub struct Artist {
    /// Catalog id of the artist.
    pub id: String,
    /// Artist name.
    pub name: String,
}

/// A grouping of releases: an album, an EP, a single.
#[derive(Debug, Clone)]
pub struct ReleaseGroup {
    /// Catalog id of the release group.
    pub id: String,
    /// Type of the release group, where the catalog has one.
    pub release_type: Option<PrimaryType>,
    /// Title of the release group.
    pub title: String,
}

/// A reference to a canonical recording, as sent inline with a match.
#[derive(Debug, Clone)]
pub struct Recording {
    /// Catalog id of the recording.
    pub id: String,
    /// Duration of the recording in seconds.
    pub duration: Option<usize>,
    /// Release groups the recording appeared on.
    pub release_groups: Option<Vec<ReleaseGroup>>,
    /// Artists on the recording.
    pub artists: Option<Vec<Artist>>,
}

/// One match for a fingerprint.
#[derive(Debug, Clone)]
pub struct AcoustIDResult {
    /// Id of the matched track.
    pub id: String,
    /// Confidence of the match, as the bit pattern of a binary64 number.
    /// Matches are ordered by `score_rank` of it.
    pub score_bits: u64,
    /// Canonical recordings linked to the track.
    pub recordings: Option<Vec<Recording>>,
}

/// What the identity service answers.
#[derive(Debug, Clone)]
pub struct AcoustIDResponse {
    /// The service's own verdict on the request.
    pub status: String,
    /// All matches, in the order the service sent them.
    pub results: Vec<AcoustIDResult>,
}

/// The smallest bit pattern with the sign bit set.
pub const SIGN_BIT: u64 = 0x8000_0000_0000_0000u64;

/// Position of a binary64 bit pattern in the IEEE 754 total order: patterns
/// with a clear sign bit rank by magnitude, those with the sign bit set rank
/// below all of them, in reverse.
pub open spec fn score_rank(bits: u64) -> int {
    if bits < SIGN_BIT {
        bits as int
    } else {
        0x7FFF_FFFF_FFFF_FFFF - bits
    }
}

/// `i` is the first index of `candidates` whose score no other exceeds.
pub open spec fn is_best(candidates: Seq<AcoustIDResult>, i: int) -> bool {
    &&& 0 <= i < candidates.len()
    &&& forall|j: int|
        0 <= j < candidates.len() ==> score_rank(#[trigger] candidates[j].score_bits)
            <= score_rank(candidates[i].score_bits)
    &&& forall|j: int|
        0 <= j < i ==> score_rank(#[trigger] candidates[j].score_bits) < score_rank(
            candidates[i].score_bits,
        )
}

/// Whether the first score stands strictly above the second.
pub fn outranks(a: u64, b: u64) -> (r: bool)
    ensures
        r == (score_rank(a) > score_rank(b)),
{
    if a < SIGN_BIT {
        if b < SIGN_BIT {
            a > b
        } else {
            true
        }
    } else {
        if b < SIGN_BIT {
            false
        } else {
            a < b
        }
    }
}

/// Index of the best candidate of a non-empty list.
pub fn best_index(candidates: &Vec<AcoustIDResult>) -> (best: usize)
    requires
        candidates@.len() > 0,
    ensures
        is_best(candidates@, best as int),
{
    let mut best: usize = 0;
    let mut i: usize = 1;
    while i < candidates.len()
        invariant
            1 <= i <= candidates@.len(),
            is_best(candidates@.take(i as int), best as int),
        decreases candidates@.len() - i,
    {
        if outranks(candidates[i].score_bits, candidates[best].score_bits) {
            best = i;
        }
        i = i + 1;
    }
    assert(candidates@.take(i as int) == candidates@);
    best
}

/// Picks the candidate with the highest score; among equal scores the one
/// that came first. An empty list has no best candidate.
pub fn select_best(candidates: Vec<AcoustIDResult>) -> (r: Result<AcoustIDResult, ResolveError>)
    ensures
        candidates@.len() == 0 ==> r == Err::<AcoustIDResult, ResolveError>(
            ResolveError::NoCandidates,
        ),
        candidates@.len() > 0 ==> r is Ok && exists|i: int|
            is_best(candidates@, i) && r->Ok_0 == candidates@[i],
{
    if candidates.len() == 0 {
        return Err(ResolveError::NoCandidates);
    }
    let mut candidates = candidates;
    let best: usize = best_index(&candidates);
    Ok(candidates.remove(best))
}

/// A list has one best candidate at most.
pub proof fn lemma_best_is_unique(candidates: Seq<AcoustIDResult>, i: int, j: int)
    requires
        is_best(candidates, i),
        is_best(candidates, j),
    ensures
        i == j,
{
    if i < j {
        assert(score_rank(candidates[i].score_bits) < score_rank(candidates[j].score_bits));
        assert(score_rank(candidates[j].score_bits) <= score_rank(candidates[i].score_bits));
    } else if j < i {
        assert(score_rank(candidates[j].score_bits) < score_rank(candidates[i].score_bits));
        assert(score_rank(candidates[i].score_bits) <= score_rank(candidates[j].score_bits));
    }
}

/// The status with which the identity service reports success.
pub open spec fn success_status() -> Seq<char> {
    "ok"@
}

impl AcoustIDResponse {
    /// The candidates of a response. A status other than success is an
    /// error, and so is success without a single candidate: the service
    /// promises one at least.
    pub fn candidates(self) -> (r: Result<Vec<AcoustIDResult>, ResolveError>)
        ensures
            self.status@ != success_status() ==> r == Err::<Vec<AcoustIDResult>, ResolveError>(
                ResolveError::LookupFailed(self.status),
            ),
            self.status@ == success_status() && self.results@.len() == 0 ==> r == Err::<
                Vec<AcoustIDResult>,
                ResolveError,
            >(ResolveError::ProtocolViolation),
            self.status@ == success_status() && self.results@.len() > 0 ==> r == Ok::<
                Vec<AcoustIDResult>,
                ResolveError,
            >(self.results),
    {
        let ok = String::from_str("ok");
        if self.status != ok {
            Err(ResolveError::LookupFailed(self.status))
        } else if self.results.len() == 0 {
            Err(ResolveError::ProtocolViolation)
        } else {
            Ok(self.results)
        }
    }
}

impl AcoustIDResult {
    /// The recording by which the match is looked up in the catalog: the
    /// first one listed.
    pub fn first_recording(self) -> (r: Result<Recording, ResolveError>)
        ensures
            match self.recordings {
                Some(recordings) if recordings@.len() > 0 => r == Ok::<Recording, ResolveError>(
                    recordings@[0],
                ),
                _ => r == Err::<Recording, ResolveError>(ResolveError::NoRecordings),
            },
    {
        match self.recordings {
            Some(recordings) => {
                if recordings.len() == 0 {
                    Err(ResolveError::NoRecordings)
                } else {
                    let mut recordings = recordings;
                    Ok(recordings.remove(0))
                }
            },
            None => Err(ResolveError::NoRecordings),
        }
    }
}

/// The character that writes a digit.
pub open spec fn digit_char(d: nat) -> char
    recommends
        d < 10,
{
    if d == 0 {
        '0'
    } else if d == 1 {
        '1'
    } else if d == 2 {
        '2'
    } else if d == 3 {
        '3'
    } else if d == 4 {
        '4'
    } else if d == 5 {
        '5'
    } else if d == 6 {
        '6'
    } else if d == 7 {
        '7'
    } else if d == 8 {
        '8'
    } else {
        '9'
    }
}

/// A number written in decimal, without leading zeros.
pub open spec fn decimal(n: nat) -> Seq<char>
    decreases n,
{
    if n < 10 {
        seq![digit_char(n)]
    } else {
        decimal(n / 10).push(digit_char(n % 10))
    }
}

fn digit_str(d: usize) -> (s: &'static str)
    requires
        d < 10,
    ensures
        s@ == seq![digit_char(d as nat)],
{
    proof {
        reveal_strlit("0");
        reveal_strlit("1");
        reveal_strlit("2");
        reveal_strlit("3");
        reveal_strlit("4");
        reveal_strlit("5");
        reveal_strlit("6");
        reveal_strlit("7");
        reveal_strlit("8");
        reveal_strlit("9");
    }
    let s = if d == 0 {
        "0"
    } else if d == 1 {
        "1"
    } else if d == 2 {
        "2"
    } else if d == 3 {
        "3"
    } else if d == 4 {
        "4"
    } else if d == 5 {
        "5"
    } else if d == 6 {
        "6"
    } else if d == 7 {
        "7"
    } else if d == 8 {
        "8"
    } else {
        "9"
    };
    assert(s@ =~= seq![digit_char(d as nat)]);
    s
}

/// Appends a number, in decimal, to a string.
pub fn push_decimal(out: &mut String, n: usize)
    ensures
        final(out)@ == old(out)@ + decimal(n as nat),
    decreases n,
{
    if n >= 10 {
        push_decimal(out, n / 10);
    }
    out.append(digit_str(n % 10));
}

/// One request to the identity service: where it goes, and its query
/// parameters in order.
#[derive(Debug, Clone)]
pub struct LookupRequest {
    pub url: String,
    pub query: Vec<(String, String)>,
}

/// Whether a parameter has the given name and value.
pub open spec fn is_param(p: (String, String), name: Seq<char>, value: Seq<char>) -> bool {
    p.0@ == name && p.1@ == value
}

/// The address of the identity service, with the facets that are asked for.
pub open spec fn lookup_url() -> Seq<char> {
    "https://api.acoustid.org/v2/lookup?meta=recordings+releasegroups+compress"@
}

/// The request that looks a fingerprint up: the client's id, the duration in
/// whole seconds and the fingerprint, with the answer asked for as JSON.
pub fn lookup_by_fingerprint(client_id: &str, fp: &FingerprintData, whole_seconds: usize) -> (req:
    LookupRequest)
    ensures
        req.url@ == lookup_url(),
        req.query@.len() == 4,
        is_param(req.query@[0], "format"@, "json"@),
        is_param(req.query@[1], "client"@, client_id@),
        is_param(req.query@[2], "duration"@, decimal(whole_seconds as nat)),
        is_param(req.query@[3], "fingerprint"@, fp.fp@),
{
    let mut seconds = String::new();
    push_decimal(&mut seconds, whole_seconds);
    let mut query: Vec<(String, String)> = Vec::new();
    query.push((String::from_str("format"), String::from_str("json")));
    query.push((String::from_str("client"), String::from_str(client_id)));
    query.push((String::from_str("duration"), seconds));
    query.push((String::from_str("fingerprint"), fp.fp.clone()));
    LookupRequest {
        url: String::from_str(
            "https://api.acoustid.org/v2/lookup?meta=recordings+releasegroups+compress",
        ),
        query,
    }
}

} // verus!
