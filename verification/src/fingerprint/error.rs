//! The ways in which a resolution fails, and how each is worded.

use crate::fingerprint::acoustid::{decimal, push_decimal};
use vstd::prelude::*;
use vstd::string::StringExecFns;

verus! {

/// Why a resolution ended without metadata.
#[derive(Debug, Clone)]
pub enum ResolveError {
    /// A call failed, or its answer could not be read; the text is what the
    /// caller reported.
    Transport(String),
    /// The fingerprinting utility did not exit with success. The value is
    /// its exit code, or `None` where the run was ended from outside.
    FingerprintFailed(Option<i32>),
    /// The identity service answered with a status other than success.
    LookupFailed(String),
    /// The identity service reported success and sent no candidate.
    ProtocolViolation,
    /// There was no candidate to choose from.
    NoCandidates,
    /// The best candidate is linked to no canonical recording.
    NoRecordings,
}

/// A whole number written in decimal, with a minus sign where it is
/// negative.
pub open spec fn signed_decimal(n: int) -> Seq<char> {
    if n < 0 {
        seq!['-'] + decimal((-n) as nat)
    } else {
        decimal(n as nat)
    }
}

/// How an error is worded.
pub open spec fn message_of(error: ResolveError) -> Seq<char> {
    match error {
        ResolveError::Transport(message) => message@,
        ResolveError::FingerprintFailed(Some(code)) => "fpcalc failed with exit status "@
            + signed_decimal(code as int),
        ResolveError::FingerprintFailed(None) => "fpcalc was ended by a signal"@,
        ResolveError::LookupFailed(status) => "AcoustID Lookup failed with status "@ + status@,
        ResolveError::ProtocolViolation =>
            "AcoustID Lookup was successful but contained no results (should NEVER happen)"@,
        ResolveError::NoCandidates => "AcoustID Lookup gave no result to choose from"@,
        ResolveError::NoRecordings =>
            "AcoustID Result contained no recording information (was meta=recordingids included in fingerprint query?)"@,
    }
}

/// Appends a whole number, in decimal, to a string.
pub fn push_signed(out: &mut String, n: i32)
    ensures
        final(out)@ == old(out)@ + signed_decimal(n as int),
{
    if n < 0 {
        proof {
            reveal_strlit("-");
        }
        let ghost before = out@;
        out.append("-");
        assert("-"@ == seq!['-']);
        let magnitude: i64 = -(n as i64);
        push_decimal(out, magnitude as usize);
        assert(out@ == before + (seq!['-'] + decimal((-n) as nat)));
    } else {
        push_decimal(out, n as usize);
    }
}

impl ResolveError {
    /// The error in words.
    pub fn message(&self) -> (text: String)
        ensures
            text@ == message_of(*self),
    {
        match self {
            ResolveError::Transport(message) => message.clone(),
            ResolveError::FingerprintFailed(Some(code)) => {
                let mut text = String::from_str("fpcalc failed with exit status ");
                push_signed(&mut text, *code);
                text
            },
            ResolveError::FingerprintFailed(None) => String::from_str(
                "fpcalc was ended by a signal",
            ),
            ResolveError::LookupFailed(status) => {
                let mut text = String::from_str("AcoustID Lookup failed with status ");
                text.append(status.as_str());
                text
            },
            ResolveError::ProtocolViolation => String::from_str(
                "AcoustID Lookup was successful but contained no results (should NEVER happen)",
            ),
            ResolveError::NoCandidates => String::from_str(
                "AcoustID Lookup gave no result to choose from",
            ),
            ResolveError::NoRecordings => String::from_str(
                "AcoustID Result contained no recording information (was meta=recordingids included in fingerprint query?)",
            ),
        }
    }
}

} // verus!
