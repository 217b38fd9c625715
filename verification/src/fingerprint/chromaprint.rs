//! The output of the fingerprinting utility.

use crate::fingerprint::error::ResolveError;
use vstd::prelude::*;
use vstd::string::StringExecFns;

verus! {

/// Duration and acoustic fingerprint of one audio file.
#[derive(Debug, Clone)]
pub struct FingerprintData {
    /// Length of the audio in seconds, as the bit pattern of a binary64
    /// number. The library carries it through unchanged.
    pub duration_bits: u64,
    /// The compressed fingerprint string.
    pub fp: String,
}

/// One run of the fingerprinting utility.
#[derive(Debug, Clone)]
pub struct FingerprintCommand {
    /// Name of the program.
    pub program: String,
    /// Its arguments, in order.
    pub args: Vec<String>,
}

/// Whether the command runs the utility on the file at `filepath` and asks
/// for its answer as JSON.
pub open spec fn fingerprints(command: FingerprintCommand, filepath: Seq<char>) -> bool {
    &&& command.program@ == "fpcalc"@
    &&& command.args@.len() == 2
    &&& command.args@[0]@ == "-json"@
    &&& command.args@[1]@ == filepath
}

/// The command that fingerprints an audio file. Its output holds the
/// duration and the fingerprint, from which the song is looked up.
pub fn calculate_fingerprint(filepath: &str) -> (command: FingerprintCommand)
    ensures
        fingerprints(command, filepath@),
{
    let mut args: Vec<String> = Vec::new();
    args.push(String::from_str("-json"));
    args.push(String::from_str(filepath));
    FingerprintCommand { program: String::from_str("fpcalc"), args }
}

/// What a run of the fingerprinting utility left behind.
#[derive(Debug)]
pub struct FingerprintRun {
    /// The exit code of the run; `None` where it was ended from outside.
    pub exit_code: Option<i32>,
    /// What the output of the run was read as, or why it could not be read.
    pub output: Result<FingerprintData, String>,
}

/// What a run of the utility amounts to. Only a run that exited with
/// success counts: any other fails, whatever it printed. Output that could
/// not be read fails too.
pub open spec fn fingerprint_of(run: FingerprintRun) -> Result<FingerprintData, ResolveError> {
    if run.exit_code != Some(0i32) {
        Err(ResolveError::FingerprintFailed(run.exit_code))
    } else {
        match run.output {
            Ok(data) => Ok(data),
            Err(message) => Err(ResolveError::Transport(message)),
        }
    }
}

/// Judges a run of the fingerprinting utility by its exit code first, and
/// by its output after.
pub fn read_fingerprint(run: FingerprintRun) -> (r: Result<FingerprintData, ResolveError>)
    ensures
        r == fingerprint_of(run),
{
    let succeeded = match run.exit_code {
        Some(code) => code == 0,
        None => false,
    };
    if !succeeded {
        Err(ResolveError::FingerprintFailed(run.exit_code))
    } else {
        match run.output {
            Ok(data) => Ok(data),
            Err(message) => Err(ResolveError::Transport(message)),
        }
    }
}

} // verus!
