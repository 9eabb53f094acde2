//! What running an outside program gave, as the library reads it. Running
//! programs is left to the caller, which reports the outcome.
use vstd::prelude::*;
use crate::text::{trim, trim_spec};

verus! {

/// What running a program gave.
#[derive(Debug)]
pub enum RunOutcome {
    /// The program ran and exited, successfully or not, with its output.
    Exited { success: bool, stdout: String, stderr: String },
    /// The program could not be started; the reason.
    NotStarted(String),
}

/// The trimmed output of a run that exited successfully; nothing otherwise.
pub open spec fn success_output(o: RunOutcome) -> Option<Seq<char>> {
    match o {
        RunOutcome::Exited { success: true, stdout, .. } => Some(trim_spec(stdout@)),
        _ => None,
    }
}

/// The trimmed output of a run that exited successfully (how a program's
/// version is read).
pub fn output_if_success(o: &RunOutcome) -> (r: Option<String>)
    ensures
        match success_output(*o) {
            Some(t) => r matches Some(s) && s@ == t,
            None => r is None,
        },
{
    match o {
        RunOutcome::Exited { success, stdout, .. } => if *success {
            Some(trim(stdout.as_str()))
        } else {
            None
        },
        RunOutcome::NotStarted(_) => None,
    }
}

} // verus!
