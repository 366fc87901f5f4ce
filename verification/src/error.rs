//! The demo's fatal-error taxonomy and its exit policy.
//!
//! Every failure is fatal: nothing is retried and nothing degrades. The
//! binary's one top-level handler maps the outcome of a run to a process
//! exit code with [`exit_code`].

use vstd::prelude::*;

verus! {

/// Everything that can end the demo early. Startup can fail to load the
/// sprite asset or to create the window; at runtime a draw call can fail or
/// the stored body handle can fail to resolve.
#[derive(Clone, Copy, PartialEq, Eq, Structural, Debug)]
pub enum Error {
    /// The sprite image was missing or unreadable at startup.
    AssetLoad,
    /// The window or graphics context could not be created at startup.
    WindowInit,
    /// The stored ball handle did not resolve to a body in the world.
    InvalidHandle,
    /// A draw or present call failed at runtime.
    DrawFailure,
}

/// Exit code for a finished run: zero exactly when no error occurred,
/// one otherwise.
pub fn exit_code(outcome: &Result<(), Error>) -> (code: i32)
    ensures
        code == 0 <==> outcome is Ok,
        outcome is Err ==> code == 1,
{
    match outcome {
        Result::Ok(()) => 0,
        Result::Err(_) => 1,
    }
}

} // verus!
