//! What running a command in the project root hands back to the caller.
use vstd::prelude::*;

verus! {

/// The exit code reported where the child gave none of its own.
pub const CHILD_FAILURE_CODE: i32 = 127;

/// How a command run in the project root ended.
#[derive(Debug, Clone, Copy, PartialEq, Eq)]
pub enum ChildOutcome {
    /// It exited with this code.
    Exited(i32),
    /// It ended without an exit code (killed by a signal).
    NoExitCode,
    /// It could not be started.
    SpawnFailed,
}

/// The exit code that mirrors a child's outcome.
pub open spec fn exit_code_of(o: ChildOutcome) -> i32 {
    match o {
        ChildOutcome::Exited(c) => c,
        _ => CHILD_FAILURE_CODE,
    }
}

/// The code to exit with after running a command: the child's own where it
/// has one, `CHILD_FAILURE_CODE` otherwise.
pub fn exit_code(o: ChildOutcome) -> (r: i32)
    ensures
        r == exit_code_of(o),
        o is Exited ==> r == o->Exited_0,
        !(o is Exited) ==> r != 0,
{
    match o {
        ChildOutcome::Exited(c) => c,
        _ => CHILD_FAILURE_CODE,
    }
}

} // verus!
