use vstd::prelude::*;

verus! {

/// Why an operation on the terminal backend failed. The text carried by the
/// first two is the operating system's own message.
#[derive(Debug)]
pub enum TerminalError {
    PtyAllocationFailure(String),
    SpawnFailure(String),
    SessionNotFound(u64),
    DuplicateSession(u64),
    NoShellsFound,
}

} // verus!
