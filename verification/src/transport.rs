//! What passes between the protocol and the program that owns the
//! transport: how a transport call went, and the status to exit with.

use vstd::prelude::*;

verus! {

/// Exit status of a process that ended cleanly.
pub const EXIT_OK: u8 = 0;

/// Exit status of a process that failed to validate or to set up.
pub const EXIT_FAILURE: u8 = 1;

/// How the transport call that a session or a connection task asked for
/// went.
#[derive(Clone, Copy, Debug, PartialEq, Eq, Structural)]
pub enum Outcome {
    /// It succeeded. For a write or a read this is the number of bytes
    /// that the transport moved; for a connect the number means nothing.
    Done(usize),
    /// The transport reported an error.
    Failed,
}

} // verus!
