//! The shutdown flag: one boolean that says whether the server still runs.
//!
//! It starts out running. A shutdown request clears it, and nothing sets it
//! again: clearing is the only change that the type offers. The flag has
//! one writer, the handler of the interrupt signal; the accept loop takes
//! it by shared reference and can only read it.

use vstd::prelude::*;

verus! {

/// Whether the server still runs. Its view is that boolean.
#[derive(Debug)]
pub struct ShutdownFlag {
    running: bool,
}

impl View for ShutdownFlag {
    type V = bool;

    closed spec fn view(&self) -> bool {
        self.running
    }
}

impl ShutdownFlag {
    /// A flag that says "running".
    pub fn new() -> (flag: Self)
        ensures
            flag@,
    {
        ShutdownFlag { running: true }
    }

    /// Reads the flag.
    pub fn is_running(&self) -> (r: bool)
        ensures
            r == self@,
    {
        self.running
    }

    /// Records a shutdown request. Returns `true` for the request that
    /// stopped the server and `false` for every later one, which changes
    /// nothing.
    pub fn request_stop(&mut self) -> (first: bool)
        ensures
            !final(self)@,
            first == old(self)@,
    {
        let first: bool = self.running;
        self.running = false;
        first
    }
}

} // verus!
