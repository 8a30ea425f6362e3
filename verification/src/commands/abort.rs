//! ABORT: stops the whole run on purpose, distinct from the error channel.
//! The VM reports the message and the surrounding program terminates the
//! process with status 0.

use vstd::prelude::*;

verus! {

/// The ABORT command, with its message captured at parse time.
#[derive(Clone)]
pub struct AbortCommand {
    pub error: String,
}

impl AbortCommand {
    /// Creates an ABORT command with the given message.
    pub fn new(error: String) -> (r: AbortCommand)
        ensures
            r.error == error,
    {
        AbortCommand { error }
    }
}

} // verus!
