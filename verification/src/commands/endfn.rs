//! ENDFN: closes a function definition.  The structural handling happens at
//! load time in the VM; at run time the command does nothing.

use vstd::prelude::*;

use crate::command::ExecutionContext;

verus! {

/// The ENDFN command.
#[derive(Clone)]
pub struct EndFnCommand;

impl EndFnCommand {
    /// Creates an ENDFN command.
    pub fn new() -> (r: EndFnCommand) {
        EndFnCommand
    }

    /// Does nothing: ENDFN only matters while a script is loaded.
    pub fn execute(&self, context: &mut ExecutionContext) -> (r: Result<(), String>)
        ensures
            r is Ok,
            *final(context) == *old(context),
    {
        Ok(())
    }
}

} // verus!
