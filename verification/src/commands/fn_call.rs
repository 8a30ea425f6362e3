//! CALL: invokes a user-defined function by name.  The VM re-parses and runs
//! the stored body lines against the live context.

use vstd::prelude::*;

verus! {

/// The CALL command, with the function name captured at parse time.
#[derive(Clone)]
pub struct FnCallCommand {
    pub name: String,
}

impl FnCallCommand {
    /// Creates a CALL command for the given function name.
    pub fn new(name: String) -> (r: FnCallCommand)
        ensures
            r.name == name,
    {
        FnCallCommand { name }
    }
}

} // verus!
