//! FN: opens a user-defined function.  The VM collects the raw body lines at
//! load time; executing the command defines the function it carries.

use vstd::prelude::*;

verus! {

/// The FN command: a function name and its body lines.  The body is filled
/// by the VM while the script is loaded.
#[derive(Clone)]
pub struct FnDefCommand {
    pub name: String,
    pub body: Vec<String>,
}

impl FnDefCommand {
    /// Creates a function-definition command.
    pub fn new(name: String, body: Vec<String>) -> (r: FnDefCommand)
        ensures
            r.name == name,
            r.body == body,
    {
        FnDefCommand { name, body }
    }
}

} // verus!
