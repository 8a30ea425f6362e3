//! LIBCALL: invokes a named library routine.  The routine's operands come
//! from the registers `r0`, `r1`, …; resolving the name and validating the
//! operands happens here, the side effect itself is outside work.

use vstd::prelude::*;

verus! {

/// The LIBCALL command, with the library name captured at parse time.
#[derive(Clone)]
pub struct LibCallCommand {
    pub name: String,
}

impl LibCallCommand {
    /// Creates a LIBCALL command for the given library name.
    pub fn new(name: String) -> (r: LibCallCommand)
        ensures
            r.name == name,
    {
        LibCallCommand { name }
    }
}

} // verus!
