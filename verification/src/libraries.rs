//! The library dispatcher: resolves a LIBCALL name to a concrete routine,
//! reads the routine's operands from the registers `r0`, `r1`, … in the
//! variable store, and validates them.  The side effects themselves (a git
//! run, an HTTP fetch, a file write) are outside work: each routine yields
//! the effect to perform, and the VM pauses on it.

pub mod git;
pub mod httpget;
pub mod writef;

use vstd::prelude::*;
use vstd::string::*;

use crate::command::spec_lookup;
use crate::command::Effect;
use crate::command::EffectV;
use crate::command::ExecutionContext;
use crate::text::str_eq;

pub use git::Git;
pub use httpget::HttpGet;
pub use writef::WriteF;

verus! {

/// The operand in register `r`, or empty when the register is unset.
pub open spec fn spec_reg_or_empty(
    vars: Seq<(Seq<char>, Seq<char>)>,
    r: Seq<char>,
) -> Seq<char> {
    match spec_lookup(vars, r) {
        Some(v) => v,
        None => Seq::empty(),
    }
}

/// What dispatching a library call does: the effect the named routine asks
/// for, or the error it reports on a bad name or bad operands.
pub open spec fn spec_lib_request(name: Seq<char>, vars: Seq<(Seq<char>, Seq<char>)>) -> Result<
    EffectV,
    Seq<char>,
> {
    if name == "git"@ {
        git::spec_git_request(vars)
    } else if name == "httpget"@ {
        httpget::spec_httpget_request(vars)
    } else if name == "writef"@ {
        writef::spec_writef_request(vars)
    } else {
        Err("Library '"@ + name + "' not found"@)
    }
}

/// Resolves LIBCALL names to concrete routines.
pub struct LibraryExecutor {}

impl LibraryExecutor {
    /// Creates a dispatcher.
    pub fn new() -> (r: LibraryExecutor) {
        LibraryExecutor {  }
    }

    /// Looks the routine up by name and asks it for the effect to perform.
    pub fn execute(&self, name: &str, context: &ExecutionContext) -> (r: Result<Effect, String>)
        ensures
            (match r {
                Ok(e) => spec_lib_request(name@, context@.vars) matches Ok(ev) && e@ == ev,
                Err(e) => spec_lib_request(name@, context@.vars) matches Err(ee) && e@ == ee,
            }),
    {
        if str_eq(name, "git") {
            Git::new().request(context)
        } else if str_eq(name, "httpget") {
            HttpGet::new().request(context)
        } else if str_eq(name, "writef") {
            WriteF::new().request(context)
        } else {
            let mut e = String::from_str("Library '");
            e.append(name);
            e.append("' not found");
            Err(e)
        }
    }
}

} // verus!
