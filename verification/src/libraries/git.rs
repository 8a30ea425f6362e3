//! The git routine: runs git with a subcommand from `r0` and arguments from
//! `r1`.  The run itself is outside work; this module validates the
//! operands and yields the effect.

use vstd::prelude::*;
use vstd::string::*;

use crate::command::Effect;
use crate::command::EffectV;
use crate::command::ExecutionContext;

verus! {

/// What the git routine asks for: an empty or missing subcommand is an
/// error; otherwise git runs with the subcommand from `r0` and the
/// arguments from `r1` (empty when unset).
pub open spec fn spec_git_request(vars: Seq<(Seq<char>, Seq<char>)>) -> Result<
    EffectV,
    Seq<char>,
> {
    let cmd = super::spec_reg_or_empty(vars, "r0"@);
    if cmd.len() == 0 {
        Err("Git command or arguments cannot be empty"@)
    } else {
        Ok(EffectV::Git { cmd, args: super::spec_reg_or_empty(vars, "r1"@) })
    }
}

/// The git library routine.
pub struct Git {}

impl Git {
    /// Creates the routine.
    pub fn new() -> (r: Git) {
        Git {  }
    }

    /// Validates the operands and yields the git run to perform.
    pub fn request(&self, context: &ExecutionContext) -> (r: Result<Effect, String>)
        ensures
            (match r {
                Ok(e) => spec_git_request(context@.vars) matches Ok(ev) && e@ == ev,
                Err(e) => spec_git_request(context@.vars) matches Err(ee) && e@ == ee,
            }),
    {
        let cmd = match context.get_variable("r0") {
            Some(v) => v,
            None => String::new(),
        };
        if cmd.as_str().unicode_len() == 0 {
            return Err(String::from_str("Git command or arguments cannot be empty"));
        }
        let args = match context.get_variable("r1") {
            Some(v) => v,
            None => String::new(),
        };
        Ok(Effect::Git { cmd, args })
    }
}

} // verus!
