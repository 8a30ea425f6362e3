//! The httpget routine: fetches the body of the URL in `r0`.  The fetch is
//! outside work; this module validates the operand and yields the effect.

use vstd::prelude::*;
use vstd::string::*;

use crate::command::Effect;
use crate::command::EffectV;
use crate::command::ExecutionContext;

verus! {

/// What the httpget routine asks for: an empty or missing URL is an error
/// (with the message the routine shares with the git routine); otherwise
/// the body of the URL in `r0` is fetched.
pub open spec fn spec_httpget_request(vars: Seq<(Seq<char>, Seq<char>)>) -> Result<
    EffectV,
    Seq<char>,
> {
    let url = super::spec_reg_or_empty(vars, "r0"@);
    if url.len() == 0 {
        Err("Git command or arguments cannot be empty"@)
    } else {
        Ok(EffectV::HttpGet { url })
    }
}

/// The httpget library routine.
pub struct HttpGet {}

impl HttpGet {
    /// Creates the routine.
    pub fn new() -> (r: HttpGet) {
        HttpGet {  }
    }

    /// Validates the operand and yields the fetch to perform.
    pub fn request(&self, context: &ExecutionContext) -> (r: Result<Effect, String>)
        ensures
            (match r {
                Ok(e) => spec_httpget_request(context@.vars) matches Ok(ev) && e@ == ev,
                Err(e) => spec_httpget_request(context@.vars) matches Err(ee) && e@ == ee,
            }),
    {
        let url = match context.get_variable("r0") {
            Some(v) => v,
            None => String::new(),
        };
        if url.as_str().unicode_len() == 0 {
            return Err(String::from_str("Git command or arguments cannot be empty"));
        }
        Ok(Effect::HttpGet { url })
    }
}

} // verus!
