//! The writef routine: writes the data in `r1` to the file named in `r0`.
//! The write is outside work; this module validates the operands and
//! yields the effect.

use vstd::prelude::*;
use vstd::string::*;

use crate::command::Effect;
use crate::command::EffectV;
use crate::command::ExecutionContext;

verus! {

/// What the writef routine asks for: an empty or missing filename or data
/// is an error; otherwise the data from `r1` is written to the file named
/// in `r0`.
pub open spec fn spec_writef_request(vars: Seq<(Seq<char>, Seq<char>)>) -> Result<
    EffectV,
    Seq<char>,
> {
    let filename = super::spec_reg_or_empty(vars, "r0"@);
    let data = super::spec_reg_or_empty(vars, "r1"@);
    if filename.len() == 0 || data.len() == 0 {
        Err("Filename or data cannot be empty"@)
    } else {
        Ok(EffectV::WriteFile { filename, data })
    }
}

/// The writef library routine.
pub struct WriteF {}

impl WriteF {
    /// Creates the routine.
    pub fn new() -> (r: WriteF) {
        WriteF {  }
    }

    /// Validates the operands and yields the write to perform.
    pub fn request(&self, context: &ExecutionContext) -> (r: Result<Effect, String>)
        ensures
            (match r {
                Ok(e) => spec_writef_request(context@.vars) matches Ok(ev) && e@ == ev,
                Err(e) => spec_writef_request(context@.vars) matches Err(ee) && e@ == ee,
            }),
    {
        let filename = match context.get_variable("r0") {
            Some(v) => v,
            None => String::new(),
        };
        let data = match context.get_variable("r1") {
            Some(v) => v,
            None => String::new(),
        };
        if filename.as_str().unicode_len() == 0 || data.as_str().unicode_len() == 0 {
            return Err(String::from_str("Filename or data cannot be empty"));
        }
        Ok(Effect::WriteFile { filename, data })
    }
}

} // verus!
