//! INPUT: reads one line from standard input into a variable.  The read
//! itself is outside work; the command asks for it as an effect.

use vstd::prelude::*;

use crate::command::Effect;
use crate::command::EffectV;

verus! {

broadcast use {vstd::seq::group_seq_axioms, crate::text::lemma_vec_deep_view};

/// The INPUT command, with the variable name captured at parse time.
#[derive(Clone)]
pub struct InputCommand {
    pub var: String,
}

impl InputCommand {
    /// Creates an INPUT command for the given variable.
    pub fn new(var: String) -> (r: InputCommand)
        ensures
            r.var == var,
    {
        InputCommand { var }
    }

    /// The outside work this command asks for: read one line, to be bound
    /// to the command's variable.
    pub fn request(&self) -> (e: Effect)
        ensures
            e@ == (EffectV::ReadLine { var: self.var@ }),
    {
        Effect::ReadLine { var: self.var.clone() }
    }
}

} // verus!
