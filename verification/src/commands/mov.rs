//! MOV: binds a variable to a value, exactly as DEF does; by convention it
//! fills the registers `r0`, `r1`, … that macro expansion uses.

use vstd::prelude::*;

use crate::command::spec_assign_ctx;
use crate::command::ExecutionContext;

verus! {

broadcast use {vstd::seq::group_seq_axioms, crate::text::lemma_vec_deep_view};

/// The MOV command, with its operands captured at parse time.
#[derive(Clone)]
pub struct MovCommand {
    pub name: String,
    pub value: String,
}

impl MovCommand {
    /// Creates a MOV command binding `name` to `value`.
    pub fn new(name: String, value: String) -> (r: MovCommand)
        ensures
            r.name == name,
            r.value == value,
    {
        MovCommand { name, value }
    }

    /// Binds the variable: the value is expanded against the current store
    /// first.
    pub fn execute(&self, context: &mut ExecutionContext) -> (r: Result<(), String>)
        ensures
            r is Ok,
            final(context)@ == spec_assign_ctx(old(context)@, self.name@, self.value@),
    {
        let expanded_value = context.expand_variables(self.value.as_str());
        context.set_variable(self.name.clone(), expanded_value);
        Ok(())
    }
}

} // verus!
