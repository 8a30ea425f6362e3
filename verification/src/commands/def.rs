//! DEF: binds a variable to a value, expanding variables in the value first.

use vstd::prelude::*;

use crate::command::spec_assign_ctx;
use crate::command::ExecutionContext;

verus! {

broadcast use {vstd::seq::group_seq_axioms, crate::text::lemma_vec_deep_view};

/// The DEF command, with its operands captured at parse time.
#[derive(Clone)]
pub struct DefCommand {
    pub name: String,
    pub value: String,
}

impl DefCommand {
    /// Creates a DEF command binding `name` to `value`.
    pub fn new(name: String, value: String) -> (r: DefCommand)
        ensures
            r.name == name,
            r.value == value,
    {
        DefCommand { name, value }
    }

    /// Binds the variable: the value is expanded against the current store
    /// first.
    pub fn execute(&self, context: &mut ExecutionContext) -> (r: Result<(), String>)
        ensures
            r is Ok,
            final(context)@ == spec_assign_ctx(old(context)@, self.name@, self.value@),
    {
        let expanded_value = context.expand_variables(self.value.as_str());
        context.set_variable(self.name.clone(), expanded_value);
        Ok(())
    }
}

} // verus!
