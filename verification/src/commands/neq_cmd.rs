//! NEQ: compares two operands and binds `eq_result` to `TRUE` when they
//! differ.

use vstd::prelude::*;
use vstd::string::*;

use crate::command::spec_eqcheck_ctx;
use crate::command::ExecutionContext;
use crate::commands::eq_cmd::static_or_variable;

verus! {

broadcast use {vstd::seq::group_seq_axioms, crate::text::lemma_vec_deep_view};

/// The NEQ command, with its operands captured at parse time.
#[derive(Clone)]
pub struct NeqCommand {
    pub left: String,
    pub right: String,
}

impl NeqCommand {
    /// Creates a NEQ command comparing `left` and `right`.
    pub fn new(left: String, right: String) -> (r: NeqCommand)
        ensures
            r.left == left,
            r.right == right,
    {
        NeqCommand { left, right }
    }

    /// Compares the operands and binds `eq_result` to `TRUE` when they
    /// differ, else `FALSE`.
    pub fn execute(&self, context: &mut ExecutionContext) -> (r: Result<(), String>)
        ensures
            r is Ok,
            final(context)@ == spec_eqcheck_ctx(old(context)@, self.left@, self.right@, false),
    {
        let left_val = static_or_variable(self.left.clone(), context);
        let right_val = static_or_variable(self.right.clone(), context);
        let text = if left_val != right_val {
            String::from_str("TRUE")
        } else {
            String::from_str("FALSE")
        };
        context.set_variable(String::from_str("eq_result"), text);
        Ok(())
    }
}

} // verus!
