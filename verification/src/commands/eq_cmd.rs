//! EQ: compares two operands and binds `eq_result` to `TRUE` or `FALSE`.

use vstd::prelude::*;
use vstd::string::*;

use crate::command::spec_eqcheck_ctx;
use crate::command::spec_static_or_var;
use crate::command::ExecutionContext;

verus! {

broadcast use {vstd::seq::group_seq_axioms, crate::text::lemma_vec_deep_view};

/// The EQ command, with its operands captured at parse time.
#[derive(Clone)]
pub struct EqCommand {
    pub left: String,
    pub right: String,
}

/// An operand as EQ and NEQ read it: a leading `$` means a variable lookup
/// (empty if the variable is absent); anything else stands for itself.
pub fn static_or_variable(value: String, context: &mut ExecutionContext) -> (r: String)
    ensures
        *final(context) == *old(context),
        r@ == spec_static_or_var(old(context)@.vars, value@),
{
    let vc = crate::text::chars_of(value.as_str());
    if vc.len() > 0 && vc[0] == '$' {
        let mut namev: Vec<char> = Vec::new();
        let mut i: usize = 1;
        while i < vc.len()
            invariant
                1 <= i <= vc@.len(),
                namev@ == vc@.subrange(1, i as int),
            decreases vc.len() - i,
        {
            namev.push(vc[i]);
            i = i + 1;
            proof {
                assert(namev@ =~= vc@.subrange(1, i as int));
            }
        }
        proof {
            assert(namev@ =~= value@.drop_first());
        }
        let name = crate::text::string_of(&namev);
        match context.get_variable(name.as_str()) {
            Some(v) => v,
            None => String::new(),
        }
    } else {
        value
    }
}

impl EqCommand {
    /// Creates an EQ command comparing `left` and `right`.
    pub fn new(left: String, right: String) -> (r: EqCommand)
        ensures
            r.left == left,
            r.right == right,
    {
        EqCommand { left, right }
    }

    /// Compares the operands and binds `eq_result` to `TRUE` when they are
    /// equal, else `FALSE`.
    pub fn execute(&self, context: &mut ExecutionContext) -> (r: Result<(), String>)
        ensures
            r is Ok,
            final(context)@ == spec_eqcheck_ctx(old(context)@, self.left@, self.right@, true),
    {
        let left_val = static_or_variable(self.left.clone(), context);
        let right_val = static_or_variable(self.right.clone(), context);
        let text = if left_val == right_val {
            String::from_str("TRUE")
        } else {
            String::from_str("FALSE")
        };
        context.set_variable(String::from_str("eq_result"), text);
        Ok(())
    }
}

} // verus!
