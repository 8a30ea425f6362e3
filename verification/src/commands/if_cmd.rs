//! IF and ENDIF: the conditional-skip state machine.

use vstd::prelude::*;
use vstd::string::*;

use crate::command::spec_if_ctx;
use crate::command::ExecutionContext;
use crate::text::chars_of;
use crate::text::contains_chars;
use crate::text::str_eq;

verus! {

broadcast use {vstd::seq::group_seq_axioms, crate::text::lemma_vec_deep_view};

/// The IF command: compares a variable (or literal) against an expected
/// value with one of the operators IS, NOT, CONTAINS, NOTCONTAINS.
#[derive(Clone)]
pub struct IfCommand {
    pub expected_value: String,
    pub condition_var: String,
    pub operator: String,
}

impl IfCommand {
    /// Creates an IF command.
    pub fn new(expected_value: String, condition_var: String, operator: String) -> (r: IfCommand)
        ensures
            r.expected_value == expected_value,
            r.condition_var == condition_var,
            r.operator == operator,
    {
        IfCommand { expected_value, condition_var, operator }
    }

    /// Evaluates the comparison on the expanded operands, clears any
    /// previous skip state, and skips until ENDIF exactly when the
    /// comparison is false.
    pub fn execute(&self, context: &mut ExecutionContext) -> (r: Result<(), String>)
        ensures
            ({
                let spec_r = spec_if_ctx(
                    old(context)@,
                    self.condition_var@,
                    self.operator@,
                    self.expected_value@,
                );
                match r {
                    Ok(_) => spec_r matches Ok(c) && final(context)@ == c,
                    Err(e) => spec_r matches Err(ee) && e@ == ee && *final(context) == *old(
                        context,
                    ),
                }
            }),
    {
        let condition_value = context.expand_variables(self.condition_var.as_str());
        let expected_value = context.expand_variables(self.expected_value.as_str());

        let op = self.operator.as_str();
        let is_op = str_eq(op, "IS");
        let not_op = str_eq(op, "NOT");
        let contains_op = str_eq(op, "CONTAINS");
        let notcontains_op = str_eq(op, "NOTCONTAINS");
        if !is_op && !not_op && !contains_op && !notcontains_op {
            let mut e = String::from_str("Unknown operator: ");
            e.append(self.operator.as_str());
            return Err(e);
        }

        let should_skip = if is_op {
            !str_eq(condition_value.as_str(), expected_value.as_str())
        } else if not_op {
            str_eq(condition_value.as_str(), expected_value.as_str())
        } else {
            let cv = chars_of(condition_value.as_str());
            let ev = chars_of(expected_value.as_str());
            let has = contains_chars(&cv, &ev);
            if contains_op {
                !has
            } else {
                has
            }
        };

        // Clear any existing skip state before recording the new condition.
        context.clear_skip();
        if should_skip {
            context.set_skip_until("ENDIF");
        }
        Ok(())
    }
}

/// The ENDIF command: unconditionally ends any active skip.
#[derive(Clone)]
pub struct EndIfCommand;

impl EndIfCommand {
    /// Clears the skip marker, whatever state it was in.
    pub fn execute(&self, context: &mut ExecutionContext) -> (r: Result<(), String>)
        ensures
            r is Ok,
            final(context)@ == (crate::command::CtxV { skip: None, ..old(context)@ }),
    {
        context.clear_skip();
        Ok(())
    }
}

} // verus!
