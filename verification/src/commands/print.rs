//! PRINT: produces one output line, expanding variables first.

use vstd::prelude::*;
use vstd::string::*;

use crate::command::spec_dollar_name;
use crate::command::spec_print_ctx;
use crate::command::ExecutionContext;
use crate::text::chars_of;
use crate::text::contains_char;
use crate::text::find_char;
use crate::text::string_of;

verus! {

broadcast use {vstd::seq::group_seq_axioms, crate::text::lemma_vec_deep_view};

/// The PRINT command, with its text captured at parse time.
#[derive(Clone)]
pub struct PrintCommand {
    pub cmd: String,
}

impl PrintCommand {
    /// Creates a PRINT command for the given text.
    pub fn new(cmd: String) -> (r: PrintCommand)
        ensures
            r.cmd == cmd,
    {
        PrintCommand { cmd }
    }

    /// Expands the text and appends one line to the context's output.  If a
    /// `$` survives expansion, the name after it is looked up and its value
    /// printed; an absent name is an error.
    pub fn execute(&self, context: &mut ExecutionContext) -> (r: Result<(), String>)
        ensures
            ({
                let spec_r = spec_print_ctx(old(context)@, self.cmd@);
                match r {
                    Ok(_) => spec_r matches Ok(c) && final(context)@ == c,
                    Err(e) => spec_r matches Err(ee) && e@ == ee && *final(context) == *old(
                        context,
                    ),
                }
            }),
    {
        let expanded_cmd = context.expand_variables(self.cmd.as_str());
        let ec = chars_of(expanded_cmd.as_str());
        if contains_char(&ec, '$') {
            let i = find_char(&ec, '$');
            let mut tail: Vec<char> = Vec::new();
            let mut k: usize = i + 1;
            while k < ec.len()
                invariant
                    i + 1 <= k <= ec@.len(),
                    tail@ == ec@.subrange(i + 1, k as int),
                decreases ec.len() - k,
            {
                tail.push(ec[k]);
                k = k + 1;
                proof {
                    assert(tail@ =~= ec@.subrange(i + 1, k as int));
                }
            }
            proof {
                assert(tail@ =~= ec@.skip(i + 1));
            }
            let j = find_char(&tail, '$');
            let mut namev: Vec<char> = Vec::new();
            let mut k2: usize = 0;
            while k2 < j
                invariant
                    k2 <= j <= tail@.len(),
                    namev@ == tail@.subrange(0, k2 as int),
                decreases j - k2,
            {
                namev.push(tail[k2]);
                k2 = k2 + 1;
                proof {
                    assert(namev@ =~= tail@.subrange(0, k2 as int));
                }
            }
            proof {
                assert(namev@ =~= spec_dollar_name(ec@));
            }
            let name = string_of(&namev);
            match context.get_variable(name.as_str()) {
                Some(value) => {
                    let ghost vv = value@;
                    context.output.push(value);
                    proof {
                        assert(context@.output =~= old(context)@.output.push(vv));
                    }
                    Ok(())
                },
                None => {
                    let mut e = String::from_str("Variable ");
                    e.append(name.as_str());
                    e.append(" not found");
                    Err(e)
                },
            }
        } else {
            let ghost ev = expanded_cmd@;
            context.output.push(expanded_cmd);
            proof {
                assert(context@.output =~= old(context)@.output.push(ev));
            }
            Ok(())
        }
    }
}

} // verus!
