//! EXEC: runs a shell command.  The spawn is outside work; the command
//! expands its text and asks for the run as an effect.

use vstd::prelude::*;

use crate::command::spec_expand;
use crate::command::Effect;
use crate::command::EffectV;
use crate::command::ExecutionContext;

verus! {

broadcast use {vstd::seq::group_seq_axioms, crate::text::lemma_vec_deep_view};

/// The EXEC command, with its command line captured at parse time.
#[derive(Clone)]
pub struct ExecCommand {
    pub cmd: String,
}

impl ExecCommand {
    /// Creates an EXEC command for the given command line.
    pub fn new(cmd: String) -> (r: ExecCommand)
        ensures
            r.cmd == cmd,
    {
        ExecCommand { cmd }
    }

    /// The outside work this command asks for: run the expanded command
    /// line through the shell.
    pub fn request(&self, context: &ExecutionContext) -> (e: Effect)
        ensures
            e@ == (EffectV::Shell { cmd: spec_expand(context@.vars, self.cmd@) }),
    {
        let expanded_cmd = context.expand_variables(self.cmd.as_str());
        Effect::Shell { cmd: expanded_cmd }
    }
}

} // verus!
