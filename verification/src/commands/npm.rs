//! NPM: runs an npm subcommand.  The spawn is outside work; the command
//! expands its text and asks for the run as an effect.

use vstd::prelude::*;

use crate::command::spec_expand;
use crate::command::Effect;
use crate::command::EffectV;
use crate::command::ExecutionContext;

verus! {

broadcast use {vstd::seq::group_seq_axioms, crate::text::lemma_vec_deep_view};

/// The NPM command, with its subcommand captured at parse time.
#[derive(Clone)]
pub struct NpmCommand {
    pub cmd: String,
}

impl NpmCommand {
    /// Creates an NPM command for the given subcommand.
    pub fn new(cmd: String) -> (r: NpmCommand)
        ensures
            r.cmd == cmd,
    {
        NpmCommand { cmd }
    }

    /// The outside work this command asks for: run npm with the expanded
    /// subcommand.
    pub fn request(&self, context: &ExecutionContext) -> (e: Effect)
        ensures
            e@ == (EffectV::Npm { cmd: spec_expand(context@.vars, self.cmd@) }),
    {
        let expanded_cmd = context.expand_variables(self.cmd.as_str());
        Effect::Npm { cmd: expanded_cmd }
    }
}

} // verus!
