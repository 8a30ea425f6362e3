//! A plain instruction datatype kept alongside the command set.

use vstd::prelude::*;

verus! {

/// An instruction with its operands.
#[derive(Debug, Clone)]
pub enum Instruction {
    /// Variable name and value.
    Def(String, String),
    /// Command to execute.
    Exec(String),
    /// Condition.
    If(String),
    Else,
    /// npm command.
    Npm(String),
}

} // verus!
