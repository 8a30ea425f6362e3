//! A tiny interpreted scripting language, verified end to end: a lexer
//! turns script text into tokens, a parser turns lines into command
//! objects, and a small-step virtual machine runs them against a mutable
//! variable store with conditional skipping, user-defined functions and
//! macro-expanded library calls.  Commands that need outside work (a
//! shell run, a line of input, a file write, an HTTP fetch) pause the
//! machine with an effect; the surrounding program performs it and resumes
//! the machine with the result.

use vstd::prelude::*;

pub mod command;
pub mod commands;
pub mod consts;
pub mod instruction;
pub mod laws;
pub mod lexer;
pub mod libraries;
pub mod parser;
pub mod text;
pub mod vm;

verus! {

} // verus!
