//! The decisions of an interactive shell for a whitespace-significant
//! language: after each typed line, whether the text gathered so far is a
//! complete unit, plainly invalid, or waiting for more input.
use vstd::prelude::*;

pub mod classify;
pub mod diagnostic;
pub mod shell;

verus! {

} // verus!
