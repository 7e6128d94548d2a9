//! An interpreter for a tape machine whose only logical primitive is NAND.
//!
//! Source text is turned into a program by [`parse`]; a [`Machine`] runs the
//! program over a growable tape of boolean cells under one movable cursor.
//! Literals whose value comes from the clock or from the user are requested
//! from the caller ([`RunStatus::NeedsLiteral`]) and supplied through
//! [`Machine::step`].
use vstd::prelude::*;

pub mod laws;
pub mod literal;
pub mod machine;
pub mod parser;
pub mod program;

pub use literal::{answer_of, random_literal, read_answer};
pub use machine::{evaluate, ErrorKind, EvalError, Machine, RunStatus};
pub use parser::{parse, SyntaxError};
pub use program::{Code, Config, LitType};

verus! {

} // verus!
