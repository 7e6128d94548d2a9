//! Instructions, literal tags and the dialect settings shared by parser and machine.
use vstd::prelude::*;

verus! {

/// Where the value of a literal instruction comes from.
#[derive(Clone, Copy, Debug, PartialEq, Eq, Structural)]
pub enum LitType {
    /// Always `false`.
    Zero,
    /// Always `true`.
    One,
    /// A pseudo-random bit derived from the clock.
    Random,
    /// An answer read from the user.
    Interactive,
}

/// One instruction of a program.
#[derive(Clone, Copy, Debug, PartialEq, Eq, Structural)]
pub enum Code {
    MoveForward,
    MoveBackward,
    Nand,
    Copy,
    Swap,
    Literal(LitType),
    Delete,
    Branch,
    FlipDirection,
    JumpBack,
    LoopOpen,
}

/// The dialect a program is written in and run under.
#[derive(Clone, Copy, Debug, PartialEq, Eq, Structural)]
pub struct Config {
    /// `IR` (a random literal) is accepted.
    pub random_literals: bool,
    /// `F` (flip the direction polarity) is an instruction, not a comment.
    pub directional: bool,
    /// The tape starts with one `false` cell instead of empty.
    pub seeded_tape: bool,
}

/// Whether an instruction may alter the tape or the cursor.
pub open spec fn alters_tape_or_cursor(c: Code) -> bool {
    match c {
        Code::MoveForward | Code::MoveBackward | Code::Nand | Code::Copy | Code::Swap
        | Code::Literal(_) | Code::Delete => true,
        Code::Branch | Code::FlipDirection | Code::JumpBack | Code::LoopOpen => false,
    }
}

/// The tag of a literal whose value the machine cannot produce by itself.
pub open spec fn outside_tag(c: Code) -> Option<LitType> {
    match c {
        Code::Literal(LitType::Random) => Some(LitType::Random),
        Code::Literal(LitType::Interactive) => Some(LitType::Interactive),
        _ => None,
    }
}

impl Code {
    /// Whether this instruction may alter the tape or the cursor, and so
    /// whether a trace should show the tape again after it.
    pub fn changes_arr(&self) -> (r: bool)
        ensures
            r == alters_tape_or_cursor(*self),
    {
        match self {
            Code::MoveForward => true,
            Code::MoveBackward => true,
            Code::Nand => true,
            Code::Copy => true,
            Code::Swap => true,
            Code::Literal(_) => true,
            Code::Delete => true,
            Code::Branch => false,
            Code::FlipDirection => false,
            Code::JumpBack => false,
            Code::LoopOpen => false,
        }
    }

    /// The tag of a literal instruction whose value must come from outside
    /// the machine (a random or an interactive literal).
    pub fn outside_literal(&self) -> (r: Option<LitType>)
        ensures
            r == outside_tag(*self),
    {
        match self {
            Code::Literal(LitType::Random) => Some(LitType::Random),
            Code::Literal(LitType::Interactive) => Some(LitType::Interactive),
            _ => None,
        }
    }
}

} // verus!
