//! The evaluator: a program counter, a direction polarity and a tape of
//! boolean cells under a cursor.
use vstd::prelude::*;

use crate::program::{outside_tag, Code, Config, LitType};

verus! {

/// The kind of a run-time failure.
#[derive(Clone, Copy, Debug, PartialEq, Eq, Structural)]
pub enum ErrorKind {
    /// The cursor would move below zero (or above `usize::MAX`), or an
    /// instruction addresses a cell or a neighbour that does not exist.
    Bounds,
    /// A `]` found no matching `[` before the start of the program.
    UnbalancedBracket,
    /// The input ended before a valid interactive answer was given; raised
    /// by the caller that supplies interactive literals.
    Input,
}

/// A run-time failure and the index of the instruction where it happened.
#[derive(Clone, Copy, Debug, PartialEq, Eq, Structural)]
pub struct EvalError {
    pub kind: ErrorKind,
    pub index: usize,
}

/// How a bounded run ended.
#[derive(Clone, Copy, Debug, PartialEq, Eq, Structural)]
pub enum RunStatus {
    /// The program counter went past the last instruction.
    Halted,
    /// An instruction failed; the machine is left as it was before it.
    Failed(EvalError),
    /// The next instruction is a literal whose value must be supplied from
    /// outside (see [`Machine::step`]).
    NeedsLiteral(LitType),
    /// The step budget ran out before the program halted.
    OutOfFuel,
}

/// The abstract state of a machine.
pub struct State {
    pub tape: Seq<bool>,
    pub cursor: nat,
    /// `true` while "forward" means towards higher indices.
    pub forward: bool,
    pub pc: nat,
}

/// A running program's machine.
pub struct Machine {
    pub tape: Vec<bool>,
    pub cursor: usize,
    pub forward: bool,
    pub pc: usize,
}

impl View for Machine {
    type V = State;

    open spec fn view(&self) -> State {
        State { tape: self.tape@, cursor: self.cursor as nat, forward: self.forward, pc: self.pc as nat }
    }
}

/// The state in which every run under `cfg` starts.
pub open spec fn initial(cfg: Config) -> State {
    State {
        tape: if cfg.seeded_tape { seq![false] } else { seq![] },
        cursor: 0,
        forward: true,
        pc: 0,
    }
}

pub open spec fn nand(a: bool, b: bool) -> bool {
    !(a && b)
}

/// Cells `k` and `k + 1` replaced by one cell holding their NAND.
pub open spec fn nand_at(t: Seq<bool>, k: int) -> Seq<bool> {
    t.subrange(0, k).push(nand(t[k], t[k + 1])) + t.subrange(k + 2, t.len() as int)
}

/// Cells `k` and `k + 1` exchanged.
pub open spec fn swap_at(t: Seq<bool>, k: int) -> Seq<bool> {
    t.update(k, t[k + 1]).update(k + 1, t[k])
}

/// The value a literal with tag `tag` injects, where `supplied` is the value
/// given from outside for a random or interactive literal.
pub open spec fn literal_value(tag: LitType, supplied: bool) -> bool {
    match tag {
        LitType::Zero => false,
        LitType::One => true,
        _ => supplied,
    }
}

/// The backward bracket scan over the instructions before `j`, at nesting
/// depth `depth`: the index of the `[` at which the depth reaches zero.
pub open spec fn find_open(prog: Seq<Code>, j: int, depth: nat) -> Option<int>
    decreases j,
{
    if j <= 0 {
        None
    } else {
        match prog[j - 1] {
            Code::JumpBack => find_open(prog, j - 1, depth + 1),
            Code::LoopOpen => if depth <= 1 {
                Some(j - 1)
            } else {
                find_open(prog, j - 1, (depth - 1) as nat)
            },
            _ => find_open(prog, j - 1, depth),
        }
    }
}

/// The counter after moving `k` instructions on from `pc`; every counter
/// past the end is `len`.
pub open spec fn advance(pc: nat, k: nat, len: nat) -> nat {
    if pc + k >= len { len } else { pc + k }
}

/// One step: the instruction at `s.pc` executed, or the kind of its failure.
pub open spec fn step_spec(s: State, prog: Seq<Code>, supplied: bool) -> Result<State, ErrorKind> {
    let t = s.tape;
    let c = s.cursor;
    let n = t.len();
    let next = advance(s.pc, 1, prog.len());
    match prog[s.pc as int] {
        Code::MoveForward => if s.forward {
            if c + 1 > usize::MAX { Err(ErrorKind::Bounds) } else { Ok(State { cursor: c + 1, pc: next, ..s }) }
        } else {
            if c == 0 { Err(ErrorKind::Bounds) } else { Ok(State { cursor: (c - 1) as nat, pc: next, ..s }) }
        },
        Code::MoveBackward => if s.forward {
            if c == 0 { Err(ErrorKind::Bounds) } else { Ok(State { cursor: (c - 1) as nat, pc: next, ..s }) }
        } else {
            if c + 1 > usize::MAX { Err(ErrorKind::Bounds) } else { Ok(State { cursor: c + 1, pc: next, ..s }) }
        },
        Code::Nand => if s.forward {
            if c + 1 < n { Ok(State { tape: nand_at(t, c as int), pc: next, ..s }) } else { Err(ErrorKind::Bounds) }
        } else {
            if 1 <= c < n {
                Ok(State { tape: nand_at(t, c - 1), cursor: (c - 1) as nat, pc: next, ..s })
            } else {
                Err(ErrorKind::Bounds)
            }
        },
        Code::Copy => if c < n {
            Ok(State {
                tape: t.insert(c as int, t[c as int]),
                cursor: if s.forward { c } else { c + 1 },
                pc: next,
                ..s
            })
        } else {
            Err(ErrorKind::Bounds)
        },
        Code::Swap => if s.forward {
            if c + 1 < n { Ok(State { tape: swap_at(t, c as int), pc: next, ..s }) } else { Err(ErrorKind::Bounds) }
        } else {
            if 1 <= c < n { Ok(State { tape: swap_at(t, c - 1), pc: next, ..s }) } else { Err(ErrorKind::Bounds) }
        },
        Code::Literal(tag) => if s.forward {
            if c <= n {
                Ok(State { tape: t.insert(c as int, literal_value(tag, supplied)), pc: next, ..s })
            } else {
                Err(ErrorKind::Bounds)
            }
        } else {
            if c < n {
                Ok(State { tape: t.insert((c + 1) as int, literal_value(tag, supplied)), cursor: c + 1, pc: next, ..s })
            } else {
                Err(ErrorKind::Bounds)
            }
        },
        Code::Delete => if s.forward {
            if c < n { Ok(State { tape: t.remove(c as int), pc: next, ..s }) } else { Err(ErrorKind::Bounds) }
        } else {
            if 1 <= c < n {
                Ok(State { tape: t.remove(c as int), cursor: (c - 1) as nat, pc: next, ..s })
            } else {
                Err(ErrorKind::Bounds)
            }
        },
        Code::Branch => if c < n {
            Ok(State { pc: if t[c as int] { advance(s.pc, 2, prog.len()) } else { next }, ..s })
        } else {
            Err(ErrorKind::Bounds)
        },
        Code::FlipDirection => Ok(State { forward: !s.forward, pc: next, ..s }),
        Code::JumpBack => match find_open(prog, s.pc as int, 1) {
            Some(j) => Ok(State { pc: (j + 1) as nat, ..s }),
            None => Err(ErrorKind::UnbalancedBracket),
        },
        Code::LoopOpen => Ok(State { pc: next, ..s }),
    }
}

/// A run of at most `fuel` steps from `s`, stopping early when the program
/// halts, an instruction fails, or the next instruction needs an outside
/// literal.
pub open spec fn run_spec(s: State, prog: Seq<Code>, fuel: nat) -> (State, RunStatus)
    decreases fuel,
{
    if s.pc >= prog.len() {
        (s, RunStatus::Halted)
    } else if outside_tag(prog[s.pc as int]) is Some {
        (s, RunStatus::NeedsLiteral(outside_tag(prog[s.pc as int])->0))
    } else if fuel == 0 {
        (s, RunStatus::OutOfFuel)
    } else {
        match step_spec(s, prog, false) {
            Ok(s2) => run_spec(s2, prog, (fuel - 1) as nat),
            Err(k) => (s, RunStatus::Failed(EvalError { kind: k, index: s.pc as usize })),
        }
    }
}

/// The backward bracket scan of a `]` at `pc`.
fn matching_open(prog: &Vec<Code>, pc: usize) -> (r: Option<usize>)
    requires
        pc < prog@.len(),
    ensures
        match find_open(prog@, pc as int, 1) {
            Some(j) => r == Some(j as usize) && 0 <= j < pc,
            None => r is None,
        },
{
    let len = prog.len();
    let mut j: usize = pc;
    let mut depth: usize = 1;
    while j > 0
        invariant
            j <= pc < prog@.len() == len,
            1 <= depth <= pc - j + 1,
            find_open(prog@, j as int, depth as nat) == find_open(prog@, pc as int, 1),
        decreases j,
    {
        j = j - 1;
        match prog[j] {
            Code::JumpBack => {
                depth = depth + 1;
            },
            Code::LoopOpen => {
                if depth == 1 {
                    return Some(j);
                }
                depth = depth - 1;
            },
            _ => {},
        }
    }
    None
}

impl Machine {
    /// A machine at the start of a run under `cfg`.
    pub fn new(cfg: &Config) -> (m: Machine)
        ensures
            m@ == initial(*cfg),
    {
        let mut tape: Vec<bool> = Vec::new();
        if cfg.seeded_tape {
            tape.push(false);
        }
        let m = Machine { tape, cursor: 0, forward: true, pc: 0 };
        assert(m@.tape =~= initial(*cfg).tape);
        m
    }

    /// Whether the program counter has gone past the last instruction.
    pub fn is_halted(&self, prog: &Vec<Code>) -> (r: bool)
        ensures
            r == (self.pc >= prog@.len()),
    {
        self.pc >= prog.len()
    }

    /// The tag of the next instruction, when it is a literal whose value must
    /// be supplied from outside.
    pub fn literal_request(&self, prog: &Vec<Code>) -> (r: Option<LitType>)
        ensures
            r == (if self.pc < prog@.len() { outside_tag(prog@[self.pc as int]) } else { None }),
    {
        if self.pc < prog.len() {
            prog[self.pc].outside_literal()
        } else {
            None
        }
    }

    /// Executes the instruction at the program counter. `supplied` is the
    /// value of a random or interactive literal; other instructions ignore it.
    /// On failure the machine is left unchanged.
    #[verifier::rlimit(60)]
    #[verifier::spinoff_prover]
    pub fn step(&mut self, prog: &Vec<Code>, supplied: bool) -> (r: Result<(), EvalError>)
        requires
            old(self).pc < prog@.len(),
        ensures
            match step_spec(old(self)@, prog@, supplied) {
                Ok(s) => r is Ok && final(self)@ == s,
                Err(k) => r == Err::<(), EvalError>(EvalError { kind: k, index: old(self).pc })
                    && final(self)@ == old(self)@,
            },
    {
        let len = prog.len();
        let pc = self.pc;
        let n = self.tape.len();
        let c = self.cursor;
        let ghost t = self.tape@;
        let next: usize = if pc + 1 >= len { len } else { pc + 1 };
        let bounds = EvalError { kind: ErrorKind::Bounds, index: pc };
        let mut new_pc = next;
        match prog[pc] {
            Code::MoveForward | Code::MoveBackward => {
                let up = if prog[pc] == Code::MoveForward { self.forward } else { !self.forward };
                if up {
                    if c == usize::MAX {
                        return Err(bounds);
                    }
                    self.cursor = c + 1;
                } else {
                    if c == 0 {
                        return Err(bounds);
                    }
                    self.cursor = c - 1;
                }
            },
            Code::Nand | Code::Swap => {
                if n == 0 || c >= n || (self.forward && c == n - 1) || (!self.forward && c == 0) {
                    return Err(bounds);
                }
                let k = if self.forward { c } else { c - 1 };
                if prog[pc] == Code::Nand {
                    let a = self.tape.remove(k);
                    let b = self.tape.remove(k);
                    self.tape.insert(k, !(a && b));
                    self.cursor = k;
                    assert(self.tape@ =~= nand_at(t, k as int));
                } else {
                    let a = self.tape[k];
                    let b = self.tape[k + 1];
                    self.tape.set(k, b);
                    self.tape.set(k + 1, a);
                    assert(self.tape@ =~= swap_at(t, k as int));
                }
            },
            Code::Copy => {
                if c >= n {
                    return Err(bounds);
                }
                let a = self.tape[c];
                self.tape.insert(c, a);
                if !self.forward {
                    self.cursor = c + 1;
                }
            },
            Code::Literal(tag) => {
                let v = match tag {
                    LitType::Zero => false,
                    LitType::One => true,
                    _ => supplied,
                };
                if self.forward {
                    if c > n {
                        return Err(bounds);
                    }
                    self.tape.insert(c, v);
                } else {
                    if c >= n {
                        return Err(bounds);
                    }
                    self.tape.insert(c + 1, v);
                    self.cursor = c + 1;
                }
            },
            Code::Delete => {
                if c >= n || (!self.forward && c == 0) {
                    return Err(bounds);
                }
                self.tape.remove(c);
                if !self.forward {
                    self.cursor = c - 1;
                }
            },
            Code::Branch => {
                if c >= n {
                    return Err(bounds);
                }
                if self.tape[c] {
                    new_pc = if next >= len { len } else { next + 1 };
                }
            },
            Code::FlipDirection => {
                self.forward = !self.forward;
            },
            Code::JumpBack => {
                match matching_open(prog, pc) {
                    Some(j) => {
                        new_pc = j + 1;
                    },
                    None => {
                        return Err(EvalError { kind: ErrorKind::UnbalancedBracket, index: pc });
                    },
                }
            },
            Code::LoopOpen => {},
        }
        self.pc = new_pc;
        Ok(())
    }

    /// Runs at most `fuel` steps, stopping early when the program halts, an
    /// instruction fails, or the next instruction is a literal whose value
    /// must be supplied from outside.
    pub fn run(&mut self, prog: &Vec<Code>, fuel: u64) -> (st: RunStatus)
        ensures
            (final(self)@, st) == run_spec(old(self)@, prog@, fuel as nat),
    {
        let ghost start = self@;
        let mut left: u64 = fuel;
        loop
            invariant
                start == old(self)@,
                run_spec(self@, prog@, left as nat) == run_spec(start, prog@, fuel as nat),
            decreases left,
        {
            if self.pc >= prog.len() {
                return RunStatus::Halted;
            }
            match prog[self.pc].outside_literal() {
                Some(tag) => {
                    return RunStatus::NeedsLiteral(tag);
                },
                None => {},
            }
            if left == 0 {
                return RunStatus::OutOfFuel;
            }
            match self.step(prog, false) {
                Ok(()) => {},
                Err(e) => {
                    return RunStatus::Failed(e);
                },
            }
            left = left - 1;
        }
    }
}

/// Runs `prog` under `cfg` from the initial state for at most `fuel` steps,
/// returning the machine as the run left it and how the run ended.
pub fn evaluate(prog: &Vec<Code>, cfg: &Config, fuel: u64) -> (r: (Machine, RunStatus))
    ensures
        (r.0@, r.1) == run_spec(initial(*cfg), prog@, fuel as nat),
{
    let mut m = Machine::new(cfg);
    let st = m.run(prog, fuel);
    (m, st)
}

} // verus!
