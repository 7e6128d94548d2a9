//! Properties of whole runs, proved from the step semantics.
use vstd::prelude::*;

use crate::machine::{initial, nand, run_spec, step_spec, RunStatus, State};
use crate::program::{alters_tape_or_cursor, Code, Config, LitType};

verus! {

/// The constant literal tag that injects `b`.
pub open spec fn tag_for(b: bool) -> LitType {
    if b { LitType::One } else { LitType::Zero }
}

/// A program of a single constant literal, run on an empty tape, halts with
/// a one-cell tape holding the literal's value.
pub proof fn lemma_single_literal(cfg: Config, b: bool, fuel: nat)
    requires
        !cfg.seeded_tape,
        fuel >= 1,
    ensures
        run_spec(initial(cfg), seq![Code::Literal(tag_for(b))], fuel) == (
            State { tape: seq![b], cursor: 0, forward: true, pc: 1 },
            RunStatus::Halted,
        ),
{
    let prog = seq![Code::Literal(tag_for(b))];
    let s1 = step_spec(initial(cfg), prog, false)->Ok_0;
    assert(s1.tape =~= seq![b]);
    assert(run_spec(s1, prog, (fuel - 1) as nat) == (s1, RunStatus::Halted));
}

/// The NAND truth table: two constant literals followed by `N`, run on an
/// empty tape, halt with one cell holding the NAND of the two values.
pub proof fn lemma_nand_truth_table(cfg: Config, a: bool, b: bool, fuel: nat)
    requires
        !cfg.seeded_tape,
        fuel >= 3,
    ensures
        run_spec(
            initial(cfg),
            seq![Code::Literal(tag_for(a)), Code::Literal(tag_for(b)), Code::Nand],
            fuel,
        ) == (State { tape: seq![nand(a, b)], cursor: 0, forward: true, pc: 3 }, RunStatus::Halted),
{
    let prog = seq![Code::Literal(tag_for(a)), Code::Literal(tag_for(b)), Code::Nand];
    let s1 = step_spec(initial(cfg), prog, false)->Ok_0;
    assert(s1.tape =~= seq![a]);
    let s2 = step_spec(s1, prog, false)->Ok_0;
    assert(s2.tape =~= seq![b, a]);
    let s3 = step_spec(s2, prog, false)->Ok_0;
    assert(s3.tape =~= seq![nand(a, b)]);
    assert(run_spec(s3, prog, (fuel - 3) as nat) == (s3, RunStatus::Halted));
    assert(run_spec(s2, prog, (fuel - 2) as nat) == run_spec(s3, prog, (fuel - 3) as nat));
    assert(run_spec(s1, prog, (fuel - 1) as nat) == run_spec(s2, prog, (fuel - 2) as nat));
}

/// A branch on a `true` cell skips exactly the next instruction: after a
/// `true` literal and `B`, control stands at the second of the two
/// instructions that follow, with the tape as the literal left it.
pub proof fn lemma_branch_skips(cfg: Config, x: Code, y: Code)
    ensures
        run_spec(initial(cfg), seq![Code::Literal(LitType::One), Code::Branch, x, y], 2).0 == (State {
            tape: initial(cfg).tape.insert(0, true),
            cursor: 0,
            forward: true,
            pc: 3,
        }),
{
    let prog = seq![Code::Literal(LitType::One), Code::Branch, x, y];
    let s1 = step_spec(initial(cfg), prog, false)->Ok_0;
    let s2 = step_spec(s1, prog, false)->Ok_0;
    assert(s1.tape[0]);
    assert(run_spec(s1, prog, 1) == run_spec(s2, prog, 0));
}

/// Running `a` steps and then `b` more is running `a + b` steps, when the
/// first run only stopped for want of fuel.
proof fn lemma_run_split(s: State, prog: Seq<Code>, a: nat, b: nat)
    requires
        run_spec(s, prog, a).1 == RunStatus::OutOfFuel,
    ensures
        run_spec(s, prog, a + b) == run_spec(run_spec(s, prog, a).0, prog, b),
    decreases a,
{
    if a > 0 {
        let s2 = step_spec(s, prog, false)->Ok_0;
        lemma_run_split(s2, prog, (a - 1) as nat, b);
        assert((a + b - 1) as nat == (a - 1) as nat + b);
    }
}

/// A run that lasts `k` steps without stopping also lasts any fewer.
proof fn lemma_run_prefix(s: State, prog: Seq<Code>, k: nat, f: nat)
    requires
        f <= k,
        run_spec(s, prog, k).1 == RunStatus::OutOfFuel,
    ensures
        run_spec(s, prog, f).1 == RunStatus::OutOfFuel,
    decreases f,
{
    if f > 0 {
        let s2 = step_spec(s, prog, false)->Ok_0;
        lemma_run_prefix(s2, prog, (k - 1) as nat, (f - 1) as nat);
    }
}

/// A loop that comes back to the state it started from never ends: if `k`
/// steps lead from `s` back to `s`, every step budget runs out.
pub proof fn lemma_cycle_never_halts(s: State, prog: Seq<Code>, k: nat, fuel: nat)
    requires
        k >= 1,
        run_spec(s, prog, k) == (s, RunStatus::OutOfFuel),
    ensures
        run_spec(s, prog, fuel).1 == RunStatus::OutOfFuel,
    decreases fuel,
{
    if fuel <= k {
        lemma_run_prefix(s, prog, k, fuel);
    } else {
        lemma_run_split(s, prog, k, (fuel - k) as nat);
        lemma_cycle_never_halts(s, prog, k, (fuel - k) as nat);
    }
}

/// An instruction that `Code::changes_arr` reports as not altering the tape
/// or the cursor leaves both as they were.
pub proof fn lemma_unaltered_tape(s: State, prog: Seq<Code>, supplied: bool)
    requires
        s.pc < prog.len(),
        !alters_tape_or_cursor(prog[s.pc as int]),
        step_spec(s, prog, supplied) is Ok,
    ensures
        step_spec(s, prog, supplied)->Ok_0.tape == s.tape,
        step_spec(s, prog, supplied)->Ok_0.cursor == s.cursor,
{
}

} // verus!
