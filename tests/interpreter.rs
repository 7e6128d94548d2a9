use nand_machine::{
    answer_of, evaluate, parse, random_literal, read_answer, Code, Config, ErrorKind, EvalError,
    LitType, Machine, RunStatus, SyntaxError,
};

const PLAIN: Config = Config { random_literals: true, directional: false, seeded_tape: false };
const BASIC: Config = Config { random_literals: false, directional: false, seeded_tape: false };
const DIRECTIONAL: Config = Config { random_literals: true, directional: true, seeded_tape: true };

fn run(src: &str, cfg: &Config, fuel: u64) -> (Machine, RunStatus) {
    let prog = parse(src, cfg).expect("program should parse");
    evaluate(&prog, cfg, fuel)
}

#[test]
fn single_zero_literal_gives_false_cell() {
    let (m, st) = run("I0", &PLAIN, 10);
    assert_eq!(st, RunStatus::Halted);
    assert_eq!(m.tape, vec![false]);
    assert_eq!(m.cursor, 0);
}

#[test]
fn single_one_literal_gives_true_cell() {
    let (m, st) = run("I1", &BASIC, 10);
    assert_eq!(st, RunStatus::Halted);
    assert_eq!(m.tape, vec![true]);
}

#[test]
fn nand_truth_table() {
    let cases = [("I0I0N", true), ("I0I1N", true), ("I1I0N", true), ("I1I1N", false)];
    for (src, expected) in cases {
        let (m, st) = run(src, &PLAIN, 10);
        assert_eq!(st, RunStatus::Halted, "{}", src);
        assert_eq!(m.tape, vec![expected], "{}", src);
    }
}

#[test]
fn lone_jump_back_is_unbalanced() {
    let (_, st) = run("]", &PLAIN, 10);
    assert_eq!(
        st,
        RunStatus::Failed(EvalError { kind: ErrorKind::UnbalancedBracket, index: 0 })
    );
}

#[test]
fn lone_move_backward_is_out_of_bounds() {
    let (_, st) = run("-", &PLAIN, 10);
    assert_eq!(st, RunStatus::Failed(EvalError { kind: ErrorKind::Bounds, index: 0 }));
}

#[test]
fn comments_are_transparent() {
    let plain = parse("++", &PLAIN).unwrap();
    assert_eq!(plain, vec![Code::MoveForward, Code::MoveForward]);
    for x in ['x', ' ', '\n', 'F', 'E', '0', 'R', 'é'] {
        let src = format!("+{}+", x);
        assert_eq!(parse(&src, &PLAIN).unwrap(), plain, "{:?}", x);
    }
}

#[test]
fn comment_shifts_syntax_error_position() {
    assert_eq!(parse("+I", &PLAIN), Err(SyntaxError { position: 2 }));
    assert_eq!(parse("+xI", &PLAIN), Err(SyntaxError { position: 3 }));
}

#[test]
fn branch_on_true_skips_exactly_one_instruction() {
    let (m, st) = run("I1BI0I1", &PLAIN, 10);
    assert_eq!(st, RunStatus::Halted);
    assert_eq!(m.tape, vec![true, true]);
}

#[test]
fn branch_on_false_skips_nothing() {
    let (m, st) = run("I0BI0I1", &PLAIN, 10);
    assert_eq!(st, RunStatus::Halted);
    assert_eq!(m.tape, vec![true, false, false]);
}

#[test]
fn unchanging_loop_runs_out_of_fuel() {
    for fuel in [0u64, 1, 2, 3, 10, 1000, 12345] {
        let (m, st) = run("I0[B]", &PLAIN, fuel);
        if fuel >= 1 {
            assert_eq!(m.tape, vec![false]);
        }
        assert_eq!(st, RunStatus::OutOfFuel, "fuel {}", fuel);
    }
    let (_, st) = run("[]", &PLAIN, 5000);
    assert_eq!(st, RunStatus::OutOfFuel);
}

#[test]
fn loop_exits_when_branch_cell_is_true() {
    let (m, st) = run("I1[B]", &PLAIN, 100);
    assert_eq!(st, RunStatus::Halted);
    assert_eq!(m.tape, vec![true]);
    assert_eq!(m.pc, 4);
}

#[test]
fn jump_back_skips_nested_pairs() {
    // I0 [ I1 [ B ] D ] : the last ] pairs with the first [.
    let (m, st) = run("I0[I1[B]D]", &PLAIN, 7);
    assert_eq!(st, RunStatus::OutOfFuel);
    assert_eq!(m.pc, 2);
    assert_eq!(m.tape, vec![false]);
}

#[test]
fn literal_without_tag_is_a_syntax_error() {
    assert_eq!(parse("I", &PLAIN), Err(SyntaxError { position: 1 }));
    assert_eq!(parse("++IX", &PLAIN), Err(SyntaxError { position: 3 }));
    assert_eq!(parse("I I0", &PLAIN), Err(SyntaxError { position: 1 }));
}

#[test]
fn random_tag_depends_on_dialect() {
    assert_eq!(parse("IR", &PLAIN).unwrap(), vec![Code::Literal(LitType::Random)]);
    assert_eq!(parse("+IR", &BASIC), Err(SyntaxError { position: 2 }));
    assert_eq!(parse("IU", &BASIC).unwrap(), vec![Code::Literal(LitType::Interactive)]);
}

#[test]
fn flip_is_a_comment_unless_directional() {
    assert_eq!(parse("F+", &PLAIN).unwrap(), vec![Code::MoveForward]);
    assert_eq!(
        parse("F+", &DIRECTIONAL).unwrap(),
        vec![Code::FlipDirection, Code::MoveForward]
    );
}

#[test]
fn full_symbol_table() {
    let prog = parse("+-NCSI0I1IRIUDBF][", &DIRECTIONAL).unwrap();
    assert_eq!(
        prog,
        vec![
            Code::MoveForward,
            Code::MoveBackward,
            Code::Nand,
            Code::Copy,
            Code::Swap,
            Code::Literal(LitType::Zero),
            Code::Literal(LitType::One),
            Code::Literal(LitType::Random),
            Code::Literal(LitType::Interactive),
            Code::Delete,
            Code::Branch,
            Code::FlipDirection,
            Code::JumpBack,
            Code::LoopOpen,
        ]
    );
    assert_eq!(parse("", &PLAIN).unwrap(), vec![]);
    assert_eq!(parse("hello world", &PLAIN).unwrap(), vec![]);
}

#[test]
fn seeded_tape_starts_with_false_cell() {
    let (m, st) = run("", &DIRECTIONAL, 10);
    assert_eq!(st, RunStatus::Halted);
    assert_eq!(m.tape, vec![false]);
    assert!(m.forward);
}

#[test]
fn flipped_moves_go_the_other_way() {
    let (_, st) = run("F+", &DIRECTIONAL, 10);
    assert_eq!(st, RunStatus::Failed(EvalError { kind: ErrorKind::Bounds, index: 1 }));
    let (m, st) = run("F-", &DIRECTIONAL, 10);
    assert_eq!(st, RunStatus::Halted);
    assert_eq!(m.cursor, 1);
    assert!(!m.forward);
}

#[test]
fn flipped_literal_inserts_after_cursor() {
    let (m, st) = run("FI1", &DIRECTIONAL, 10);
    assert_eq!(st, RunStatus::Halted);
    assert_eq!(m.tape, vec![false, true]);
    assert_eq!(m.cursor, 1);
}

#[test]
fn flipped_nand_uses_cell_behind() {
    // tape [1, 0, 0] with the cursor on the last cell, then NAND leftwards.
    let (m, st) = run("I1F-I0N", &DIRECTIONAL, 10);
    assert_eq!(st, RunStatus::Halted);
    assert_eq!(m.tape, vec![true, true]);
    assert_eq!(m.cursor, 1);
}

#[test]
fn flipped_copy_and_delete_move_cursor() {
    let (m, st) = run("I1FC", &DIRECTIONAL, 10);
    assert_eq!(st, RunStatus::Halted);
    assert_eq!(m.tape, vec![true, true, false]);
    assert_eq!(m.cursor, 1);
    let (m, st) = run("I1+FD", &DIRECTIONAL, 10);
    assert_eq!(st, RunStatus::Halted);
    assert_eq!(m.tape, vec![true]);
    assert_eq!(m.cursor, 0);
    let (_, st) = run("FD", &DIRECTIONAL, 10);
    assert_eq!(st, RunStatus::Failed(EvalError { kind: ErrorKind::Bounds, index: 1 }));
}

#[test]
fn flipped_swap_uses_cell_behind() {
    let (m, st) = run("I1+FS", &DIRECTIONAL, 10);
    assert_eq!(st, RunStatus::Halted);
    assert_eq!(m.tape, vec![false, true]);
}

#[test]
fn copy_swap_delete() {
    let (m, _) = run("I1C", &PLAIN, 10);
    assert_eq!(m.tape, vec![true, true]);
    let (m, _) = run("I1I0S", &PLAIN, 10);
    assert_eq!(m.tape, vec![true, false]);
    let (m, _) = run("I1I0D", &PLAIN, 10);
    assert_eq!(m.tape, vec![true]);
}

#[test]
fn bounds_errors_report_instruction_index() {
    let bounds = |index| RunStatus::Failed(EvalError { kind: ErrorKind::Bounds, index });
    assert_eq!(run("D", &PLAIN, 10).1, bounds(0));
    assert_eq!(run("C", &PLAIN, 10).1, bounds(0));
    assert_eq!(run("B", &PLAIN, 10).1, bounds(0));
    assert_eq!(run("I1S", &PLAIN, 10).1, bounds(1));
    assert_eq!(run("I1N", &PLAIN, 10).1, bounds(1));
    assert_eq!(run("++I1", &PLAIN, 10).1, bounds(2));
}

#[test]
fn moving_past_the_end_is_checked_lazily() {
    let (m, st) = run("+++--", &PLAIN, 10);
    assert_eq!(st, RunStatus::Halted);
    assert_eq!(m.cursor, 1);
    let (m, st) = run("I0+I1", &PLAIN, 10);
    assert_eq!(st, RunStatus::Halted);
    assert_eq!(m.tape, vec![false, true]);
}

#[test]
fn outside_literals_are_requested() {
    let prog = parse("I1IUI0", &PLAIN).unwrap();
    let mut m = Machine::new(&PLAIN);
    assert_eq!(m.run(&prog, 10), RunStatus::NeedsLiteral(LitType::Interactive));
    assert_eq!(m.pc, 1);
    assert_eq!(m.literal_request(&prog), Some(LitType::Interactive));
    assert_eq!(m.step(&prog, false), Ok(()));
    assert_eq!(m.literal_request(&prog), None);
    assert_eq!(m.run(&prog, 10), RunStatus::Halted);
    assert!(m.is_halted(&prog));
    assert_eq!(m.tape, vec![false, false, true]);
}

#[test]
fn failed_step_leaves_machine_unchanged() {
    let prog = parse("I1I1+N", &PLAIN).unwrap();
    let mut m = Machine::new(&PLAIN);
    assert_eq!(m.run(&prog, 3), RunStatus::OutOfFuel);
    assert_eq!(
        m.step(&prog, false),
        Err(EvalError { kind: ErrorKind::Bounds, index: 3 })
    );
    assert_eq!(m.tape, vec![true, true]);
    assert_eq!(m.cursor, 1);
    assert_eq!(m.pc, 3);
}

#[test]
fn random_literal_parity_table() {
    let expected = [false, true, false, true, true, false, false, true, false, true];
    for (r, want) in expected.iter().enumerate() {
        assert_eq!(random_literal(r as u128), *want, "{}", r);
        assert_eq!(random_literal(1000 + r as u128), *want, "{}", r);
    }
    assert!(random_literal(u128::MAX - 1)); // ends in 4
}

#[test]
fn answers_are_trimmed_and_exact() {
    assert_eq!(read_answer(" 1\n"), Some(true));
    assert_eq!(read_answer("0\r\n"), Some(false));
    assert_eq!(read_answer("\t0  "), Some(false));
    assert_eq!(read_answer("01"), None);
    assert_eq!(read_answer(""), None);
    assert_eq!(read_answer("yes"), None);
    assert_eq!(answer_of("1"), Some(true));
    assert_eq!(answer_of(" 1"), None);
}

#[test]
fn changes_arr_marks_tape_and_cursor_instructions() {
    for c in [
        Code::MoveForward,
        Code::MoveBackward,
        Code::Nand,
        Code::Copy,
        Code::Swap,
        Code::Literal(LitType::Random),
        Code::Delete,
    ] {
        assert!(c.changes_arr(), "{:?}", c);
    }
    for c in [Code::Branch, Code::FlipDirection, Code::JumpBack, Code::LoopOpen] {
        assert!(!c.changes_arr(), "{:?}", c);
    }
    assert_eq!(Code::Literal(LitType::Random).outside_literal(), Some(LitType::Random));
    assert_eq!(Code::Literal(LitType::One).outside_literal(), None);
}
