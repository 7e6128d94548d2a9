//! Source text to program: one left-to-right pass over the characters.
use vstd::prelude::*;

use crate::program::{Code, Config, LitType};

verus! {

/// A literal symbol `I` that is not followed by a tag character; `position`
/// is the index, in characters, where the tag was expected.
#[derive(Clone, Copy, Debug, PartialEq, Eq, Structural)]
pub struct SyntaxError {
    pub position: usize,
}

/// The instruction a single character stands for, other than the literal
/// symbol `I`; `None` for a comment character.
pub open spec fn symbol_spec(ch: char, cfg: Config) -> Option<Code> {
    if ch == '+' {
        Some(Code::MoveForward)
    } else if ch == '-' {
        Some(Code::MoveBackward)
    } else if ch == 'N' {
        Some(Code::Nand)
    } else if ch == 'C' {
        Some(Code::Copy)
    } else if ch == 'S' {
        Some(Code::Swap)
    } else if ch == 'D' {
        Some(Code::Delete)
    } else if ch == 'B' {
        Some(Code::Branch)
    } else if ch == 'F' && cfg.directional {
        Some(Code::FlipDirection)
    } else if ch == ']' {
        Some(Code::JumpBack)
    } else if ch == '[' {
        Some(Code::LoopOpen)
    } else {
        None
    }
}

/// The literal tag a character stands for after `I`.
pub open spec fn tag_spec(ch: char, cfg: Config) -> Option<LitType> {
    if ch == '0' {
        Some(LitType::Zero)
    } else if ch == '1' {
        Some(LitType::One)
    } else if ch == 'R' && cfg.random_literals {
        Some(LitType::Random)
    } else if ch == 'U' {
        Some(LitType::Interactive)
    } else {
        None
    }
}

/// A character that the parser skips.
pub open spec fn is_comment(ch: char, cfg: Config) -> bool {
    ch != 'I' && symbol_spec(ch, cfg) is None
}

/// The parser's state after reading `s`: the instructions so far and whether
/// a tag is awaited, or the position of a missing tag.
pub open spec fn scan(s: Seq<char>, cfg: Config) -> Result<(Seq<Code>, bool), int>
    decreases s.len(),
{
    if s.len() == 0 {
        Ok((seq![], false))
    } else {
        let i = s.len() - 1;
        let ch = s[i];
        match scan(s.drop_last(), cfg) {
            Err(p) => Err(p),
            Ok((prog, awaiting)) => if awaiting {
                match tag_spec(ch, cfg) {
                    Some(tag) => Ok((prog.push(Code::Literal(tag)), false)),
                    None => Err(i),
                }
            } else if ch == 'I' {
                Ok((prog, true))
            } else {
                match symbol_spec(ch, cfg) {
                    Some(c) => Ok((prog.push(c), false)),
                    None => Ok((prog, false)),
                }
            },
        }
    }
}

/// The program that `s` denotes, or the position of a missing tag.
pub open spec fn parse_spec(s: Seq<char>, cfg: Config) -> Result<Seq<Code>, int> {
    match scan(s, cfg) {
        Err(p) => Err(p),
        Ok((prog, awaiting)) => if awaiting { Err(s.len() as int) } else { Ok(prog) },
    }
}

/// Once the scan has failed, reading more characters keeps the failure.
proof fn lemma_scan_error_persists(s: Seq<char>, k: int, cfg: Config)
    requires
        0 <= k <= s.len(),
        scan(s.take(k), cfg) is Err,
    ensures
        scan(s, cfg) == scan(s.take(k), cfg),
    decreases s.len(),
{
    if k == s.len() {
        assert(s.take(k) =~= s);
    } else {
        assert(s.drop_last().take(k) =~= s.take(k));
        lemma_scan_error_persists(s.drop_last(), k, cfg);
    }
}

/// A scan outcome with any error position moved one place on.
pub open spec fn scan_shifted(r: Result<(Seq<Code>, bool), int>) -> Result<(Seq<Code>, bool), int> {
    match r {
        Ok(v) => Ok(v),
        Err(p) => Err(p + 1),
    }
}

proof fn lemma_scan_comment(s: Seq<char>, x: char, t: Seq<char>, cfg: Config)
    requires
        is_comment(x, cfg),
        scan(s, cfg) is Ok,
        !scan(s, cfg)->Ok_0.1,
    ensures
        scan(s.push(x) + t, cfg) == scan_shifted(scan(s + t, cfg)),
    decreases t.len(),
{
    if t.len() == 0 {
        assert(s.push(x) + t =~= s.push(x));
        assert(s + t =~= s);
        assert(s.push(x).drop_last() =~= s);
    } else {
        lemma_scan_comment(s, x, t.drop_last(), cfg);
        assert((s.push(x) + t).drop_last() =~= s.push(x) + t.drop_last());
        assert((s + t).drop_last() =~= s + t.drop_last());
        assert((s.push(x) + t).last() == t.last());
        assert((s + t).last() == t.last());
    }
}

/// Comments are transparent: a character that is no symbol, inserted where no
/// literal tag is awaited, leaves the parsed program as it was; a syntax error
/// is reported one place further on.
pub proof fn lemma_comment_transparent(s: Seq<char>, x: char, t: Seq<char>, cfg: Config)
    requires
        is_comment(x, cfg),
        scan(s, cfg) is Ok,
        !scan(s, cfg)->Ok_0.1,
    ensures
        parse_spec(s.push(x) + t, cfg) == match parse_spec(s + t, cfg) {
            Ok(prog) => Ok(prog),
            Err(p) => Err::<Seq<Code>, int>(p + 1),
        },
{
    lemma_scan_comment(s, x, t, cfg);
}

fn symbol(ch: char, cfg: &Config) -> (r: Option<Code>)
    ensures
        r == symbol_spec(ch, *cfg),
{
    match ch {
        '+' => Some(Code::MoveForward),
        '-' => Some(Code::MoveBackward),
        'N' => Some(Code::Nand),
        'C' => Some(Code::Copy),
        'S' => Some(Code::Swap),
        'D' => Some(Code::Delete),
        'B' => Some(Code::Branch),
        'F' => if cfg.directional { Some(Code::FlipDirection) } else { None },
        ']' => Some(Code::JumpBack),
        '[' => Some(Code::LoopOpen),
        _ => None,
    }
}

fn tag(ch: char, cfg: &Config) -> (r: Option<LitType>)
    ensures
        r == tag_spec(ch, *cfg),
{
    match ch {
        '0' => Some(LitType::Zero),
        '1' => Some(LitType::One),
        'R' => if cfg.random_literals { Some(LitType::Random) } else { None },
        'U' => Some(LitType::Interactive),
        _ => None,
    }
}

/// Turns source text into a program. Characters that are not symbols
/// are comments; `I` must be followed by a tag character.
pub fn parse(s: &str, cfg: &Config) -> (r: Result<Vec<Code>, SyntaxError>)
    ensures
        match parse_spec(s@, *cfg) {
            Ok(prog) => r is Ok && r->Ok_0@ == prog,
            Err(p) => r == Err::<Vec<Code>, SyntaxError>(SyntaxError { position: p as usize }),
        },
{
    let len = s.unicode_len();
    let mut prog: Vec<Code> = Vec::new();
    let mut awaiting = false;
    let mut i: usize = 0;
    for ch in it: s.chars()
        invariant
            len == s@.len(),
            it.seq() == s@,
            i == it.index(),
            i <= len,
            scan(s@.take(i as int), *cfg) == Ok::<(Seq<Code>, bool), int>((prog@, awaiting)),
    {
        assert(ch == s@[i as int]);
        assert(s@.take(i + 1).drop_last() =~= s@.take(i as int));
        if awaiting {
            match tag(ch, cfg) {
                Some(t) => {
                    prog.push(Code::Literal(t));
                    awaiting = false;
                },
                None => {
                    proof {
                        lemma_scan_error_persists(s@, i + 1, *cfg);
                    }
                    return Err(SyntaxError { position: i });
                },
            }
        } else if ch == 'I' {
            awaiting = true;
        } else {
            match symbol(ch, cfg) {
                Some(c) => {
                    prog.push(c);
                },
                None => {},
            }
        }
        i = i + 1;
    }
    assert(s@.take(len as int) =~= s@);
    if awaiting {
        Err(SyntaxError { position: len })
    } else {
        Ok(prog)
    }
}

} // verus!
