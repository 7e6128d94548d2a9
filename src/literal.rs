//! Values for the literals the machine cannot produce by itself: the
//! clock-derived random bit and the user's answer at a prompt.
use vstd::prelude::*;

verus! {

/// The random bit for a clock reading of `micros` elapsed microseconds: the
/// remainder modulo 10 read through a fixed table, true for 1, 3, 4, 7, 9.
pub open spec fn random_bit(micros: nat) -> bool {
    let r = micros % 10;
    r == 1 || r == 3 || r == 4 || r == 7 || r == 9
}

/// The value of a random literal, given the microseconds elapsed since the
/// run started.
pub fn random_literal(elapsed_micros: u128) -> (r: bool)
    ensures
        r == random_bit(elapsed_micros as nat),
{
    let rem = elapsed_micros % 10;
    rem == 1 || rem == 3 || rem == 4 || rem == 7 || rem == 9
}

/// What `str::trim` leaves of a line.
pub uninterp spec fn trimmed(s: Seq<char>) -> Seq<char>;

/// Relies on `str::trim`: the line without its leading and trailing
/// whitespace, a function of the line alone.
#[verifier::external_body]
fn trim(s: &str) -> (r: &str)
    ensures
        r@ == trimmed(s@),
{
    s.trim()
}

/// The answer a trimmed line gives: exactly `0` is `false`, exactly `1` is
/// `true`, anything else is no answer.
pub open spec fn answer_spec(t: Seq<char>) -> Option<bool> {
    if t.len() != 1 {
        None
    } else if t[0] == '0' {
        Some(false)
    } else if t[0] == '1' {
        Some(true)
    } else {
        None
    }
}

/// The answer an already trimmed line gives.
pub fn answer_of(t: &str) -> (r: Option<bool>)
    ensures
        r == answer_spec(t@),
{
    if t.unicode_len() != 1 {
        return None;
    }
    let ch = t.get_char(0);
    if ch == '0' {
        Some(false)
    } else if ch == '1' {
        Some(true)
    } else {
        None
    }
}

/// The answer a line read at the prompt gives, once surrounding whitespace
/// is removed.
pub fn read_answer(line: &str) -> (r: Option<bool>)
    ensures
        r == answer_spec(trimmed(line@)),
{
    answer_of(trim(line))
}

} // verus!
