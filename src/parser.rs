//! Reading a move typed as four digits: file and row of the start, then of the
//! destination.
use vstd::prelude::*;

use crate::text::{trim_str, trimmed};

verus! {

/// The text is not four digits.
#[derive(Debug, Clone, Copy, PartialEq, Eq, Structural)]
pub struct ParseErr;

/// `s` with every space taken out.
pub open spec fn without_spaces(s: Seq<char>) -> Seq<char>
    decreases s.len(),
{
    if s.len() == 0 {
        s
    } else if s.last() == ' ' {
        without_spaces(s.drop_last())
    } else {
        without_spaces(s.drop_last()).push(s.last())
    }
}

pub open spec fn is_digit(c: char) -> bool {
    '0' <= c <= '9'
}

/// The value of a decimal digit character.
pub open spec fn digit_value(c: char) -> int {
    c as int - '0' as int
}

/// `w` is four decimal digits.
pub open spec fn four_digits(w: Seq<char>) -> bool {
    w.len() == 4 && forall|i: int| 0 <= i < 4 ==> is_digit(#[trigger] w[i])
}

/// `r` is the outcome of reading the characters `w`: the digits two by two where
/// `w` is four digits, an error otherwise.
pub open spec fn read_as_coords(w: Seq<char>, r: Result<[[usize; 2]; 2], ParseErr>) -> bool {
    match r {
        Ok(c) => four_digits(w) && c[0][0] == digit_value(w[0]) && c[0][1] == digit_value(w[1])
            && c[1][0] == digit_value(w[2]) && c[1][1] == digit_value(w[3]),
        Err(_) => !four_digits(w),
    }
}

/// The value of `c` as a decimal digit, if it is one.
fn to_digit(c: char) -> (r: Option<usize>)
    ensures
        r == (if is_digit(c) {
            Some(digit_value(c) as usize)
        } else {
            None
        }),
{
    if '0' <= c && c <= '9' {
        Some((c as u32 - 48) as usize)
    } else {
        None
    }
}

/// Reads `text`, spaces ignored, as four digits `[[a, b], [c, d]]`.
pub fn parse_coords(text: &str) -> (r: Result<[[usize; 2]; 2], ParseErr>)
    ensures
        read_as_coords(without_spaces(text@), r),
{
    let n = text.unicode_len();
    let mut w: Vec<char> = Vec::new();
    let mut i: usize = 0;
    while i < n
        invariant
            n == text@.len(),
            i <= n,
            w@ == without_spaces(text@.take(i as int)),
        decreases n - i,
    {
        let c = text.get_char(i);
        assert(text@.take(i + 1).drop_last() =~= text@.take(i as int));
        if c != ' ' {
            w.push(c);
        }
        i = i + 1;
    }
    assert(text@.take(n as int) =~= text@);
    if w.len() != 4 {
        return Err(ParseErr);
    }
    match (to_digit(w[0]), to_digit(w[1]), to_digit(w[2]), to_digit(w[3])) {
        (Some(a), Some(b), Some(c), Some(d)) => Ok([[a, b], [c, d]]),
        _ => Err(ParseErr),
    }
}

/// Reads a typed move: `usr` trimmed, then read by `parse_coords`.
pub fn convert_to_coords(usr: &str) -> (r: Result<[[usize; 2]; 2], ParseErr>)
    ensures
        read_as_coords(without_spaces(trimmed(usr@)), r),
{
    parse_coords(trim_str(usr))
}

} // verus!
