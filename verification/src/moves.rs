//! The written form of one leg of a wire: a direction letter and a count,
//! such as `R98`.

use vstd::prelude::*;
use crate::text::chars_of;

verus! {

/// Where a leg of a wire heads. `Up` lowers `y` and `Down` raises it.
#[derive(Clone, Copy, Debug, PartialEq, Eq, Structural)]
pub enum Direction {
    Right,
    Left,
    Up,
    Down,
}

/// One leg of a wire.
#[derive(Clone, Copy, Debug, PartialEq, Eq, Structural)]
pub struct Move {
    pub direction: Direction,
    pub steps: usize,
}

/// The direction that a letter names.
pub open spec fn direction_of(c: char) -> Option<Direction> {
    if c == 'R' {
        Some(Direction::Right)
    } else if c == 'L' {
        Some(Direction::Left)
    } else if c == 'U' {
        Some(Direction::Up)
    } else if c == 'D' {
        Some(Direction::Down)
    } else {
        None
    }
}

/// Whether every character of `s` is one of `'0'` to `'9'`.
pub open spec fn all_digits(s: Seq<char>) -> bool {
    forall|i: int| 0 <= i < s.len() ==> '0' <= #[trigger] s[i] <= '9'
}

/// The number that the digits `s` write in decimal.
pub open spec fn digits_value(s: Seq<char>) -> nat
    decreases s.len(),
{
    if s.len() == 0 {
        0
    } else {
        (digits_value(s.drop_last()) * 10 + (s.last() as int - '0' as int)) as nat
    }
}

/// The digits of a written count: the text without the one plus sign that
/// may lead it.
pub open spec fn count_digits(s: Seq<char>) -> Seq<char> {
    if s.len() > 0 && s[0] == '+' {
        s.skip(1)
    } else {
        s
    }
}

/// The count that `s` writes: one or more digits, after an optional plus
/// sign, whose value fits a `usize`.
pub open spec fn spec_parse_count(s: Seq<char>) -> Option<usize> {
    let digits = count_digits(s);
    if digits.len() > 0 && all_digits(digits) && digits_value(digits) <= usize::MAX {
        Some(digits_value(digits) as usize)
    } else {
        None
    }
}

/// The leg that `s` writes: a direction letter, then a count.
pub open spec fn spec_parse_move(s: Seq<char>) -> Option<Move> {
    if s.len() == 0 {
        None
    } else {
        match (direction_of(s[0]), spec_parse_count(s.skip(1))) {
            (Some(direction), Some(steps)) => Some(Move { direction: direction, steps: steps }),
            _ => None,
        }
    }
}

/// Digits write a number that is at least the number that any of their
/// prefixes writes.
pub proof fn lemma_digits_value_grows(s: Seq<char>, n: int)
    requires
        all_digits(s),
        0 <= n <= s.len(),
    ensures
        digits_value(s.take(n)) <= digits_value(s),
    decreases s.len(),
{
    if n == s.len() {
        assert(s.take(n) =~= s);
    } else {
        assert(s.drop_last().take(n) =~= s.take(n));
        lemma_digits_value_grows(s.drop_last(), n);
    }
}

/// Reads a count from the characters of `chars` from position `from` on.
fn parse_count(chars: &[char], from: usize) -> (count: Option<usize>)
    requires
        from <= chars.len(),
    ensures
        count == spec_parse_count(chars@.skip(from as int)),
{
    let mut i: usize = from;
    if i < chars.len() && chars[i] == '+' {
        i = i + 1;
    }
    let start: usize = i;
    let ghost digits = count_digits(chars@.skip(from as int));
    assert(digits =~= chars@.skip(start as int));
    if i >= chars.len() {
        return None;
    }
    let mut value: usize = 0;
    while i < chars.len()
        invariant
            from <= start <= i <= chars.len(),
            digits == chars@.skip(start as int),
            digits == count_digits(chars@.skip(from as int)),
            all_digits(digits.take(i - start)),
            value == digits_value(digits.take(i - start)),
        decreases chars.len() - i,
    {
        let c: char = chars[i];
        let ghost seen = digits.take(i - start);
        let ghost next = digits.take(i - start + 1);
        proof {
            assert(next.drop_last() =~= seen);
            assert(next.last() == c);
            assert(digits[i - start] == c);
        }
        if !(c >= '0' && c <= '9') {
            assert(!all_digits(digits));
            return None;
        }
        let d: usize = (c as u8 - 48u8) as usize;
        assert(all_digits(next)) by {
            assert forall|j: int| 0 <= j < next.len() implies '0' <= #[trigger] next[j] <= '9' by {
                if j < i - start {
                    assert(next[j] == seen[j]);
                }
            }
        }
        let grown: Option<usize> = match value.checked_mul(10) {
            Some(tens) => tens.checked_add(d),
            None => None,
        };
        match grown {
            Some(more) => {
                value = more;
            },
            None => {
                proof {
                    assert(digits_value(next) > usize::MAX);
                    if all_digits(digits) {
                        lemma_digits_value_grows(digits, i - start + 1);
                    }
                }
                return None;
            },
        }
        i = i + 1;
    }
    proof {
        assert(digits.take(i - start) =~= digits);
    }
    Some(value)
}

/// Reads one leg of a wire, such as `R98`. `None` if the text is not a
/// direction letter followed by a count that fits a `usize`.
pub fn parse_move(step: &str) -> (parsed: Option<Move>)
    ensures
        parsed == spec_parse_move(step@),
{
    let chars = chars_of(step);
    if chars.len() == 0 {
        return None;
    }
    let first: char = chars[0];
    let direction = if first == 'R' {
        Direction::Right
    } else if first == 'L' {
        Direction::Left
    } else if first == 'U' {
        Direction::Up
    } else if first == 'D' {
        Direction::Down
    } else {
        return None;
    };
    match parse_count(chars.as_slice(), 1) {
        Some(steps) => Some(Move { direction: direction, steps: steps }),
        None => None,
    }
}

} // verus!
