//! Characters of a string, and decimal text of a number.

use vstd::prelude::*;

verus! {

/// The characters of `s`, in order.
pub fn chars_of(s: &str) -> (chars: Vec<char>)
    ensures
        chars@ == s@,
{
    broadcast use vstd::string::axiom_spec_iter;

    let mut chars: Vec<char> = Vec::new();
    for c in it: s.chars()
        invariant
            it.seq() == s@,
            chars@ == it.seq().take(it.index()),
    {
        chars.push(c);
    }
    chars
}

/// The character that writes the digit `d`.
pub open spec fn digit_char(d: int) -> char {
    ('0' as int + d) as char
}

/// The decimal digits of `n`, most significant first, without leading zeros.
pub open spec fn natural_text(n: nat) -> Seq<char>
    decreases n,
{
    if n < 10 {
        seq![digit_char(n as int)]
    } else {
        natural_text(n / 10).push(digit_char(n as int % 10))
    }
}

/// The decimal text of `x`: a minus sign if it is negative, then its digits.
pub open spec fn decimal_text(x: int) -> Seq<char> {
    if x < 0 {
        seq!['-'] + natural_text((-x) as nat)
    } else {
        natural_text(x as nat)
    }
}

fn digit_to_char(d: u8) -> (c: char)
    requires
        d < 10,
    ensures
        c == digit_char(d as int),
{
    (48u8 + d) as char
}

fn push_natural(n: u32, out: &mut Vec<char>)
    ensures
        final(out)@ == old(out)@ + natural_text(n as nat),
    decreases n,
{
    if n >= 10 {
        push_natural(n / 10, out);
    }
    out.push(digit_to_char((n % 10) as u8));
}

/// Writes `x` in decimal.
pub fn decimal_chars(x: i32) -> (chars: Vec<char>)
    ensures
        chars@ == decimal_text(x as int),
{
    let mut chars: Vec<char> = Vec::new();
    if x < 0 {
        chars.push('-');
        let digits: u32 = (-(x as i64)) as u32;
        push_natural(digits, &mut chars);
    } else {
        push_natural(x as u32, &mut chars);
    }
    chars
}

} // verus!
