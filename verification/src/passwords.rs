//! Rules for numeric passwords: digits that never decrease, with a repeated
//! digit somewhere.

use vstd::prelude::*;
use crate::text::{chars_of, decimal_chars, decimal_text, natural_text};

verus! {

/// Whether `c` is one of `'0'` to `'9'`.
pub open spec fn is_digit(c: char) -> bool {
    '0' <= c <= '9'
}

/// The password with a `'0'` in front: the character that the first one is
/// measured against.
pub open spec fn guarded(password: Seq<char>) -> Seq<char> {
    seq!['0'] + password
}

/// Whether the character at `j` is a digit that is not below the one before.
pub open spec fn in_order_at(t: Seq<char>, j: int) -> bool {
    is_digit(t[j]) && (j > 0 ==> t[j - 1] <= t[j])
}

/// Whether all characters are digits and none is below the one before it.
pub open spec fn ascending_digits(t: Seq<char>) -> bool {
    forall|j: int| 0 <= j < t.len() ==> #[trigger] in_order_at(t, j)
}

/// Whether the characters at `j` and `j + 1` are the same.
pub open spec fn pair_at(t: Seq<char>, j: int) -> bool {
    0 <= j && j + 1 < t.len() && t[j] == t[j + 1]
}

/// Whether the characters at `j` and `j + 1` are the same and differ from
/// their neighbours on both sides: a run of exactly two.
pub open spec fn exact_pair_at(t: Seq<char>, j: int) -> bool {
    &&& pair_at(t, j)
    &&& (j > 0 ==> t[j - 1] != t[j])
    &&& (j + 2 < t.len() ==> t[j + 2] != t[j])
}

/// A password is valid if, with a `'0'` put in front, its characters are
/// digits that never decrease and two neighbours are the same.
pub open spec fn valid_password(password: Seq<char>) -> bool {
    let t = guarded(password);
    ascending_digits(t) && exists|j: int| #[trigger] pair_at(t, j)
}

/// The stricter rule: some run of equal digits has length exactly two.
pub open spec fn valid_improved_password(password: Seq<char>) -> bool {
    let t = guarded(password);
    ascending_digits(t) && exists|j: int| #[trigger] exact_pair_at(t, j)
}

/// Every password that meets the stricter rule meets the plain one.
pub proof fn lemma_improved_implies_valid(password: Seq<char>)
    requires
        valid_improved_password(password),
    ensures
        valid_password(password),
{
    let t = guarded(password);
    let j = choose|j: int| #[trigger] exact_pair_at(t, j);
    assert(pair_at(t, j));
}

/// Checks the plain rule on the characters of a password.
pub fn check_password(chars: &[char]) -> (valid: bool)
    ensures
        valid == valid_password(chars@),
{
    let ghost t = guarded(chars@);
    let mut last_char: char = '0';
    let mut found_double: bool = false;
    let mut i: usize = 0;
    while i < chars.len()
        invariant
            i <= chars.len(),
            t == guarded(chars@),
            last_char == t[i as int],
            forall|j: int| 0 <= j <= i ==> #[trigger] in_order_at(t, j),
            found_double <==> exists|j: int| j < i && #[trigger] pair_at(t, j),
        decreases chars.len() - i,
    {
        let chr: char = chars[i];
        assert(t[i + 1] == chr);
        if !(chr >= '0' && chr <= '9' && chr >= last_char) {
            assert(!in_order_at(t, i + 1));
            return false;
        }
        if chr == last_char {
            assert(pair_at(t, i as int));
            found_double = true;
        }
        last_char = chr;
        i = i + 1;
    }
    found_double
}

/// Checks the stricter rule on the characters of a password.
pub fn check_improved_password(chars: &[char]) -> (valid: bool)
    ensures
        valid == valid_improved_password(chars@),
{
    let ghost t = guarded(chars@);
    let mut last_char: char = '0';
    let mut sequence_len: usize = 0;
    let mut ended_double_digit: bool = false;
    let mut i: usize = 0;
    while i < chars.len()
        invariant
            i <= chars.len(),
            t == guarded(chars@),
            last_char == t[i as int],
            forall|j: int| 0 <= j <= i ==> #[trigger] in_order_at(t, j),
            sequence_len <= i,
            forall|j: int| i - sequence_len <= j <= i ==> t[j] == last_char,
            sequence_len < i ==> t[i - sequence_len - 1] != last_char,
            ended_double_digit <==> exists|j: int| j + 2 <= i && #[trigger] exact_pair_at(t, j),
        decreases chars.len() - i,
    {
        let chr: char = chars[i];
        assert(t[i + 1] == chr);
        if !(chr >= '0' && chr <= '9' && chr >= last_char) {
            assert(!in_order_at(t, i + 1));
            return false;
        }
        if chr == last_char {
            sequence_len = sequence_len + 1;
            assert forall|j: int| j + 2 <= i + 1 && exact_pair_at(t, j) implies j + 2 <= i by {
                if j + 2 == i + 1 {
                    assert(t[j + 2] == t[j]);
                }
            }
        } else {
            if sequence_len == 1 {
                assert(exact_pair_at(t, i - 1));
                ended_double_digit = true;
            } else {
                assert forall|j: int| j + 2 <= i + 1 && exact_pair_at(t, j) implies j + 2 <= i by {
                    if j + 2 == i + 1 {
                        if sequence_len == 0 {
                            assert(t[j] != t[j + 1]);
                        } else {
                            assert(t[j - 1] == t[j]);
                        }
                    }
                }
            }
            sequence_len = 0;
        }
        last_char = chr;
        i = i + 1;
    }
    if sequence_len == 1 {
        assert(exact_pair_at(t, i - 1));
    } else {
        assert forall|j: int| exact_pair_at(t, j) implies j + 2 <= i by {
            if j + 2 > i {
                if sequence_len == 0 {
                    assert(t[j] != t[j + 1]);
                } else {
                    assert(t[j - 1] == t[j]);
                }
            }
        }
    }
    sequence_len == 1 || ended_double_digit
}

/// Whether `password` consists of digits that never decrease and, measured
/// against a leading `'0'`, holds two equal neighbours.
pub fn is_valid_password(password: &str) -> (valid: bool)
    ensures
        valid == valid_password(password@),
{
    let chars = chars_of(password);
    check_password(chars.as_slice())
}

/// Whether `password` consists of digits that never decrease and, measured
/// against a leading `'0'`, holds a run of exactly two equal digits.
pub fn is_valid_improved_password(password: &str) -> (valid: bool)
    ensures
        valid == valid_improved_password(password@),
{
    let chars = chars_of(password);
    check_improved_password(chars.as_slice())
}

/// Which rule a count applies.
#[derive(Clone, Copy, Debug, PartialEq, Eq, Structural)]
pub enum Rule {
    /// The plain rule.
    Plain,
    /// The stricter rule.
    Improved,
    /// Both rules at once.
    Both,
}

impl Rule {
    /// Whether the rule accepts the password `text`.
    pub open spec fn accepts(self, text: Seq<char>) -> bool {
        match self {
            Rule::Plain => valid_password(text),
            Rule::Improved => valid_improved_password(text),
            Rule::Both => valid_password(text) && valid_improved_password(text),
        }
    }

    /// Decides `accepts` on the characters of a password.
    pub fn check(self, chars: &[char]) -> (accepted: bool)
        ensures
            accepted == self.accepts(chars@),
    {
        match self {
            Rule::Plain => check_password(chars),
            Rule::Improved => check_improved_password(chars),
            Rule::Both => check_password(chars) && check_improved_password(chars),
        }
    }
}

/// How many numbers from `lower` to `upper`, both included, the rule accepts
/// when they are written in decimal.
pub open spec fn count_accepted(lower: int, upper: int, rule: Rule) -> nat
    decreases upper - lower + 1,
{
    if upper < lower {
        0
    } else {
        count_accepted(lower, upper - 1, rule) + if rule.accepts(decimal_text(upper)) {
            1nat
        } else {
            0nat
        }
    }
}

/// No rule accepts a negative number, whose text starts with a sign, nor the
/// number ten, whose digits decrease.
pub proof fn lemma_rejected_numbers(x: int, rule: Rule)
    requires
        x < 0 || x == 10,
    ensures
        !rule.accepts(decimal_text(x)),
{
    let t = guarded(decimal_text(x));
    if x < 0 {
        assert(t[1] == '-');
        assert(!in_order_at(t, 1));
    } else {
        reveal_with_fuel(natural_text, 2);
        assert(t[1] == '1');
        assert(t[2] == '0');
        assert(!in_order_at(t, 2));
    }
    if valid_improved_password(decimal_text(x)) {
        lemma_improved_implies_valid(decimal_text(x));
    }
}

/// How many numbers a count over `lower` to `upper` can accept at most: the
/// numbers from zero on, less the number ten.
pub open spec fn count_limit(lower: int, upper: int) -> int {
    let first = if lower < 0 {
        0
    } else {
        lower
    };
    if upper < first {
        0
    } else if first <= 10 <= upper {
        upper - first
    } else {
        upper - first + 1
    }
}

/// A count stays within `count_limit`, so a count over 32-bit numbers fits
/// in 32 bits.
pub proof fn lemma_count_is_limited(lower: int, upper: int, rule: Rule)
    ensures
        count_accepted(lower, upper, rule) <= count_limit(lower, upper),
    decreases upper - lower + 1,
{
    if upper >= lower {
        lemma_count_is_limited(lower, upper - 1, rule);
        if upper < 0 || upper == 10 {
            lemma_rejected_numbers(upper, rule);
        }
    }
}

/// Counts the numbers from `lower` to `upper`, both included, whose decimal
/// text the rule accepts.
pub fn count_passwords(lower_limit: i32, upper_limit: i32, rule: Rule) -> (count: i32)
    ensures
        count == count_accepted(lower_limit as int, upper_limit as int, rule),
{
    let mut count: i32 = 0;
    let mut x: i64 = lower_limit as i64;
    while x <= upper_limit as i64
        invariant
            lower_limit <= x,
            x <= upper_limit + 1 || upper_limit < lower_limit,
            upper_limit < lower_limit ==> count == 0,
            count == count_accepted(lower_limit as int, x - 1, rule),
        decreases upper_limit - x + 1,
    {
        proof {
            lemma_count_is_limited(lower_limit as int, x as int, rule);
        }
        let chars = decimal_chars(x as i32);
        if rule.check(chars.as_slice()) {
            count = count + 1;
        }
        x = x + 1;
    }
    count
}

/// How many numbers from `lower_limit` to `upper_limit` are valid passwords.
pub fn count_valid_passwords(lower_limit: i32, upper_limit: i32) -> (count: i32)
    ensures
        count == count_accepted(lower_limit as int, upper_limit as int, Rule::Plain),
{
    count_passwords(lower_limit, upper_limit, Rule::Plain)
}

/// How many numbers from `lower_limit` to `upper_limit` are valid under the
/// stricter rule.
pub fn count_improved_valid_passwords(lower_limit: i32, upper_limit: i32) -> (count: i32)
    ensures
        count == count_accepted(lower_limit as int, upper_limit as int, Rule::Improved),
{
    count_passwords(lower_limit, upper_limit, Rule::Improved)
}

/// How many numbers from `lower_limit` to `upper_limit` are valid under both
/// rules.
pub fn count_valid_both(lower_limit: i32, upper_limit: i32) -> (count: i32)
    ensures
        count == count_accepted(lower_limit as int, upper_limit as int, Rule::Both),
{
    count_passwords(lower_limit, upper_limit, Rule::Both)
}

} // verus!
