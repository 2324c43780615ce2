//! Reading of token text: decimal integers and quoted strings.

use crate::path::chars_of;
use vstd::prelude::*;

verus! {

/// A decimal digit.
pub open spec fn is_digit(c: char) -> bool {
    '0' <= c <= '9'
}

/// The number that a decimal digit stands for.
pub open spec fn digit_value(c: char) -> int {
    c as int - '0' as int
}

/// Every character of `s` is a decimal digit.
pub open spec fn all_digits(s: Seq<char>) -> bool {
    forall|i: int| 0 <= i < s.len() ==> is_digit(#[trigger] s[i])
}

/// The number that a string of decimal digits stands for.
pub open spec fn digits_value(s: Seq<char>) -> int
    decreases s.len(),
{
    if s.len() == 0 {
        0
    } else {
        digits_value(s.drop_last()) * 10 + digit_value(s.last())
    }
}

/// The integer that `s` writes in decimal: one or more digits, with an
/// optional sign in front. No other text writes an integer.
pub open spec fn integer_value(s: Seq<char>) -> Option<int> {
    if s.len() == 0 {
        None
    } else if s[0] == '-' || s[0] == '+' {
        let digits = s.drop_first();
        if digits.len() > 0 && all_digits(digits) {
            if s[0] == '-' {
                Some(-digits_value(digits))
            } else {
                Some(digits_value(digits))
            }
        } else {
            None
        }
    } else if all_digits(s) {
        Some(digits_value(s))
    } else {
        None
    }
}

/// The 64-bit signed integer that `s` writes in decimal, where it fits.
pub open spec fn i64_value(s: Seq<char>) -> Option<i64> {
    match integer_value(s) {
        Some(v) => if i64::MIN <= v <= i64::MAX {
            Some(v as i64)
        } else {
            None
        },
        None => None,
    }
}

/// The value of a digit string is not negative, and no prefix of it stands
/// for more than the whole.
pub proof fn lemma_digits_value_grows(s: Seq<char>, n: int)
    requires
        all_digits(s),
        0 <= n <= s.len(),
    ensures
        0 <= digits_value(s.take(n)) <= digits_value(s),
    decreases s.len() - n,
{
    lemma_digits_value_nonnegative(s.take(n));
    if n == s.len() {
        assert(s.take(n) =~= s);
    } else {
        lemma_digits_value_grows(s, n + 1);
        let t = s.take(n + 1);
        assert(t.drop_last() =~= s.take(n));
        assert(is_digit(s[n]));
        assert(t.last() == s[n]);
    }
}

/// The value of a digit string is not negative.
pub proof fn lemma_digits_value_nonnegative(s: Seq<char>)
    requires
        all_digits(s),
    ensures
        0 <= digits_value(s),
    decreases s.len(),
{
    if s.len() > 0 {
        assert(is_digit(s.last()));
        lemma_digits_value_nonnegative(s.drop_last());
    }
}

/// Reads a 64-bit signed integer written in decimal.
pub fn parse_i64(s: &str) -> (res: Option<i64>)
    ensures
        res == i64_value(s@),
{
    let chars = chars_of(s);
    let n = chars.len();
    if n == 0 {
        return None;
    }
    let negative = chars[0] == '-';
    let start: usize = if chars[0] == '-' || chars[0] == '+' {
        1
    } else {
        0
    };
    if start == n {
        return None;
    }
    let ghost digits = s@.skip(start as int);
    proof {
        if start == 1 {
            assert(digits =~= s@.drop_first());
        } else {
            assert(digits =~= s@);
        }
    }
    let limit: u64 = if negative {
        9223372036854775808u64
    } else {
        9223372036854775807u64
    };
    let mut magnitude: u64 = 0;
    let mut i: usize = start;
    proof {
        assert(digits.take(0) =~= Seq::<char>::empty());
    }
    while i < n
        invariant
            start <= i <= n,
            n == chars.len(),
            chars@ == s@,
            digits == s@.skip(start as int),
            all_digits(digits.take(i - start)),
            magnitude == digits_value(digits.take(i - start)),
            magnitude <= limit,
            9223372036854775807u64 <= limit <= 9223372036854775808u64,
            negative ==> limit == 9223372036854775808u64,
            !negative ==> limit == 9223372036854775807u64,
            n > 0,
            negative == (s@[0] == '-'),
            start == 1 ==> (s@[0] == '-' || s@[0] == '+') && digits == s@.drop_first(),
            start == 0 ==> s@[0] != '-' && s@[0] != '+' && digits == s@,
            start <= 1,
        decreases n - i,
    {
        let c = chars[i];
        if !(c >= '0' && c <= '9') {
            proof {
                assert(digits[i - start] == c);
                assert(!all_digits(digits));
            }
            return None;
        }
        let d: u64 = (c as u64) - ('0' as u64);
        proof {
            let t = digits.take(i - start + 1);
            assert(t.drop_last() =~= digits.take(i - start));
            assert(t.last() == c);
            assert(digit_value(c) == d);
            assert forall|k: int| 0 <= k < t.len() implies is_digit(#[trigger] t[k]) by {
                if k < i - start {
                    assert(digits.take(i - start)[k] == t[k]);
                }
            }
        }
        if magnitude > (limit - d) / 10 {
            proof {
                // The value of the digits read so far is over the limit, and
                // more digits can only add to it.
                let t = digits.take(i - start + 1);
                assert(digits_value(t) == magnitude * 10 + d);
                assert(digits_value(t) > limit);
                if all_digits(digits) {
                    lemma_digits_value_grows(digits, i - start + 1);
                }
            }
            // The remaining characters decide between "out of range" and "not a number";
            // either way there is no value.
            return None;
        }
        magnitude = magnitude * 10 + d;
        i += 1;
    }
    proof {
        assert(digits.take(n - start) =~= digits);
    }
    if negative {
        if magnitude == 9223372036854775808u64 {
            Some(i64::MIN)
        } else {
            Some(-(magnitude as i64))
        }
    } else {
        Some(magnitude as i64)
    }
}

/// Whether two strings hold the same characters.
pub fn str_equal(a: &str, b: &str) -> (res: bool)
    ensures
        res == (a@ == b@),
{
    let x = chars_of(a);
    let y = chars_of(b);
    if x.len() != y.len() {
        return false;
    }
    let mut i: usize = 0;
    while i < x.len()
        invariant
            x@ == a@,
            y@ == b@,
            x.len() == y.len(),
            i <= x.len(),
            forall|k: int| 0 <= k < i ==> x[k] == y[k],
        decreases x.len() - i,
    {
        if x[i] != y[i] {
            return false;
        }
        i += 1;
    }
    assert(x@ =~= y@);
    true
}

/// The boolean that `s` writes: `true` or `false`, and nothing else.
pub open spec fn boolean_value(s: Seq<char>) -> Option<bool> {
    if s == "true"@ {
        Some(true)
    } else if s == "false"@ {
        Some(false)
    } else {
        None
    }
}

/// Reads a boolean.
pub fn parse_bool(s: &str) -> (res: Option<bool>)
    ensures
        res == boolean_value(s@),
{
    if str_equal(s, "true") {
        Some(true)
    } else if str_equal(s, "false") {
        Some(false)
    } else {
        None
    }
}

/// The text between the first and the last character of `s`: what a quoted
/// token holds between its quotes.
pub open spec fn unquoted(s: Seq<char>) -> Seq<char> {
    s.subrange(1, s.len() - 1)
}

/// `s` is some text between two `quote` characters.
pub open spec fn is_quoted(s: Seq<char>, quote: char) -> bool {
    &&& s.len() >= 2
    &&& s[0] == quote
    &&& s[s.len() - 1] == quote
}

/// A quoted token without its quotes.
pub fn strip_quotes(s: &str) -> (res: String)
    requires
        s@.len() >= 2,
    ensures
        res@ == unquoted(s@),
{
    let n = s.unicode_len();
    s.substring_char(1, n - 1).to_owned()
}

/// Putting text between quotes and stripping one layer of quotes gives the
/// text back.
pub proof fn lemma_unquoted_quoted(text: Seq<char>, quote: char)
    ensures
        is_quoted(seq![quote] + text + seq![quote], quote),
        unquoted(seq![quote] + text + seq![quote]) == text,
{
    assert(unquoted(seq![quote] + text + seq![quote]) =~= text);
}

} // verus!
