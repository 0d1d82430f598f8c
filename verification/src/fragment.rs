//! Recognising a stream fragment that is, taken alone, a bare integer, and
//! one that is a score.

use vstd::prelude::*;
use vstd::string::StrSliceExecFns;
use vstd::string::StringSliceAdditionalSpecFns;
use crate::evaluation::MAX_RELEVANCE;

verus! {

/// Whether `c` is one of the decimal digits `0` to `9`.
pub open spec fn is_digit(c: char) -> bool {
    '0' <= c && c <= '9'
}

/// The number that the decimal digit `c` stands for.
pub open spec fn digit_value(c: char) -> nat
    recommends
        is_digit(c),
{
    (c as nat - '0' as nat) as nat
}

/// Whether every character of `s` is a decimal digit.
pub open spec fn all_digits(s: Seq<char>) -> bool {
    forall|i: int| 0 <= i < s.len() ==> is_digit(#[trigger] s[i])
}

/// The number that the digit string `s` writes in base ten; 0 for the empty
/// string.
pub open spec fn decimal_value(s: Seq<char>) -> nat
    decreases s.len(),
{
    if s.len() == 0 {
        0
    } else {
        decimal_value(s.drop_last()) * 10 + digit_value(s.last())
    }
}

/// `s` without one leading plus sign, if it has one.
pub open spec fn unsigned_part(s: Seq<char>) -> Seq<char> {
    if s.len() > 0 && s[0] == '+' {
        s.subrange(1, s.len() as int)
    } else {
        s
    }
}

/// The number that a fragment writes when read in isolation: the fragment is
/// an optional plus sign followed by one or more decimal digits and nothing
/// else, and the number fits in eight bits. Any other fragment writes none.
pub open spec fn bare_integer(s: Seq<char>) -> Option<u8> {
    let d = unsigned_part(s);
    if d.len() > 0 && all_digits(d) && decimal_value(d) <= 255 {
        Some(decimal_value(d) as u8)
    } else {
        None
    }
}

/// The score that a fragment carries: the bare integer it writes, where
/// that lies on the scale from 0 to `MAX_RELEVANCE`. A fragment that writes
/// a larger number, or none, carries no score.
pub open spec fn score_signal(s: Seq<char>) -> Option<u8> {
    match bare_integer(s) {
        Some(value) => if value <= MAX_RELEVANCE {
            Some(value)
        } else {
            None
        },
        None => None,
    }
}

/// A digit string is worth at least as much as any of its prefixes.
proof fn lemma_prefix_value_grows(s: Seq<char>, i: int, j: int)
    requires
        0 <= i <= j <= s.len(),
    ensures
        decimal_value(s.subrange(0, i)) <= decimal_value(s.subrange(0, j)),
    decreases j - i,
{
    if i < j {
        lemma_prefix_value_grows(s, i, j - 1);
        assert(s.subrange(0, j).drop_last() =~= s.subrange(0, j - 1));
    }
}

/// What the byte of an ASCII character tells about the character.
proof fn lemma_ascii_byte(c: char, b: u8)
    requires
        '\0' <= c && c <= '\u{7f}',
        c as u8 == b,
    ensures
        b == 43 <==> c == '+',
        48 <= b && b <= 57 <==> is_digit(c),
        is_digit(c) ==> digit_value(c) == b - 48,
{
}

/// A fragment with a character outside ASCII is no bare integer.
proof fn lemma_bare_integer_is_ascii(s: Seq<char>)
    requires
        bare_integer(s) is Some,
    ensures
        vstd::utf8::is_ascii_chars(s),
{
    let d = unsigned_part(s);
    assert forall|i: int| 0 <= i < s.len() implies '\0' <= #[trigger] s[i] && s[i] <= '\u{7f}' by {
        if s[0] == '+' {
            if i > 0 {
                assert(is_digit(d[i - 1]));
            }
        } else {
            assert(is_digit(d[i]));
        }
    }
}

/// Appending one digit to a digit string that is all digits.
proof fn lemma_extend_prefix(d: Seq<char>, k: int)
    requires
        0 <= k < d.len(),
        all_digits(d.subrange(0, k)),
        is_digit(d[k]),
    ensures
        all_digits(d.subrange(0, k + 1)),
        decimal_value(d.subrange(0, k + 1)) == decimal_value(d.subrange(0, k)) * 10 + digit_value(
            d[k],
        ),
{
    let p = d.subrange(0, k + 1);
    assert(p.drop_last() =~= d.subrange(0, k));
    assert(p.last() == d[k]);
    assert forall|j: int| 0 <= j < p.len() implies is_digit(#[trigger] p[j]) by {
        if j < k {
            assert(is_digit(d.subrange(0, k)[j]));
        }
    }
}

/// Reads `text` as a bare integer.
///
/// Returns the number exactly when `text` is an optional plus sign followed
/// by one or more decimal digits whose value is at most 255.
pub fn parse_bare_integer(text: &str) -> (result: Option<u8>)
    ensures
        result == bare_integer(text@),
{
    if !text.is_ascii() {
        proof {
            if bare_integer(text@) is Some {
                lemma_bare_integer_is_ascii(text@);
            }
        }
        return None;
    }
    let n: usize = text.as_bytes().len();
    proof {
        vstd::string::is_ascii_spec_bytes(text);
        assert(text.spec_bytes().len() == text@.len());
    }
    if n == 0 {
        return None;
    }
    let first: u8 = text.get_ascii(0);
    proof {
        lemma_ascii_byte(text@[0], first);
    }
    let start: usize = if first == 43u8 { 1 } else { 0 };
    let ghost d = unsigned_part(text@);
    assert(d =~= text@.subrange(start as int, n as int));
    if start == n {
        return None;
    }
    let mut i: usize = start;
    let mut acc: u16 = 0;
    assert(d.subrange(0, 0) =~= Seq::<char>::empty());
    while i < n
        invariant
            text.is_ascii(),
            n == text@.len(),
            start <= i <= n,
            d == unsigned_part(text@),
            d.len() == n - start,
            forall|k: int| 0 <= k < d.len() ==> d[k] == text@[start + k],
            all_digits(d.subrange(0, i - start)),
            acc as nat == decimal_value(d.subrange(0, i - start)),
            acc <= 255,
        decreases n - i,
    {
        let b: u8 = text.get_ascii(i);
        proof {
            lemma_ascii_byte(text@[i as int], b);
            assert(d[i - start] == text@[i as int]);
        }
        if b < 48u8 || b > 57u8 {
            assert(!is_digit(d[i - start]));
            return None;
        }
        let next: u16 = acc * 10 + (b - 48u8) as u16;
        proof {
            lemma_extend_prefix(d, i - start);
        }
        if next > 255 {
            proof {
                lemma_prefix_value_grows(d, i - start + 1, d.len() as int);
                assert(d.subrange(0, d.len() as int) =~= d);
            }
            return None;
        }
        acc = next;
        i = i + 1;
    }
    assert(d.subrange(0, i - start) =~= d);
    Some(acc as u8)
}

/// Reads `text` as a score.
///
/// Returns the score exactly when `text` is a bare integer whose value is
/// at most `MAX_RELEVANCE`.
pub fn parse_score(text: &str) -> (result: Option<u8>)
    ensures
        result == score_signal(text@),
        result is Some ==> result->0 <= MAX_RELEVANCE,
{
    match parse_bare_integer(text) {
        Some(value) => if value <= MAX_RELEVANCE {
            Some(value)
        } else {
            None
        },
        None => None,
    }
}

} // verus!
