//! Parsing a decimal unsigned integer out of a header value, exactly as the
//! standard unsigned-integer parser accepts it: an optional leading `+`,
//! then one or more ASCII digits, and the value must fit in 64 bits.

use vstd::prelude::*;

verus! {

/// An ASCII decimal digit.
pub open spec fn is_digit(c: char) -> bool {
    48 <= c as u32 && c as u32 <= 57
}

/// The numeric value of an ASCII decimal digit.
pub open spec fn digit_val(c: char) -> nat {
    (c as u32 - 48) as nat
}

/// Every character of `s` is an ASCII decimal digit.
pub open spec fn all_digits(s: Seq<char>) -> bool {
    forall|i: int| 0 <= i < s.len() ==> is_digit(s[i])
}

/// The value of a digit string read in base 10 (0 for the empty string).
pub open spec fn dec_value(s: Seq<char>) -> nat
    decreases s.len(),
{
    if s.len() == 0 {
        0
    } else {
        dec_value(s.drop_last()) * 10 + digit_val(s.last())
    }
}

/// `s` with one leading `+` removed, if it has one.
pub open spec fn strip_plus(s: Seq<char>) -> Seq<char> {
    if s.len() > 0 && s[0] == '+' {
        s.drop_first()
    } else {
        s
    }
}

/// What parsing a digit string as a decimal `u64` yields: there must be at
/// least one character, all characters must be digits, and the value must
/// fit; otherwise nothing is returned.
pub open spec fn spec_parse_digits(digits: Seq<char>) -> Option<u64> {
    if digits.len() > 0 && all_digits(digits) && dec_value(digits) <= u64::MAX {
        Some(dec_value(digits) as u64)
    } else {
        None
    }
}

/// What parsing `s` as a decimal `u64` yields: an optional leading `+`, then
/// one or more digits whose value fits in a `u64`.
pub open spec fn spec_parse_u64(s: Seq<char>) -> Option<u64> {
    spec_parse_digits(strip_plus(s))
}

/// Reading one more digit multiplies the value by ten and adds the digit.
proof fn lemma_dec_value_step(s: Seq<char>, i: int)
    requires
        0 <= i < s.len(),
    ensures
        dec_value(s.take(i + 1)) == dec_value(s.take(i)) * 10 + digit_val(s[i]),
{
    assert(s.take(i + 1).drop_last() =~= s.take(i));
    assert(s.take(i + 1).last() == s[i]);
}

/// The value of a digit string is no smaller than the value of any prefix.
proof fn lemma_dec_value_prefix_le(s: Seq<char>, i: int)
    requires
        0 <= i <= s.len(),
    ensures
        dec_value(s.take(i)) <= dec_value(s),
    decreases s.len() - i,
{
    if i == s.len() {
        assert(s.take(i) =~= s);
    } else {
        lemma_dec_value_step(s, i);
        lemma_dec_value_prefix_le(s, i + 1);
    }
}

/// Parse `s` as a decimal `u64`, deciding exactly [`spec_parse_u64`]: returns
/// the value on an optional `+` followed by digits whose value fits in a
/// `u64`, and nothing otherwise.
pub fn parse_u64(s: &str) -> (r: Option<u64>)
    ensures
        r == spec_parse_u64(s@),
{
    let len = s.unicode_len();
    let start: usize = if len > 0 && s.get_char(0) == '+' {
        1
    } else {
        0
    };
    let ghost digits = strip_plus(s@);
    assert(digits =~= s@.skip(start as int));
    if start == len {
        return None;
    }
    let mut acc: u64 = 0;
    let mut i: usize = start;
    while i < len
        invariant
            start <= i <= len,
            len == s@.len(),
            start < len,
            digits == strip_plus(s@),
            digits =~= s@.skip(start as int),
            all_digits(digits.take(i - start)),
            acc == dec_value(digits.take(i - start)),
        decreases len - i,
    {
        let c = s.get_char(i);
        let n = c as u32;
        if !(48 <= n && n <= 57) {
            assert(!is_digit(digits[i - start]));
            return None;
        }
        let d: u64 = (n - 48) as u64;
        proof {
            lemma_dec_value_step(digits, i - start);
        }
        let next = match acc.checked_mul(10) {
            Some(p) => p.checked_add(d),
            None => None,
        };
        match next {
            Some(v) => {
                acc = v;
            },
            None => {
                proof {
                    lemma_dec_value_prefix_le(digits, i - start + 1);
                }
                return None;
            },
        }
        i = i + 1;
    }
    assert(digits.take(len - start) =~= digits);
    Some(acc)
}

} // verus!
