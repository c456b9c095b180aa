//! Character-level vocabulary for HTTP headers: which strings are acceptable
//! header names and values, and ASCII case-insensitive string comparison
//! (header names compare without regard to ASCII case).

use vstd::prelude::*;

verus! {

/// A header-name character: a token character per the HTTP grammar
/// (letters, digits, and `! # $ % & ' * + - . ^ _ ` | ~`).
pub open spec fn is_token_char(c: char) -> bool {
    let n = c as u32;
    (97 <= n && n <= 122)  // 'a'..='z'
    || (65 <= n && n <= 90)  // 'A'..='Z'
    || (48 <= n && n <= 57)  // '0'..='9'
    || c == '!' || c == '#' || c == '$' || c == '%' || c == '&' || c == '\''
    || c == '*' || c == '+' || c == '-' || c == '.' || c == '^' || c == '_'
    || c == '`' || c == '|' || c == '~'
}

/// A well-formed header name: non-empty and made of token characters only.
pub open spec fn valid_header_name(s: Seq<char>) -> bool {
    s.len() > 0 && (forall|i: int| 0 <= i < s.len() ==> is_token_char(s[i]))
}

/// A header-value character: horizontal tab, or any character other than the
/// ASCII control characters (codes below 32, and 127).
pub open spec fn is_value_char(c: char) -> bool {
    let n = c as u32;
    c == '\t' || (32 <= n && n != 127)
}

/// A well-formed header value: every character is acceptable in a value.
pub open spec fn valid_header_value(s: Seq<char>) -> bool {
    forall|i: int| 0 <= i < s.len() ==> is_value_char(s[i])
}

/// The code point of `c`, with an ASCII capital letter folded to its
/// lower-case counterpart.
pub open spec fn lower_code(c: char) -> u32 {
    let n = c as u32;
    if 65 <= n && n <= 90 {
        (n + 32) as u32
    } else {
        n
    }
}

/// Two characters are equal up to ASCII case.
pub open spec fn char_eq_ci(a: char, b: char) -> bool {
    lower_code(a) == lower_code(b)
}

/// Two strings are equal up to ASCII case, character by character.
pub open spec fn str_eq_ci(a: Seq<char>, b: Seq<char>) -> bool {
    a.len() == b.len() && (forall|i: int| 0 <= i < a.len() ==> char_eq_ci(a[i], b[i]))
}

/// Whether `name` is a well-formed header name, decided exactly against
/// [`valid_header_name`].
pub fn check_header_name(name: &str) -> (r: bool)
    ensures
        r == valid_header_name(name@),
{
    let len = name.unicode_len();
    if len == 0 {
        return false;
    }
    let mut i: usize = 0;
    while i < len
        invariant
            i <= len,
            len == name@.len(),
            forall|j: int| 0 <= j < i ==> is_token_char(name@[j]),
        decreases len - i,
    {
        let c = name.get_char(i);
        let n = c as u32;
        let ok = (97 <= n && n <= 122) || (65 <= n && n <= 90) || (48 <= n && n <= 57)
            || c == '!' || c == '#' || c == '$' || c == '%' || c == '&' || c == '\''
            || c == '*' || c == '+' || c == '-' || c == '.' || c == '^' || c == '_'
            || c == '`' || c == '|' || c == '~';
        if !ok {
            return false;
        }
        i = i + 1;
    }
    true
}

/// Whether `value` is a well-formed header value, decided exactly against
/// [`valid_header_value`].
pub fn check_header_value(value: &str) -> (r: bool)
    ensures
        r == valid_header_value(value@),
{
    let len = value.unicode_len();
    let mut i: usize = 0;
    while i < len
        invariant
            i <= len,
            len == value@.len(),
            forall|j: int| 0 <= j < i ==> is_value_char(value@[j]),
        decreases len - i,
    {
        let c = value.get_char(i);
        let n = c as u32;
        let ok = c == '\t' || (32 <= n && n != 127);
        if !ok {
            return false;
        }
        i = i + 1;
    }
    true
}

/// Whether `a` and `b` are equal up to ASCII case, decided exactly against
/// [`str_eq_ci`].
pub fn eq_ignore_ascii_case(a: &str, b: &str) -> (r: bool)
    ensures
        r == str_eq_ci(a@, b@),
{
    let alen = a.unicode_len();
    let blen = b.unicode_len();
    if alen != blen {
        return false;
    }
    let mut i: usize = 0;
    while i < alen
        invariant
            i <= alen,
            alen == a@.len(),
            alen == b@.len(),
            forall|j: int| 0 <= j < i ==> char_eq_ci(a@[j], b@[j]),
        decreases alen - i,
    {
        let ca = a.get_char(i) as u32;
        let cb = b.get_char(i) as u32;
        let la = if 65 <= ca && ca <= 90 { ca + 32 } else { ca };
        let lb = if 65 <= cb && cb <= 90 { cb + 32 } else { cb };
        if la != lb {
            return false;
        }
        i = i + 1;
    }
    true
}

} // verus!
