//! Names and numbers taken from what the user typed: the project's directory
//! name and the C++ standard that CMake is asked for.

use vstd::prelude::*;
use crate::text::{
    is_white_space,    chars_of, lemma_strip_end_shape, lemma_strip_start_shape, string_of, strip, strip_end,
    strip_start, trim_chars, trim_underscores, trimmed,
};

verus! {

// ---------------------------------------------------------------- project names

pub open spec fn is_ascii_digit(c: char) -> bool {
    '0' <= c <= '9'
}

pub open spec fn is_ascii_alphanumeric(c: char) -> bool {
    ||| is_ascii_digit(c)
    ||| 'a' <= c <= 'z'
    ||| 'A' <= c <= 'Z'
}

/// What a character of a raw name becomes: kept when it is an ASCII letter,
/// an ASCII digit, `_` or `-`, an underscore otherwise.
pub open spec fn name_char(c: char) -> char {
    if is_ascii_alphanumeric(c) || c == '_' || c == '-' {
        c
    } else {
        '_'
    }
}

/// The lower-case form of an ASCII character.
pub open spec fn ascii_lower(c: char) -> char {
    if 'A' <= c <= 'Z' {
        ((c as int) + 32) as char
    } else {
        c
    }
}

/// The directory name made from a raw project name: trimmed of white space,
/// every character outside `[A-Za-z0-9_-]` turned into `_`, underscores
/// stripped from both ends, and upper-case letters lowered.
pub open spec fn sanitized(raw: Seq<char>) -> Seq<char> {
    strip(trimmed(raw).map_values(|c: char| name_char(c)), |c: char| c == '_').map_values(
        |c: char| ascii_lower(c),
    )
}

/// The characters a sanitized name is made of.
pub open spec fn is_project_name_char(c: char) -> bool {
    ||| is_ascii_digit(c)
    ||| 'a' <= c <= 'z'
    ||| c == '_'
    ||| c == '-'
}

fn keep_name_char(c: char) -> (out: char)
    ensures
        out == name_char(c),
{
    if ('0' <= c && c <= '9') || ('a' <= c && c <= 'z') || ('A' <= c && c <= 'Z') || c == '_' || c
        == '-' {
        c
    } else {
        '_'
    }
}

fn lower_char(c: char) -> (out: char)
    ensures
        out == ascii_lower(c),
{
    if 'A' <= c && c <= 'Z' {
        let b: u8 = c as u8 + 32;
        b as char
    } else {
        c
    }
}

/// Turns a raw project name into a directory name.
pub fn sanitize_name(raw: &str) -> (out: String)
    ensures
        out@ == sanitized(raw@),
{
    let chars = chars_of(raw);
    let trimmed_chars = trim_chars(&chars);
    let mut mapped: Vec<char> = Vec::new();
    for i in 0..trimmed_chars.len()
        invariant
            mapped@ == trimmed_chars@.take(i as int).map_values(|c: char| name_char(c)),
    {
        mapped.push(keep_name_char(trimmed_chars[i]));
        assert(trimmed_chars@.take(i + 1) == trimmed_chars@.take(i as int).push(trimmed_chars@[i as int]));
    }
    assert(trimmed_chars@.take(trimmed_chars.len() as int) == trimmed_chars@);
    let stripped = trim_underscores(&mapped);
    let mut lowered: Vec<char> = Vec::new();
    for i in 0..stripped.len()
        invariant
            lowered@ == stripped@.take(i as int).map_values(|c: char| ascii_lower(c)),
    {
        lowered.push(lower_char(stripped[i]));
        assert(stripped@.take(i + 1) == stripped@.take(i as int).push(stripped@[i as int]));
    }
    assert(stripped@.take(stripped.len() as int) == stripped@);
    string_of(&lowered)
}

/// A sanitized name is made of lower-case ASCII letters, ASCII digits, `_`
/// and `-` only, and neither starts nor ends with `_`.
pub proof fn sanitized_name_shape(raw: Seq<char>)
    ensures
        forall|i: int| 0 <= i < sanitized(raw).len() ==> is_project_name_char(#[trigger] sanitized(raw)[i]),
        sanitized(raw).len() > 0 ==> sanitized(raw)[0] != '_',
        sanitized(raw).len() > 0 ==> sanitized(raw).last() != '_',
{
    let under = |c: char| c == '_';
    let m = trimmed(raw).map_values(|c: char| name_char(c));
    let k1 = lemma_strip_start_shape(m, under);
    let t = strip_start(m, under);
    let k2 = lemma_strip_end_shape(t, under);
    let st = strip(m, under);
    assert(st == t.take(k2));
    assert(t == m.skip(k1));
    assert forall|i: int| 0 <= i < st.len() implies is_project_name_char(
        #[trigger] sanitized(raw)[i],
    ) by {
        assert(st[i] == m[k1 + i]);
    }
    if st.len() > 0 {
        assert(st[0] == t[0]);
        assert(st.last() == t[k2 - 1]);
    }
}

/// Sanitizing a name that was already sanitized changes nothing.
pub proof fn sanitize_is_idempotent(raw: Seq<char>)
    ensures
        sanitized(sanitized(raw)) == sanitized(raw),
{
    let y = sanitized(raw);
    sanitized_name_shape(raw);
    let white = |c: char| is_white_space(c);
    let under = |c: char| c == '_';
    // no white space at either end
    if y.len() > 0 {
        assert(!is_white_space(y[0])) by {
            assert(is_project_name_char(y[0]));
        }
        assert(!is_white_space(y.last())) by {
            assert(is_project_name_char(y[y.len() - 1]));
        }
    }
    assert(strip_start(y, white) == y);
    assert(strip_end(y, white) == y);
    assert(trimmed(y) == y);
    let m = y.map_values(|c: char| name_char(c));
    assert forall|i: int| 0 <= i < y.len() implies m[i] == y[i] by {
        assert(is_project_name_char(y[i]));
    }
    assert(m == y);
    assert(strip_start(y, under) == y);
    assert(strip_end(y, under) == y);
    let l = y.map_values(|c: char| ascii_lower(c));
    assert forall|i: int| 0 <= i < y.len() implies l[i] == y[i] by {
        assert(is_project_name_char(y[i]));
    }
    assert(l == y);
}

// ---------------------------------------------------------------- C++ standard

/// The ASCII digits of `s`, in order.
pub open spec fn ascii_digits(s: Seq<char>) -> Seq<char>
    decreases s.len(),
{
    if s.len() == 0 {
        s
    } else if is_ascii_digit(s.last()) {
        ascii_digits(s.drop_last()).push(s.last())
    } else {
        ascii_digits(s.drop_last())
    }
}

/// The number that a string of ASCII digits spells in base ten (0 for none).
pub open spec fn digits_value(d: Seq<char>) -> nat
    decreases d.len(),
{
    if d.len() == 0 {
        0
    } else {
        digits_value(d.drop_last()) * 10 + ((d.last() as int - 48) as nat)
    }
}

/// The values that CMAKE_CXX_STANDARD accepts.
pub open spec fn is_accepted_standard(n: nat) -> bool {
    n == 11 || n == 14 || n == 17 || n == 20 || n == 23 || n == 26
}

/// The C++ standard that a free-text value asks for: the number that its
/// ASCII digits spell, when CMake accepts it, and 17 otherwise.
pub open spec fn cpp_standard(value: Seq<char>) -> nat {
    let v = digits_value(ascii_digits(value));
    if is_accepted_standard(v) {
        v
    } else {
        17
    }
}

/// Reads the C++ standard out of a value such as `c++20` or `gnu++17`,
/// falling back to 17 where there is no number that CMake accepts.
pub fn parse_cpp_standard(value: &str) -> (n: u32)
    ensures
        n == cpp_standard(value@),
{
    let ghost s = value@;
    let mut acc: u64 = 0;
    let mut too_big = false;
    for c in it: value.chars()
        invariant
            it.seq() == s,
            !too_big ==> acc == digits_value(ascii_digits(s.take(it.index()))),
            !too_big ==> acc <= u32::MAX,
            too_big ==> digits_value(ascii_digits(s.take(it.index()))) > u32::MAX,
    {
        let ghost i = it.index();
        let ghost before = digits_value(ascii_digits(s.take(i)));
        assert(s.take(i + 1).drop_last() == s.take(i));
        assert(s.take(i + 1).last() == c);
        if '0' <= c && c <= '9' {
            assert(ascii_digits(s.take(i + 1)) == ascii_digits(s.take(i)).push(c));
            assert(ascii_digits(s.take(i)).push(c).drop_last() == ascii_digits(s.take(i)));
            if !too_big {
                let d: u64 = (c as u32 - 48) as u64;
                let next: u64 = acc * 10 + d;
                if next > 4294967295u64 {
                    too_big = true;
                } else {
                    acc = next;
                }
            }
        }
    }
    assert(s.take(s.len() as int) == s);
    if !too_big && (acc == 11 || acc == 14 || acc == 17 || acc == 20 || acc == 23 || acc == 26) {
        acc as u32
    } else {
        17
    }
}

/// Whatever the value, the standard read out of it is one that CMake accepts.
pub proof fn cpp_standard_is_accepted(value: Seq<char>)
    ensures
        is_accepted_standard(cpp_standard(value)),
{
}

/// `yes` or `no`, as the generated documents list a choice.
pub fn yes_no(flag: bool) -> (out: &'static str)
    ensures
        out@ == (if flag { "yes"@ } else { "no"@ }),
{
    if flag {
        "yes"
    } else {
        "no"
    }
}

} // verus!
