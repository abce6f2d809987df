//! Character-level text helpers shared by the generators: building strings,
//! trimming, decimal numbers, search and replacement, each with the
//! mathematical statement that it meets.

use vstd::prelude::*;

verus! {

// ---------------------------------------------------------------- strings

/// Appends one character to a string. This calls std's `String::push`; the
/// contract, which Verus takes on trust, is what its documentation says:
/// the character is added at the end and nothing else changes.
#[verifier::external_body]
pub(crate) fn push_char(s: &mut String, c: char)
    ensures
        final(s)@ == old(s)@.push(c),
{
    s.push(c);
}

/// The characters of `s`, in order.
pub fn chars_of(s: &str) -> (out: Vec<char>)
    ensures
        out@ == s@,
{
    let mut out: Vec<char> = Vec::new();
    for c in it: s.chars()
        invariant
            out@ == it.seq().take(it.index()),
            it.seq() == s@,
    {
        out.push(c);
    }
    out
}

/// A string holding exactly the characters of `cs`.
pub fn string_of(cs: &Vec<char>) -> (out: String)
    ensures
        out@ == cs@,
{
    let mut out = String::new();
    for i in 0..cs.len()
        invariant
            out@ == cs@.take(i as int),
    {
        push_char(&mut out, cs[i]);
        assert(cs@.take(i + 1) == cs@.take(i as int).push(cs@[i as int]));
    }
    assert(cs@.take(cs.len() as int) == cs@);
    out
}

// ---------------------------------------------------------------- whitespace

/// Unicode White_Space, the property that std's `char::is_whitespace` and
/// `str::trim` go by.
pub open spec fn is_white_space(c: char) -> bool {
    ||| '\t' <= c <= '\r'
    ||| c == ' '
    ||| c == '\u{85}'
    ||| c == '\u{a0}'
    ||| c == '\u{1680}'
    ||| '\u{2000}' <= c <= '\u{200a}'
    ||| c == '\u{2028}'
    ||| c == '\u{2029}'
    ||| c == '\u{202f}'
    ||| c == '\u{205f}'
    ||| c == '\u{3000}'
}

fn white_space(c: char) -> (b: bool)
    ensures
        b == is_white_space(c),
{
    ('\t' <= c && c <= '\r') || c == ' ' || c == '\u{85}' || c == '\u{a0}' || c == '\u{1680}'
        || ('\u{2000}' <= c && c <= '\u{200a}') || c == '\u{2028}' || c == '\u{2029}'
        || c == '\u{202f}' || c == '\u{205f}' || c == '\u{3000}'
}

/// `s` without the characters satisfying `f` at its start.
pub open spec fn strip_start(s: Seq<char>, f: spec_fn(char) -> bool) -> Seq<char>
    decreases s.len(),
{
    if s.len() > 0 && f(s[0]) {
        strip_start(s.drop_first(), f)
    } else {
        s
    }
}

/// `s` without the characters satisfying `f` at its end.
pub open spec fn strip_end(s: Seq<char>, f: spec_fn(char) -> bool) -> Seq<char>
    decreases s.len(),
{
    if s.len() > 0 && f(s.last()) {
        strip_end(s.drop_last(), f)
    } else {
        s
    }
}

/// `s` without the characters satisfying `f` at either end.
pub open spec fn strip(s: Seq<char>, f: spec_fn(char) -> bool) -> Seq<char> {
    strip_end(strip_start(s, f), f)
}

/// `s` without leading and trailing white space (std `str::trim`).
pub open spec fn trimmed(s: Seq<char>) -> Seq<char> {
    strip(s, |c: char| is_white_space(c))
}

pub proof fn lemma_strip_start_at(s: Seq<char>, f: spec_fn(char) -> bool, k: int)
    requires
        0 <= k <= s.len(),
        forall|i: int| 0 <= i < k ==> f(#[trigger] s[i]),
        k == s.len() || !f(s[k]),
    ensures
        strip_start(s, f) == s.skip(k),
    decreases k,
{
    if k == 0 {
        assert(s.skip(0) == s);
    } else {
        assert(f(s[0]));
        let t = s.drop_first();
        assert forall|i: int| 0 <= i < k - 1 implies f(#[trigger] t[i]) by {
            assert(t[i] == s[i + 1]);
        }
        lemma_strip_start_at(t, f, k - 1);
        assert(t.skip(k - 1) == s.skip(k));
    }
}

pub proof fn lemma_strip_end_at(s: Seq<char>, f: spec_fn(char) -> bool, k: int)
    requires
        0 <= k <= s.len(),
        forall|i: int| k <= i < s.len() ==> f(#[trigger] s[i]),
        k == 0 || !f(s[k - 1]),
    ensures
        strip_end(s, f) == s.take(k),
    decreases s.len() - k,
{
    if k == s.len() {
        assert(s.take(k) == s);
    } else {
        assert(f(s.last()));
        let t = s.drop_last();
        assert forall|i: int| k <= i < t.len() implies f(#[trigger] t[i]) by {
            assert(t[i] == s[i]);
        }
        lemma_strip_end_at(t, f, k);
        assert(t.take(k) == s.take(k));
    }
}

/// Stripping from the start drops exactly the leading run of characters
/// satisfying `f`; the length of that run is returned.
pub proof fn lemma_strip_start_shape(s: Seq<char>, f: spec_fn(char) -> bool) -> (k: int)
    ensures
        0 <= k <= s.len(),
        strip_start(s, f) == s.skip(k),
        forall|i: int| 0 <= i < k ==> f(#[trigger] s[i]),
        k == s.len() || !f(s[k]),
    decreases s.len(),
{
    if s.len() > 0 && f(s[0]) {
        let t = s.drop_first();
        let j = lemma_strip_start_shape(t, f);
        assert(t.skip(j) == s.skip(j + 1));
        assert forall|i: int| 0 <= i < j + 1 implies f(#[trigger] s[i]) by {
            if i > 0 {
                assert(s[i] == t[i - 1]);
            }
        }
        if j + 1 < s.len() {
            assert(s[j + 1] == t[j]);
        }
        j + 1
    } else {
        assert(s.skip(0) == s);
        0
    }
}

/// Stripping from the end keeps exactly the characters before the trailing
/// run of characters satisfying `f`; the length kept is returned.
pub proof fn lemma_strip_end_shape(s: Seq<char>, f: spec_fn(char) -> bool) -> (k: int)
    ensures
        0 <= k <= s.len(),
        strip_end(s, f) == s.take(k),
        forall|i: int| k <= i < s.len() ==> f(#[trigger] s[i]),
        k == 0 || !f(s[k - 1]),
    decreases s.len(),
{
    if s.len() > 0 && f(s.last()) {
        let t = s.drop_last();
        let j = lemma_strip_end_shape(t, f);
        assert(t.take(j) == s.take(j));
        assert forall|i: int| j <= i < s.len() implies f(#[trigger] s[i]) by {
            if i < s.len() - 1 {
                assert(s[i] == t[i]);
            }
        }
        if j > 0 {
            assert(s[j - 1] == t[j - 1]);
        }
        j
    } else {
        assert(s.take(s.len() as int) == s);
        s.len() as int
    }
}

/// White space when `white`, the underscore otherwise.
spec fn edge_pred(white: bool) -> spec_fn(char) -> bool {
    if white {
        |c: char| is_white_space(c)
    } else {
        |c: char| c == '_'
    }
}

fn is_edge(c: char, white: bool) -> (b: bool)
    ensures
        b == edge_pred(white)(c),
{
    if white {
        white_space(c)
    } else {
        c == '_'
    }
}

/// `s` without the characters at either end that are white space (when
/// `white`) or underscores (otherwise).
fn strip_range(s: &Vec<char>, white: bool) -> (out: Vec<char>)
    ensures
        white ==> out@ == trimmed(s@),
        !white ==> out@ == strip(s@, |c: char| c == '_'),
{
    let ghost f = edge_pred(white);
    let n = s.len();
    let mut start: usize = 0;
    while start < n && is_edge(s[start], white)
        invariant
            start <= n == s@.len(),
            f == edge_pred(white),
            forall|i: int| 0 <= i < start ==> f(#[trigger] s@[i]),
        decreases n - start,
    {
        start = start + 1;
    }
    proof {
        lemma_strip_start_at(s@, f, start as int);
    }
    let ghost rest = s@.skip(start as int);
    let mut end: usize = n;
    while end > start && is_edge(s[end - 1], white)
        invariant
            start <= end <= n == s@.len(),
            rest == s@.skip(start as int),
            f == edge_pred(white),
            forall|i: int| end - start <= i < rest.len() ==> f(#[trigger] rest[i]),
        decreases end,
    {
        assert(rest[end - 1 - start] == s@[end - 1]);
        end = end - 1;
    }
    proof {
        if end > start {
            assert(rest[end - 1 - start] == s@[end - 1]);
        }
        lemma_strip_end_at(rest, f, end - start);
    }
    let mut out: Vec<char> = Vec::new();
    let mut i: usize = start;
    while i < end
        invariant
            start <= i <= end <= n == s@.len(),
            out@ == s@.subrange(start as int, i as int),
        decreases end - i,
    {
        out.push(s[i]);
        i = i + 1;
    }
    assert(out@ == rest.take(end - start));
    out
}

/// The characters of `s` without leading and trailing white space.
pub fn trim_chars(s: &Vec<char>) -> (out: Vec<char>)
    ensures
        out@ == trimmed(s@),
{
    strip_range(s, true)
}

/// The characters of `s` without leading and trailing underscores.
pub fn trim_underscores(s: &Vec<char>) -> (out: Vec<char>)
    ensures
        out@ == strip(s@, |c: char| c == '_'),
{
    strip_range(s, false)
}

// ---------------------------------------------------------------- numbers

/// The ASCII digit for `d < 10`.
pub open spec fn digit_char(d: nat) -> char {
    (48 + d) as char
}

/// The decimal numeral of `n`, without sign or leading zeros, as std's
/// `Display` writes an unsigned integer.
pub open spec fn decimal(n: nat) -> Seq<char>
    decreases n,
{
    if n < 10 {
        seq![digit_char(n)]
    } else {
        decimal(n / 10).push(digit_char(n % 10))
    }
}

fn digit(d: u32) -> (c: char)
    requires
        d < 10,
    ensures
        c == digit_char(d as nat),
{
    let b: u8 = 48u8 + d as u8;
    b as char
}

/// The decimal numeral of `n`.
pub fn decimal_string(n: u32) -> (out: String)
    ensures
        out@ == decimal(n as nat),
    decreases n,
{
    if n < 10 {
        let mut out = String::new();
        push_char(&mut out, digit(n));
        assert(out@ == seq![digit_char(n as nat)]);
        out
    } else {
        let mut out = decimal_string(n / 10);
        push_char(&mut out, digit(n % 10));
        out
    }
}

// ---------------------------------------------------------------- search and replace

/// `sub` occurs in `s` as a contiguous run of characters.
pub open spec fn contains(s: Seq<char>, sub: Seq<char>) -> bool {
    exists|i: int| 0 <= i && i + sub.len() <= s.len() && #[trigger] s.subrange(i, i + sub.len()) == sub
}

/// A run found at index `i` is contained.
pub proof fn lemma_contains_at(s: Seq<char>, sub: Seq<char>, i: int)
    requires
        0 <= i,
        i + sub.len() <= s.len(),
        s.subrange(i, i + sub.len()) == sub,
    ensures
        contains(s, sub),
{
}

/// Containment survives putting text around.
pub proof fn lemma_contains_within(a: Seq<char>, s: Seq<char>, b: Seq<char>, sub: Seq<char>)
    requires
        contains(s, sub),
    ensures
        contains(a + s + b, sub),
{
    let i = choose|i: int| 0 <= i && i + sub.len() <= s.len() && #[trigger] s.subrange(i, i + sub.len()) == sub;
    let t = a + s + b;
    assert(t.subrange(a.len() + i, a.len() + i + sub.len()) == s.subrange(i, i + sub.len()));
}

/// Every text contains itself.
pub proof fn lemma_contains_self(s: Seq<char>)
    ensures
        contains(s, s),
{
    assert(s.subrange(0, s.len() as int) == s);
    lemma_contains_at(s, s, 0);
}

/// A text contains its end.
pub proof fn lemma_contains_suffix(x: Seq<char>, a: Seq<char>)
    ensures
        contains(x + a, a),
{
    assert((x + a).subrange(x.len() as int, (x.len() + a.len()) as int) == a);
    lemma_contains_at(x + a, a, x.len() as int);
}

/// A text contains its last two pieces together.
pub proof fn lemma_contains_suffix_pair(x: Seq<char>, a: Seq<char>, b: Seq<char>)
    ensures
        contains(x + a + b, a + b),
{
    assert((x + a + b).subrange(x.len() as int, (x.len() + a.len() + b.len()) as int) == a + b);
    lemma_contains_at(x + a + b, a + b, x.len() as int);
}

/// A text contains its last three pieces together.
pub proof fn lemma_contains_suffix_triple(x: Seq<char>, a: Seq<char>, b: Seq<char>, c: Seq<char>)
    ensures
        contains(x + a + b + c, a + b + c),
{
    assert((x + a + b + c).subrange(x.len() as int, (x.len() + a.len() + b.len() + c.len()) as int) == a + b + c);
    lemma_contains_at(x + a + b + c, a + b + c, x.len() as int);
}

/// Containment survives appending text.
pub proof fn lemma_contains_extend(s: Seq<char>, t: Seq<char>, sub: Seq<char>)
    requires
        contains(s, sub),
    ensures
        contains(s + t, sub),
{
    let i = choose|i: int| 0 <= i && i + sub.len() <= s.len() && #[trigger] s.subrange(i, i + sub.len()) == sub;
    assert((s + t).subrange(i, i + sub.len()) == s.subrange(i, i + sub.len()));
    lemma_contains_at(s + t, sub, i);
}

/// A text contains each of its parts.
pub proof fn lemma_contains_part(a: Seq<char>, s: Seq<char>, b: Seq<char>)
    ensures
        contains(a + s + b, s),
{
    lemma_contains_self(s);
    lemma_contains_within(a, s, b, s);
}

/// Containment is transitive.
pub proof fn lemma_contains_trans(s: Seq<char>, mid: Seq<char>, sub: Seq<char>)
    requires
        contains(s, mid),
        contains(mid, sub),
    ensures
        contains(s, sub),
{
    let i = choose|i: int| 0 <= i && i + mid.len() <= s.len() && #[trigger] s.subrange(i, i + mid.len()) == mid;
    let j = choose|j: int| 0 <= j && j + sub.len() <= mid.len() && #[trigger] mid.subrange(j, j + sub.len()) == sub;
    assert(s.subrange(i + j, i + j + sub.len()) == mid.subrange(j, j + sub.len()));
    lemma_contains_at(s, sub, i + j);
}

/// The character `c` does not occur in `s`.
pub open spec fn lacks(s: Seq<char>, c: char) -> bool {
    forall|i: int| 0 <= i < s.len() ==> s[i] != c
}

/// A character missing from two texts is missing from the two together.
pub proof fn lemma_lacks_concat(a: Seq<char>, b: Seq<char>, c: char)
    requires
        lacks(a, c),
        lacks(b, c),
    ensures
        lacks(a + b, c),
{
    assert forall|i: int| 0 <= i < (a + b).len() implies (a + b)[i] != c by {
        if i >= a.len() {
            assert((a + b)[i] == b[i - a.len()]);
        }
    }
}

/// The character `c` is never directly followed by `d` in `s`.
pub open spec fn lacks_pair(s: Seq<char>, c: char, d: char) -> bool {
    forall|i: int| 0 <= i && i + 1 < s.len() ==> !(#[trigger] s[i] == c && s[i + 1] == d)
}

/// Text in which `c` never occurs, followed by text in which `c` is never
/// followed by `d`, has no `c` followed by `d`.
pub proof fn lemma_lacks_pair_concat(a: Seq<char>, b: Seq<char>, c: char, d: char)
    requires
        lacks(a, c),
        lacks_pair(b, c, d),
    ensures
        lacks_pair(a + b, c, d),
{
    assert forall|i: int| 0 <= i && i + 1 < (a + b).len() implies !(#[trigger] (a + b)[i] == c && (a + b)[i + 1] == d) by {
        if i >= a.len() {
            assert((a + b)[i] == b[i - a.len()]);
            assert((a + b)[i + 1] == b[i + 1 - a.len()]);
        }
    }
}

/// A text without `d` has no `c` followed by `d`, and does not start with `d`.
pub proof fn lemma_lacks_gives_pair(s: Seq<char>, c: char, d: char)
    requires
        lacks(s, d),
    ensures
        lacks_pair(s, c, d),
        s.len() == 0 || s[0] != d,
{
}

/// Two texts with no `c` followed by `d` have none together either, unless
/// the first ends with `c` and the second starts with `d`.
pub proof fn lemma_lacks_pair_join(a: Seq<char>, b: Seq<char>, c: char, d: char)
    requires
        lacks_pair(a, c, d),
        lacks_pair(b, c, d),
        a.len() == 0 || b.len() == 0 || a.last() != c || b[0] != d,
    ensures
        lacks_pair(a + b, c, d),
{
    assert forall|i: int| 0 <= i && i + 1 < (a + b).len() implies !(#[trigger] (a + b)[i] == c && (a + b)[i + 1] == d) by {
        if i >= a.len() {
            assert((a + b)[i] == b[i - a.len()]);
            assert((a + b)[i + 1] == b[i + 1 - a.len()]);
        } else if i + 1 == a.len() {
            assert((a + b)[i] == a.last());
            assert((a + b)[i + 1] == b[0]);
        } else {
            assert((a + b)[i] == a[i]);
            assert((a + b)[i + 1] == a[i + 1]);
        }
    }
}

/// An occurrence of `h` in `a + n + b`, where `h` holds neither the last
/// character of `a` nor the first of `b`, lies wholly in `a`, in `n` or in
/// `b`.
pub proof fn lemma_contains_around(a: Seq<char>, n: Seq<char>, b: Seq<char>, h: Seq<char>)
    requires
        a.len() > 0,
        b.len() > 0,
        lacks(h, a.last()),
        lacks(h, b[0]),
        contains(a + n + b, h),
    ensures
        contains(a, h) || contains(n, h) || contains(b, h),
{
    let t = a + n + b;
    let len = h.len() as int;
    let i = choose|i: int| 0 <= i && i + h.len() <= t.len() && #[trigger] t.subrange(i, i + h.len()) == h;
    let w = t.subrange(i, i + len);
    let la = a.len() as int;
    let ln = n.len() as int;
    if i <= la - 1 && la - 1 < i + len {
        assert(w[la - 1 - i] == t[la - 1]);
        assert(t[la - 1] == a.last());
        assert(h[la - 1 - i] == a.last());
    } else if i <= la + ln && la + ln < i + len {
        assert(w[la + ln - i] == t[la + ln]);
        assert(t[la + ln] == b[0]);
        assert(h[la + ln - i] == b[0]);
    } else if i + len <= la - 1 {
        assert(a.subrange(i, i + len) == w);
        lemma_contains_at(a, h, i);
    } else if i + len <= la + ln {
        assert(n.subrange(i - la, i - la + len) == w);
        lemma_contains_at(n, h, i - la);
    } else {
        assert(b.subrange(i - la - ln, i - la - ln + len) == w);
        lemma_contains_at(b, h, i - la - ln);
    }
}

/// `h` is not in `x + m + y` when its pair of characters at `k` occurs in
/// neither `x` nor `y` nor across their ends, and at each place where the
/// pair occurs in `m`, the text of `m` around it differs from `h`.
pub proof fn lemma_anchor_not_contains(x: Seq<char>, m: Seq<char>, y: Seq<char>, h: Seq<char>, k: int)
    requires
        0 <= k && k + 1 < h.len(),
        m.len() > 0,
        lacks_pair(x, h[k], h[k + 1]),
        lacks_pair(y, h[k], h[k + 1]),
        x.len() == 0 || x.last() != h[k] || m[0] != h[k + 1],
        y.len() == 0 || m.last() != h[k] || y[0] != h[k + 1],
        forall|j: int|
            0 <= j && j + 1 < m.len() && #[trigger] m[j] == h[k] && m[j + 1] == h[k + 1] ==> 0 <= j - k
                && j - k + h.len() <= m.len() && m.subrange(j - k, j - k + h.len()) != h,
    ensures
        !contains(x + m + y, h),
{
    let t = x + m + y;
    if contains(t, h) {
        let len = h.len() as int;
        let i = choose|i: int| 0 <= i && i + h.len() <= t.len() && #[trigger] t.subrange(i, i + h.len()) == h;
        let w = t.subrange(i, i + len);
        let p = i + k;
        assert(t[p] == h[k] && t[p + 1] == h[k + 1]) by {
            assert(w[k] == t[p]);
            assert(w[k + 1] == t[p + 1]);
        }
        let lx = x.len() as int;
        let lm = m.len() as int;
        if p + 1 < lx {
            assert(t[p] == x[p] && t[p + 1] == x[p + 1]);
        } else if p + 1 == lx {
            assert(t[p] == x.last() && t[p + 1] == m[0]);
        } else if p + 1 < lx + lm {
            let j = p - lx;
            assert(m[j] == t[p] && m[j + 1] == t[p + 1]);
            assert(m.subrange(j - k, j - k + len) == w);
        } else if p + 1 == lx + lm {
            assert(t[p] == m.last() && t[p + 1] == y[0]);
        } else {
            let j = p - lx - lm;
            assert(y[j] == t[p] && y[j + 1] == t[p + 1]);
        }
    }
}

/// A text in which `c` is never followed by `d` does not contain a `sub`
/// in which it is.
pub proof fn lemma_lacks_pair_not_contains(s: Seq<char>, sub: Seq<char>, k: int)
    requires
        0 <= k && k + 1 < sub.len(),
        lacks_pair(s, sub[k], sub[k + 1]),
    ensures
        !contains(s, sub),
{
    if contains(s, sub) {
        let i = choose|i: int| 0 <= i && i + sub.len() <= s.len() && #[trigger] s.subrange(i, i + sub.len()) == sub;
        assert(s.subrange(i, i + sub.len())[k] == s[i + k]);
        assert(s.subrange(i, i + sub.len())[k + 1] == s[i + k + 1]);
    }
}

/// A decimal numeral holds digits only.
pub proof fn lemma_decimal_lacks(n: nat, c: char)
    requires
        (c as int) < 48 || (c as int) > 57,
    ensures
        lacks(decimal(n), c),
    decreases n,
{
    if n < 10 {
        assert(decimal(n)[0] == digit_char(n));
        assert((digit_char(n) as int) == 48 + n);
    } else {
        lemma_decimal_lacks(n / 10, c);
        assert((digit_char(n % 10) as int) == 48 + n % 10);
        assert forall|i: int| 0 <= i < decimal(n).len() implies decimal(n)[i] != c by {
            if i < decimal(n / 10).len() {
                assert(decimal(n)[i] == decimal(n / 10)[i]);
            }
        }
    }
}

/// A text that lacks one of the characters of `sub` does not contain `sub`.
pub proof fn lemma_lacks_not_contains(s: Seq<char>, sub: Seq<char>, k: int)
    requires
        0 <= k < sub.len(),
        lacks(s, sub[k]),
    ensures
        !contains(s, sub),
{
    if contains(s, sub) {
        let i = choose|i: int| 0 <= i && i + sub.len() <= s.len() && #[trigger] s.subrange(i, i + sub.len()) == sub;
        assert(s.subrange(i, i + sub.len())[k] == s[i + k]);
    }
}

/// `s` with every occurrence of `p` replaced by `r`, scanning from the left
/// and never overlapping (std `str::replace`, for a nonempty `p`).
pub open spec fn replaced(s: Seq<char>, p: Seq<char>, r: Seq<char>) -> Seq<char>
    decreases s.len(),
{
    if s.len() == 0 || p.len() == 0 {
        s
    } else if p.is_prefix_of(s) {
        r + replaced(s.skip(p.len() as int), p, r)
    } else {
        seq![s[0]] + replaced(s.drop_first(), p, r)
    }
}

/// Whether `p` occurs in `s` at index `i`.
fn occurs_at(s: &Vec<char>, i: usize, p: &Vec<char>) -> (b: bool)
    requires
        i <= s.len(),
    ensures
        b == p@.is_prefix_of(s@.skip(i as int)),
{
    if p.len() > s.len() - i {
        return false;
    }
    let mut j: usize = 0;
    while j < p.len()
        invariant
            j <= p.len() <= s.len() - i,
            forall|k: int| 0 <= k < j ==> p@[k] == s@[i + k],
        decreases p.len() - j,
    {
        if p[j] != s[i + j] {
            assert(s@.skip(i as int).subrange(0, p.len() as int)[j as int] == s@[i + j]);
            return false;
        }
        j = j + 1;
    }
    assert(p@ =~= s@.skip(i as int).subrange(0, p.len() as int));
    true
}

/// `text` with every occurrence of `pat` replaced by `with`.
pub fn replace_all(text: &Vec<char>, pat: &Vec<char>, with: &Vec<char>) -> (out: Vec<char>)
    requires
        pat.len() > 0,
    ensures
        out@ == replaced(text@, pat@, with@),
{
    let n = text.len();
    let mut out: Vec<char> = Vec::new();
    let mut i: usize = 0;
    assert(text@.skip(0) == text@);
    while i < n
        invariant
            i <= n == text@.len(),
            pat@.len() > 0,
            replaced(text@, pat@, with@) == out@ + replaced(text@.skip(i as int), pat@, with@),
        decreases n - i,
    {
        let ghost rest = text@.skip(i as int);
        if occurs_at(text, i, pat) {
            let mut k: usize = 0;
            let ghost before = out@;
            while k < with.len()
                invariant
                    k <= with.len(),
                    out@ == before + with@.take(k as int),
                decreases with.len() - k,
            {
                out.push(with[k]);
                k = k + 1;
                assert(with@.take(k as int) == with@.take(k - 1).push(with@[k - 1]));
            }
            assert(with@.take(with.len() as int) == with@);
            assert(rest.skip(pat@.len() as int) == text@.skip(i + pat.len()));
            i = i + pat.len();
        } else {
            out.push(text[i]);
            assert(rest.drop_first() == text@.skip(i + 1));
            assert(seq![text@[i as int]] == seq![rest[0]]);
            i = i + 1;
        }
    }
    assert(text@.skip(n as int).len() == 0);
    out
}

/// Replacement leaves alone text in which the pattern's first character does
/// not occur.
pub proof fn lemma_replaced_untouched(s: Seq<char>, p: Seq<char>, r: Seq<char>)
    requires
        p.len() > 0,
        forall|i: int| 0 <= i < s.len() ==> s[i] != p[0],
    ensures
        replaced(s, p, r) == s,
    decreases s.len(),
{
    if s.len() > 0 {
        assert(!p.is_prefix_of(s)) by {
            if p.is_prefix_of(s) {
                assert(s.subrange(0, p.len() as int)[0] == s[0]);
            }
        }
        let t = s.drop_first();
        lemma_replaced_untouched(t, p, r);
        assert(seq![s[0]] + t == s);
    }
}

/// Replacement splits at a point that no occurrence of the pattern straddles:
/// here, one after which the pattern's last character does not come soon
/// enough to end a straddling occurrence.
pub proof fn lemma_replaced_split(a: Seq<char>, b: Seq<char>, p: Seq<char>, r: Seq<char>)
    requires
        p.len() > 0,
        forall|j: int| 0 <= j < b.len() && j < p.len() ==> b[j] != p.last(),
    ensures
        replaced(a + b, p, r) == replaced(a, p, r) + replaced(b, p, r),
    decreases a.len(),
{
    let s = a + b;
    if a.len() == 0 {
        assert(s == b);
        assert(replaced(a, p, r) == a);
    } else if p.is_prefix_of(s) {
        if p.len() > a.len() {
            let j = p.len() - 1 - a.len();
            assert(s.subrange(0, p.len() as int)[p.len() - 1] == s[p.len() - 1]);
            assert(s[p.len() - 1] == b[j]);
            assert(false);
        }
        assert(p.is_prefix_of(a)) by {
            assert(a.subrange(0, p.len() as int) == s.subrange(0, p.len() as int));
        }
        let a2 = a.skip(p.len() as int);
        assert(s.skip(p.len() as int) == a2 + b);
        lemma_replaced_split(a2, b, p, r);
    } else {
        assert(!p.is_prefix_of(a)) by {
            if p.is_prefix_of(a) {
                assert(a.subrange(0, p.len() as int) == s.subrange(0, p.len() as int));
            }
        }
        let a2 = a.drop_first();
        assert(s.drop_first() == a2 + b);
        assert(s[0] == a[0]);
        lemma_replaced_split(a2, b, p, r);
    }
}

/// Replacement splits at a point that no occurrence of the pattern
/// straddles: here, one shortly before which the pattern's first character
/// does not come, so no occurrence can start there and run past it.
pub proof fn lemma_replaced_split_left(a: Seq<char>, b: Seq<char>, p: Seq<char>, r: Seq<char>)
    requires
        p.len() > 0,
        forall|j: int| 0 <= j < a.len() && a.len() - j < p.len() ==> a[j] != p[0],
    ensures
        replaced(a + b, p, r) == replaced(a, p, r) + replaced(b, p, r),
    decreases a.len(),
{
    let s = a + b;
    if a.len() == 0 {
        assert(s == b);
        assert(replaced(a, p, r) == a);
    } else if p.is_prefix_of(s) {
        assert(s.subrange(0, p.len() as int)[0] == s[0]);
        if p.len() > a.len() {
            assert(a[0] != p[0]);
            assert(false);
        }
        assert(p.is_prefix_of(a)) by {
            assert(a.subrange(0, p.len() as int) == s.subrange(0, p.len() as int));
        }
        let a2 = a.skip(p.len() as int);
        assert(s.skip(p.len() as int) == a2 + b);
        assert forall|j: int| 0 <= j < a2.len() && a2.len() - j < p.len() implies a2[j] != p[0] by {
            assert(a2[j] == a[j + p.len()]);
        }
        lemma_replaced_split_left(a2, b, p, r);
    } else {
        assert(!p.is_prefix_of(a)) by {
            if p.is_prefix_of(a) {
                assert(a.subrange(0, p.len() as int) == s.subrange(0, p.len() as int));
            }
        }
        let a2 = a.drop_first();
        assert(s.drop_first() == a2 + b);
        assert(s[0] == a[0]);
        assert forall|j: int| 0 <= j < a2.len() && a2.len() - j < p.len() implies a2[j] != p[0] by {
            assert(a2[j] == a[j + 1]);
        }
        lemma_replaced_split_left(a2, b, p, r);
    }
}

/// Replacement splits at a point that no occurrence of the pattern
/// straddles.
pub proof fn lemma_replaced_split_at(a: Seq<char>, b: Seq<char>, p: Seq<char>, r: Seq<char>)
    requires
        p.len() > 0,
        forall|i: int|
            0 <= i < a.len() && a.len() < i + p.len() && i + p.len() <= a.len() + b.len()
                ==> #[trigger] (a + b).subrange(i, i + p.len()) != p,
    ensures
        replaced(a + b, p, r) == replaced(a, p, r) + replaced(b, p, r),
    decreases a.len(),
{
    let s = a + b;
    if a.len() == 0 {
        assert(s == b);
        assert(replaced(a, p, r) == a);
    } else if p.is_prefix_of(s) {
        if p.len() > a.len() {
            let i = 0int;
            assert((a + b).subrange(i, i + p.len()) == s.subrange(0, p.len() as int));
            assert(false);
        }
        assert(p.is_prefix_of(a)) by {
            assert(a.subrange(0, p.len() as int) == s.subrange(0, p.len() as int));
        }
        let a2 = a.skip(p.len() as int);
        assert(s.skip(p.len() as int) == a2 + b);
        assert forall|i: int|
            0 <= i < a2.len() && a2.len() < i + p.len() && i + p.len() <= a2.len() + b.len()
                implies #[trigger] (a2 + b).subrange(i, i + p.len()) != p by {
            assert((a2 + b).subrange(i, i + p.len()) == s.subrange(i + p.len(), i + p.len() + p.len()));
            assert(s.subrange(i + p.len(), i + p.len() + p.len()) != p);
        }
        lemma_replaced_split_at(a2, b, p, r);
    } else {
        assert(!p.is_prefix_of(a)) by {
            if p.is_prefix_of(a) {
                assert(a.subrange(0, p.len() as int) == s.subrange(0, p.len() as int));
            }
        }
        let a2 = a.drop_first();
        assert(s.drop_first() == a2 + b);
        assert(s[0] == a[0]);
        assert forall|i: int|
            0 <= i < a2.len() && a2.len() < i + p.len() && i + p.len() <= a2.len() + b.len()
                implies #[trigger] (a2 + b).subrange(i, i + p.len()) != p by {
            assert((a2 + b).subrange(i, i + p.len()) == s.subrange(i + 1, i + 1 + p.len()));
            assert(s.subrange(i + 1, i + 1 + p.len()) != p);
        }
        lemma_replaced_split_at(a2, b, p, r);
    }
}

/// Replacement leaves a long enough stretch without the pattern's first and
/// last characters at the end as it is.
pub proof fn lemma_replaced_append_barrier(x: Seq<char>, s: Seq<char>, p: Seq<char>, r: Seq<char>)
    requires
        p.len() > 0,
        s.len() >= p.len(),
        forall|i: int| 0 <= i < s.len() ==> s[i] != p[0] && s[i] != p.last(),
    ensures
        replaced(x + s, p, r) == replaced(x, p, r) + s,
{
    let empty = Seq::<char>::empty();
    lemma_replaced_barrier(x, s, empty, p, r);
    assert(x + s + empty == x + s);
    assert(replaced(empty, p, r) == empty);
    assert(replaced(x, p, r) + s + empty == replaced(x, p, r) + s);
}

/// Replacement handles what follows such a stretch on its own.
pub proof fn lemma_replaced_after_barrier(x: Seq<char>, s: Seq<char>, y: Seq<char>, p: Seq<char>, r: Seq<char>)
    requires
        p.len() > 0,
        s.len() >= p.len(),
        forall|i: int| 0 <= i < s.len() ==> s[i] != p[0] && s[i] != p.last(),
    ensures
        replaced(x + s + y, p, r) == replaced(x + s, p, r) + replaced(y, p, r),
{
    lemma_replaced_barrier(x, s, y, p, r);
    lemma_replaced_append_barrier(x, s, p, r);
}

/// Replacement leaves alone a stretch in which neither the pattern's first
/// nor its last character occurs, provided it is at least as long as the
/// pattern: no occurrence can reach into it, and what stands on either side
/// is replaced on its own.
pub proof fn lemma_replaced_barrier(a: Seq<char>, s: Seq<char>, b: Seq<char>, p: Seq<char>, r: Seq<char>)
    requires
        p.len() > 0,
        s.len() >= p.len(),
        forall|i: int| 0 <= i < s.len() ==> s[i] != p[0] && s[i] != p.last(),
    ensures
        replaced(a + s + b, p, r) == replaced(a, p, r) + s + replaced(b, p, r),
{
    let a_s = a + s;
    assert forall|j: int| 0 <= j < a_s.len() && a_s.len() - j < p.len() implies a_s[j] != p[0] by {
        assert(a_s[j] == s[j - a.len()]);
    }
    lemma_replaced_split_left(a_s, b, p, r);
    lemma_replaced_split(a, s, p, r);
    lemma_replaced_untouched(s, p, r);
}

/// Replacement leaves alone text in which the pattern's first character is
/// never followed by its second one.
pub proof fn lemma_replaced_absent(s: Seq<char>, p: Seq<char>, r: Seq<char>)
    requires
        p.len() >= 2,
        forall|i: int|
            0 <= i < s.len() && #[trigger] s[i] == p[0] ==> i + p.len() > s.len() || s[i + 1] != p[1],
    ensures
        replaced(s, p, r) == s,
    decreases s.len(),
{
    if s.len() > 0 {
        assert(!p.is_prefix_of(s)) by {
            if p.is_prefix_of(s) {
                assert(s.subrange(0, p.len() as int)[0] == s[0]);
                assert(s.subrange(0, p.len() as int)[1] == s[1]);
            }
        }
        let t = s.drop_first();
        assert forall|i: int| 0 <= i < t.len() && #[trigger] t[i] == p[0] implies i + p.len() > t.len()
            || t[i + 1] != p[1] by {
            assert(t[i] == s[i + 1]);
            if i + 1 < t.len() {
                assert(t[i + 1] == s[i + 2]);
            }
        }
        lemma_replaced_absent(t, p, r);
        assert(seq![s[0]] + t == s);
    }
}

/// Replacement leaves alone text that does not contain the pattern.
pub proof fn lemma_replaced_missing(s: Seq<char>, p: Seq<char>, r: Seq<char>)
    requires
        p.len() > 0,
        !contains(s, p),
    ensures
        replaced(s, p, r) == s,
    decreases s.len(),
{
    if s.len() > 0 {
        if p.is_prefix_of(s) {
            lemma_contains_at(s, p, 0);
        }
        let t = s.drop_first();
        if contains(t, p) {
            let i = choose|i: int| 0 <= i && i + p.len() <= t.len() && #[trigger] t.subrange(i, i + p.len()) == p;
            assert(s.subrange(i + 1, i + 1 + p.len()) == t.subrange(i, i + p.len()));
            lemma_contains_at(s, p, i + 1);
        }
        lemma_replaced_missing(t, p, r);
        assert(seq![s[0]] + t == s);
    }
}

/// Text that starts with the pattern has it replaced first.
pub proof fn lemma_replaced_leading(p: Seq<char>, b: Seq<char>, r: Seq<char>)
    requires
        p.len() > 0,
    ensures
        replaced(p + b, p, r) == r + replaced(b, p, r),
{
    assert((p + b).subrange(0, p.len() as int) == p);
    assert((p + b).skip(p.len() as int) == b);
}

/// Replacing a pattern in text that is exactly the pattern gives the
/// replacement.
pub proof fn lemma_replaced_whole(p: Seq<char>, r: Seq<char>)
    requires
        p.len() > 0,
    ensures
        replaced(p, p, r) == r,
{
    assert(p.is_prefix_of(p)) by {
        assert(p.subrange(0, p.len() as int) == p);
    }
    let rest = p.skip(p.len() as int);
    assert(rest.len() == 0);
    assert(replaced(rest, p, r) == rest);
    assert(rest == Seq::<char>::empty());
    assert(r + rest == r);
}

} // verus!
