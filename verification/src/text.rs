//! Character-level building blocks: conversion between strings and character
//! vectors, Unicode whitespace, trimming, line splitting and substring search.
//!
//! Every function is specified over `Seq<char>`, the view of `str` and `String`.

use vstd::prelude::*;

verus! {

/// `String::push` appends exactly the given character to the end of the string.
pub assume_specification[ String::push ](s: &mut String, c: char)
    ensures
        final(s)@ == old(s)@.push(c),
;

/// The characters of `s`, in order.
pub fn chars_of(s: &str) -> (out: Vec<char>)
    ensures
        out@ == s@,
{
    let mut out: Vec<char> = Vec::new();
    for c in it: s.chars()
        invariant
            out@ == it.seq().take(it.index()),
    {
        out.push(c);
    }
    out
}

/// The string whose characters are `chars[from..to]`.
pub fn string_of_range(chars: &Vec<char>, from: usize, to: usize) -> (out: String)
    requires
        from <= to <= chars.len(),
    ensures
        out@ == chars@.subrange(from as int, to as int),
{
    let mut out = String::new();
    let mut i: usize = from;
    while i < to
        invariant
            from <= i <= to <= chars.len(),
            out@ == chars@.subrange(from as int, i as int),
        decreases to - i,
    {
        out.push(chars[i]);
        i += 1;
    }
    out
}

/// The string whose characters are `chars`.
pub fn string_of(chars: &Vec<char>) -> (out: String)
    ensures
        out@ == chars@,
{
    let out = string_of_range(chars, 0, chars.len());
    assert(chars@.subrange(0, chars.len() as int) == chars@);
    out
}

/// Appends the characters of `s` to `out`.
pub fn push_str(out: &mut Vec<char>, s: &str)
    ensures
        final(out)@ == old(out)@ + s@,
{
    let ghost before = out@;
    for c in it: s.chars()
        invariant
            out@ == before + it.seq().take(it.index()),
    {
        out.push(c);
    }
}

/// Appends `chars[from..to]` to `out`.
pub fn push_range(out: &mut Vec<char>, chars: &Vec<char>, from: usize, to: usize)
    requires
        from <= to <= chars.len(),
    ensures
        final(out)@ == old(out)@ + chars@.subrange(from as int, to as int),
{
    let ghost before = out@;
    let mut i: usize = from;
    while i < to
        invariant
            from <= i <= to <= chars.len(),
            out@ == before + chars@.subrange(from as int, i as int),
        decreases to - i,
    {
        out.push(chars[i]);
        i += 1;
    }
}

/// Whether `c` has the Unicode `White_Space` property, the class that
/// `char::is_whitespace` and `str::trim` use.
pub open spec fn is_space(c: char) -> bool {
    let u = c as u32;
    ||| 0x09 <= u <= 0x0D
    ||| u == 0x20
    ||| u == 0x85
    ||| u == 0xA0
    ||| u == 0x1680
    ||| 0x2000 <= u <= 0x200A
    ||| u == 0x2028
    ||| u == 0x2029
    ||| u == 0x202F
    ||| u == 0x205F
    ||| u == 0x3000
}

/// Whether `c` is whitespace.
pub fn is_whitespace(c: char) -> (r: bool)
    ensures
        r == is_space(c),
{
    let u: u32 = c as u32;
    (0x09 <= u && u <= 0x0D) || u == 0x20 || u == 0x85 || u == 0xA0 || u == 0x1680 || (0x2000 <= u
        && u <= 0x200A) || u == 0x2028 || u == 0x2029 || u == 0x202F || u == 0x205F || u == 0x3000
}

/// `s` without its leading whitespace.
pub open spec fn trim_start(s: Seq<char>) -> Seq<char>
    decreases s.len(),
{
    if s.len() > 0 && is_space(s[0]) {
        trim_start(s.subrange(1, s.len() as int))
    } else {
        s
    }
}

/// `s` without its trailing whitespace.
pub open spec fn trim_end(s: Seq<char>) -> Seq<char>
    decreases s.len(),
{
    if s.len() > 0 && is_space(s[s.len() - 1]) {
        trim_end(s.subrange(0, s.len() - 1))
    } else {
        s
    }
}

/// `s` without leading and trailing whitespace.
pub open spec fn trim(s: Seq<char>) -> Seq<char> {
    trim_end(trim_start(s))
}

/// A line is blank when nothing is left of it after trimming.
pub open spec fn is_blank(s: Seq<char>) -> bool {
    trim(s).len() == 0
}

/// The bounds of `trim(chars[from..to])` inside `chars`.
pub fn trim_range(chars: &Vec<char>, from: usize, to: usize) -> (r: (usize, usize))
    requires
        from <= to <= chars.len(),
    ensures
        from <= r.0 <= r.1 <= to,
        chars@.subrange(r.0 as int, r.1 as int) == trim(chars@.subrange(from as int, to as int)),
{
    let mut a: usize = from;
    while a < to && is_whitespace(chars[a])
        invariant
            from <= a <= to <= chars.len(),
            trim_start(chars@.subrange(from as int, to as int)) == trim_start(
                chars@.subrange(a as int, to as int),
            ),
        decreases to - a,
    {
        assert(chars@.subrange(a as int, to as int).subrange(1, to - a) == chars@.subrange(
            a + 1,
            to as int,
        ));
        a += 1;
    }
    let mut b: usize = to;
    while a < b && is_whitespace(chars[b - 1])
        invariant
            a <= b <= to <= chars.len(),
            trim_end(chars@.subrange(a as int, to as int)) == trim_end(
                chars@.subrange(a as int, b as int),
            ),
        decreases b - a,
    {
        assert(chars@.subrange(a as int, b as int).subrange(0, b - a - 1) == chars@.subrange(
            a as int,
            b - 1,
        ));
        b -= 1;
    }
    (a, b)
}

/// Trimming leaves alone a string that neither starts nor ends with whitespace.
pub proof fn lemma_trim_identity(s: Seq<char>)
    requires
        s.len() == 0 || (!is_space(s[0]) && !is_space(s[s.len() - 1])),
    ensures
        trim(s) == s,
{
}

/// `trim_start(s)` is the suffix of `s` that begins at its first character that
/// is no whitespace.
pub proof fn lemma_trim_start_shape(s: Seq<char>)
    ensures
        trim_start(s).len() <= s.len(),
        trim_start(s) == s.subrange(s.len() - trim_start(s).len(), s.len() as int),
        forall|i: int| 0 <= i < s.len() - trim_start(s).len() ==> is_space(#[trigger] s[i]),
        trim_start(s).len() > 0 ==> !is_space(trim_start(s)[0]),
    decreases s.len(),
{
    if s.len() > 0 && is_space(s[0]) {
        let rest = s.subrange(1, s.len() as int);
        lemma_trim_start_shape(rest);
        let t = trim_start(rest);
        assert(rest.subrange(rest.len() - t.len(), rest.len() as int) == s.subrange(
            s.len() - t.len(),
            s.len() as int,
        ));
        assert forall|i: int| 0 <= i < s.len() - t.len() implies is_space(#[trigger] s[i]) by {
            if i > 0 {
                assert(s[i] == rest[i - 1]);
            }
        }
    } else {
        assert(s == s.subrange(0, s.len() as int));
    }
}

/// `trim(s)` is a range of `s`.
pub proof fn lemma_trim_is_range(s: Seq<char>) -> (r: (int, int))
    ensures
        0 <= r.0 <= r.1 <= s.len(),
        trim(s) == s.subrange(r.0, r.1),
{
    lemma_trim_start_shape(s);
    let t = trim_start(s);
    let a = s.len() - t.len();
    let b = lemma_trim_end_is_prefix(t);
    assert(t.subrange(0, b) == s.subrange(a, a + b));
    (a, a + b)
}

/// `trim_end(s)` is a prefix of `s`.
pub proof fn lemma_trim_end_is_prefix(s: Seq<char>) -> (b: int)
    ensures
        0 <= b <= s.len(),
        trim_end(s) == s.subrange(0, b),
    decreases s.len(),
{
    if s.len() > 0 && is_space(s[s.len() - 1]) {
        let t = s.subrange(0, s.len() - 1);
        let b = lemma_trim_end_is_prefix(t);
        assert(t.subrange(0, b) == s.subrange(0, b));
        b
    } else {
        assert(s == s.subrange(0, s.len() as int));
        s.len() as int
    }
}

/// Index of the first occurrence of `c` in `s`, or `s.len()` where there is none.
pub open spec fn index_of(s: Seq<char>, c: char) -> int
    decreases s.len(),
{
    if s.len() == 0 || s[0] == c {
        0
    } else {
        1 + index_of(s.subrange(1, s.len() as int), c)
    }
}

/// `index_of(s, c)` is the only `k` such that `c` does not occur before `k` and
/// either occurs at `k` or `k` is the end of `s`.
pub proof fn lemma_index_of(s: Seq<char>, c: char, k: int)
    requires
        0 <= k <= s.len(),
        forall|j: int| 0 <= j < k ==> s[j] != c,
        k == s.len() || s[k] == c,
    ensures
        index_of(s, c) == k,
    decreases s.len(),
{
    if s.len() > 0 && s[0] != c {
        lemma_index_of(s.subrange(1, s.len() as int), c, k - 1);
    }
}

/// What `lemma_index_of` characterises holds of `index_of(s, c)`.
pub proof fn lemma_index_of_is_first(s: Seq<char>, c: char)
    ensures
        0 <= index_of(s, c) <= s.len(),
        forall|j: int| 0 <= j < index_of(s, c) ==> s[j] != c,
        index_of(s, c) < s.len() ==> s[index_of(s, c)] == c,
    decreases s.len(),
{
    if s.len() > 0 && s[0] != c {
        let rest = s.subrange(1, s.len() as int);
        lemma_index_of_is_first(rest, c);
        assert forall|j: int| 0 <= j < index_of(s, c) implies s[j] != c by {
            if j > 0 {
                assert(s[j] == rest[j - 1]);
            }
        }
    }
}

/// `s` without one trailing carriage return.
pub open spec fn strip_cr(s: Seq<char>) -> Seq<char> {
    if s.len() > 0 && s[s.len() - 1] == '\r' {
        s.subrange(0, s.len() - 1)
    } else {
        s
    }
}

/// The lines of `s` as `str::lines` yields them: each line ends at a line feed,
/// which is dropped together with one carriage return before it; what follows
/// the last line feed is a line of its own unless it is empty.
pub open spec fn lines(s: Seq<char>) -> Seq<Seq<char>>
    decreases s.len(),
{
    let i = index_of(s, '\n');
    if s.len() == 0 {
        Seq::empty()
    } else if 0 <= i < s.len() {
        seq![strip_cr(s.subrange(0, i))] + lines(s.subrange(i + 1, s.len() as int))
    } else {
        seq![s]
    }
}

/// The views of a vector of character vectors.
pub open spec fn views(v: Seq<Vec<char>>) -> Seq<Seq<char>> {
    v.map_values(|x: Vec<char>| x@)
}

/// A copy of `chars[from..to]`.
pub fn copy_range(chars: &Vec<char>, from: usize, to: usize) -> (out: Vec<char>)
    requires
        from <= to <= chars.len(),
    ensures
        out@ == chars@.subrange(from as int, to as int),
{
    let mut out: Vec<char> = Vec::new();
    push_range(&mut out, chars, from, to);
    assert(Seq::<char>::empty() + chars@.subrange(from as int, to as int) == chars@.subrange(
        from as int,
        to as int,
    ));
    out
}

/// Position of the first `c` in `chars[from..to]`, or `to` where there is none.
pub fn find_char(chars: &Vec<char>, from: usize, to: usize, c: char) -> (r: usize)
    requires
        from <= to <= chars.len(),
    ensures
        from <= r <= to,
        r - from == index_of(chars@.subrange(from as int, to as int), c),
{
    let mut q: usize = from;
    while q < to && chars[q] != c
        invariant
            from <= q <= to <= chars.len(),
            forall|j: int| from <= j < q ==> chars@[j] != c,
        decreases to - q,
    {
        q += 1;
    }
    proof {
        lemma_index_of(chars@.subrange(from as int, to as int), c, q - from);
    }
    q
}

/// Splits `chars` into its lines.
pub fn split_lines(chars: &Vec<char>) -> (out: Vec<Vec<char>>)
    ensures
        views(out@) == lines(chars@),
{
    let n = chars.len();
    let mut out: Vec<Vec<char>> = Vec::new();
    let mut p: usize = 0;
    assert(chars@.subrange(0, n as int) == chars@);
    assert(views(out@) + lines(chars@) == lines(chars@));
    while p < n
        invariant
            p <= n == chars.len(),
            lines(chars@) == views(out@) + lines(chars@.subrange(p as int, n as int)),
        decreases n - p,
    {
        let ghost rest = chars@.subrange(p as int, n as int);
        let ghost before = views(out@);
        let q = find_char(chars, p, n, '\n');
        if q == n {
            let line = copy_range(chars, p, n);
            out.push(line);
            p = n;
            assert(views(out@) == before + seq![rest]);
            assert(lines(chars@.subrange(n as int, n as int)) == Seq::<Seq<char>>::empty());
            assert(before + seq![rest] + Seq::<Seq<char>>::empty() == before + seq![rest]);
        } else {
            let e = if q > p && chars[q - 1] == '\r' {
                q - 1
            } else {
                q
            };
            let line = copy_range(chars, p, e);
            assert(rest.subrange(0, q - p) == chars@.subrange(p as int, q as int));
            assert(line@ == strip_cr(rest.subrange(0, q - p))) by {
                if q > p && chars[q - 1] == '\r' {
                    assert(chars@.subrange(p as int, q as int).subrange(0, q - p - 1)
                        == chars@.subrange(p as int, q - 1));
                }
            }
            out.push(line);
            assert(views(out@) == before + seq![line@]);
            assert(rest.subrange(q - p + 1, rest.len() as int) == chars@.subrange(
                q + 1,
                n as int,
            ));
            p = q + 1;
            assert(before + (seq![line@] + lines(chars@.subrange(p as int, n as int))) == before
                + seq![line@] + lines(chars@.subrange(p as int, n as int)));
        }
    }
    assert(lines(chars@.subrange(n as int, n as int)) == Seq::<Seq<char>>::empty());
    assert(views(out@) + Seq::<Seq<char>>::empty() == views(out@));
    out
}

/// Whether `pat` occurs in `s` at position `i`.
pub open spec fn occurs_at(s: Seq<char>, pat: Seq<char>, i: int) -> bool {
    0 <= i && i + pat.len() <= s.len() && s.subrange(i, i + pat.len()) == pat
}

/// Position of the first occurrence of `pat` in `s`, or `s.len()` where there is
/// none.
pub open spec fn find(s: Seq<char>, pat: Seq<char>) -> int
    decreases s.len(),
{
    if s.len() < pat.len() {
        s.len() as int
    } else if occurs_at(s, pat, 0) || s.len() == 0 {
        0
    } else {
        1 + find(s.subrange(1, s.len() as int), pat)
    }
}

/// `find(s, pat)` is `k` where `pat` occurs at `k` and nowhere before.
pub proof fn lemma_find_at(s: Seq<char>, pat: Seq<char>, k: int)
    requires
        occurs_at(s, pat, k),
        forall|j: int| 0 <= j < k ==> !occurs_at(s, pat, j),
    ensures
        find(s, pat) == k,
    decreases s.len(),
{
    if k > 0 {
        let rest = s.subrange(1, s.len() as int);
        assert(rest.subrange(k - 1, k - 1 + pat.len()) == s.subrange(k, k + pat.len()));
        assert forall|j: int| 0 <= j < k - 1 implies !occurs_at(rest, pat, j) by {
            assert(!occurs_at(s, pat, j + 1));
            assert(rest.subrange(j, j + pat.len()) == s.subrange(j + 1, j + 1 + pat.len()));
        }
        lemma_find_at(rest, pat, k - 1);
    }
}

/// `find(s, pat)` is `s.len()` where a non-empty `pat` occurs nowhere in `s`.
pub proof fn lemma_find_none(s: Seq<char>, pat: Seq<char>)
    requires
        pat.len() > 0,
        forall|j: int| 0 <= j ==> !occurs_at(s, pat, j),
    ensures
        find(s, pat) == s.len(),
    decreases s.len(),
{
    if s.len() >= pat.len() {
        let rest = s.subrange(1, s.len() as int);
        assert forall|j: int| 0 <= j implies !occurs_at(rest, pat, j) by {
            assert(!occurs_at(s, pat, j + 1));
            if j + pat.len() <= rest.len() {
                assert(rest.subrange(j, j + pat.len()) == s.subrange(j + 1, j + 1 + pat.len()));
            }
        }
        lemma_find_none(rest, pat);
    }
}

/// `find(s, pat)` lies within `s`, and where it is not the end, `pat` occurs
/// there.
pub proof fn lemma_find_bounds(s: Seq<char>, pat: Seq<char>)
    requires
        pat.len() > 0,
    ensures
        0 <= find(s, pat) <= s.len(),
        find(s, pat) < s.len() ==> occurs_at(s, pat, find(s, pat)),
    decreases s.len(),
{
    if s.len() >= pat.len() && !occurs_at(s, pat, 0) {
        let rest = s.subrange(1, s.len() as int);
        lemma_find_bounds(rest, pat);
        let k = find(rest, pat);
        if k < rest.len() {
            assert(rest.subrange(k, k + pat.len()) == s.subrange(k + 1, k + 1 + pat.len()));
        }
    }
}

/// Whether `pat` stands in `chars` at position `at`.
pub fn matches_at(chars: &Vec<char>, at: usize, to: usize, pat: &Vec<char>) -> (r: bool)
    requires
        at <= to <= chars.len(),
    ensures
        r == (at + pat.len() <= to && chars@.subrange(at as int, at + pat.len()) == pat@),
{
    let m = pat.len();
    if m > to - at {
        return false;
    }
    let mut j: usize = 0;
    while j < m
        invariant
            j <= m == pat.len(),
            at + m <= to <= chars.len(),
            forall|t: int| 0 <= t < j ==> chars@[at + t] == pat@[t],
        decreases m - j,
    {
        if chars[at + j] != pat[j] {
            assert(chars@.subrange(at as int, at + m)[j as int] != pat@[j as int]);
            return false;
        }
        j += 1;
    }
    assert(chars@.subrange(at as int, at + m) =~= pat@);
    true
}

/// Position of the first occurrence of `pat` in `chars[from..to]`, or `to` where
/// there is none.
pub fn find_in(chars: &Vec<char>, from: usize, to: usize, pat: &Vec<char>) -> (r: usize)
    requires
        from <= to <= chars.len(),
        pat.len() > 0,
    ensures
        from <= r <= to,
        r - from == find(chars@.subrange(from as int, to as int), pat@),
{
    let ghost s = chars@.subrange(from as int, to as int);
    let mut q: usize = from;
    while q < to
        invariant
            from <= q <= to <= chars.len(),
            pat.len() > 0,
            s == chars@.subrange(from as int, to as int),
            forall|j: int| 0 <= j < q - from ==> !occurs_at(s, pat@, j),
        decreases to - q,
    {
        if matches_at(chars, q, to, pat) {
            proof {
                assert(s.subrange(q - from, q - from + pat.len()) == chars@.subrange(
                    q as int,
                    q + pat.len(),
                ));
                lemma_find_at(s, pat@, q - from);
            }
            return q;
        }
        assert(!occurs_at(s, pat@, q - from)) by {
            if q + pat.len() <= to {
                assert(s.subrange(q - from, q - from + pat.len()) == chars@.subrange(
                    q as int,
                    q + pat.len(),
                ));
            }
        }
        q += 1;
    }
    proof {
        lemma_find_none(s, pat@);
    }
    to
}

/// Whether two strings hold the same characters.
pub fn same_text(a: &str, b: &str) -> (r: bool)
    ensures
        r == (a@ == b@),
{
    let x = chars_of(a);
    let y = chars_of(b);
    if x.len() != y.len() {
        return false;
    }
    let mut i: usize = 0;
    while i < x.len()
        invariant
            i <= x.len() == y.len(),
            x@ == a@,
            y@ == b@,
            forall|j: int| 0 <= j < i ==> x@[j] == y@[j],
        decreases x.len() - i,
    {
        if x[i] != y[i] {
            assert(a@[i as int] != b@[i as int]);
            return false;
        }
        i += 1;
    }
    assert(x@ =~= y@);
    true
}

} // verus!
