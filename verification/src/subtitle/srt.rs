//! The timed-caption file format: a track is a sequence of entries separated
//! by blank lines, each an index line, a line `start --> end` with both times
//! written `HH:MM:SS,mmm`, and the lines of the text.

use crate::decimal::{
    all_digits, decimal, lemma_padded, lemma_parse_uint_padded, padded, parse_decimal, parse_uint,
    push_decimal, push_padded,
};
use crate::text::{
    chars_of, find, find_in, is_blank, lemma_find_bounds, lines, push_range, push_str, split_lines,
    string_of, trim, trim_range, views,
};
use vstd::arithmetic::div_mod::lemma_fundamental_div_mod_converse;
use vstd::prelude::*;

verus! {

/// A single subtitle entry. Times are in milliseconds.
#[derive(Debug)]
pub struct Subtitle {
    pub index: usize,
    pub start_time: u64,
    pub end_time: u64,
    pub text: String,
}

/// What a `Subtitle` holds, with its text as a sequence of characters.
pub struct Caption {
    pub index: usize,
    pub start_time: u64,
    pub end_time: u64,
    pub text: Seq<char>,
}

impl View for Subtitle {
    type V = Caption;

    open spec fn view(&self) -> Caption {
        Caption {
            index: self.index,
            start_time: self.start_time,
            end_time: self.end_time,
            text: self.text@,
        }
    }
}

impl Clone for Subtitle {
    fn clone(&self) -> (r: Self)
        ensures
            r@ == self@,
    {
        Subtitle {
            index: self.index,
            start_time: self.start_time,
            end_time: self.end_time,
            text: self.text.clone(),
        }
    }
}

/// A character as a one-line preview shows it: a blank for a line feed.
pub open spec fn on_one_line(c: char) -> char {
    if c == '\n' {
        ' '
    } else {
        c
    }
}

/// A text as a one-line preview shows it: its first `max` characters, with
/// three dots after them where the text is longer.
pub open spec fn shortened(text: Seq<char>, max: nat) -> Seq<char> {
    if text.len() > max {
        Seq::new(max, |k: int| on_one_line(text[k])) + seq!['.', '.', '.']
    } else {
        Seq::new(text.len(), |k: int| on_one_line(text[k]))
    }
}

/// Why a time could not be read.
#[derive(Debug, Clone, Copy, PartialEq, Eq, Structural)]
pub enum TimeError {
    /// The text does not consist of exactly four fields.
    FieldCount,
    /// The hours are no number.
    Hours,
    /// The minutes are no number.
    Minutes,
    /// The seconds are no number.
    Seconds,
    /// The milliseconds are no number.
    Millis,
    /// The time in milliseconds does not fit in 64 bits.
    TooLarge,
}

/// The characters that separate the fields of a time.
pub open spec fn is_time_sep(c: char) -> bool {
    c == ':' || c == ','
}

/// Index of the first `:` or `,` in `s`, or `s.len()` where there is none.
pub open spec fn sep_index(s: Seq<char>) -> int
    decreases s.len(),
{
    if s.len() == 0 || is_time_sep(s[0]) {
        0
    } else {
        1 + sep_index(s.subrange(1, s.len() as int))
    }
}

/// The fields of `s` that `:` and `,` separate. There is always at least one.
pub open spec fn time_fields(s: Seq<char>) -> Seq<Seq<char>>
    decreases s.len(),
{
    let i = sep_index(s);
    if 0 <= i < s.len() {
        seq![s.subrange(0, i)] + time_fields(s.subrange(i + 1, s.len() as int))
    } else {
        seq![s]
    }
}

/// Hours, minutes, seconds and milliseconds as milliseconds.
pub open spec fn millis_of(h: int, m: int, s: int, ms: int) -> int {
    h * 3_600_000 + m * 60_000 + s * 1_000 + ms
}

/// The time that `s` denotes: exactly four fields, each an unsigned number
/// of 64 bits, read as hours, minutes, seconds and milliseconds.
pub open spec fn parse_time_spec(s: Seq<char>) -> Result<u64, TimeError> {
    let f = time_fields(s);
    if f.len() != 4 {
        Err(TimeError::FieldCount)
    } else {
        match parse_uint(f[0], u64::MAX as int) {
            None => Err(TimeError::Hours),
            Some(h) => match parse_uint(f[1], u64::MAX as int) {
                None => Err(TimeError::Minutes),
                Some(m) => match parse_uint(f[2], u64::MAX as int) {
                    None => Err(TimeError::Seconds),
                    Some(sec) => match parse_uint(f[3], u64::MAX as int) {
                        None => Err(TimeError::Millis),
                        Some(ms) => if millis_of(h, m, sec, ms) <= u64::MAX {
                            Ok(millis_of(h, m, sec, ms) as u64)
                        } else {
                            Err(TimeError::TooLarge)
                        },
                    },
                },
            },
        }
    }
}

/// `ms` milliseconds written as `HH:MM:SS,mmm`; the hours take more than two
/// digits where they need them.
pub open spec fn time_text(ms: u64) -> Seq<char> {
    padded((ms / 3_600_000) as nat, 2) + seq![':'] + padded(((ms % 3_600_000) / 60_000) as nat, 2)
        + seq![':'] + padded(((ms % 60_000) / 1_000) as nat, 2) + seq![','] + padded(
        (ms % 1_000) as nat,
        3,
    )
}

/// `sep_index(s)` is `k` where no separator stands before `k`, and one
/// stands at `k` or `k` is the end of `s`.
pub proof fn lemma_sep_index(s: Seq<char>, k: int)
    requires
        0 <= k <= s.len(),
        forall|j: int| 0 <= j < k ==> !is_time_sep(s[j]),
        k == s.len() || is_time_sep(s[k]),
    ensures
        sep_index(s) == k,
    decreases s.len(),
{
    if s.len() > 0 && !is_time_sep(s[0]) {
        lemma_sep_index(s.subrange(1, s.len() as int), k - 1);
    }
}

/// A field without separators, a separator and the rest: the fields are that
/// field and those of the rest.
pub proof fn lemma_time_fields_cons(a: Seq<char>, sep: char, rest: Seq<char>)
    requires
        forall|j: int| 0 <= j < a.len() ==> !is_time_sep(a[j]),
        is_time_sep(sep),
    ensures
        time_fields(a + seq![sep] + rest) == seq![a] + time_fields(rest),
{
    let s = a + seq![sep] + rest;
    lemma_sep_index(s, a.len() as int);
    assert(s.subrange(0, a.len() as int) == a);
    assert(s.subrange(a.len() as int + 1, s.len() as int) == rest);
}

/// A text without separators is its only field.
pub proof fn lemma_time_fields_one(a: Seq<char>)
    requires
        forall|j: int| 0 <= j < a.len() ==> !is_time_sep(a[j]),
    ensures
        time_fields(a) == seq![a],
{
    lemma_sep_index(a, a.len() as int);
}

/// Four digit strings joined by `:`, `:` and `,` are the four fields of the
/// text they make.
pub proof fn lemma_time_fields_of_digits(
    fh: Seq<char>,
    fm: Seq<char>,
    fs: Seq<char>,
    fr: Seq<char>,
)
    requires
        all_digits(fh),
        all_digits(fm),
        all_digits(fs),
        all_digits(fr),
    ensures
        time_fields(fh + seq![':'] + fm + seq![':'] + fs + seq![','] + fr) == seq![fh, fm, fs, fr],
{
    let t1 = fs + seq![','] + fr;
    let t2 = fm + seq![':'] + t1;
    let t3 = fh + seq![':'] + t2;
    lemma_time_fields_one(fr);
    lemma_time_fields_cons(fs, ',', fr);
    lemma_time_fields_cons(fm, ':', t1);
    lemma_time_fields_cons(fh, ':', t2);
    assert(time_fields(t1) == seq![fs, fr]);
    assert(time_fields(t2) == seq![fm, fs, fr]);
    assert(time_fields(t3) == seq![fh, fm, fs, fr]);
    assert(fh + seq![':'] + fm + seq![':'] + fs + seq![','] + fr == t3);
}

/// Hours, minutes, seconds and milliseconds of a time add up to it.
pub proof fn lemma_millis_of_parts(ms: u64)
    ensures
        millis_of(
            ms as int / 3_600_000,
            (ms as int % 3_600_000) / 60_000,
            (ms as int % 60_000) / 1_000,
            ms as int % 1_000,
        ) == ms,
{
    let x = ms as int;
    let h = x / 3_600_000;
    let r1 = x % 3_600_000;
    let m = r1 / 60_000;
    let r2 = r1 % 60_000;
    let sec = r2 / 1_000;
    let r3 = r2 % 1_000;
    assert(x == h * 3_600_000 + r1);
    assert(r1 == m * 60_000 + r2);
    assert(r2 == sec * 1_000 + r3);
    lemma_fundamental_div_mod_converse(x, 60_000, h * 60 + m, r2);
    lemma_fundamental_div_mod_converse(x, 1_000, h * 3_600 + m * 60 + sec, r3);
}

/// Reading a written time gives the time back.
pub proof fn lemma_parse_time_of_time_text(ms: u64)
    ensures
        parse_time_spec(time_text(ms)) == Ok::<u64, TimeError>(ms),
{
    let h = (ms / 3_600_000) as nat;
    let m = ((ms % 3_600_000) / 60_000) as nat;
    let s = ((ms % 60_000) / 1_000) as nat;
    let r = (ms % 1_000) as nat;
    lemma_padded(h, 2);
    lemma_padded(m, 2);
    lemma_padded(s, 2);
    lemma_padded(r, 3);
    lemma_time_fields_of_digits(padded(h, 2), padded(m, 2), padded(s, 2), padded(r, 3));
    lemma_millis_of_parts(ms);
    lemma_parse_uint_padded(h, 2, u64::MAX as int);
    lemma_parse_uint_padded(m, 2, u64::MAX as int);
    lemma_parse_uint_padded(s, 2, u64::MAX as int);
    lemma_parse_uint_padded(r, 3, u64::MAX as int);
}

impl Subtitle {
    /// An entry of these parts.
    pub fn new(index: usize, start_time: u64, end_time: u64, text: String) -> (r: Self)
        ensures
            r.index == index,
            r.start_time == start_time,
            r.end_time == end_time,
            r.text == text,
    {
        Subtitle { index, start_time, end_time, text }
    }

    /// Writes a time in milliseconds as `HH:MM:SS,mmm`.
    pub fn format_time(ms: u64) -> (out: String)
        ensures
            out@ == time_text(ms),
    {
        let mut buf: Vec<char> = Vec::new();
        push_time(&mut buf, ms);
        assert(Seq::<char>::empty() + time_text(ms) == time_text(ms));
        string_of(&buf)
    }

    /// The entry as it stands in a subtitle file: index line, time range,
    /// text, each ended by a line feed.
    pub fn to_srt(&self) -> (out: String)
        ensures
            out@ == entry_text(self@),
    {
        let mut buf: Vec<char> = Vec::new();
        push_entry(&mut buf, self);
        assert(Seq::<char>::empty() + entry_text(self@) == entry_text(self@));
        string_of(&buf)
    }

    /// The text on one line for a list: at most `max` characters of it, with
    /// three dots where more were left out, and a blank for each line feed.
    pub fn preview(&self, max: usize) -> (out: String)
        ensures
            out@ == shortened(self.text@, max as nat),
    {
        let chars = chars_of(self.text.as_str());
        let n = if chars.len() > max {
            max
        } else {
            chars.len()
        };
        let mut buf: Vec<char> = Vec::new();
        let mut i: usize = 0;
        while i < n
            invariant
                i <= n <= chars.len(),
                buf@ == Seq::new(i as nat, |k: int| on_one_line(chars@[k])),
            decreases n - i,
        {
            let c = chars[i];
            buf.push(
                if c == '\n' {
                    ' '
                } else {
                    c
                },
            );
            i += 1;
        }
        assert(buf@ == Seq::new(n as nat, |k: int| on_one_line(self.text@[k])));
        if chars.len() > max {
            buf.push('.');
            buf.push('.');
            buf.push('.');
            assert(buf@ == Seq::new(n as nat, |k: int| on_one_line(self.text@[k])) + seq![
                '.',
                '.',
                '.',
            ]);
        }
        string_of(&buf)
    }

    /// Reads a time written as `H:M:S,mmm` into milliseconds.
    pub fn parse_time(s: &str) -> (r: Result<u64, TimeError>)
        ensures
            r == parse_time_spec(s@),
    {
        let chars = chars_of(s);
        assert(chars@.subrange(0, chars.len() as int) == chars@);
        parse_time_in(&chars, 0, chars.len())
    }
}

/// Appends `time_text(ms)` to `out`.
pub fn push_time(out: &mut Vec<char>, ms: u64)
    ensures
        final(out)@ == old(out)@ + time_text(ms),
{
    let ghost before = out@;
    push_padded(out, ms / 3_600_000, 2);
    out.push(':');
    push_padded(out, (ms % 3_600_000) / 60_000, 2);
    out.push(':');
    push_padded(out, (ms % 60_000) / 1_000, 2);
    out.push(',');
    push_padded(out, ms % 1_000, 3);
    assert(out@ == before + time_text(ms));
}

/// Position of the first `:` or `,` in `chars[from..to]`, or `to`.
fn find_time_sep(chars: &Vec<char>, from: usize, to: usize) -> (r: usize)
    requires
        from <= to <= chars.len(),
    ensures
        from <= r <= to,
        r - from == sep_index(chars@.subrange(from as int, to as int)),
{
    let mut q: usize = from;
    while q < to && !(chars[q] == ':' || chars[q] == ',')
        invariant
            from <= q <= to <= chars.len(),
            forall|j: int| from <= j < q ==> !is_time_sep(chars@[j]),
        decreases to - q,
    {
        q += 1;
    }
    proof {
        lemma_sep_index(chars@.subrange(from as int, to as int), q - from);
    }
    q
}

/// Unfolds `time_fields` once on a range that holds a separator at `e`.
proof fn lemma_fields_step(chars: Seq<char>, p: int, e: int, to: int)
    requires
        0 <= p <= e < to <= chars.len(),
        e - p == sep_index(chars.subrange(p, to)),
    ensures
        time_fields(chars.subrange(p, to)) == seq![chars.subrange(p, e)] + time_fields(
            chars.subrange(e + 1, to),
        ),
        time_fields(chars.subrange(e + 1, to)).len() >= 1,
{
    let s = chars.subrange(p, to);
    assert(s.subrange(0, e - p) == chars.subrange(p, e));
    assert(s.subrange(e - p + 1, s.len() as int) == chars.subrange(e + 1, to));
}

/// Where `chars[from..to]` has exactly four fields, the positions of its three
/// separators.
fn four_fields(chars: &Vec<char>, from: usize, to: usize) -> (r: Option<(usize, usize, usize)>)
    requires
        from <= to <= chars.len(),
    ensures
        match r {
            None => time_fields(chars@.subrange(from as int, to as int)).len() != 4,
            Some((e0, e1, e2)) => {
                &&& from <= e0 < e1 < e2 < to
                &&& time_fields(chars@.subrange(from as int, to as int)) == seq![
                    chars@.subrange(from as int, e0 as int),
                    chars@.subrange(e0 + 1, e1 as int),
                    chars@.subrange(e1 + 1, e2 as int),
                    chars@.subrange(e2 + 1, to as int),
                ]
            },
        },
{
    let e0 = find_time_sep(chars, from, to);
    if e0 == to {
        return None;
    }
    proof {
        lemma_fields_step(chars@, from as int, e0 as int, to as int);
    }
    let e1 = find_time_sep(chars, e0 + 1, to);
    if e1 == to {
        return None;
    }
    proof {
        lemma_fields_step(chars@, e0 + 1, e1 as int, to as int);
    }
    let e2 = find_time_sep(chars, e1 + 1, to);
    if e2 == to {
        return None;
    }
    proof {
        lemma_fields_step(chars@, e1 + 1, e2 as int, to as int);
    }
    let e3 = find_time_sep(chars, e2 + 1, to);
    if e3 != to {
        proof {
            lemma_fields_step(chars@, e2 + 1, e3 as int, to as int);
        }
        return None;
    }
    Some((e0, e1, e2))
}

/// Reads the time written in `chars[from..to]`.
pub fn parse_time_in(chars: &Vec<char>, from: usize, to: usize) -> (r: Result<u64, TimeError>)
    requires
        from <= to <= chars.len(),
    ensures
        r == parse_time_spec(chars@.subrange(from as int, to as int)),
{
    let (e0, e1, e2) = match four_fields(chars, from, to) {
        Some(e) => e,
        None => { return Err(TimeError::FieldCount); },
    };
    let h = match parse_decimal(chars, from, e0, u64::MAX) {
        Some(v) => v,
        None => { return Err(TimeError::Hours); },
    };
    let m = match parse_decimal(chars, e0 + 1, e1, u64::MAX) {
        Some(v) => v,
        None => { return Err(TimeError::Minutes); },
    };
    let sec = match parse_decimal(chars, e1 + 1, e2, u64::MAX) {
        Some(v) => v,
        None => { return Err(TimeError::Seconds); },
    };
    let ms = match parse_decimal(chars, e2 + 1, to, u64::MAX) {
        Some(v) => v,
        None => { return Err(TimeError::Millis); },
    };
    let total: u128 = (h as u128) * 3_600_000 + (m as u128) * 60_000 + (sec as u128) * 1_000 + (
    ms as u128);
    if total > u64::MAX as u128 {
        Err(TimeError::TooLarge)
    } else {
        Ok(total as u64)
    }
}

/// What is wrong with an entry of a track.
#[derive(Debug, Clone, Copy, PartialEq, Eq, Structural)]
pub enum SrtErrorKind {
    /// The first line of the entry is no index.
    InvalidIndex,
    /// The input ends after the index line.
    ExpectedTimeRange,
    /// The second line of the entry does not hold ` --> ` exactly once.
    InvalidTimeRange,
    /// One of the two times on the second line could not be read.
    InvalidTime(TimeError),
}

/// A malformed entry and the number of the line that is at fault, counted from
/// one: the index line where the index is invalid or nothing follows it, else
/// the line of the time range.
#[derive(Debug, Clone, Copy, PartialEq, Eq, Structural)]
pub struct SrtError {
    pub kind: SrtErrorKind,
    pub line: usize,
}

/// The separator between the two times of an entry.
pub open spec fn arrow() -> Seq<char> {
    seq![' ', '-', '-', '>', ' ']
}

/// The two times on a line `start --> end`. The separator must occur exactly
/// once, in a scan from the left that does not overlap; whitespace around
/// either time is dropped.
pub open spec fn parse_time_line(line: Seq<char>) -> Result<(u64, u64), SrtErrorKind> {
    let i = find(line, arrow());
    let rest = line.subrange(i + 5, line.len() as int);
    if !(0 <= i && i + 5 <= line.len()) {
        Err(SrtErrorKind::InvalidTimeRange)
    } else if find(rest, arrow()) < rest.len() {
        Err(SrtErrorKind::InvalidTimeRange)
    } else {
        match parse_time_spec(trim(line.subrange(0, i))) {
            Err(e) => Err(SrtErrorKind::InvalidTime(e)),
            Ok(start) => match parse_time_spec(trim(rest)) {
                Err(e) => Err(SrtErrorKind::InvalidTime(e)),
                Ok(end) => Ok((start, end)),
            },
        }
    }
}

/// The first line at or after `k` that is not blank, or the number of lines.
pub open spec fn skip_blank(lines: Seq<Seq<char>>, k: int) -> int
    decreases lines.len() - k,
{
    if 0 <= k < lines.len() && is_blank(lines[k]) {
        skip_blank(lines, k + 1)
    } else {
        k
    }
}

/// The first line at or after `k` that is blank, or the number of lines.
pub open spec fn text_end(lines: Seq<Seq<char>>, k: int) -> int
    decreases lines.len() - k,
{
    if 0 <= k < lines.len() && !is_blank(lines[k]) {
        text_end(lines, k + 1)
    } else {
        k
    }
}

/// The lines joined by line feeds.
pub open spec fn join_lines(lines: Seq<Seq<char>>) -> Seq<char>
    decreases lines.len(),
{
    if lines.len() == 0 {
        Seq::empty()
    } else if lines.len() == 1 {
        lines[0]
    } else {
        lines[0] + seq!['\n'] + join_lines(lines.subrange(1, lines.len() as int))
    }
}

/// `skip_blank(lines, k)` is the first line from `k` on that is not blank,
/// or the end.
pub proof fn lemma_skip_blank(lines: Seq<Seq<char>>, k: int)
    ensures
        k <= skip_blank(lines, k),
        0 <= k <= lines.len() ==> skip_blank(lines, k) <= lines.len(),
        forall|j: int| k <= j < skip_blank(lines, k) ==> 0 <= j < lines.len() && is_blank(lines[j]),
        0 <= skip_blank(lines, k) < lines.len() ==> !is_blank(lines[skip_blank(lines, k)]),
    decreases lines.len() - k,
{
    if 0 <= k < lines.len() && is_blank(lines[k]) {
        lemma_skip_blank(lines, k + 1);
    }
}

/// `text_end(lines, k)` is the first line from `k` on that is blank, or the
/// end.
pub proof fn lemma_text_end(lines: Seq<Seq<char>>, k: int)
    ensures
        k <= text_end(lines, k),
        0 <= k <= lines.len() ==> text_end(lines, k) <= lines.len(),
        forall|j: int| k <= j < text_end(lines, k) ==> 0 <= j < lines.len() && !is_blank(lines[j]),
        0 <= text_end(lines, k) < lines.len() ==> is_blank(lines[text_end(lines, k)]),
    decreases lines.len() - k,
{
    if 0 <= k < lines.len() && !is_blank(lines[k]) {
        lemma_text_end(lines, k + 1);
    }
}

/// The entries that the lines from `k` on hold, or the first fault in them.
/// Blank lines before an entry are skipped; the entry's text runs up to the
/// next blank line.
pub open spec fn parse_entries(lines: Seq<Seq<char>>, k: int) -> Result<Seq<Caption>, SrtError>
    decreases lines.len() - k,
{
    let i = skip_blank(lines, k);
    let j = text_end(lines, i + 2);
    if k < 0 || i >= lines.len() {
        Ok(Seq::empty())
    } else {
        match parse_uint(trim(lines[i]), usize::MAX as int) {
            None => Err(SrtError { kind: SrtErrorKind::InvalidIndex, line: (i + 1) as usize }),
            Some(index) => if i + 1 >= lines.len() {
                Err(SrtError { kind: SrtErrorKind::ExpectedTimeRange, line: (i + 1) as usize })
            } else {
                match parse_time_line(lines[i + 1]) {
                    Err(kind) => Err(SrtError { kind, line: (i + 2) as usize }),
                    Ok((start, end)) => {
                        proof {
                            lemma_skip_blank(lines, k);
                            lemma_text_end(lines, i + 2);
                        }
                        match parse_entries(lines, j) {
                            Err(e) => Err(e),
                            Ok(rest) => Ok(
                                seq![
                                    Caption {
                                        index: index as usize,
                                        start_time: start,
                                        end_time: end,
                                        text: join_lines(lines.subrange(i + 2, j)),
                                    },
                                ] + rest,
                            ),
                        }
                    },
                }
            },
        }
    }
}

/// The track that `content` holds, or the first fault in it.
pub open spec fn parse_srt_spec(content: Seq<char>) -> Result<Seq<Caption>, SrtError> {
    parse_entries(lines(content), 0)
}

/// The views of the subtitles of a track.
pub open spec fn captions(v: Seq<Subtitle>) -> Seq<Caption> {
    v.map_values(|s: Subtitle| s@)
}

/// `head` before the entries of `r`, where `r` holds entries.
pub open spec fn prepend(head: Seq<Caption>, r: Result<Seq<Caption>, SrtError>) -> Result<
    Seq<Caption>,
    SrtError,
> {
    match r {
        Ok(v) => Ok(head + v),
        Err(e) => Err(e),
    }
}

/// Joining one more line adds a line feed and the line, but for the first.
pub proof fn lemma_join_lines_push(ls: Seq<Seq<char>>, x: Seq<char>)
    ensures
        join_lines(ls.push(x)) == if ls.len() == 0 {
            x
        } else {
            join_lines(ls) + seq!['\n'] + x
        },
    decreases ls.len(),
{
    let all = ls.push(x);
    if ls.len() == 1 {
        assert(all.subrange(1, all.len() as int) == seq![x]);
        assert(join_lines(seq![x]) == x);
    } else if ls.len() > 1 {
        let tail = ls.subrange(1, ls.len() as int);
        assert(all.subrange(1, all.len() as int) == tail.push(x));
        lemma_join_lines_push(tail, x);
        assert(ls[0] + seq!['\n'] + (join_lines(tail) + seq!['\n'] + x) == ls[0] + seq!['\n']
            + join_lines(tail) + seq!['\n'] + x);
    }
}

fn line_is_blank(line: &Vec<char>) -> (r: bool)
    ensures
        r == is_blank(line@),
{
    let (a, b) = trim_range(line, 0, line.len());
    assert(line@.subrange(0, line.len() as int) == line@);
    a == b
}

fn arrow_chars() -> (pat: Vec<char>)
    ensures
        pat@ == arrow(),
{
    let mut pat: Vec<char> = Vec::new();
    pat.push(' ');
    pat.push('-');
    pat.push('-');
    pat.push('>');
    pat.push(' ');
    assert(pat@ == arrow());
    pat
}

/// Reads a line `start --> end`.
fn read_time_line(line: &Vec<char>) -> (r: Result<(u64, u64), SrtErrorKind>)
    ensures
        r == parse_time_line(line@),
{
    let pat = arrow_chars();
    let n = line.len();
    assert(line@.subrange(0, n as int) == line@);
    proof {
        lemma_find_bounds(line@, arrow());
    }
    let i = find_in(line, 0, n, &pat);
    if i == n {
        return Err(SrtErrorKind::InvalidTimeRange);
    }
    let ghost rest = line@.subrange(i + 5, n as int);
    proof {
        lemma_find_bounds(rest, arrow());
    }
    let i2 = find_in(line, i + 5, n, &pat);
    if i2 < n {
        return Err(SrtErrorKind::InvalidTimeRange);
    }
    let (a, b) = trim_range(line, 0, i);
    let start = match parse_time_in(line, a, b) {
        Ok(v) => v,
        Err(e) => { return Err(SrtErrorKind::InvalidTime(e)); },
    };
    let (c, d) = trim_range(line, i + 5, n);
    match parse_time_in(line, c, d) {
        Ok(end) => Ok((start, end)),
        Err(e) => Err(SrtErrorKind::InvalidTime(e)),
    }
}

/// Reads a track from the text of a subtitle file.
#[verifier::rlimit(30)]
pub fn parse_srt_string(content: &str) -> (r: Result<Vec<Subtitle>, SrtError>)
    ensures
        match r {
            Ok(v) => parse_srt_spec(content@) == Ok::<Seq<Caption>, SrtError>(captions(v@)),
            Err(e) => parse_srt_spec(content@) == Err::<Seq<Caption>, SrtError>(e),
        },
{
    let chars = chars_of(content);
    let all = split_lines(&chars);
    let n = all.len();
    let ghost ls = views(all@);
    let mut out: Vec<Subtitle> = Vec::new();
    let mut k: usize = 0;
    assert(prepend(captions(out@), parse_entries(ls, 0)) == parse_entries(ls, 0)) by {
        if let Ok(v) = parse_entries(ls, 0) {
            assert(captions(out@) + v == v);
        }
    }
    while k < n
        invariant
            k <= n == all.len(),
            ls == views(all@),
            ls == lines(content@),
            parse_entries(ls, 0) == prepend(captions(out@), parse_entries(ls, k as int)),
        decreases n - k,
    {
        let ghost k0 = k;
        while k < n && line_is_blank(&all[k])
            invariant
                k0 <= k <= n == all.len(),
                ls == views(all@),
                skip_blank(ls, k0 as int) == skip_blank(ls, k as int),
            decreases n - k,
        {
            k += 1;
        }
        if k == n {
            assert(captions(out@) + Seq::<Caption>::empty() == captions(out@));
            return Ok(out);
        }
        assert(skip_blank(ls, k0 as int) == k);
        let line = &all[k];
        assert(line@ == ls[k as int]);
        let (a, b) = trim_range(line, 0, line.len());
        assert(line@.subrange(0, line.len() as int) == line@);
        let index = match parse_decimal(line, a, b, usize::MAX as u64) {
            Some(v) => v as usize,
            None => { return Err(SrtError { kind: SrtErrorKind::InvalidIndex, line: k + 1 }); },
        };
        if k + 1 >= n {
            return Err(SrtError { kind: SrtErrorKind::ExpectedTimeRange, line: k + 1 });
        }
        assert(all[k + 1]@ == ls[k + 1]);
        let (start, end) = match read_time_line(&all[k + 1]) {
            Ok(p) => p,
            Err(kind) => { return Err(SrtError { kind, line: k + 2 }); },
        };
        let mut j: usize = k + 2;
        let mut text: Vec<char> = Vec::new();
        assert(ls.subrange(k + 2, j as int).len() == 0);
        while j < n && !line_is_blank(&all[j])
            invariant
                k + 2 <= j <= n == all.len(),
                ls == views(all@),
                text_end(ls, k + 2) == text_end(ls, j as int),
                text@ == join_lines(ls.subrange(k + 2, j as int)),
            decreases n - j,
        {
            let ghost before = ls.subrange(k + 2, j as int);
            proof {
                lemma_join_lines_push(before, ls[j as int]);
                assert(before.push(ls[j as int]) == ls.subrange(k + 2, j + 1));
            }
            if j > k + 2 {
                text.push('\n');
            }
            let piece = &all[j];
            assert(piece@ == ls[j as int]);
            push_range(&mut text, piece, 0, piece.len());
            assert(piece@.subrange(0, piece.len() as int) == piece@);
            assert(join_lines(before).push('\n') == join_lines(before) + seq!['\n']);
            j += 1;
        }
        assert(text_end(ls, k + 2) == j);
        let ghost done = captions(out@);
        let sub = Subtitle { index, start_time: start, end_time: end, text: string_of(&text) };
        out.push(sub);
        proof {
            assert(captions(out@) == done.push(sub@));
            let rest = parse_entries(ls, j as int);
            assert(parse_entries(ls, k0 as int) == prepend(seq![sub@], rest));
            if let Ok(v) = rest {
                assert(done + (seq![sub@] + v) == done.push(sub@) + v);
            }
        }
        k = j;
    }
    assert(captions(out@) + Seq::<Caption>::empty() == captions(out@));
    Ok(out)
}

/// An entry as it stands in a subtitle file.
pub open spec fn entry_text(c: Caption) -> Seq<char> {
    decimal(c.index as nat) + seq!['\n'] + time_text(c.start_time) + arrow() + time_text(
        c.end_time,
    ) + seq!['\n'] + c.text + seq!['\n']
}

/// A track as it stands in a subtitle file: its entries with one blank line
/// between each two.
pub open spec fn track_text(track: Seq<Caption>) -> Seq<char>
    decreases track.len(),
{
    if track.len() == 0 {
        Seq::empty()
    } else if track.len() == 1 {
        entry_text(track[0])
    } else {
        entry_text(track[0]) + seq!['\n'] + track_text(track.subrange(1, track.len() as int))
    }
}

/// Appends `entry_text(sub@)` to `out`.
pub fn push_entry(out: &mut Vec<char>, sub: &Subtitle)
    ensures
        final(out)@ == old(out)@ + entry_text(sub@),
{
    let ghost before = out@;
    push_decimal(out, sub.index as u64);
    out.push('\n');
    push_time(out, sub.start_time);
    out.push(' ');
    out.push('-');
    out.push('-');
    out.push('>');
    out.push(' ');
    push_time(out, sub.end_time);
    out.push('\n');
    push_str(out, sub.text.as_str());
    out.push('\n');
    assert(out@ == before + entry_text(sub@));
}

/// Writes a track as the text of a subtitle file.
pub fn serialize_srt(subtitles: &Vec<Subtitle>) -> (out: String)
    ensures
        out@ == track_text(captions(subtitles@)),
{
    let n = subtitles.len();
    let ghost track = captions(subtitles@);
    let mut buf: Vec<char> = Vec::new();
    let mut i: usize = 0;
    assert(track.subrange(0, n as int) == track);
    while i < n
        invariant
            i <= n == subtitles.len(),
            track == captions(subtitles@),
            track_text(track) == buf@ + if 0 < i < n {
                seq!['\n']
            } else {
                Seq::<char>::empty()
            } + track_text(track.subrange(i as int, n as int)),
        decreases n - i,
    {
        let ghost rest = track.subrange(i as int, n as int);
        let ghost before = buf@;
        assert(rest[0] == subtitles[i as int]@);
        assert(rest.subrange(1, rest.len() as int) == track.subrange(i + 1, n as int));
        if i > 0 {
            buf.push('\n');
        }
        push_entry(&mut buf, &subtitles[i]);
        i += 1;
        proof {
            let sep = if 0 < i - 1 {
                seq!['\n']
            } else {
                Seq::<char>::empty()
            };
            let e = entry_text(rest[0]);
            assert(buf@ == before + sep + e);
            if i < n {
                let tail = track_text(track.subrange(i as int, n as int));
                assert(before + sep + (e + seq!['\n'] + tail) == before + sep + e + seq!['\n']
                    + tail);
            } else {
                assert(track_text(track.subrange(i as int, n as int)) == Seq::<char>::empty());
                assert(before + sep + e + Seq::<char>::empty() + Seq::<char>::empty() == before
                    + sep + e);
            }
        }
    }
    assert(track_text(track.subrange(n as int, n as int)) == Seq::<char>::empty());
    assert(buf@ + Seq::<char>::empty() + Seq::<char>::empty() == buf@);
    string_of(&buf)
}

impl TimeError {
    /// What is wrong with the time, in words.
    pub open spec fn text(self) -> Seq<char> {
        match self {
            TimeError::FieldCount => "Invalid time format"@,
            TimeError::Hours => "Invalid hours"@,
            TimeError::Minutes => "Invalid minutes"@,
            TimeError::Seconds => "Invalid seconds"@,
            TimeError::Millis => "Invalid milliseconds"@,
            TimeError::TooLarge => "Time out of range"@,
        }
    }

    /// The words for it.
    pub fn message(&self) -> (r: &'static str)
        ensures
            r@ == self.text(),
    {
        match self {
            TimeError::FieldCount => "Invalid time format",
            TimeError::Hours => "Invalid hours",
            TimeError::Minutes => "Invalid minutes",
            TimeError::Seconds => "Invalid seconds",
            TimeError::Millis => "Invalid milliseconds",
            TimeError::TooLarge => "Time out of range",
        }
    }
}

impl SrtErrorKind {
    /// What is wrong with the entry, in words.
    pub open spec fn text(self) -> Seq<char> {
        match self {
            SrtErrorKind::InvalidIndex => "Invalid subtitle index"@,
            SrtErrorKind::ExpectedTimeRange => "Expected time range"@,
            SrtErrorKind::InvalidTimeRange => "Invalid time range"@,
            SrtErrorKind::InvalidTime(e) => e.text(),
        }
    }

    /// The words for it.
    pub fn message(&self) -> (r: &'static str)
        ensures
            r@ == self.text(),
    {
        match self {
            SrtErrorKind::InvalidIndex => "Invalid subtitle index",
            SrtErrorKind::ExpectedTimeRange => "Expected time range",
            SrtErrorKind::InvalidTimeRange => "Invalid time range",
            SrtErrorKind::InvalidTime(e) => e.message(),
        }
    }
}

impl SrtError {
    /// What is wrong and on which line, in words.
    pub open spec fn text(self) -> Seq<char> {
        self.kind.text() + " (line "@ + decimal(self.line as nat) + ")"@
    }

    /// The words for it, with the line.
    pub fn message(&self) -> (r: String)
        ensures
            r@ == self.text(),
    {
        let mut buf: Vec<char> = Vec::new();
        push_str(&mut buf, self.kind.message());
        push_str(&mut buf, " (line ");
        push_decimal(&mut buf, self.line as u64);
        push_str(&mut buf, ")");
        assert(buf@ == self.text());
        string_of(&buf)
    }
}

} // verus!
