//! From transcribed utterances to captions: an utterance is cut into
//! sentence-like units, and its time span is shared out among them in
//! proportion to their length.

use crate::subtitle::srt::{captions, Caption, Subtitle};
use crate::text::{chars_of, lemma_trim_is_range, trim, trim_range};
use crate::paths::{cache_dir, path_from, path_join, path_joined, path_of};
use std::path::PathBuf;
use vstd::prelude::*;

verus! {

/// A character that may end a sentence.
pub open spec fn is_terminator(c: char) -> bool {
    c == '.' || c == '!' || c == '?'
}

/// A character that may follow the end of a sentence.
pub open spec fn is_closer(c: char) -> bool {
    c == ' ' || c == '"' || c == '\'' || c == ')' || c == ']'
}

/// Whether a sentence ends with the character at `i`: a terminator that the
/// end of the text or a closer follows.
pub open spec fn is_boundary(s: Seq<char>, i: int) -> bool {
    0 <= i < s.len() && is_terminator(s[i]) && (i + 1 == s.len() || is_closer(s[i + 1]))
}

/// The length of the first piece of `s`: up to and with its first boundary,
/// or all of `s` where it has none.
pub open spec fn first_cut(s: Seq<char>) -> int
    decreases s.len(),
{
    if s.len() == 0 {
        0
    } else if is_boundary(s, 0) {
        1
    } else {
        1 + first_cut(s.subrange(1, s.len() as int))
    }
}

/// The first piece of a text that is not empty is not empty, and lies within
/// the text.
pub proof fn lemma_first_cut_bounds(s: Seq<char>)
    requires
        s.len() > 0,
    ensures
        0 < first_cut(s) <= s.len(),
    decreases s.len(),
{
    if !is_boundary(s, 0) {
        let rest = s.subrange(1, s.len() as int);
        if rest.len() > 0 {
            lemma_first_cut_bounds(rest);
        } else {
            assert(first_cut(rest) == 0);
        }
    }
}

/// The pieces of `s`, each trimmed, without those that are blank.
pub open spec fn units(s: Seq<char>) -> Seq<Seq<char>>
    decreases s.len(),
{
    if s.len() == 0 {
        Seq::empty()
    } else {
        let e = first_cut(s);
        let u = trim(s.subrange(0, e));
        proof {
            lemma_first_cut_bounds(s);
        }
        if u.len() > 0 {
            seq![u] + units(s.subrange(e, s.len() as int))
        } else {
            units(s.subrange(e, s.len() as int))
        }
    }
}

/// The sentence-like units of `s`; where there is none, the trimmed text is
/// the only one.
pub open spec fn sentences(s: Seq<char>) -> Seq<Seq<char>> {
    if units(s).len() == 0 {
        seq![trim(s)]
    } else {
        units(s)
    }
}

/// The views of a vector of string slices.
pub open spec fn strs(v: Seq<&str>) -> Seq<Seq<char>> {
    v.map_values(|x: &str| x@)
}

/// `first_cut(s)` is `k` where the first boundary of `s` is at `k - 1`, or
/// where `s` has no boundary and `k` is its length.
pub proof fn lemma_first_cut(s: Seq<char>, k: int)
    requires
        0 < k <= s.len(),
        forall|j: int| 0 <= j < k - 1 ==> !is_boundary(s, j),
        is_boundary(s, k - 1) || k == s.len(),
    ensures
        first_cut(s) == k,
    decreases s.len(),
{
    if !is_boundary(s, 0) && k > 1 {
        let rest = s.subrange(1, s.len() as int);
        assert forall|j: int| 0 <= j < k - 2 implies !is_boundary(rest, j) by {
            assert(!is_boundary(s, j + 1));
        }
        if is_boundary(s, k - 1) {
            assert(is_boundary(rest, k - 2));
        }
        lemma_first_cut(rest, k - 1);
    } else if !is_boundary(s, 0) {
        assert(s.len() == 1);
        assert(first_cut(s.subrange(1, s.len() as int)) == 0);
    }
}

/// No unit is empty, and there are no more units than characters.
pub proof fn lemma_units(s: Seq<char>)
    ensures
        units(s).len() <= s.len(),
        forall|k: int| 0 <= k < units(s).len() ==> (#[trigger] units(s)[k]).len() > 0,
    decreases s.len(),
{
    if s.len() > 0 {
        lemma_first_cut_bounds(s);
        lemma_units(s.subrange(first_cut(s), s.len() as int));
    }
}

/// The end of the first piece of `chars[from..to]`.
fn find_cut(chars: &Vec<char>, from: usize, to: usize) -> (r: usize)
    requires
        from < to <= chars.len(),
    ensures
        from < r <= to,
        r - from == first_cut(chars@.subrange(from as int, to as int)),
{
    let ghost s = chars@.subrange(from as int, to as int);
    let mut i: usize = from;
    while i < to
        invariant
            from <= i <= to <= chars.len(),
            s == chars@.subrange(from as int, to as int),
            forall|j: int| 0 <= j < i - from ==> !is_boundary(s, j),
        decreases to - i,
    {
        let c = chars[i];
        if c == '.' || c == '!' || c == '?' {
            let ends = if i + 1 < to {
                let d = chars[i + 1];
                d == ' ' || d == '"' || d == '\'' || d == ')' || d == ']'
            } else {
                true
            };
            if ends {
                assert(is_boundary(s, i - from));
                proof {
                    lemma_first_cut(s, i - from + 1);
                }
                return i + 1;
            }
        }
        assert(!is_boundary(s, i - from));
        i += 1;
    }
    proof {
        lemma_first_cut(s, to - from);
    }
    to
}

/// A transcribed utterance with its time span in milliseconds.
#[derive(Debug)]
pub struct Segment {
    pub start_ms: u64,
    pub end_ms: u64,
    pub text: String,
}

/// The time in milliseconds of a time in hundredths of a second, as a
/// transcription counts it: ten times as much, at least zero, and at most
/// what 64 bits hold.
pub open spec fn ms_of_centis(t: i64) -> u64 {
    if t < 0 {
        0
    } else if t * 10 > u64::MAX {
        u64::MAX
    } else {
        (t * 10) as u64
    }
}

/// The time in milliseconds of a time in hundredths of a second.
pub fn centis_to_ms(t: i64) -> (r: u64)
    ensures
        r == ms_of_centis(t),
{
    if t < 0 {
        0
    } else {
        let wide: u128 = (t as u128) * 10;
        if wide > u64::MAX as u128 {
            u64::MAX
        } else {
            wide as u64
        }
    }
}

impl Segment {
    /// The utterance that a transcription timed from `t0` to `t1` hundredths
    /// of a second. It ends no earlier than it starts.
    pub fn from_centis(t0: i64, t1: i64, text: String) -> (r: Self)
        ensures
            r.start_ms == ms_of_centis(t0),
            r.end_ms == if ms_of_centis(t1) < ms_of_centis(t0) {
                ms_of_centis(t0)
            } else {
                ms_of_centis(t1)
            },
            r.text == text,
    {
        let start = centis_to_ms(t0);
        let end = centis_to_ms(t1);
        Segment {
            start_ms: start,
            end_ms: if end < start {
                start
            } else {
                end
            },
            text,
        }
    }
}

/// Turns transcribed utterances into captions.
pub struct SubtitleGenerator {
    pub model_path: PathBuf,
}

/// Where the model is kept: the file `ggml-base.en.bin` in `models` in
/// `auto-subs-tui` under the cache directory that was found, or under the
/// current directory where none was.
pub open spec fn model_path_under(found: Option<PathBuf>) -> PathBuf {
    let base = match found {
        Some(dir) => dir,
        None => path_of("."@),
    };
    path_joined(
        path_joined(path_joined(base, "auto-subs-tui"@), "models"@),
        "ggml-base.en.bin"@,
    )
}

/// The number of characters of the texts of all segments.
pub open spec fn chars_total(segments: Seq<Segment>) -> nat
    decreases segments.len(),
{
    if segments.len() == 0 {
        0
    } else {
        chars_total(segments.drop_last()) + segments.last().text@.len()
    }
}

/// The captions of a sequence of utterances: those of each, one after the
/// other, numbered from one without a gap.
pub open spec fn track_of(segments: Seq<Segment>) -> Seq<Caption>
    decreases segments.len(),
{
    if segments.len() == 0 {
        Seq::empty()
    } else {
        let before = track_of(segments.drop_last());
        let seg = segments.last();
        before + split_captions(before.len() as int + 1, seg.start_ms, seg.end_ms, seg.text@)
    }
}

/// An utterance gives no more captions than its text has characters.
pub proof fn lemma_split_len(first: int, start: u64, end: u64, text: Seq<char>)
    ensures
        split_captions(first, start, end, text).len() <= text.len(),
{
    let t = trim(text);
    let r = lemma_trim_is_range(text);
    lemma_units(t);
}

impl SubtitleGenerator {
    /// A generator whose model file lies in the cache directory of the user,
    /// or under the current directory where the system names none.
    pub fn new() -> (r: Self)
        ensures
            exists|found: Option<PathBuf>| r.model_path == model_path_under(found),
    {
        let found = cache_dir();
        let r = SubtitleGenerator::with_cache_dir(found);
        assert(r.model_path == model_path_under(found));
        r
    }

    /// A generator whose model file lies under the cache directory that was
    /// found, or under the current directory where none was.
    pub fn with_cache_dir(found: Option<PathBuf>) -> (r: Self)
        ensures
            r.model_path == model_path_under(found),
    {
        let base = match found {
            Some(dir) => dir,
            None => path_from("."),
        };
        let dir = path_join(&path_join(&base, "auto-subs-tui"), "models");
        SubtitleGenerator { model_path: path_join(&dir, "ggml-base.en.bin") }
    }

    /// The captions of the utterances that a transcription gave, in order.
    pub fn subtitles_from_segments(&self, segments: &Vec<Segment>) -> (out: Vec<Subtitle>)
        requires
            forall|i: int|
                0 <= i < segments.len() ==> (#[trigger] segments[i]).start_ms <= segments[i].end_ms,
            chars_total(segments@) <= usize::MAX,
        ensures
            captions(out@) == track_of(segments@),
    {
        let n = segments.len();
        let mut out: Vec<Subtitle> = Vec::new();
        let mut i: usize = 0;
        assert(segments@.subrange(0, n as int) == segments@);
        assert(captions(out@) == track_of(segments@.subrange(0, 0)));
        while i < n
            invariant
                i <= n == segments.len(),
                forall|k: int|
                    0 <= k < segments.len() ==> (#[trigger] segments[k]).start_ms
                        <= segments[k].end_ms,
                chars_total(segments@) <= usize::MAX,
                captions(out@) == track_of(segments@.subrange(0, i as int)),
                out.len() <= chars_total(segments@.subrange(0, i as int)),
                chars_total(segments@.subrange(0, i as int)) + chars_total(
                    segments@.subrange(i as int, n as int),
                ) == chars_total(segments@),
            decreases n - i,
        {
            let seg = &segments[i];
            proof {
                let done = segments@.subrange(0, i as int);
                let next = segments@.subrange(0, i + 1);
                let rest = segments@.subrange(i as int, n as int);
                assert(next.drop_last() == done);
                assert(next.last() == *seg);
                lemma_chars_total_first(rest);
                assert(rest.subrange(1, rest.len() as int) == segments@.subrange(i + 1, n as int));
                lemma_split_len(out.len() + 1, seg.start_ms, seg.end_ms, seg.text@);
                assert(captions(out@).len() == out.len());
            }
            self.split_segment(&mut out, seg.start_ms, seg.end_ms, seg.text.as_str());
            assert(captions(out@).len() == out.len());
            i += 1;
        }
        out
    }

    /// Appends to `out` the captions of one utterance. A blank text gives
    /// none. A text of one unit gives one caption over the whole span. With
    /// more units, each gets the share of the span that its length in
    /// characters has in the length of all units, rounded down; each starts
    /// where the one before it ends, and the last ends where the span ends.
    /// Indices go on from the length of `out`.
    #[verifier::rlimit(30)]
    pub fn split_segment(&self, out: &mut Vec<Subtitle>, start: u64, end: u64, text: &str)
        requires
            start <= end,
            old(out).len() + text@.len() <= usize::MAX,
        ensures
            captions(final(out)@) == captions(old(out)@) + split_captions(
                old(out).len() + 1,
                start,
                end,
                text@,
            ),
    {
        let ghost before = captions(out@);
        let ghost first = out.len() + 1;
        let chars = chars_of(text);
        let (a, b) = trim_range(&chars, 0, chars.len());
        assert(chars@.subrange(0, chars.len() as int) == chars@);
        if a == b {
            assert(before + Seq::<Caption>::empty() == before);
            return ;
        }
        let trimmed = text.substring_char(a, b);
        let pieces = self.split_into_sentences(trimmed);
        let ghost u = sentences(trim(text@));
        proof {
            lemma_units(trim(text@));
        }
        let m = pieces.len();
        if m == 1 {
            let sub = Subtitle::new(out.len() + 1, start, end, trimmed.to_owned());
            out.push(sub);
            assert(captions(out@) == before.push(sub@));
            assert(before.push(sub@) == before + seq![sub@]);
            return ;
        }
        let mut total: u128 = 0;
        let mut i: usize = 0;
        assert(u.subrange(0, 0).len() == 0);
        while i < m
            invariant
                i <= m == pieces.len(),
                strs(pieces@) == u,
                total == total_len(u.subrange(0, i as int)),
                total <= i * 0x1_0000_0000_0000_0000,
            decreases m - i,
        {
            assert(u.subrange(0, i + 1).drop_last() == u.subrange(0, i as int));
            assert(pieces[i as int]@ == u[i as int]);
            let len = pieces[i].unicode_len();
            assert(total + len <= (i + 1) * 0x1_0000_0000_0000_0000) by (nonlinear_arith)
                requires
                    total <= i * 0x1_0000_0000_0000_0000,
                    len < 0x1_0000_0000_0000_0000,
            ;
            assert((i + 1) * 0x1_0000_0000_0000_0000 <= 0x1_0000_0000_0000_0000
                * 0x1_0000_0000_0000_0000) by (nonlinear_arith)
                requires
                    i + 1 <= 0x1_0000_0000_0000_0000,
            ;
            total = total + len as u128;
            i += 1;
        }
        assert(u.subrange(0, m as int) == u);
        proof {
            lemma_total_len_has(u, 0);
        }
        let span: u64 = end - start;
        let mut cur: u64 = start;
        let mut k: usize = 0;
        assert(before + Seq::new(0, |t: int| unit_caption(first as int, start, end, u, t))
            == before);
        while k < m
            invariant
                k <= m == pieces.len(),
                m >= 2,
                strs(pieces@) == u,
                start <= cur <= end,
                span == end - start,
                total == total_len(u),
                total > 0,
                first == before.len() + 1,
                first + text@.len() <= usize::MAX + 1,
                m <= text@.len(),
                cur == unit_end(start, end, u, k - 1),
                out.len() == before.len() + k,
                captions(out@) == before + Seq::new(
                    k as nat,
                    |t: int| unit_caption(first as int, start, end, u, t),
                ),
            decreases m - k,
        {
            assert(pieces[k as int]@ == u[k as int]);
            let len = pieces[k].unicode_len();
            let stop: u64 = if k + 1 == m {
                end
            } else {
                proof {
                    lemma_total_len_has(u, k as int);
                }
                assert(span as u128 * len as u128 <= 0xffff_ffff_ffff_ffff
                    * 0xffff_ffff_ffff_ffff) by (nonlinear_arith)
                    requires
                        span <= 0xffff_ffff_ffff_ffff,
                        len <= 0xffff_ffff_ffff_ffff,
                ;
                let share: u128 = (span as u128 * len as u128) / total;
                let to: u128 = cur as u128 + share;
                if to < end as u128 {
                    to as u64
                } else {
                    end
                }
            };
            let ghost done = captions(out@);
            let sub = Subtitle::new(out.len() + 1, cur, stop, pieces[k].to_owned());
            assert(sub@ == unit_caption(first as int, start, end, u, k as int));
            out.push(sub);
            proof {
                assert(captions(out@) == done.push(sub@));
                let so_far = Seq::new(
                    k as nat,
                    |t: int| unit_caption(first as int, start, end, u, t),
                );
                let with_it = Seq::new(
                    (k + 1) as nat,
                    |t: int| unit_caption(first as int, start, end, u, t),
                );
                assert(so_far.push(sub@) == with_it);
            }
            cur = stop;
            k += 1;
        }
    }

    /// Cuts `text` into sentence-like units: a unit ends with `.`, `!` or `?`
    /// where the end of the text, a blank, a quote or a closing bracket
    /// follows. Units are trimmed, and blank ones are left out. A text without
    /// any unit is given back trimmed.
    pub fn split_into_sentences<'a>(&self, text: &'a str) -> (out: Vec<&'a str>)
        ensures
            strs(out@) == sentences(text@),
    {
        let chars = chars_of(text);
        let n = chars.len();
        let mut out: Vec<&'a str> = Vec::new();
        let mut start: usize = 0;
        assert(chars@.subrange(0, n as int) == chars@);
        assert(strs(out@) + units(chars@) == units(chars@));
        while start < n
            invariant
                start <= n == chars.len(),
                chars@ == text@,
                units(chars@) == strs(out@) + units(chars@.subrange(start as int, n as int)),
            decreases n - start,
        {
            let ghost rest = chars@.subrange(start as int, n as int);
            let ghost done = strs(out@);
            let e = find_cut(&chars, start, n);
            let (a, b) = trim_range(&chars, start, e);
            assert(rest.subrange(0, e - start) == chars@.subrange(start as int, e as int));
            assert(rest.subrange(e - start, rest.len() as int) == chars@.subrange(
                e as int,
                n as int,
            ));
            if a < b {
                let piece = text.substring_char(a, b);
                out.push(piece);
                assert(strs(out@) == done.push(piece@));
                assert(done + (seq![piece@] + units(chars@.subrange(e as int, n as int)))
                    == done.push(piece@) + units(chars@.subrange(e as int, n as int)));
            }
            start = e;
        }
        assert(units(chars@.subrange(n as int, n as int)).len() == 0);
        assert(strs(out@) + Seq::<Seq<char>>::empty() == strs(out@));
        if out.len() == 0 {
            let (a, b) = trim_range(&chars, 0, n);
            let piece = text.substring_char(a, b);
            out.push(piece);
            assert(strs(out@) == seq![piece@]);
        }
        out
    }
}

/// The number of characters of all units together.
pub open spec fn total_len(u: Seq<Seq<char>>) -> nat
    decreases u.len(),
{
    if u.len() == 0 {
        0
    } else {
        total_len(u.drop_last()) + u.last().len()
    }
}

/// The share of unit `i` in the span from `start` to `end`: its part by
/// length, rounded down.
pub open spec fn share(start: u64, end: u64, u: Seq<Seq<char>>, i: int) -> int {
    (end - start) * u[i].len() / (total_len(u) as int)
}

/// Where unit `i` ends: the last unit at `end`; any other where it starts plus
/// its share, and at `end` at the latest. Unit `i` starts where unit `i - 1`
/// ends, the first at `start`.
pub open spec fn unit_end(start: u64, end: u64, u: Seq<Seq<char>>, i: int) -> int
    decreases i + 1,
{
    if i < 0 {
        start as int
    } else if i >= u.len() - 1 {
        end as int
    } else {
        let to = unit_end(start, end, u, i - 1) + share(start, end, u, i);
        if to < end {
            to
        } else {
            end as int
        }
    }
}

/// The caption of unit `i`.
pub open spec fn unit_caption(
    first: int,
    start: u64,
    end: u64,
    u: Seq<Seq<char>>,
    i: int,
) -> Caption {
    Caption {
        index: (first + i) as usize,
        start_time: unit_end(start, end, u, i - 1) as u64,
        end_time: unit_end(start, end, u, i) as u64,
        text: u[i],
    }
}

/// The captions of one utterance, numbered from `first`.
pub open spec fn split_captions(first: int, start: u64, end: u64, text: Seq<char>) -> Seq<Caption> {
    let t = trim(text);
    let u = sentences(t);
    if t.len() == 0 {
        Seq::empty()
    } else if u.len() == 1 {
        seq![Caption { index: first as usize, start_time: start, end_time: end, text: t }]
    } else {
        Seq::new(u.len(), |i: int| unit_caption(first, start, end, u, i))
    }
}

/// The characters of all segments are those of the first and those of the
/// others.
pub proof fn lemma_chars_total_first(segments: Seq<Segment>)
    requires
        segments.len() > 0,
    ensures
        chars_total(segments) == segments[0].text@.len() + chars_total(
            segments.subrange(1, segments.len() as int),
        ),
    decreases segments.len(),
{
    let tail = segments.subrange(1, segments.len() as int);
    if segments.len() > 1 {
        lemma_chars_total_first(segments.drop_last());
        assert(segments.drop_last().subrange(1, segments.len() - 1) == tail.drop_last());
        assert(tail.last() == segments.last());
        assert(segments.drop_last()[0] == segments[0]);
    } else {
        assert(chars_total(segments.drop_last()) == 0);
        assert(chars_total(tail) == 0);
    }
}

/// The length of all units is at least that of any one of them.
pub proof fn lemma_total_len_has(u: Seq<Seq<char>>, i: int)
    requires
        0 <= i < u.len(),
    ensures
        total_len(u) >= u[i].len(),
    decreases u.len(),
{
    if i < u.len() - 1 {
        lemma_total_len_has(u.drop_last(), i);
    }
}

/// Every unit ends within the span, and no earlier than the unit before it.
pub proof fn lemma_unit_end_bounds(start: u64, end: u64, u: Seq<Seq<char>>, i: int)
    requires
        start <= end,
        i >= -1,
        total_len(u) > 0,
    ensures
        start <= unit_end(start, end, u, i) <= end,
        i >= 0 ==> unit_end(start, end, u, i - 1) <= unit_end(start, end, u, i),
    decreases i + 1,
{
    if i >= 0 {
        lemma_unit_end_bounds(start, end, u, i - 1);
        if i < u.len() - 1 {
            let part = (end - start) * u[i].len();
            let all = total_len(u) as int;
            assert(part >= 0) by (nonlinear_arith)
                requires
                    end - start >= 0,
                    u[i].len() >= 0,
                    part == (end - start) * u[i].len(),
            ;
            assert(part / all >= 0) by (nonlinear_arith)
                requires
                    part >= 0,
                    all > 0,
            ;
        }
    }
}

/// The time that the captions cover, one by one.
pub open spec fn span_sum(caps: Seq<Caption>) -> int
    decreases caps.len(),
{
    if caps.len() == 0 {
        0
    } else {
        span_sum(caps.drop_last()) + (caps.last().end_time - caps.last().start_time)
    }
}

/// The captions cover the span from `start` to `end` without gap or overlap:
/// the first starts at `start`, each starts where the one before it ends,
/// none ends before it starts, and the last ends at `end`.
pub open spec fn covers(caps: Seq<Caption>, start: u64, end: u64) -> bool {
    &&& caps.len() > 0
    &&& caps[0].start_time == start
    &&& caps[caps.len() - 1].end_time == end
    &&& forall|i: int| 0 <= i < caps.len() ==> (#[trigger] caps[i]).start_time <= caps[i].end_time
    &&& forall|i: int|
        0 <= i < caps.len() - 1 ==> (#[trigger] caps[i]).end_time == caps[i + 1].start_time
}

/// Captions that cover a span last, taken together, as long as the span.
pub proof fn lemma_covers_sum(caps: Seq<Caption>, start: u64, end: u64)
    requires
        covers(caps, start, end),
    ensures
        span_sum(caps) == end - start,
    decreases caps.len(),
{
    if caps.len() > 1 {
        let front = caps.drop_last();
        let mid = caps[caps.len() - 2].end_time;
        assert(front[front.len() - 1] == caps[caps.len() - 2]);
        assert(front[0] == caps[0]);
        assert forall|i: int| 0 <= i < front.len() - 1 implies (#[trigger] front[i]).end_time
            == front[i + 1].start_time by {
            assert(front[i] == caps[i]);
            assert(front[i + 1] == caps[i + 1]);
        }
        assert forall|i: int| 0 <= i < front.len() implies (#[trigger] front[i]).start_time
            <= front[i].end_time by {
            assert(front[i] == caps[i]);
        }
        lemma_covers_sum(front, start, mid);
        assert(caps[caps.len() - 2].end_time == caps[caps.len() - 1].start_time);
    } else {
        assert(span_sum(caps.drop_last()) == 0);
    }
}

/// The captions of an utterance whose text is not blank cover its span, and
/// the times they last add up to the length of the span exactly.
pub proof fn lemma_split_conserves(first: int, start: u64, end: u64, text: Seq<char>)
    requires
        start <= end,
        trim(text).len() > 0,
    ensures
        covers(split_captions(first, start, end, text), start, end),
        span_sum(split_captions(first, start, end, text)) == end - start,
{
    let t = trim(text);
    let u = sentences(t);
    let caps = split_captions(first, start, end, text);
    if u.len() != 1 {
        assert(u.len() >= 2);
        lemma_units(t);
        lemma_total_len_has(u, 0);
        assert forall|i: int| 0 <= i < caps.len() implies (#[trigger] caps[i]).start_time
            <= caps[i].end_time by {
            lemma_unit_end_bounds(start, end, u, i);
            lemma_unit_end_bounds(start, end, u, i - 1);
        }
        assert forall|i: int| 0 <= i < caps.len() - 1 implies (#[trigger] caps[i]).end_time
            == caps[i + 1].start_time by {
            lemma_unit_end_bounds(start, end, u, i);
        }
        lemma_unit_end_bounds(start, end, u, -1);
    }
    lemma_covers_sum(caps, start, end);
}

/// Where `s` has no terminator, its first piece is all of it.
pub proof fn lemma_first_cut_whole(s: Seq<char>)
    requires
        s.len() > 0,
        forall|i: int| 0 <= i < s.len() ==> !is_terminator(s[i]),
    ensures
        first_cut(s) == s.len(),
{
    lemma_first_cut(s, s.len() as int);
}

/// A text without `.`, `!` and `?` that is not blank gives exactly one
/// caption: the trimmed text over the whole span.
pub proof fn lemma_split_single(first: int, start: u64, end: u64, text: Seq<char>)
    requires
        forall|i: int| 0 <= i < text.len() ==> !is_terminator(text[i]),
        trim(text).len() > 0,
    ensures
        split_captions(first, start, end, text) == seq![
            Caption { index: first as usize, start_time: start, end_time: end, text: trim(text) },
        ],
{
    let t = trim(text);
    let r = lemma_trim_is_range(text);
    assert forall|i: int| 0 <= i < t.len() implies !is_terminator(t[i]) by {
        assert(t[i] == text[r.0 + i]);
    }
    lemma_first_cut_whole(t);
    assert(units(t.subrange(t.len() as int, t.len() as int)).len() == 0);
    assert(sentences(t).len() == 1);
}

} // verus!
