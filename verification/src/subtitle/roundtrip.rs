//! Writing a track and reading it back gives the same track.

use crate::decimal::{decimal, is_digit, lemma_decimal, lemma_padded, padded, parse_uint};
use crate::subtitle::srt::{
    arrow, entry_text, is_time_sep, join_lines, lemma_parse_time_of_time_text, parse_entries,
    parse_srt_spec, parse_time_line, prepend, skip_blank, text_end, time_text, track_text, Caption,
    SrtError, SrtErrorKind,
};
use crate::text::{
    index_of, is_blank, lemma_find_at, lemma_find_none, lemma_index_of, lemma_index_of_is_first,
    lemma_trim_identity, lines, occurs_at, strip_cr,
};
use vstd::prelude::*;

verus! {

/// The pieces of `s` between its line feeds. There is always at least one.
pub open spec fn split_nl(s: Seq<char>) -> Seq<Seq<char>>
    decreases s.len(),
{
    let i = index_of(s, '\n');
    if 0 <= i < s.len() {
        seq![s.subrange(0, i)] + split_nl(s.subrange(i + 1, s.len() as int))
    } else {
        seq![s]
    }
}

/// A line that stays a line of the text when the text is read back: it is not
/// blank and does not end with a carriage return.
pub open spec fn storable_line(l: Seq<char>) -> bool {
    !is_blank(l) && l.len() > 0 && l[l.len() - 1] != '\r'
}

/// A text that a subtitle file gives back as it was written: it is empty, or
/// each of its lines is storable.
pub open spec fn storable_text(text: Seq<char>) -> bool {
    text.len() == 0 || forall|k: int|
        0 <= k < split_nl(text).len() ==> storable_line(#[trigger] split_nl(text)[k])
}

/// A track whose texts are all storable.
pub open spec fn storable(track: Seq<Caption>) -> bool {
    forall|i: int| 0 <= i < track.len() ==> storable_text(#[trigger] track[i].text)
}

/// The line of an entry that holds its two times.
pub open spec fn time_line(c: Caption) -> Seq<char> {
    time_text(c.start_time) + arrow() + time_text(c.end_time)
}

/// A character that a written time may hold: a digit, `:` or `,`.
pub open spec fn is_time_char(c: char) -> bool {
    is_digit(c) || is_time_sep(c)
}

/// Whether `s` holds nothing but characters of written times.
pub open spec fn all_time_chars(s: Seq<char>) -> bool {
    forall|i: int| 0 <= i < s.len() ==> is_time_char(#[trigger] s[i])
}

/// A written time consists of digits, `:` and `,`, and begins and ends with a
/// digit.
#[verifier::spinoff_prover]
pub proof fn lemma_time_text_chars(ms: u64)
    ensures
        time_text(ms).len() > 0,
        all_time_chars(time_text(ms)),
        is_digit(time_text(ms)[0]),
        is_digit(time_text(ms)[time_text(ms).len() - 1]),
{
    let fh = padded((ms / 3_600_000) as nat, 2);
    let fm = padded(((ms % 3_600_000) / 60_000) as nat, 2);
    let fs = padded(((ms % 60_000) / 1_000) as nat, 2);
    let fr = padded((ms % 1_000) as nat, 3);
    lemma_padded((ms / 3_600_000) as nat, 2);
    lemma_padded(((ms % 3_600_000) / 60_000) as nat, 2);
    lemma_padded(((ms % 60_000) / 1_000) as nat, 2);
    lemma_padded((ms % 1_000) as nat, 3);
    let t = time_text(ms);
    assert(t == fh + seq![':'] + fm + seq![':'] + fs + seq![','] + fr);
    assert forall|i: int| 0 <= i < t.len() implies is_time_char(#[trigger] t[i]) by {
        let a = fh.len() as int;
        let b = a + 1 + fm.len();
        let c = b + 1 + fs.len();
        if i < a {
            assert(t[i] == fh[i]);
        } else if i == a {
        } else if i < b {
            assert(t[i] == fm[i - a - 1]);
        } else if i == b {
        } else if i < c {
            assert(t[i] == fs[i - b - 1]);
        } else if i == c {
        } else {
            assert(t[i] == fr[i - c - 1]);
        }
    }
    assert(t[0] == fh[0]);
    assert(t[t.len() - 1] == fr[fr.len() - 1]);
}

/// The time line of an entry reads as its two times.
#[verifier::spinoff_prover]
pub proof fn lemma_parse_time_line(c: Caption)
    ensures
        parse_time_line(time_line(c)) == Ok::<(u64, u64), SrtErrorKind>(
            (c.start_time, c.end_time),
        ),
{
    let a = time_text(c.start_time);
    let b = time_text(c.end_time);
    let tl = time_line(c);
    lemma_time_text_chars(c.start_time);
    lemma_time_text_chars(c.end_time);
    assert(tl.subrange(a.len() as int, a.len() as int + 5) == arrow());
    assert forall|j: int| 0 <= j < a.len() implies !occurs_at(tl, arrow(), j) by {
        assert(is_time_char(a[j]));
        if j + 5 <= tl.len() {
            assert(tl.subrange(j, j + 5)[0] == a[j]);
        }
    }
    lemma_find_at(tl, arrow(), a.len() as int);
    let rest = tl.subrange(a.len() as int + 5, tl.len() as int);
    assert(rest == b);
    assert forall|j: int| 0 <= j implies !occurs_at(b, arrow(), j) by {
        if j + 5 <= b.len() {
            assert(is_time_char(b[j]));
            assert(b.subrange(j, j + 5)[0] == b[j]);
        }
    }
    lemma_find_none(b, arrow());
    assert(tl.subrange(0, a.len() as int) == a);
    lemma_trim_identity(a);
    lemma_trim_identity(b);
    lemma_parse_time_of_time_text(c.start_time);
    lemma_parse_time_of_time_text(c.end_time);
}

/// A line without line feed, a line feed and the rest: the lines are that
/// line, less a carriage return at its end, and those of the rest.
pub proof fn lemma_lines_cons(a: Seq<char>, rest: Seq<char>)
    requires
        forall|j: int| 0 <= j < a.len() ==> a[j] != '\n',
    ensures
        lines(a + seq!['\n'] + rest) == seq![strip_cr(a)] + lines(rest),
{
    let s = a + seq!['\n'] + rest;
    lemma_index_of(s, '\n', a.len() as int);
    assert(s.subrange(0, a.len() as int) == a);
    assert(s.subrange(a.len() as int + 1, s.len() as int) == rest);
}

/// The lines of a text whose pieces end with no carriage return, followed by
/// a line feed and more, are the pieces of the text and the lines of the rest.
pub proof fn lemma_lines_text(text: Seq<char>, rest: Seq<char>)
    requires
        forall|k: int|
            0 <= k < split_nl(text).len() ==> strip_cr(#[trigger] split_nl(text)[k]) == split_nl(
                text,
            )[k],
    ensures
        lines(text + seq!['\n'] + rest) == split_nl(text) + lines(rest),
    decreases text.len(),
{
    let i = index_of(text, '\n');
    lemma_index_of_is_first(text, '\n');
    if 0 <= i < text.len() {
        let a = text.subrange(0, i);
        let b = text.subrange(i + 1, text.len() as int);
        assert(split_nl(text) == seq![a] + split_nl(b));
        assert(split_nl(text)[0] == a);
        assert forall|k: int| 0 <= k < split_nl(b).len() implies strip_cr(
            #[trigger] split_nl(b)[k],
        ) == split_nl(b)[k] by {
            assert(split_nl(b)[k] == split_nl(text)[k + 1]);
        }
        lemma_lines_text(b, rest);
        lemma_lines_cons(a, b + seq!['\n'] + rest);
        assert(text + seq!['\n'] + rest == a + seq!['\n'] + (b + seq!['\n'] + rest));
        assert(seq![a] + (split_nl(b) + lines(rest)) == seq![a] + split_nl(b) + lines(rest));
    } else {
        assert(split_nl(text)[0] == text);
        lemma_lines_cons(text, rest);
    }
}

/// Joining the pieces of a text gives the text.
pub proof fn lemma_join_split(s: Seq<char>)
    ensures
        join_lines(split_nl(s)) == s,
        split_nl(s).len() >= 1,
    decreases s.len(),
{
    let i = index_of(s, '\n');
    lemma_index_of_is_first(s, '\n');
    if 0 <= i < s.len() {
        let a = s.subrange(0, i);
        let b = s.subrange(i + 1, s.len() as int);
        lemma_join_split(b);
        let all = split_nl(s);
        assert(all == seq![a] + split_nl(b));
        assert(all.subrange(1, all.len() as int) == split_nl(b));
        assert(a + seq!['\n'] + b == s);
    }
}

/// The lines of an entry followed by more are its index line, its time line,
/// the pieces of its text, and the lines of what follows.
#[verifier::spinoff_prover]
#[verifier::rlimit(30)]
pub proof fn lemma_lines_entry(c: Caption, tail: Seq<char>)
    requires
        storable_text(c.text),
    ensures
        lines(entry_text(c) + tail) == seq![decimal(c.index as nat), time_line(c)] + split_nl(
            c.text,
        ) + lines(tail),
{
    let idx = decimal(c.index as nat);
    let tl = time_line(c);
    lemma_decimal(c.index as nat);
    lemma_time_line_chars(c);
    let r2 = c.text + seq!['\n'] + tail;
    let r1 = tl + seq!['\n'] + r2;
    assert(entry_text(c) + tail == idx + seq!['\n'] + r1);
    assert forall|j: int| 0 <= j < idx.len() implies idx[j] != '\n' by {
        assert(is_digit(idx[j]));
    }
    lemma_lines_cons(idx, r1);
    lemma_lines_cons(tl, r2);
    assert(is_digit(idx[idx.len() - 1]));
    assert forall|k: int| 0 <= k < split_nl(c.text).len() implies strip_cr(
        #[trigger] split_nl(c.text)[k],
    ) == split_nl(c.text)[k] by {
        if c.text.len() == 0 {
            assert(split_nl(c.text)[k] == c.text);
        }
    }
    lemma_lines_text(c.text, tail);
    assert(seq![idx] + (seq![tl] + (split_nl(c.text) + lines(tail))) == seq![idx, tl] + split_nl(
        c.text,
    ) + lines(tail));
}

/// A time line holds no line feed and no whitespace but the two blanks of its
/// arrow, and begins and ends with a digit.
pub proof fn lemma_time_line_chars(c: Caption)
    ensures
        time_line(c).len() > 0,
        forall|j: int| 0 <= j < time_line(c).len() ==> time_line(c)[j] != '\n',
        strip_cr(time_line(c)) == time_line(c),
        is_digit(time_line(c)[0]),
{
    let a = time_text(c.start_time);
    let b = time_text(c.end_time);
    let tl = time_line(c);
    lemma_time_text_chars(c.start_time);
    lemma_time_text_chars(c.end_time);
    assert forall|j: int| 0 <= j < tl.len() implies tl[j] != '\n' by {
        if j < a.len() {
            assert(is_time_char(a[j]));
        } else if j < a.len() + 5 {
            assert(tl[j] == arrow()[j - a.len()]);
        } else {
            assert(is_time_char(b[j - a.len() - 5]));
        }
    }
    assert(tl[tl.len() - 1] == b[b.len() - 1]);
    assert(tl[0] == a[0]);
}

/// The text that begins at `k` ends at `j` where no line from `k` up to `j`
/// is blank and a blank line or the end follows.
pub proof fn lemma_text_end_is(ls: Seq<Seq<char>>, k: int, j: int)
    requires
        0 <= k <= j <= ls.len(),
        forall|m: int| k <= m < j ==> !is_blank(ls[m]),
        j == ls.len() || is_blank(ls[j]),
    ensures
        text_end(ls, k) == j,
    decreases j - k,
{
    if k < j {
        lemma_text_end_is(ls, k + 1, j);
    }
}

/// Blank lines from `k` up to `j` are skipped alike from `k` and from `j`.
pub proof fn lemma_skip_blank_is(ls: Seq<Seq<char>>, k: int, j: int)
    requires
        0 <= k <= j <= ls.len(),
        forall|m: int| k <= m < j ==> is_blank(ls[m]),
    ensures
        skip_blank(ls, k) == skip_blank(ls, j),
    decreases j - k,
{
    if k < j {
        lemma_skip_blank_is(ls, k + 1, j);
    }
}

/// Blank lines before an entry do not change what is read.
pub proof fn lemma_parse_skips_blank(ls: Seq<Seq<char>>, k: int, j: int)
    requires
        0 <= k <= j <= ls.len(),
        forall|m: int| k <= m < j ==> is_blank(ls[m]),
    ensures
        parse_entries(ls, k) == parse_entries(ls, j),
{
    lemma_skip_blank_is(ls, k, j);
}

/// Where the lines from `k` hold the index line and the time line of `c`, and
/// the lines up to `j` are the text of `c` and end before a blank line or at
/// the end, the entries read from `k` are `c` and those read from `j`.
#[verifier::spinoff_prover]
#[verifier::rlimit(30)]
pub proof fn lemma_parse_entry(ls: Seq<Seq<char>>, k: int, c: Caption, j: int)
    requires
        0 <= k,
        k + 2 <= j <= ls.len(),
        ls[k] == decimal(c.index as nat),
        ls[k + 1] == time_line(c),
        join_lines(ls.subrange(k + 2, j)) == c.text,
        forall|m: int| k + 2 <= m < j ==> !is_blank(ls[m]),
        j == ls.len() || is_blank(ls[j]),
    ensures
        parse_entries(ls, k) == prepend(seq![c], parse_entries(ls, j)),
{
    let idx = decimal(c.index as nat);
    lemma_decimal(c.index as nat);
    assert(is_digit(idx[0]));
    assert(is_digit(idx[idx.len() - 1]));
    lemma_trim_identity(idx);
    assert(parse_uint(idx, usize::MAX as int) == Some(c.index as int));
    assert(!is_blank(ls[k]));
    assert(skip_blank(ls, k) == k);
    lemma_parse_time_line(c);
    lemma_text_end_is(ls, k + 2, j);
    let got = Caption {
        index: (c.index as int) as usize,
        start_time: c.start_time,
        end_time: c.end_time,
        text: join_lines(ls.subrange(k + 2, j)),
    };
    assert(got == c);
}

/// The blank line that stands between two entries, where another follows.
pub open spec fn gap_lines(more: bool) -> Seq<Seq<char>> {
    if more {
        seq![Seq::<char>::empty()]
    } else {
        Seq::empty()
    }
}

/// The lines of an entry: its index line, its time line and the pieces of its
/// text.
pub open spec fn entry_lines(c: Caption) -> Seq<Seq<char>> {
    seq![decimal(c.index as nat), time_line(c)] + split_nl(c.text)
}

/// A line feed at the start makes one empty line.
pub proof fn lemma_lines_leading_feed(rest: Seq<char>)
    ensures
        lines(seq!['\n'] + rest) == seq![Seq::<char>::empty()] + lines(rest),
{
    lemma_lines_cons(Seq::<char>::empty(), rest);
    assert(Seq::<char>::empty() + seq!['\n'] + rest == seq!['\n'] + rest);
}

/// The text of a track of more than one entry is its first entry, a line
/// feed, and the text of the others.
pub proof fn lemma_track_text_more(track: Seq<Caption>)
    requires
        track.len() > 1,
    ensures
        track_text(track) == entry_text(track[0]) + (seq!['\n'] + track_text(
            track.subrange(1, track.len() as int),
        )),
{
    let rest = track_text(track.subrange(1, track.len() as int));
    assert(entry_text(track[0]) + seq!['\n'] + rest == entry_text(track[0]) + (seq!['\n'] + rest));
}

/// The lines of a written track are the lines of its first entry, a blank
/// line where more entries follow, and the lines of the rest written.
#[verifier::spinoff_prover]
#[verifier::rlimit(30)]
pub proof fn lemma_lines_track(track: Seq<Caption>)
    requires
        track.len() > 0,
        storable_text(track[0].text),
    ensures
        lines(track_text(track)) == entry_lines(track[0]) + gap_lines(track.len() > 1) + lines(
            track_text(track.subrange(1, track.len() as int)),
        ),
{
    let c = track[0];
    let rest = track.subrange(1, track.len() as int);
    let after = lines(track_text(rest));
    let gap = gap_lines(track.len() > 1);
    let head = entry_lines(c);
    if track.len() > 1 {
        let tail = seq!['\n'] + track_text(rest);
        lemma_track_text_more(track);
        lemma_lines_entry(c, tail);
        lemma_lines_leading_feed(track_text(rest));
        assert(lines(tail) == gap + after);
        assert(head + (gap + after) == head + gap + after);
    } else {
        let none = Seq::<char>::empty();
        assert(track_text(rest) == none);
        assert(entry_text(c) + none == entry_text(c));
        lemma_lines_entry(c, none);
        assert(head + gap + after == head + after);
    }
}

/// Where the lines from `k` on are the lines of the entry `c`, with a blank
/// line after them where `more` says so and the end of the lines otherwise,
/// reading from `k` gives `c` and whatever the lines after these hold.
#[verifier::spinoff_prover]
#[verifier::rlimit(30)]
pub proof fn lemma_parse_first_at(ls: Seq<Seq<char>>, k: int, c: Caption, more: bool)
    requires
        0 <= k,
        storable_text(c.text),
        k + 2 + split_nl(c.text).len() + gap_lines(more).len() <= ls.len(),
        ls[k] == decimal(c.index as nat),
        ls[k + 1] == time_line(c),
        forall|i: int| 0 <= i < split_nl(c.text).len() ==> ls[k + 2 + i] == split_nl(c.text)[i],
        more ==> ls[k + 2 + split_nl(c.text).len()].len() == 0,
        !more ==> ls.len() == k + 2 + split_nl(c.text).len(),
    ensures
        parse_entries(ls, k) == prepend(
            seq![c],
            parse_entries(ls, k + 2 + split_nl(c.text).len() + gap_lines(more).len()),
        ),
{
    let pieces = split_nl(c.text);
    let n = pieces.len() as int;
    let end = k + 2 + n + gap_lines(more).len();
    lemma_join_split(c.text);
    assert(is_blank(Seq::<char>::empty()));
    let j = if c.text.len() > 0 {
        k + 2 + n
    } else {
        k + 2
    };
    assert(join_lines(ls.subrange(k + 2, j)) == c.text) by {
        if c.text.len() > 0 {
            assert(ls.subrange(k + 2, j) =~= pieces);
        } else {
            assert(ls.subrange(k + 2, j).len() == 0);
        }
    }
    assert forall|m: int| k + 2 <= m < j implies !is_blank(ls[m]) by {
        assert(ls[m] == pieces[m - k - 2]);
        assert(storable_line(pieces[m - k - 2]));
    }
    assert(j == ls.len() || is_blank(ls[j])) by {
        if c.text.len() == 0 {
            assert(pieces[0] == c.text);
            assert(ls[k + 2 + 0] == pieces[0]);
        } else if more {
            assert(ls[j] =~= Seq::<char>::empty());
        }
    }
    lemma_parse_entry(ls, k, c, j);
    assert forall|m: int| j <= m < end implies is_blank(ls[m]) by {
        if m < k + 2 + n {
            assert(pieces[0] == c.text);
            assert(ls[k + 2 + 0] == pieces[0]);
        } else {
            assert(ls[m] =~= Seq::<char>::empty());
        }
    }
    lemma_parse_skips_blank(ls, j, end);
}

/// Reading the lines of an entry, with a blank line after them or nothing,
/// gives the entry and whatever the lines after these hold.
#[verifier::spinoff_prover]
pub proof fn lemma_parse_first(pre: Seq<Seq<char>>, c: Caption, more: bool, after: Seq<Seq<char>>)
    requires
        storable_text(c.text),
        more || after.len() == 0,
    ensures
        parse_entries(pre + entry_lines(c) + gap_lines(more) + after, pre.len() as int) == prepend(
            seq![c],
            parse_entries(
                pre + entry_lines(c) + gap_lines(more) + after,
                (pre + entry_lines(c) + gap_lines(more)).len() as int,
            ),
        ),
{
    let pieces = split_nl(c.text);
    let gap = gap_lines(more);
    let lines_of_c = entry_lines(c);
    let ls = pre + lines_of_c + gap + after;
    let k = pre.len() as int;
    assert(lines_of_c.len() == 2 + pieces.len());
    assert(ls[k] == lines_of_c[0]);
    assert(ls[k + 1] == lines_of_c[1]);
    assert forall|i: int| 0 <= i < pieces.len() implies ls[k + 2 + i] == pieces[i] by {
        assert(ls[k + 2 + i] == lines_of_c[2 + i]);
    }
    if more {
        assert(ls[k + 2 + pieces.len()] == gap[0]);
    }
    lemma_parse_first_at(ls, k, c, more);
}

/// The lines of a written track, after any lines `pre`, read from the end of
/// `pre` as the track.
#[verifier::spinoff_prover]
#[verifier::rlimit(30)]
pub proof fn lemma_parse_after(pre: Seq<Seq<char>>, track: Seq<Caption>)
    requires
        storable(track),
    ensures
        parse_entries(pre + lines(track_text(track)), pre.len() as int) == Ok::<
            Seq<Caption>,
            SrtError,
        >(track),
    decreases track.len(),
{
    let ls = pre + lines(track_text(track));
    let k = pre.len() as int;
    if track.len() == 0 {
        assert(lines(track_text(track)).len() == 0);
        assert(skip_blank(ls, k) == k);
        assert(track == Seq::<Caption>::empty());
    } else {
        let c = track[0];
        let rest = track.subrange(1, track.len() as int);
        assert(storable_text(c.text));
        assert(storable(rest)) by {
            assert forall|i: int| 0 <= i < rest.len() implies storable_text(
                #[trigger] rest[i].text,
            ) by {
                assert(rest[i] == track[i + 1]);
            }
        }
        let more = track.len() > 1;
        let after = lines(track_text(rest));
        lemma_lines_track(track);
        if !more {
            assert(track_text(rest) == Seq::<char>::empty());
            assert(after.len() == 0);
        }
        let pre2 = pre + entry_lines(c) + gap_lines(more);
        assert(ls == pre2 + after) by {
            assert(pre + (entry_lines(c) + gap_lines(more) + after) == pre + entry_lines(c)
                + gap_lines(more) + after);
        }
        lemma_parse_after(pre2, rest);
        lemma_parse_first(pre, c, more, after);
        assert(seq![c] + rest == track);
    }
}

/// Reading a written track gives the track back, index, times and text of
/// every entry, provided that each text is storable.
pub proof fn lemma_parse_serialized(track: Seq<Caption>)
    requires
        storable(track),
    ensures
        parse_srt_spec(track_text(track)) == Ok::<Seq<Caption>, SrtError>(track),
{
    lemma_parse_after(Seq::empty(), track);
    assert(Seq::<Seq<char>>::empty() + lines(track_text(track)) == lines(track_text(track)));
}

} // verus!
