use auto_subs::subtitle::generator::SubtitleGenerator;
use auto_subs::subtitle::srt::{parse_srt_string, Subtitle};
use std::path::PathBuf;

/// A small generator of numbers that gives the same run every time.
struct Dice(u64);

impl Dice {
    fn roll(&mut self, sides: usize) -> usize {
        self.0 = self.0.wrapping_mul(6364136223846793005).wrapping_add(1442695040888963407);
        ((self.0 >> 33) as usize) % sides
    }

    fn text(&mut self, alphabet: &[&str], max: usize) -> String {
        let n = self.roll(max + 1);
        (0..n).map(|_| alphabet[self.roll(alphabet.len())]).collect()
    }
}

fn time_by_the_standard_library(s: &str) -> Option<u64> {
    let parts: Vec<&str> = s.split(|c| c == ':' || c == ',').collect();
    if parts.len() != 4 {
        return None;
    }
    let hours: u64 = parts[0].parse().ok()?;
    let minutes: u64 = parts[1].parse().ok()?;
    let seconds: u64 = parts[2].parse().ok()?;
    let millis: u64 = parts[3].parse().ok()?;
    hours
        .checked_mul(3_600_000)?
        .checked_add(minutes.checked_mul(60_000)?)?
        .checked_add(seconds.checked_mul(1_000)?)?
        .checked_add(millis)
}

fn track_by_the_standard_library(content: &str) -> Option<Vec<(usize, u64, u64, String)>> {
    let mut subtitles = Vec::new();
    let mut lines = content.lines().peekable();
    while lines.peek().is_some() {
        while lines.peek().map(|l| l.trim().is_empty()).unwrap_or(false) {
            lines.next();
        }
        let index_line = match lines.next() {
            Some(l) if !l.trim().is_empty() => l,
            _ => break,
        };
        let index: usize = index_line.trim().parse().ok()?;
        let time_line = lines.next()?;
        let parts: Vec<&str> = time_line.split(" --> ").collect();
        if parts.len() != 2 {
            return None;
        }
        let start = time_by_the_standard_library(parts[0].trim())?;
        let end = time_by_the_standard_library(parts[1].trim())?;
        let mut text_lines = Vec::new();
        while let Some(line) = lines.peek() {
            if line.trim().is_empty() {
                break;
            }
            text_lines.push(lines.next().unwrap());
        }
        subtitles.push((index, start, end, text_lines.join("\n")));
    }
    Some(subtitles)
}

fn sentences_by_the_standard_library(text: &str) -> Vec<&str> {
    let mut sentences = Vec::new();
    let mut start = 0;
    let chars: Vec<char> = text.chars().collect();
    for (i, ch) in chars.iter().enumerate() {
        if matches!(ch, '.' | '!' | '?') {
            let ends = if i + 1 < chars.len() {
                matches!(chars[i + 1], ' ' | '"' | '\'' | ')' | ']')
            } else {
                true
            };
            if ends {
                let end = text.char_indices().nth(i + 1).map(|(pos, _)| pos).unwrap_or(text.len());
                let sentence = text[start..end].trim();
                if !sentence.is_empty() {
                    sentences.push(sentence);
                }
                start = end;
            }
        }
    }
    if start < text.len() {
        let sentence = text[start..].trim();
        if !sentence.is_empty() {
            sentences.push(sentence);
        }
    }
    if sentences.is_empty() {
        sentences.push(text.trim());
    }
    sentences
}

fn parts(track: &[Subtitle]) -> Vec<(usize, u64, u64, String)> {
    track.iter().map(|s| (s.index, s.start_time, s.end_time, s.text.clone())).collect()
}

#[test]
fn times_read_as_the_standard_library_reads_them() {
    let alphabet = ["0", "1", "5", "9", ":", ":", ",", ",", "+", " ", "a", "-"];
    let mut dice = Dice(1);
    for _ in 0..40_000 {
        let s = dice.text(&alphabet, 12);
        assert_eq!(Subtitle::parse_time(&s).ok(), time_by_the_standard_library(&s), "{:?}", s);
    }
    for s in ["5124095576030:25:51,615", "5124095576030:25:51,616", "0:0:0,18446744073709551616"] {
        assert_eq!(Subtitle::parse_time(s).ok(), time_by_the_standard_library(s), "{:?}", s);
    }
}

#[test]
fn tracks_read_as_the_standard_library_reads_them() {
    let indices = ["1", "2", " 3 ", "12", "+7", "007", "x", "", "1a", "99999999999999999999999"];
    let times = [
        "00:00:01,000",
        "00:00:02,500",
        " 0:0:3,0 ",
        "01:02:03,004",
        "1,2,3,4",
        "100:00:00,000",
        "1:2:3",
        "00:00:0x,000",
        "",
        "5124095576030:25:51,616",
    ];
    let arrows = [" --> ", " --> ", " --> ", " --> ", "-->", " -> ", " --> 0:0:0,0 --> ", "  -->  "];
    let breaks = ["\n", "\n", "\n", "\r\n", "\n\n", "\n \n", "", "\r", "\n\t\n\n"];
    let texts = ["text", "Hi.", "two\nlines", "a\r\nb", "x \u{e9}", "1", " --> ", "\u{a0}", ""];
    let mut dice = Dice(2);
    let mut read = 0;
    let mut refused = 0;
    for _ in 0..30_000 {
        let mut s = String::new();
        for _ in 0..dice.roll(4) {
            let cheat = dice.roll(4) == 0;
            let mut pick = |dice: &mut Dice, options: &[&str]| -> String {
                let limit = if cheat { options.len() } else { 4.min(options.len()) };
                String::from(options[dice.roll(limit)])
            };
            s += &pick(&mut dice, &indices);
            s += &pick(&mut dice, &breaks);
            s += &pick(&mut dice, &times);
            s += &pick(&mut dice, &arrows);
            s += &pick(&mut dice, &times);
            s += &pick(&mut dice, &breaks);
            s += &pick(&mut dice, &texts);
            s += &pick(&mut dice, &breaks);
            s += &pick(&mut dice, &breaks);
        }
        let want = track_by_the_standard_library(&s);
        let got = parse_srt_string(&s).ok().map(|t| parts(&t));
        match &got {
            Some(t) if !t.is_empty() => read += 1,
            None => refused += 1,
            _ => {}
        }
        assert_eq!(got, want, "{:?}", s);
    }
    assert!(read > 1000, "{}", read);
    assert!(refused > 1000, "{}", refused);
}

#[test]
fn sentences_are_cut_as_the_standard_library_cuts_them() {
    let pieces = [
        "a", "b", "word", " ", " ", ".", ".", "!", "?", "\"", "'", ")", "]", "(", "\n", "\t",
        "\u{e9}", "\u{4f60}", "\u{3000}", "3",
    ];
    let generator = SubtitleGenerator { model_path: PathBuf::from("model.bin") };
    let mut dice = Dice(3);
    for _ in 0..30_000 {
        let s = dice.text(&pieces, 16);
        assert_eq!(
            generator.split_into_sentences(&s),
            sentences_by_the_standard_library(&s),
            "{:?}",
            s
        );
    }
}
