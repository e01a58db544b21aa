use auto_subs::subtitle::generator::{centis_to_ms, Segment, SubtitleGenerator};
use auto_subs::subtitle::srt::Subtitle;
use std::path::PathBuf;

fn generator() -> SubtitleGenerator {
    SubtitleGenerator { model_path: PathBuf::from("model.bin") }
}

fn spans(track: &[Subtitle]) -> Vec<(usize, u64, u64, String)> {
    track.iter().map(|s| (s.index, s.start_time, s.end_time, s.text.clone())).collect()
}

#[test]
fn sentences_end_at_terminators_before_closers() {
    let g = generator();
    assert_eq!(
        g.split_into_sentences("Hello world. How are you? Fine!"),
        vec!["Hello world.", "How are you?", "Fine!"]
    );
    assert_eq!(g.split_into_sentences("He said \"no.\" Then left."), vec![
        "He said \"no.",
        "\" Then left."
    ]);
    assert_eq!(g.split_into_sentences("(Really?) Yes"), vec!["(Really?", ") Yes"]);
    assert_eq!(g.split_into_sentences("[ok!] go"), vec!["[ok!", "] go"]);
    assert_eq!(g.split_into_sentences("it's 'so.' fine"), vec!["it's 'so.", "' fine"]);
}

#[test]
fn sentences_do_not_end_inside_numbers_or_words() {
    let g = generator();
    assert_eq!(g.split_into_sentences("Version 3.14 is out"), vec!["Version 3.14 is out"]);
    assert_eq!(g.split_into_sentences("Wait...what"), vec!["Wait...what"]);
    assert_eq!(g.split_into_sentences("Mr. Smith came."), vec!["Mr.", "Smith came."]);
}

#[test]
fn sentences_of_blank_or_plain_text() {
    let g = generator();
    assert_eq!(g.split_into_sentences("no punctuation here"), vec!["no punctuation here"]);
    assert_eq!(g.split_into_sentences("  padded  "), vec!["padded"]);
    assert_eq!(g.split_into_sentences(""), vec![""]);
    assert_eq!(g.split_into_sentences("   "), vec![""]);
    assert_eq!(g.split_into_sentences("\u{e9}t\u{e9}. \u{4f60}\u{597d}!"), vec![
        "\u{e9}t\u{e9}.",
        "\u{4f60}\u{597d}!"
    ]);
}

#[test]
fn splitter_shares_the_span_by_length() {
    let g = generator();
    let mut out = Vec::new();
    g.split_segment(&mut out, 0, 10_000, "Hello world. How are you? Fine!");
    assert_eq!(spans(&out), vec![
        (1, 0, 4137, String::from("Hello world.")),
        (2, 4137, 8274, String::from("How are you?")),
        (3, 8274, 10_000, String::from("Fine!")),
    ]);
}

#[test]
fn splitter_conserves_the_span() {
    let g = generator();
    for (start, end, text) in [
        (0u64, 1u64, "a. b. c. d."),
        (1000, 1000, "One. Two."),
        (5, 77, "Yes! No? Maybe. So it goes"),
        (u64::MAX - 10, u64::MAX, "x. y. z."),
        (0, u64::MAX, "Long one here. s."),
    ] {
        let mut out = Vec::new();
        g.split_segment(&mut out, start, end, text);
        assert!(!out.is_empty());
        assert_eq!(out[0].start_time, start);
        assert_eq!(out[out.len() - 1].end_time, end);
        let mut total: u128 = 0;
        for (i, s) in out.iter().enumerate() {
            assert!(s.start_time <= s.end_time);
            if i + 1 < out.len() {
                assert_eq!(s.end_time, out[i + 1].start_time);
            }
            total += (s.end_time - s.start_time) as u128;
        }
        assert_eq!(total, (end - start) as u128);
    }
}

#[test]
fn splitter_passes_a_single_unit_through() {
    let g = generator();
    let mut out = Vec::new();
    g.split_segment(&mut out, 1200, 3400, "  just one phrase ");
    assert_eq!(spans(&out), vec![(1, 1200, 3400, String::from("just one phrase"))]);
}

#[test]
fn splitter_skips_blank_text() {
    let g = generator();
    let mut out = Vec::new();
    g.split_segment(&mut out, 0, 1000, "");
    g.split_segment(&mut out, 0, 1000, " \t\n ");
    assert!(out.is_empty());
}

#[test]
fn splitter_counts_characters_not_bytes() {
    let g = generator();
    let mut out = Vec::new();
    g.split_segment(&mut out, 0, 900, "\u{4f60}\u{597d}\u{5417}? ab.");
    assert_eq!(spans(&out), vec![
        (1, 0, 514, String::from("\u{4f60}\u{597d}\u{5417}?")),
        (2, 514, 900, String::from("ab.")),
    ]);
}

#[test]
fn splitter_goes_on_counting_from_the_track() {
    let g = generator();
    let mut out = vec![Subtitle::new(1, 0, 10, String::from("first"))];
    g.split_segment(&mut out, 10, 30, "A. B.");
    assert_eq!(spans(&out), vec![
        (1, 0, 10, String::from("first")),
        (2, 10, 20, String::from("A.")),
        (3, 20, 30, String::from("B.")),
    ]);
}

#[test]
fn segments_become_one_track() {
    let g = generator();
    let segments = vec![
        Segment { start_ms: 0, end_ms: 2000, text: String::from(" Hi there. ") },
        Segment { start_ms: 2000, end_ms: 2500, text: String::from("  ") },
        Segment { start_ms: 2500, end_ms: 6500, text: String::from("One. Two two.") },
    ];
    let track = g.subtitles_from_segments(&segments);
    assert_eq!(spans(&track), vec![
        (1, 0, 2000, String::from("Hi there.")),
        (2, 2500, 3833, String::from("One.")),
        (3, 3833, 6500, String::from("Two two.")),
    ]);
}

#[test]
fn centiseconds_become_milliseconds() {
    assert_eq!(centis_to_ms(0), 0);
    assert_eq!(centis_to_ms(150), 1500);
    assert_eq!(centis_to_ms(-3), 0);
    assert_eq!(centis_to_ms(i64::MAX), u64::MAX);
    let s = Segment::from_centis(100, 250, String::from("x"));
    assert_eq!((s.start_ms, s.end_ms), (1000, 2500));
    let s = Segment::from_centis(300, 250, String::from("x"));
    assert_eq!((s.start_ms, s.end_ms), (3000, 3000));
}

#[test]
fn model_lies_in_the_cache_directory() {
    let g = SubtitleGenerator::new();
    assert!(g.model_path.ends_with("auto-subs-tui/models/ggml-base.en.bin"));
    assert!(g.model_path.components().count() >= 4);
}

#[test]
fn model_lies_under_the_directory_that_was_found() {
    let g = SubtitleGenerator::with_cache_dir(Some(PathBuf::from("/home/me/.cache")));
    assert_eq!(
        g.model_path,
        PathBuf::from("/home/me/.cache/auto-subs-tui/models/ggml-base.en.bin")
    );
    let g = SubtitleGenerator::with_cache_dir(None);
    assert_eq!(g.model_path, PathBuf::from("./auto-subs-tui/models/ggml-base.en.bin"));
}
