use auto_subs::subtitle::srt::{parse_srt_string, serialize_srt, SrtErrorKind, Subtitle, TimeError};

#[test]
fn test_format_time() {
    assert_eq!(Subtitle::format_time(0), "00:00:00,000");
    assert_eq!(Subtitle::format_time(1500), "00:00:01,500");
    assert_eq!(Subtitle::format_time(65000), "00:01:05,000");
    assert_eq!(Subtitle::format_time(3661500), "01:01:01,500");
}

#[test]
fn test_parse_time() {
    assert_eq!(Subtitle::parse_time("00:00:00,000").unwrap(), 0);
    assert_eq!(Subtitle::parse_time("00:00:01,500").unwrap(), 1500);
    assert_eq!(Subtitle::parse_time("00:01:05,000").unwrap(), 65000);
}

#[test]
fn format_time_hours_beyond_two_digits() {
    assert_eq!(Subtitle::format_time(360_000_000), "100:00:00,000");
    assert_eq!(Subtitle::format_time(u64::MAX), "5124095576030:25:51,615");
}

#[test]
fn parse_time_inverts_format_time() {
    for ms in [0u64, 1, 999, 1000, 59_999, 60_000, 3_599_999, 3_600_000, 86_399_999, u64::MAX] {
        assert_eq!(Subtitle::parse_time(&Subtitle::format_time(ms)), Ok(ms));
    }
}

#[test]
fn parse_time_errors() {
    assert_eq!(Subtitle::parse_time(""), Err(TimeError::FieldCount));
    assert_eq!(Subtitle::parse_time("00:00:00"), Err(TimeError::FieldCount));
    assert_eq!(Subtitle::parse_time("00:00:00,000,1"), Err(TimeError::FieldCount));
    assert_eq!(Subtitle::parse_time("aa:00:00,000"), Err(TimeError::Hours));
    assert_eq!(Subtitle::parse_time("00:-1:00,000"), Err(TimeError::Minutes));
    assert_eq!(Subtitle::parse_time("00:00: 1,000"), Err(TimeError::Seconds));
    assert_eq!(Subtitle::parse_time("00:00:00,"), Err(TimeError::Millis));
    assert_eq!(
        Subtitle::parse_time("18446744073709551615:00:00,000"),
        Err(TimeError::TooLarge)
    );
    assert_eq!(Subtitle::parse_time("18446744073709551616:00:00,000"), Err(TimeError::Hours));
}

#[test]
fn parse_time_accepts_plus_and_any_separator() {
    assert_eq!(Subtitle::parse_time("+1:+2:+3,+4"), Ok(3_723_004));
    assert_eq!(Subtitle::parse_time("1,2,3:4"), Ok(3_723_004));
    assert_eq!(Subtitle::parse_time("0:0:0,0005"), Ok(5));
}

#[test]
fn to_srt_renders_an_entry() {
    let s = Subtitle::new(7, 1500, 65000, String::from("Hello\nworld"));
    assert_eq!(s.to_srt(), "7\n00:00:01,500 --> 00:01:05,000\nHello\nworld\n");
}

#[test]
fn parse_reads_entries() {
    let text = "1\n00:00:00,000 --> 00:00:01,500\nHello\n\n2\n00:00:01,500 --> 00:00:03,000\nTwo\nlines\n";
    let track = parse_srt_string(text).unwrap();
    assert_eq!(track.len(), 2);
    assert_eq!(track[0].index, 1);
    assert_eq!(track[0].start_time, 0);
    assert_eq!(track[0].end_time, 1500);
    assert_eq!(track[0].text, "Hello");
    assert_eq!(track[1].index, 2);
    assert_eq!(track[1].start_time, 1500);
    assert_eq!(track[1].end_time, 3000);
    assert_eq!(track[1].text, "Two\nlines");
}

#[test]
fn parse_tolerates_crlf_blank_runs_and_padding() {
    let text = "\r\n  \n 3 \r\n 00:00:01,000  -->  00:00:02,000 \r\nText\r\n\r\n\r\n";
    let track = parse_srt_string(text).unwrap();
    assert_eq!(track.len(), 1);
    assert_eq!(track[0].index, 3);
    assert_eq!(track[0].start_time, 1000);
    assert_eq!(track[0].end_time, 2000);
    assert_eq!(track[0].text, "Text");
}

#[test]
fn parse_empty_input_is_empty_track() {
    assert_eq!(parse_srt_string("").unwrap().len(), 0);
    assert_eq!(parse_srt_string("\n \n\t\n").unwrap().len(), 0);
}

#[test]
fn parse_errors_name_kind_and_line() {
    let e = parse_srt_string("x\n00:00:00,000 --> 00:00:01,000\nHi\n").unwrap_err();
    assert_eq!(e.kind, SrtErrorKind::InvalidIndex);
    assert_eq!(e.line, 1);

    let e = parse_srt_string("\n\n1\n").unwrap_err();
    assert_eq!(e.kind, SrtErrorKind::ExpectedTimeRange);
    assert_eq!(e.line, 3);

    let e = parse_srt_string("1\n00:00:00,000 -> 00:00:01,000\nHi\n").unwrap_err();
    assert_eq!(e.kind, SrtErrorKind::InvalidTimeRange);
    assert_eq!(e.line, 2);

    let e = parse_srt_string("1\n0:0:0,0 --> 0:0:1,0 --> 0:0:2,0\nHi\n").unwrap_err();
    assert_eq!(e.kind, SrtErrorKind::InvalidTimeRange);
    assert_eq!(e.line, 2);

    let e = parse_srt_string("1\n00:00:00,000 --> 00:00:01\nHi\n").unwrap_err();
    assert_eq!(e.kind, SrtErrorKind::InvalidTime(TimeError::FieldCount));
    assert_eq!(e.line, 2);

    let text = "1\n00:00:00,000 --> 00:00:01,000\nHi\n\n2\n00:00:0x,000 --> 00:00:02,000\nYo\n";
    let e = parse_srt_string(text).unwrap_err();
    assert_eq!(e.kind, SrtErrorKind::InvalidTime(TimeError::Seconds));
    assert_eq!(e.line, 6);
}

#[test]
fn serialize_joins_entries_with_a_blank_line() {
    let track = vec![
        Subtitle::new(1, 0, 1500, String::from("Hello")),
        Subtitle::new(2, 1500, 3000, String::from("Two\nlines")),
    ];
    assert_eq!(
        serialize_srt(&track),
        "1\n00:00:00,000 --> 00:00:01,500\nHello\n\n2\n00:00:01,500 --> 00:00:03,000\nTwo\nlines\n"
    );
    assert_eq!(serialize_srt(&Vec::new()), "");
}

#[test]
fn round_trip_gives_the_track_back() {
    let track = vec![
        Subtitle::new(1, 0, 1500, String::from("Hello")),
        Subtitle::new(2, 1500, 3000, String::from("")),
        Subtitle::new(40, 3000, 3_600_000_123, String::from("Two\nlines, \u{e9}t\u{e9}")),
        Subtitle::new(usize::MAX, u64::MAX - 1, u64::MAX, String::from("end")),
    ];
    let back = parse_srt_string(&serialize_srt(&track)).unwrap();
    assert_eq!(back.len(), track.len());
    for (a, b) in back.iter().zip(track.iter()) {
        assert_eq!(a.index, b.index);
        assert_eq!(a.start_time, b.start_time);
        assert_eq!(a.end_time, b.end_time);
        assert_eq!(a.text, b.text);
    }
}

#[test]
fn preview_is_one_short_line() {
    let s = Subtitle::new(1, 0, 1, String::from("Hello\nbig world"));
    assert_eq!(s.preview(100), "Hello big world");
    assert_eq!(s.preview(15), "Hello big world");
    assert_eq!(s.preview(14), "Hello big worl...");
    assert_eq!(s.preview(6), "Hello ...");
    assert_eq!(s.preview(0), "...");
    assert_eq!(Subtitle::new(1, 0, 1, String::new()).preview(0), "");
    assert_eq!(Subtitle::new(1, 0, 1, String::from("\u{e9}t\u{e9}")).preview(2), "\u{e9}t...");
}

#[test]
fn clone_copies_every_part() {
    let s = Subtitle::new(3, 10, 20, String::from("x\ny"));
    let c = s.clone();
    assert_eq!((c.index, c.start_time, c.end_time, c.text.as_str()), (3, 10, 20, "x\ny"));
}
