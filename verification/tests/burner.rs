use auto_subs::subtitle::burner::{
    direct_filter, drawbox_filter, escape_path, font_size, fraction_fields, margin_v, merge_filter,
    overlay_source, parse_dimensions, position, subtitles_filter, DimensionsError,
    OverlayGeometry, OverlaySettings, SubtitleBurner,
};

#[test]
fn builders_set_one_field_each() {
    let b = SubtitleBurner::new();
    assert_eq!(b, SubtitleBurner {
        use_overlay: true,
        keep_overlay: false,
        overlay_height: None,
        overlay_width: None,
        overlay_x_offset: None,
        overlay_y_offset: None,
    });
    let b = b
        .with_overlay(false)
        .keep_overlay_file(true)
        .with_overlay_height(300)
        .with_overlay_width(800)
        .with_overlay_x_offset(50)
        .with_overlay_y_offset(-20);
    assert_eq!(b, SubtitleBurner {
        use_overlay: false,
        keep_overlay: true,
        overlay_height: Some(300),
        overlay_width: Some(800),
        overlay_x_offset: Some(50),
        overlay_y_offset: Some(-20),
    });
}

#[test]
fn geometry_of_default_settings() {
    let settings = OverlaySettings { height: 200, width: None, x_offset: 0, y_offset: 0 };
    let g = settings.geometry(1920, 1080);
    assert_eq!(g.width, 1920);
    assert_eq!(g.height, 200);
    assert_eq!(g.x, 0);
    assert_eq!(g.y, 880);
    assert_eq!(OverlaySettings::new().geometry(1920, 1080), g);
    assert_eq!(SubtitleBurner::new().geometry(1920, 1080), g);
    assert_eq!(SubtitleBurner::new().with_overlay_height(200).geometry(1920, 1080), g);
}

#[test]
fn geometry_with_offsets() {
    let settings = OverlaySettings { height: 300, width: Some(800), x_offset: 50, y_offset: -20 };
    let g = settings.geometry(1920, 1080);
    assert_eq!(g.width, 800);
    assert_eq!(g.x, 610);
    assert_eq!(g.y, 760);
    let b = settings.burner();
    assert_eq!(b, SubtitleBurner::new()
        .with_overlay_height(300)
        .with_overlay_width(800)
        .with_overlay_x_offset(50)
        .with_overlay_y_offset(-20));
    assert_eq!(b.overlay_size(1920), (800, 300));
    assert_eq!(b.merge_position(1920, 1080, 800, 300), (610, 760));
    assert_eq!(settings.sizing_burner(), SubtitleBurner::new()
        .with_overlay_height(300)
        .with_overlay_width(800));
}

#[test]
fn settings_change_by_keys() {
    let mut s = OverlaySettings::new();
    for c in ['h', 'W', 'W', 'x', 'Y', 'Y', '?'] {
        s.adjust(c);
    }
    assert_eq!(s, OverlaySettings { height: 190, width: Some(1930), x_offset: -10, y_offset: 20 });
    s.adjust('0');
    assert_eq!(s, OverlaySettings::new());
}

#[test]
fn geometry_saturates() {
    assert_eq!(position(1920, 1080, 4000, 2000, 0, 0), (0, 0));
    assert_eq!(position(1920, 1080, 4000, 2000, -5, -7), (0, 0));
    assert_eq!(position(1920, 1080, 4000, 2000, 50, 9), (50, 9));
    assert_eq!(position(1920, 1080, 1920, 1080, 0, 0), (0, 0));
    assert_eq!(position(1920, 1080, 800, 300, -10_000, -10_000), (0, 0));
    assert_eq!(position(0, 0, 0, 0, i32::MIN, i32::MIN), (0, 0));
    assert_eq!(
        position(u32::MAX, u32::MAX, 0, 0, i32::MAX, i32::MAX),
        (2147483647 + 2147483647, 4294967295 + 2147483647)
    );
    assert_eq!(position(1921, 1080, 800, 300, 0, 0), (560, 780));
}

#[test]
fn font_size_and_margin_follow_the_height() {
    assert_eq!(font_size(200), 76);
    assert_eq!(margin_v(200), 20);
    assert_eq!(font_size(0), 24);
    assert_eq!(font_size(62), 24);
    assert_eq!(font_size(64), 24);
    assert_eq!(font_size(65), 25);
    assert_eq!(font_size(210), 80);
    assert_eq!(font_size(300), 114);
    assert_eq!(margin_v(4), 0);
    assert_eq!(margin_v(5), 1);
    assert_eq!(margin_v(214), 21);
    assert_eq!(margin_v(215), 22);
    assert_eq!(font_size(u32::MAX), 1632087572);
    assert_eq!(margin_v(u32::MAX), 429496730);
}

#[test]
fn paths_are_escaped_for_filters() {
    assert_eq!(escape_path("/tmp/a.srt"), "/tmp/a.srt");
    assert_eq!(escape_path("C:\\Users\\me\\a.srt"), "C\\:/Users/me/a.srt");
    assert_eq!(escape_path("a:b:c"), "a\\:b\\:c");
    assert_eq!(escape_path(""), "");
}

#[test]
fn filters_spell_the_geometry() {
    assert_eq!(
        subtitles_filter("C:\\v\\a.srt", 200),
        "subtitles='C\\:/v/a.srt':force_style='FontSize=76,MarginV=20'"
    );
    assert_eq!(direct_filter("/tmp/a.srt"), "subtitles='/tmp/a.srt'");
    let g = OverlayGeometry { width: 800, height: 300, x: 610, y: 760, font_size: 114, margin_v: 30 };
    assert_eq!(drawbox_filter(&g), "drawbox=x=610:y=760:w=800:h=300:color=yellow@0.3:t=3");
    assert_eq!(
        overlay_source(1920, 200, "12.5", "/tmp/a.srt"),
        "color=c=black@0.0:s=1920x200:d=12.5,format=yuva420p,subtitles='/tmp/a.srt':force_style='FontSize=76,MarginV=20'"
    );
    assert_eq!(merge_filter(0, 880), "[0:v][1:v]overlay=0:880");
}

#[test]
fn dimensions_are_read_from_the_probe() {
    assert_eq!(parse_dimensions("1920x1080\n"), Ok((1920, 1080)));
    assert_eq!(parse_dimensions("  640x480  "), Ok((640, 480)));
    assert_eq!(parse_dimensions("4294967295x0"), Ok((4294967295, 0)));
    assert_eq!(parse_dimensions(""), Err(DimensionsError::Format));
    assert_eq!(parse_dimensions("1920"), Err(DimensionsError::Format));
    assert_eq!(parse_dimensions("1x2x3"), Err(DimensionsError::Format));
    assert_eq!(parse_dimensions("x1080"), Err(DimensionsError::Width));
    assert_eq!(parse_dimensions("4294967296x1"), Err(DimensionsError::Width));
    assert_eq!(parse_dimensions("1920x"), Err(DimensionsError::Height));
    assert_eq!(parse_dimensions("1920x 1080"), Err(DimensionsError::Height));
}

#[test]
fn frame_rate_fields() {
    assert_eq!(
        fraction_fields("30000/1001\n"),
        Some((String::from("30000"), String::from("1001")))
    );
    assert_eq!(fraction_fields("25/1"), Some((String::from("25"), String::from("1"))));
    assert_eq!(fraction_fields("/"), Some((String::new(), String::new())));
    assert_eq!(fraction_fields("30"), None);
    assert_eq!(fraction_fields("1/2/3"), None);
    assert_eq!(fraction_fields(""), None);
}
