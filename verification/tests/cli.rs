use auto_subs::cli::args::{
    AudioFormat, BurnArgs, Cli, LogLevel, SubtitlePosition, WhisperModel,
};
use auto_subs::subtitle::burner::SubtitleBurner;
use std::path::PathBuf;

#[test]
fn model_names() {
    assert_eq!(WhisperModel::Tiny.filename(), "ggml-tiny.en.bin");
    assert_eq!(WhisperModel::Base.filename(), "ggml-base.en.bin");
    assert_eq!(WhisperModel::Small.filename(), "ggml-small.en.bin");
    assert_eq!(WhisperModel::Medium.filename(), "ggml-medium.en.bin");
    assert_eq!(WhisperModel::Large.filename(), "ggml-large.bin");
    assert_eq!(WhisperModel::Tiny.as_str(), "tiny");
    assert_eq!(WhisperModel::Base.as_str(), "base");
    assert_eq!(WhisperModel::Small.as_str(), "small");
    assert_eq!(WhisperModel::Medium.as_str(), "medium");
    assert_eq!(WhisperModel::Large.as_str(), "large");
}

#[test]
fn format_and_position_names() {
    assert_eq!(AudioFormat::Wav.as_str(), "wav");
    assert_eq!(AudioFormat::Mp3.as_str(), "mp3");
    assert_eq!(AudioFormat::Flac.as_str(), "flac");
    assert_eq!(SubtitlePosition::Top.as_str(), "top");
    assert_eq!(SubtitlePosition::Middle.as_str(), "middle");
    assert_eq!(SubtitlePosition::Bottom.as_str(), "bottom");
}

fn cli(verbose: u8, quiet: bool) -> Cli {
    Cli { command: None, verbose, quiet, yes: false, no_overwrite: false, config: None }
}

#[test]
fn log_level_follows_the_flags() {
    assert_eq!(cli(0, false).log_level(), Some(LogLevel::Warn));
    assert_eq!(cli(1, false).log_level(), Some(LogLevel::Info));
    assert_eq!(cli(2, false).log_level(), Some(LogLevel::Debug));
    assert_eq!(cli(3, false).log_level(), Some(LogLevel::Trace));
    assert_eq!(cli(255, false).log_level(), Some(LogLevel::Trace));
    assert_eq!(cli(2, true).log_level(), None);
    assert_eq!(LogLevel::Warn.as_str(), "warn");
    assert_eq!(LogLevel::Info.as_str(), "info");
    assert_eq!(LogLevel::Debug.as_str(), "debug");
    assert_eq!(LogLevel::Trace.as_str(), "trace");
}

#[test]
fn burner_follows_the_options() {
    let args = BurnArgs {
        video: PathBuf::from("v.mp4"),
        subtitles: PathBuf::from("a.srt"),
        output: None,
        font_size: 24,
        font_color: String::from("FFFFFF"),
        outline_color: String::from("000000"),
        position: SubtitlePosition::Bottom,
        style: None,
        video_codec: String::from("libx264"),
        crf: 23,
        preset: String::from("medium"),
        use_overlay: false,
        keep_overlay: true,
        overlay_height: Some(150),
    };
    assert_eq!(args.burner(), SubtitleBurner {
        use_overlay: false,
        keep_overlay: true,
        overlay_height: Some(150),
        overlay_width: None,
        overlay_x_offset: None,
        overlay_y_offset: None,
    });
}
