use auto_subs::audio::extractor::AudioExtractor;
use auto_subs::command::{joined, push_arg, push_joined};
use auto_subs::subtitle::burner::SubtitleBurner;
use auto_subs::audio::extractor::check_sample_rate;
use auto_subs::error::JobError;
use auto_subs::subtitle::tools::{
    ffplay_args, mpv_args, probe_dimensions_args, probe_duration_args, probe_fps_args, Player,
};

#[test]
fn arguments_are_appended() {
    let mut args = vec![String::from("a")];
    push_arg(&mut args, "b");
    push_joined(&mut args, "--k=", "v");
    assert_eq!(args, vec!["a", "b", "--k=v"]);
    assert_eq!(joined("x", "y"), "xy");
}

#[test]
fn audio_extraction_command() {
    assert_eq!(AudioExtractor::new(), AudioExtractor);
    assert_eq!(AudioExtractor::new().extract_args("in.mp4", "out.wav"), vec![
        "-i", "in.mp4", "-vn", "-ar", "16000", "-ac", "1", "-c:a", "pcm_s16le", "-y", "out.wav"
    ]);
}

#[test]
fn probe_commands() {
    assert_eq!(probe_dimensions_args("v.mp4"), vec![
        "-v",
        "error",
        "-select_streams",
        "v:0",
        "-show_entries",
        "stream=width,height",
        "-of",
        "csv=s=x:p=0",
        "v.mp4"
    ]);
    assert_eq!(probe_fps_args("v.mp4"), vec![
        "-v",
        "error",
        "-select_streams",
        "v:0",
        "-show_entries",
        "stream=r_frame_rate",
        "-of",
        "default=noprint_wrappers=1:nokey=1",
        "v.mp4"
    ]);
    assert_eq!(probe_duration_args("v.mp4"), vec![
        "-v",
        "error",
        "-show_entries",
        "format=duration",
        "-of",
        "default=noprint_wrappers=1:nokey=1",
        "v.mp4"
    ]);
}

#[test]
fn transcoder_commands() {
    let b = SubtitleBurner::new();
    assert_eq!(b.overlay_args("SRC", 30, "o.mp4"), vec![
        "-f",
        "lavfi",
        "-i",
        "SRC",
        "-r",
        "30",
        "-c:v",
        "libvpx-vp9",
        "-pix_fmt",
        "yuva420p",
        "-auto-alt-ref",
        "0",
        "-b:v",
        "1M",
        "-y",
        "o.mp4"
    ]);
    assert_eq!(b.merge_args("v.mp4", "o.mp4", 610, 760, "out.mp4"), vec![
        "-i",
        "v.mp4",
        "-i",
        "o.mp4",
        "-filter_complex",
        "[0:v][1:v]overlay=610:760",
        "-c:a",
        "copy",
        "-y",
        "out.mp4"
    ]);
    assert_eq!(b.direct_args("v.mp4", "C:\\a.srt", "out.mp4"), vec![
        "-i",
        "v.mp4",
        "-vf",
        "subtitles='C\\:/a.srt'",
        "-c:a",
        "copy",
        "-y",
        "out.mp4"
    ]);
}

#[test]
fn player_commands() {
    let b = SubtitleBurner::new()
        .with_overlay_height(300)
        .with_overlay_width(800)
        .with_overlay_x_offset(50)
        .with_overlay_y_offset(-20);
    assert_eq!(b.preview_args("v.mp4", "a.srt", "/tmp/s.sock", 1920, 1080), vec![
        "--input-ipc-server=/tmp/s.sock",
        "--loop-file=inf",
        "--keep-open=yes",
        "--title=Preview - Adjust: h/H w/W x/X y/Y (p=stop)",
        "--sub-file=a.srt",
        "--sub-font-size=114",
        "--vf=drawbox=x=610:y=760:w=800:h=300:color=yellow@0.3:t=3",
        "v.mp4"
    ]);
    assert_eq!(ffplay_args("v.mp4", "F", "T"), vec![
        "-i",
        "v.mp4",
        "-vf",
        "F",
        "-window_title",
        "T",
        "-autoexit"
    ]);
    assert_eq!(mpv_args("v.mp4", "F", "T"), vec![
        "v.mp4",
        "--vf=lavfi=[F]",
        "--title=T",
        "--keep-open=no"
    ]);
}

#[test]
fn players_are_tried_in_order() {
    let first = Player::first();
    assert_eq!(first, Player::Ffplay);
    assert_eq!(first.program(), "ffplay");
    assert_eq!(first.next(), Some(Player::Mpv));
    assert_eq!(Player::Mpv.program(), "mpv");
    assert_eq!(Player::Mpv.next(), None);
    assert_eq!(first.args("v.mp4", "F", "T"), ffplay_args("v.mp4", "F", "T"));
    assert_eq!(Player::Mpv.args("v.mp4", "F", "T"), mpv_args("v.mp4", "F", "T"));
}

#[test]
fn transcription_takes_sixteen_kilohertz() {
    assert!(check_sample_rate(16000).is_ok());
    match check_sample_rate(44100) {
        Err(JobError::ValidationError(m)) => {
            assert_eq!(m, "Audio must be 16kHz, got 44100Hz. FFmpeg should have converted this.")
        }
        other => panic!("{:?}", other),
    }
    assert!(check_sample_rate(0).is_err());
}
