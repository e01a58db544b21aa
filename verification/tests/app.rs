use auto_subs::app::{
    overlay_name, subtitled_name, Action, AfterSave, App, AppState, Job, Key, PreviewStatus,
    ProgressMessage,
};
use auto_subs::browser::{DirItem, FileBrowser};
use auto_subs::error::JobError;
use auto_subs::preview::{after_removal_attempt, preview_status, Removal};
use auto_subs::subtitle::burner::{OverlaySettings, SubtitleBurner};
use auto_subs::subtitle::srt::Subtitle;
use std::path::PathBuf;

fn new_app() -> App {
    App::new(FileBrowser::new(PathBuf::from("/videos")))
}

fn track(n: usize) -> Vec<Subtitle> {
    (0..n)
        .map(|i| {
            Subtitle::new(i + 1, 1000 * i as u64, 1000 * (i as u64 + 1), format!("line {}", i + 1))
        })
        .collect()
}

fn editing(n: usize) -> App {
    let mut app = new_app();
    app.video_path = Some(PathBuf::from("/videos/movie.mp4"));
    app.load_srt_file(PathBuf::from("/videos/movie.srt"), track(n));
    app
}

fn is_nothing(a: &Action) -> bool {
    matches!(a, Action::Nothing)
}

fn indices(app: &App) -> Vec<usize> {
    app.subtitles.iter().map(|s| s.index).collect()
}

fn texts(app: &App) -> Vec<String> {
    app.subtitles.iter().map(|s| s.text.clone()).collect()
}

#[test]
fn a_new_session_is_at_home_with_defaults() {
    let app = new_app();
    assert_eq!(app.state, AppState::Home);
    assert!(!app.should_quit);
    assert!(app.video_path.is_none() && app.audio_path.is_none());
    assert!(app.srt_path.is_none() && app.output_path.is_none());
    assert!(app.subtitles.is_empty());
    assert_eq!(app.selected_index, 0);
    assert!(!app.editing_subtitle);
    assert_eq!(app.edit_buffer, "");
    assert_eq!(app.progress, 0);
    assert_eq!(app.progress_message, "");
    assert!(app.error_message.is_none());
    assert!(!app.job_active);
    assert_eq!(app.overlay, OverlaySettings { height: 200, width: None, x_offset: 0, y_offset: 0 });
    assert_eq!(app.overlay, OverlaySettings::default());
    assert!(!app.preview_active);
    assert_eq!(app.file_browser.current_dir, PathBuf::from("/videos"));
}

#[test]
fn home_keys() {
    for key in [Key::Enter, Key::Char('s'), Key::Char('l')] {
        let mut app = new_app();
        assert!(is_nothing(&app.handle_key(key)));
        assert_eq!(app.state, AppState::SelectingFile);
    }
    for key in [Key::Esc, Key::Char('q')] {
        let mut app = new_app();
        app.handle_key(key);
        assert!(app.should_quit);
        assert_eq!(app.state, AppState::Home);
    }
    let mut app = new_app();
    app.handle_key(Key::Char('x'));
    assert_eq!(app.state, AppState::Home);
    assert!(!app.should_quit);
}

#[test]
fn any_key_clears_the_error() {
    for key in [Key::Other, Key::Esc, Key::Char('z'), Key::Up] {
        let mut app = editing(1);
        app.state = AppState::BurningSubtitles;
        app.error_message = Some(String::from("bad"));
        app.handle_key(key);
        assert_eq!(app.error_message, None);
    }
}

#[test]
fn choosing_a_file_starts_the_audio_extraction() {
    let mut app = new_app();
    app.handle_key(Key::Enter);
    app.directory_listed(Some(PathBuf::from("/")), &vec![
        DirItem {
            path: PathBuf::from("/videos/old"),
            name: String::from("old"),
            extension: None,
            is_dir: true,
        },
        DirItem {
            path: PathBuf::from("/videos/movie.mp4"),
            name: String::from("movie.mp4"),
            extension: Some(String::from("mp4")),
            is_dir: false,
        },
    ]);
    assert_eq!(app.file_browser.entries.len(), 3);
    app.handle_key(Key::Down);
    app.handle_key(Key::Char('j'));
    app.handle_key(Key::Char('j'));
    app.handle_key(Key::Up);
    assert_eq!(app.file_browser.selected, 1);
    match app.handle_key(Key::Enter) {
        Action::OpenEntry { path } => assert_eq!(path, PathBuf::from("/videos/old")),
        other => panic!("{:?}", other),
    }
    match app.entry_opened(true) {
        Action::ListDirectory { dir } => assert_eq!(dir, PathBuf::from("/videos/old")),
        other => panic!("{:?}", other),
    }
    assert_eq!(app.file_browser.current_dir, PathBuf::from("/videos/old"));
    assert_eq!(app.file_browser.selected, 0);
    app.file_browser.selected = 2;
    match app.entry_opened(false) {
        Action::Start(Job::ExtractAudio { video, audio }) => {
            assert_eq!(video, PathBuf::from("/videos/movie.mp4"));
            assert_eq!(audio, PathBuf::from("/videos/movie.wav"));
        },
        other => panic!("{:?}", other),
    }
    assert_eq!(app.state, AppState::ExtractingAudio);
    assert_eq!(app.video_path, Some(PathBuf::from("/videos/movie.mp4")));
    assert_eq!(app.audio_path, Some(PathBuf::from("/videos/movie.wav")));
    assert_eq!(app.progress_message, "Starting audio extraction...");
    assert!(app.job_active);
}

#[test]
fn browser_keys() {
    let mut app = new_app();
    app.handle_key(Key::Enter);
    assert!(is_nothing(&app.handle_key(Key::Enter)));
    assert!(is_nothing(&app.entry_opened(true)));
    match app.handle_key(Key::Char('.')) {
        Action::ListDirectory { dir } => assert_eq!(dir, PathBuf::from("/videos")),
        other => panic!("{:?}", other),
    }
    assert!(app.file_browser.show_hidden);
    app.handle_key(Key::Char('.'));
    assert!(!app.file_browser.show_hidden);
    app.handle_key(Key::Esc);
    assert_eq!(app.state, AppState::Home);
    assert!(!app.should_quit);
}

#[test]
fn the_pipeline_runs_from_audio_to_editor() {
    let mut app = new_app();
    app.video_path = Some(PathBuf::from("/videos/movie.mp4"));
    app.start_audio_extraction();
    let (reload, action) = app.drain(&vec![
        ProgressMessage::Progress(10, String::from("Starting FFmpeg...")),
        ProgressMessage::Progress(100, String::from("Audio extraction complete!")),
        ProgressMessage::Complete,
    ]);
    assert_eq!(reload, None);
    match action {
        Action::Start(Job::Transcribe { audio, srt }) => {
            assert_eq!(audio, PathBuf::from("/videos/movie.wav"));
            assert_eq!(srt, PathBuf::from("/videos/movie.srt"));
        },
        other => panic!("{:?}", other),
    }
    assert_eq!(app.state, AppState::GeneratingSubtitles);
    assert_eq!(app.progress, 0);
    assert_eq!(app.progress_message, "Initializing Whisper model...");
    assert!(app.job_active);
    assert_eq!(app.srt_path, Some(PathBuf::from("/videos/movie.srt")));

    let (reload, action) = app.drain(&vec![
        ProgressMessage::Progress(90, String::from("Processing segments...")),
        ProgressMessage::Complete,
    ]);
    assert_eq!(reload, Some(PathBuf::from("/videos/movie.srt")));
    assert!(is_nothing(&action));
    assert_eq!(app.state, AppState::Editing);
    assert_eq!(app.progress, 90);
    assert!(!app.job_active);
    app.track_loaded(None);
    assert!(app.subtitles.is_empty());
    app.track_loaded(Some(track(2)));
    assert_eq!(app.subtitles.len(), 2);
}

#[test]
fn burning_goes_from_editor_to_done() {
    let mut app = editing(2);
    let action = app.handle_key(Key::Char('b'));
    let then = match action {
        Action::Save { path, content, then } => {
            assert_eq!(path, PathBuf::from("/videos/movie.srt"));
            assert_eq!(
                content,
                "1\n00:00:00,000 --> 00:00:01,000\nline 1\n\n2\n00:00:01,000 --> 00:00:02,000\nline 2\n"
            );
            then
        },
        other => panic!("{:?}", other),
    };
    assert_eq!(then, AfterSave::Burn);
    assert_eq!(app.state, AppState::Editing);
    match app.saved(Ok(()), then) {
        Action::Start(Job::Burn { video, srt, output, burner }) => {
            assert_eq!(video, PathBuf::from("/videos/movie.mp4"));
            assert_eq!(srt, PathBuf::from("/videos/movie.srt"));
            assert_eq!(output, PathBuf::from("/videos/movie_subtitled.mp4"));
            assert_eq!(
                burner,
                SubtitleBurner::new()
                    .with_overlay_height(200)
                    .with_overlay_x_offset(0)
                    .with_overlay_y_offset(0)
            );
        },
        other => panic!("{:?}", other),
    }
    assert_eq!(app.state, AppState::BurningSubtitles);
    assert_eq!(app.progress_message, "Starting subtitle burning...");
    assert_eq!(app.output_path, Some(PathBuf::from("/videos/movie_subtitled.mp4")));
    assert!(app.job_active);

    let (reload, action) = app.drain(&vec![
        ProgressMessage::Progress(60, String::from("Step 2/2")),
        ProgressMessage::Complete,
    ]);
    assert!(reload.is_none() && is_nothing(&action));
    assert_eq!(app.state, AppState::Done);
    assert!(!app.job_active);
    assert_eq!(app.error_message, None);
}

#[test]
fn a_failed_burn_stays_on_its_screen_with_the_error() {
    let mut app = editing(1);
    app.saved(Ok(()), AfterSave::Burn);
    assert_eq!(app.state, AppState::BurningSubtitles);
    let (reload, action) = app.drain(&vec![
        ProgressMessage::Progress(20, String::from("Running FFmpeg...")),
        ProgressMessage::Error(String::from("FFmpeg failed: boom")),
    ]);
    assert!(reload.is_none() && is_nothing(&action));
    assert_eq!(app.state, AppState::BurningSubtitles);
    assert_eq!(app.error_message.as_deref(), Some("FFmpeg failed: boom"));
    assert_eq!(app.progress, 20);
    assert_eq!(app.progress_message, "Running FFmpeg...");
    assert!(!app.job_active);
}

#[test]
fn draining_applies_every_report_in_order() {
    let mut app = editing(1);
    app.saved(Ok(()), AfterSave::ExtractOverlay);
    assert_eq!(app.state, AppState::ExtractingOverlay);
    app.drain(&vec![
        ProgressMessage::Progress(5, String::from("a")),
        ProgressMessage::Progress(10, String::from("b")),
        ProgressMessage::Progress(20, String::from("c")),
    ]);
    assert_eq!((app.progress, app.progress_message.as_str()), (20, "c"));
    assert_eq!(app.state, AppState::ExtractingOverlay);
    assert!(app.job_active);
    app.drain(&Vec::new());
    assert_eq!((app.progress, app.progress_message.as_str()), (20, "c"));
    app.drain(&vec![
        ProgressMessage::Progress(100, String::from("Overlay saved")),
        ProgressMessage::Complete,
        ProgressMessage::Progress(3, String::from("late")),
    ]);
    assert_eq!(app.state, AppState::Editing);
    assert_eq!((app.progress, app.progress_message.as_str()), (3, "late"));
    assert!(!app.job_active);
    app.drain(&vec![ProgressMessage::Progress(50, String::from("ignored"))]);
    assert_eq!((app.progress, app.progress_message.as_str()), (3, "late"));
}

#[test]
fn the_preview_job_returns_to_the_editor() {
    let mut app = editing(1);
    match app.start_previewing() {
        Action::Start(Job::Preview { video, srt, .. }) => {
            assert_eq!(video, PathBuf::from("/videos/movie.mp4"));
            assert_eq!(srt, PathBuf::from("/videos/movie.srt"));
        },
        other => panic!("{:?}", other),
    }
    assert_eq!(app.state, AppState::PreviewingOverlay);
    app.handle_key(Key::Char('a'));
    assert_eq!(app.subtitles.len(), 1);
    app.drain(&vec![ProgressMessage::Complete]);
    assert_eq!(app.state, AppState::Editing);
}

#[test]
fn jobs_are_refused_without_a_track() {
    let mut app = editing(0);
    assert!(is_nothing(&app.start_burning()));
    assert_eq!(app.error_message.as_deref(), Some("No subtitles to burn"));
    assert!(is_nothing(&app.start_overlay_extraction()));
    assert_eq!(app.error_message.as_deref(), Some("No subtitles to extract overlay from"));
    assert!(app.start_preview().is_none());
    assert_eq!(app.error_message.as_deref(), Some("No subtitles to preview"));
    assert!(is_nothing(&app.start_previewing()));
    assert_eq!(app.state, AppState::Editing);
    assert!(!app.job_active);
}

#[test]
fn jobs_are_refused_without_paths() {
    let mut app = editing(1);
    app.video_path = None;
    assert!(is_nothing(&app.start_burning()));
    assert_eq!(app.error_message.as_deref(), Some("No video loaded"));
    assert!(app.start_preview().is_none());
    assert!(is_nothing(&app.start_audio_extraction()));
    assert!(is_nothing(&app.start_subtitle_generation()));
    assert_eq!(app.error_message.as_deref(), Some("No audio extracted"));
    app.video_path = Some(PathBuf::from("/videos/movie.mp4"));
    app.srt_path = None;
    assert!(is_nothing(&app.start_overlay_extraction()));
    assert_eq!(app.error_message.as_deref(), Some("No subtitles loaded"));
    app.srt_path = Some(PathBuf::from("/videos/movie.srt"));
    app.video_path = Some(PathBuf::from("/videos/noextension"));
    assert!(is_nothing(&app.start_burning()));
    assert_eq!(app.error_message.as_deref(), Some("Video file has no name or extension"));
    app.video_path = Some(PathBuf::from("/"));
    assert!(is_nothing(&app.start_overlay_extraction()));
    assert_eq!(app.error_message.as_deref(), Some("Video file has no name or extension"));
    assert_eq!(app.state, AppState::Editing);
}

#[test]
fn overlay_extraction_names_its_output() {
    let mut app = editing(1);
    app.overlay.width = Some(640);
    app.overlay.x_offset = 30;
    match app.handle_key(Key::Char('o')) {
        Action::Save { then, .. } => assert_eq!(then, AfterSave::ExtractOverlay),
        other => panic!("{:?}", other),
    }
    match app.saved(Err(JobError::IoError(String::from("disk full"))), AfterSave::ExtractOverlay) {
        Action::Start(Job::ExtractOverlay { output, burner, .. }) => {
            assert_eq!(output, PathBuf::from("/videos/movie_overlay.mp4"));
            assert_eq!(
                burner,
                SubtitleBurner::new().with_overlay_height(200).with_overlay_width(640)
            );
        },
        other => panic!("{:?}", other),
    }
    assert_eq!(app.error_message.as_deref(), Some("Failed to save SRT: disk full"));
    assert_eq!(app.state, AppState::ExtractingOverlay);
    assert_eq!(subtitled_name("movie", "mkv"), "movie_subtitled.mkv");
    assert_eq!(overlay_name("movie"), "movie_overlay.mp4");
}

#[test]
fn saving_reports_where_the_track_went() {
    let mut app = editing(1);
    match app.handle_key(Key::Char('s')) {
        Action::Save { then, .. } => assert_eq!(then, AfterSave::Nothing),
        other => panic!("{:?}", other),
    }
    assert!(is_nothing(&app.saved(Ok(()), AfterSave::Nothing)));
    assert_eq!(app.progress_message, "Saved to /videos/movie.srt");
    app.srt_path = None;
    assert!(is_nothing(&app.handle_key(Key::Char('s'))));
}

#[test]
fn deleting_renumbers_the_track() {
    let mut app = editing(4);
    app.subtitles[2].index = 77;
    app.selected_index = 1;
    app.handle_key(Key::Char('d'));
    assert_eq!(indices(&app), vec![1, 2, 3]);
    assert_eq!(texts(&app), vec!["line 1", "line 3", "line 4"]);
    assert_eq!(app.selected_index, 1);
    app.selected_index = 2;
    app.handle_key(Key::Char('d'));
    assert_eq!(indices(&app), vec![1, 2]);
    assert_eq!(texts(&app), vec!["line 1", "line 3"]);
    assert_eq!(app.selected_index, 1);
    app.handle_key(Key::Char('d'));
    app.handle_key(Key::Char('d'));
    assert!(app.subtitles.is_empty());
    assert_eq!(app.selected_index, 0);
    app.handle_key(Key::Char('d'));
    assert!(app.subtitles.is_empty());
}

#[test]
fn adding_appends_after_the_last_caption() {
    let mut app = editing(0);
    app.handle_key(Key::Char('a'));
    assert_eq!(app.subtitles.len(), 1);
    assert_eq!(
        (app.subtitles[0].index, app.subtitles[0].start_time, app.subtitles[0].end_time),
        (1, 0, 2000)
    );
    assert_eq!(app.subtitles[0].text, "New subtitle");
    app.handle_key(Key::Char('a'));
    assert_eq!(
        (app.subtitles[1].index, app.subtitles[1].start_time, app.subtitles[1].end_time),
        (2, 2000, 4000)
    );
    assert_eq!(app.selected_index, 1);
    app.subtitles[1].end_time = u64::MAX - 5;
    app.handle_key(Key::Char('a'));
    assert_eq!((app.subtitles[2].start_time, app.subtitles[2].end_time), (u64::MAX - 5, u64::MAX));
}

#[test]
fn times_move_by_a_tenth_of_a_second() {
    let mut app = editing(1);
    app.subtitles[0].start_time = 1000;
    app.subtitles[0].end_time = 2000;
    app.handle_key(Key::Char('['));
    assert_eq!(app.subtitles[0].start_time, 900);
    app.handle_key(Key::Char(']'));
    app.handle_key(Key::Char(']'));
    assert_eq!(app.subtitles[0].start_time, 1100);
    app.handle_key(Key::Char('}'));
    assert_eq!(app.subtitles[0].end_time, 2100);
    app.handle_key(Key::Char('{'));
    app.handle_key(Key::Char('{'));
    assert_eq!(app.subtitles[0].end_time, 1900);
    assert_eq!(app.subtitles[0].text, "line 1");
    assert_eq!(app.subtitles[0].index, 1);

    app.subtitles[0].start_time = 50;
    app.handle_key(Key::Char('['));
    assert_eq!(app.subtitles[0].start_time, 0);
    app.subtitles[0].start_time = 1850;
    app.handle_key(Key::Char(']'));
    assert_eq!(app.subtitles[0].start_time, 1800);
    app.subtitles[0].end_time = 1900;
    app.handle_key(Key::Char('{'));
    assert_eq!(app.subtitles[0].end_time, 1900);
    app.subtitles[0].end_time = 1901;
    app.handle_key(Key::Char('{'));
    assert_eq!(app.subtitles[0].end_time, 1801);
    app.subtitles[0].end_time = u64::MAX - 1;
    app.handle_key(Key::Char('}'));
    assert_eq!(app.subtitles[0].end_time, u64::MAX);
    app.subtitles[0].start_time = 0;
    app.subtitles[0].end_time = 40;
    app.handle_key(Key::Char(']'));
    assert_eq!(app.subtitles[0].start_time, 0);
}

#[test]
fn the_cursor_stays_on_the_track() {
    let mut app = editing(3);
    app.handle_key(Key::Up);
    assert_eq!(app.selected_index, 0);
    app.handle_key(Key::Down);
    app.handle_key(Key::Char('j'));
    app.handle_key(Key::Down);
    assert_eq!(app.selected_index, 2);
    app.handle_key(Key::Char('k'));
    assert_eq!(app.selected_index, 1);
    let mut empty = editing(0);
    empty.handle_key(Key::Down);
    assert_eq!(empty.selected_index, 0);
}

#[test]
fn editing_a_text() {
    let mut app = editing(2);
    app.selected_index = 1;
    app.handle_key(Key::Enter);
    assert!(app.editing_subtitle);
    assert_eq!(app.edit_buffer, "line 2");
    app.handle_key(Key::Backspace);
    app.handle_key(Key::Char('q'));
    app.handle_key(Key::Char('!'));
    assert_eq!(app.edit_buffer, "line q!");
    assert!(!app.should_quit);
    app.handle_key(Key::Enter);
    assert!(!app.editing_subtitle);
    assert_eq!(app.edit_buffer, "");
    assert_eq!(texts(&app), vec!["line 1", "line q!"]);
    assert_eq!(app.subtitles[1].index, 2);
    assert_eq!((app.subtitles[1].start_time, app.subtitles[1].end_time), (1000, 2000));

    app.handle_key(Key::Char('e'));
    app.handle_key(Key::Char('x'));
    app.handle_key(Key::Esc);
    assert!(!app.editing_subtitle);
    assert_eq!(app.state, AppState::Editing);
    assert_eq!(texts(&app), vec!["line 1", "line q!"]);

    app.handle_key(Key::Char('e'));
    for _ in 0..10 {
        app.handle_key(Key::Backspace);
    }
    assert_eq!(app.edit_buffer, "");
    app.handle_key(Key::Enter);
    assert_eq!(texts(&app), vec!["line 1", ""]);

    let mut empty = editing(0);
    empty.handle_key(Key::Enter);
    assert!(!empty.editing_subtitle);
}

#[test]
fn overlay_keys_change_the_settings() {
    let mut app = editing(1);
    assert!(is_nothing(&app.handle_key(Key::Char('h'))));
    assert_eq!(app.overlay.height, 190);
    assert_eq!(app.progress_message, "Overlay height: 190px");
    app.handle_key(Key::Char('H'));
    app.handle_key(Key::Char('H'));
    assert_eq!(app.overlay.height, 210);
    assert_eq!(app.progress_message, "Overlay height: 210px");
    app.handle_key(Key::Char('W'));
    assert_eq!(app.overlay.width, Some(1920));
    assert_eq!(app.progress_message, "Overlay width: 1920px");
    app.handle_key(Key::Char('W'));
    assert_eq!(app.overlay.width, Some(1930));
    app.handle_key(Key::Char('w'));
    app.handle_key(Key::Char('w'));
    assert_eq!(app.overlay.width, Some(1910));
    assert_eq!(app.progress_message, "Overlay width: 1910px");
    app.handle_key(Key::Char('x'));
    assert_eq!(app.overlay.x_offset, -10);
    assert_eq!(app.progress_message, "Overlay X offset: -10px");
    app.handle_key(Key::Char('X'));
    app.handle_key(Key::Char('X'));
    assert_eq!(app.overlay.x_offset, 10);
    app.handle_key(Key::Char('Y'));
    assert_eq!(app.overlay.y_offset, 10);
    assert_eq!(app.progress_message, "Overlay Y offset: 10px");
    app.handle_key(Key::Char('y'));
    app.handle_key(Key::Char('y'));
    assert_eq!(app.overlay.y_offset, -10);
    app.handle_key(Key::Char('0'));
    assert_eq!(app.overlay.height, 200);
    assert_eq!(app.overlay.width, None);
    assert_eq!((app.overlay.x_offset, app.overlay.y_offset), (0, 0));
    assert_eq!(app.progress_message, "Overlay settings reset to defaults");

    let mut fresh = editing(1);
    fresh.handle_key(Key::Char('w'));
    assert_eq!(fresh.overlay.width, Some(1910));
    fresh.overlay.height = 13;
    fresh.handle_key(Key::Char('h'));
    assert_eq!(fresh.overlay.height, 3);
    fresh.handle_key(Key::Char('h'));
    assert_eq!(fresh.overlay.height, 3);
    fresh.overlay.height = 10;
    fresh.handle_key(Key::Char('h'));
    assert_eq!(fresh.overlay.height, 10);
    fresh.overlay.width = Some(7);
    fresh.handle_key(Key::Char('w'));
    assert_eq!(fresh.overlay.width, Some(7));
    fresh.overlay.width = None;
    fresh.overlay.height = u32::MAX - 1;
    fresh.handle_key(Key::Char('H'));
    assert_eq!(fresh.overlay.height, u32::MAX);
    fresh.overlay.x_offset = i32::MIN + 1;
    fresh.handle_key(Key::Char('x'));
    assert_eq!(fresh.overlay.x_offset, i32::MIN);
    assert_eq!(fresh.progress_message, "Overlay X offset: -2147483648px");
    fresh.overlay.y_offset = i32::MAX;
    fresh.handle_key(Key::Char('Y'));
    assert_eq!(fresh.overlay.y_offset, i32::MAX);
}

#[test]
fn the_live_preview_follows_the_settings() {
    let mut app = editing(1);
    let then = match app.handle_key(Key::Char('p')) {
        Action::Save { then, .. } => then,
        other => panic!("{:?}", other),
    };
    assert_eq!(then, AfterSave::TogglePreview);
    match app.saved(Ok(()), then) {
        Action::LaunchPreview(launch) => {
            assert_eq!(launch.video, PathBuf::from("/videos/movie.mp4"));
            assert_eq!(launch.srt, PathBuf::from("/videos/movie.srt"));
            assert_eq!(launch.burner.overlay_height, Some(200));
        },
        other => panic!("{:?}", other),
    }
    assert!(!app.preview_active);
    app.preview_started(Ok((1920, 1080)));
    assert!(app.preview_active);
    assert_eq!((app.preview_video_width, app.preview_video_height), (1920, 1080));
    assert_eq!(
        app.progress_message,
        "Live preview active - adjust with h/H/w/W/x/X/y/Y (Press p to stop)"
    );
    assert_eq!(app.state, AppState::Editing);

    match app.handle_key(Key::Char('H')) {
        Action::RestartPreview(Some(launch)) => {
            assert_eq!(launch.burner.overlay_height, Some(210));
        },
        other => panic!("{:?}", other),
    }
    assert!(!app.preview_active);
    assert_eq!(app.progress_message, "Preview stopped");
    app.preview_started(Ok((1920, 1080)));

    app.subtitles.clear();
    match app.handle_key(Key::Char('x')) {
        Action::RestartPreview(None) => {},
        other => panic!("{:?}", other),
    }
    assert_eq!(app.error_message.as_deref(), Some("No subtitles to preview"));
    assert!(!app.preview_active);

    let mut app = editing(1);
    app.preview_started(Ok((640, 480)));
    app.srt_path = None;
    assert!(matches!(app.handle_key(Key::Char('p')), Action::StopPreview));
    assert!(!app.preview_active);
    assert_eq!(app.progress_message, "Preview stopped");

    let mut app = editing(1);
    app.preview_started(Err(JobError::ToolNotFound(String::from(
        "Failed to launch MPV. Please install mpv.",
    ))));
    assert!(!app.preview_active);
    assert_eq!(
        app.error_message.as_deref(),
        Some("Failed to start preview: Failed to launch MPV. Please install mpv.")
    );
}

#[test]
fn the_preview_player_is_watched() {
    let mut app = editing(1);
    app.preview_polled(PreviewStatus::Failed(Some(1)));
    assert!(app.error_message.is_none());
    app.preview_started(Ok((1, 1)));
    app.preview_polled(PreviewStatus::Running);
    assert!(app.preview_active);
    app.preview_polled(PreviewStatus::Closed);
    assert!(!app.preview_active);
    assert_eq!(app.progress_message, "Preview closed");

    app.preview_started(Ok((1, 1)));
    app.preview_polled(PreviewStatus::Failed(Some(-2)));
    assert!(!app.preview_active);
    assert_eq!(
        app.error_message.as_deref(),
        Some("Preview exited with error (code: Some(-2)). Check if MPV is installed.")
    );
    app.preview_started(Ok((1, 1)));
    app.preview_polled(PreviewStatus::Failed(None));
    assert_eq!(
        app.error_message.as_deref(),
        Some("Preview exited with error (code: None). Check if MPV is installed.")
    );
    app.preview_started(Ok((1, 1)));
    app.preview_polled(PreviewStatus::Unknown);
    assert!(!app.preview_active);
    assert_eq!(app.error_message.as_deref(), Some("Preview process error"));

    assert_eq!(preview_status(None), PreviewStatus::Running);
    assert_eq!(preview_status(Some(Some(0))), PreviewStatus::Closed);
    assert_eq!(preview_status(Some(Some(3))), PreviewStatus::Failed(Some(3)));
    assert_eq!(preview_status(Some(None)), PreviewStatus::Failed(None));
}

#[test]
fn the_endpoint_removal_is_retried_five_times() {
    assert_eq!(after_removal_attempt(1, true), Removal::Done);
    assert_eq!(after_removal_attempt(5, true), Removal::Done);
    assert_eq!(after_removal_attempt(1, false), Removal::Retry);
    assert_eq!(after_removal_attempt(4, false), Removal::Retry);
    assert_eq!(after_removal_attempt(5, false), Removal::GiveUp);
    assert_eq!(after_removal_attempt(6, false), Removal::GiveUp);
}

#[test]
fn quitting_and_leaving() {
    let mut app = editing(1);
    app.preview_started(Ok((1, 1)));
    assert!(matches!(app.handle_key(Key::Char('q')), Action::StopPreview));
    assert!(app.should_quit);
    assert!(!app.preview_active);

    let mut app = editing(1);
    assert!(is_nothing(&app.handle_key(Key::Char('q'))));
    assert!(app.should_quit);

    let mut app = editing(1);
    app.handle_key(Key::Esc);
    assert_eq!(app.state, AppState::Home);
    assert!(!app.should_quit);

    let mut app = editing(1);
    app.saved(Ok(()), AfterSave::Burn);
    app.handle_key(Key::Char('a'));
    assert_eq!(app.subtitles.len(), 1);
    app.handle_key(Key::Char('q'));
    assert!(app.should_quit);
    assert_eq!(app.state, AppState::BurningSubtitles);

    let mut app = editing(1);
    app.state = AppState::Done;
    assert!(matches!(app.handle_key(Key::Char('r')), Action::Restart));
    assert!(!app.should_quit);
    assert!(is_nothing(&app.handle_key(Key::Enter)));
    assert!(app.should_quit);
}

#[test]
fn escape_leaves_a_running_job_for_the_home_screen() {
    for then in [AfterSave::Burn, AfterSave::ExtractOverlay] {
        let mut app = editing(1);
        app.saved(Ok(()), then);
        assert!(app.job_active);
        assert!(is_nothing(&app.handle_key(Key::Esc)));
        assert_eq!(app.state, AppState::Home);
        assert!(!app.job_active);
        assert!(!app.should_quit);
        let (reload, action) = app.drain(&vec![ProgressMessage::Complete]);
        assert!(reload.is_none() && is_nothing(&action));
        assert_eq!(app.state, AppState::Home);
    }
    let mut app = new_app();
    app.video_path = Some(PathBuf::from("/videos/movie.mp4"));
    app.start_audio_extraction();
    app.handle_key(Key::Esc);
    assert_eq!(app.state, AppState::Home);
    assert!(!app.job_active);
}

#[test]
fn a_restart_keeps_nothing() {
    let mut app = editing(3);
    app.handle_key(Key::Char('H'));
    app.saved(Ok(()), AfterSave::Burn);
    app.drain(&vec![ProgressMessage::Complete]);
    assert_eq!(app.state, AppState::Done);
    assert!(matches!(app.handle_key(Key::Char('r')), Action::Restart));
    app.restart(FileBrowser::new(PathBuf::from("/elsewhere")));
    assert_eq!(app.state, AppState::Home);
    assert!(app.subtitles.is_empty());
    assert!(app.video_path.is_none() && app.srt_path.is_none() && app.output_path.is_none());
    assert_eq!(app.overlay, OverlaySettings::new());
    assert_eq!(app.progress_message, "");
    assert_eq!(app.file_browser.current_dir, PathBuf::from("/elsewhere"));
    assert!(!app.job_active && !app.should_quit && !app.preview_active);
}
