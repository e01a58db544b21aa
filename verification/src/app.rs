//! The session: which screen is shown, which job runs, what the editor
//! holds. Every change of the session is a function from the session and an
//! event to the next session and to what has to be done outside; the caller
//! does that and reports back.

pub mod browse;
pub mod editor;
pub mod jobs;
pub mod live;
pub mod reports;
pub mod saving;

pub use crate::app::editor::{appended_caption, reindexed, retimed};
pub use crate::app::jobs::{overlay_name, subtitled_name};
pub use crate::app::reports::{
    is_progress, lemma_last_progress_shows, lemma_progress_only, lemma_received_in_order, received,
    received_all, Drain,
};
use crate::browser::FileBrowser;
use crate::subtitle::burner::{OverlaySettings, SubtitleBurner};
use crate::subtitle::srt::{captions, Caption, Subtitle};
use std::path::PathBuf;
use vstd::prelude::*;

verus! {

/// The screens of the session.
#[derive(Debug, Clone, Copy, PartialEq, Eq, Structural)]
pub enum AppState {
    Home,
    SelectingFile,
    ExtractingAudio,
    GeneratingSubtitles,
    Editing,
    BurningSubtitles,
    ExtractingOverlay,
    PreviewingOverlay,
    Done,
}

/// What a job reports: how far it is, in hundredths, with a message; that it
/// is done; or that it failed.
#[derive(Debug)]
pub enum ProgressMessage {
    Progress(u8, String),
    Complete,
    Error(String),
}

/// A key press.
#[derive(Debug, Clone, Copy, PartialEq, Eq, Structural)]
pub enum Key {
    Char(char),
    Enter,
    Esc,
    Up,
    Down,
    Backspace,
    Other,
}

/// What the editor goes on with once the track is saved.
#[derive(Debug, Clone, Copy, PartialEq, Eq, Structural)]
pub enum AfterSave {
    Nothing,
    Burn,
    ExtractOverlay,
    TogglePreview,
}

/// A job for a background worker.
#[derive(Debug)]
pub enum Job {
    ExtractAudio { video: PathBuf, audio: PathBuf },
    Transcribe { audio: PathBuf, srt: PathBuf },
    Burn { video: PathBuf, srt: PathBuf, output: PathBuf, burner: SubtitleBurner },
    ExtractOverlay { video: PathBuf, srt: PathBuf, output: PathBuf, burner: SubtitleBurner },
    Preview { video: PathBuf, srt: PathBuf, burner: SubtitleBurner },
}

/// What the live preview is started with.
#[derive(Debug)]
pub struct Launch {
    pub video: PathBuf,
    pub srt: PathBuf,
    pub burner: SubtitleBurner,
}

/// What has to be done outside the session after a step.
#[derive(Debug)]
pub enum Action {
    Nothing,
    /// Write `content` to `path` and report to `App::saved` with `then`.
    Save { path: PathBuf, content: String, then: AfterSave },
    /// Start a worker on the job; what it reports goes to `App::drain`.
    Start(Job),
    /// Stop the preview player.
    StopPreview,
    /// Start the preview player and report to `App::preview_started`.
    LaunchPreview(Launch),
    /// Stop the preview player and let the system settle; then, where there
    /// is something to launch, start it and report to `App::preview_started`.
    RestartPreview(Option<Launch>),
    /// Find out whether `path` is a directory and report to
    /// `App::entry_opened`.
    OpenEntry { path: PathBuf },
    /// List `dir` and report to `App::directory_listed`.
    ListDirectory { dir: PathBuf },
    /// Begin a new session: make a file browser on the current directory,
    /// hand it to `App::restart`, and list the directory.
    Restart,
}

/// How the preview player is doing.
#[derive(Debug, Clone, Copy, PartialEq, Eq, Structural)]
pub enum PreviewStatus {
    Running,
    /// It left with status zero: the user closed it.
    Closed,
    /// It left with another status, or with none.
    Failed(Option<i32>),
    /// Its state could not be found out.
    Unknown,
}

/// The session: the screen, the files, the track with the state of its
/// editor, what the running job last reported, and the overlay settings.
pub struct App {
    pub state: AppState,
    pub should_quit: bool,
    pub video_path: Option<PathBuf>,
    pub audio_path: Option<PathBuf>,
    pub srt_path: Option<PathBuf>,
    pub output_path: Option<PathBuf>,
    pub subtitles: Vec<Subtitle>,
    pub selected_index: usize,
    pub editing_subtitle: bool,
    pub edit_buffer: String,
    /// How far the running job is, in hundredths.
    pub progress: u8,
    pub progress_message: String,
    pub file_browser: FileBrowser,
    pub error_message: Option<String>,
    /// Whether a job is running whose reports are still awaited.
    pub job_active: bool,
    /// How the caption layer is sized and placed.
    pub overlay: OverlaySettings,
    pub preview_active: bool,
    pub preview_video_width: u32,
    pub preview_video_height: u32,
}

/// The text of an optional string.
pub open spec fn text_of(s: Option<String>) -> Option<Seq<char>> {
    match s {
        Some(t) => Some(t@),
        None => None,
    }
}

/// A copy of the text.
pub(crate) fn owned(s: &str) -> (r: String)
    ensures
        r@ == s@,
{
    s.to_owned()
}

/// The step by which a time is moved, in milliseconds.
pub const TIME_STEP: u64 = 100;

/// How long a new caption lasts, in milliseconds.
pub const NEW_CAPTION_MS: u64 = 2000;

impl App {
    /// The track that the editor holds.
    pub open spec fn track(self) -> Seq<Caption> {
        captions(self.subtitles@)
    }

    /// A new session on the home screen, with an empty track and default
    /// overlay settings.
    pub fn new(file_browser: FileBrowser) -> (r: Self)
        ensures
            r.is_fresh(file_browser),
    {
        App {
            state: AppState::Home,
            should_quit: false,
            video_path: None,
            audio_path: None,
            srt_path: None,
            output_path: None,
            subtitles: Vec::new(),
            selected_index: 0,
            editing_subtitle: false,
            edit_buffer: String::new(),
            progress: 0,
            progress_message: String::new(),
            file_browser,
            error_message: None,
            job_active: false,
            overlay: OverlaySettings::new(),
            preview_active: false,
            preview_video_width: 0,
            preview_video_height: 0,
        }
    }

    /// The session that `new` makes: on the home screen, with no file, an
    /// empty track, nothing shown, no job and no preview, and the overlay at
    /// its defaults.
    pub open spec fn is_fresh(self, file_browser: FileBrowser) -> bool {
        &&& self.state == AppState::Home
        &&& !self.should_quit
        &&& self.video_path is None
        &&& self.audio_path is None
        &&& self.srt_path is None
        &&& self.output_path is None
        &&& self.subtitles@.len() == 0
        &&& self.selected_index == 0
        &&& !self.editing_subtitle
        &&& self.edit_buffer@.len() == 0
        &&& self.progress == 0
        &&& self.progress_message@.len() == 0
        &&& self.file_browser == file_browser
        &&& self.error_message is None
        &&& !self.job_active
        &&& self.overlay == OverlaySettings::defaults()
        &&& !self.preview_active
        &&& self.preview_video_width == 0
        &&& self.preview_video_height == 0
    }

    /// Begins anew: nothing of the session is kept.
    pub fn restart(&mut self, file_browser: FileBrowser)
        ensures
            final(self).is_fresh(file_browser),
    {
        *self = App::new(file_browser);
    }

    /// Opens the editor on a track that was read from `path`.
    pub fn load_srt_file(&mut self, path: PathBuf, subtitles: Vec<Subtitle>)
        ensures
            *final(self) == (App {
                subtitles,
                srt_path: Some(path),
                state: AppState::Editing,
                selected_index: 0,
                ..*old(self)
            }),
    {
        self.subtitles = subtitles;
        self.srt_path = Some(path);
        self.state = AppState::Editing;
        self.selected_index = 0;
    }

    /// The session after a key on the home screen: `q` and escape quit;
    /// enter, `s` and `l` go to the file browser.
    pub open spec fn home_step(self, key: Key) -> App {
        match key {
            Key::Char('q') | Key::Esc => App { should_quit: true, ..self },
            Key::Enter | Key::Char('s') | Key::Char('l') => App {
                state: AppState::SelectingFile,
                ..self
            },
            _ => self,
        }
    }

    /// Takes a key on the home screen.
    pub fn handle_home_keys(&mut self, key: Key)
        ensures
            *final(self) == old(self).home_step(key),
    {
        match key {
            Key::Char('q') | Key::Esc => {
                self.should_quit = true;
            },
            Key::Enter | Key::Char('s') | Key::Char('l') => {
                self.state = AppState::SelectingFile;
            },
            _ => {},
        }
    }

    /// The session after a key while a job runs: `q` quits; escape goes back
    /// to the home screen and awaits the job no longer, which is left to
    /// itself.
    pub open spec fn progress_step(self, key: Key) -> App {
        match key {
            Key::Char('q') => App { should_quit: true, ..self },
            Key::Esc => App { state: AppState::Home, job_active: false, ..self },
            _ => self,
        }
    }

    /// Takes a key while a job runs.
    pub fn handle_progress_keys(&mut self, key: Key)
        ensures
            *final(self) == old(self).progress_step(key),
    {
        match key {
            Key::Char('q') => {
                self.should_quit = true;
            },
            Key::Esc => {
                self.state = AppState::Home;
                self.job_active = false;
            },
            _ => {},
        }
    }

    /// The session after a key on the last screen: `q`, escape and enter
    /// quit. `r` asks for a new session and leaves this one as it is.
    pub open spec fn done_step(self, key: Key) -> App {
        match key {
            Key::Char('q') | Key::Esc | Key::Enter => App { should_quit: true, ..self },
            _ => self,
        }
    }

    /// Takes a key on the last screen.
    pub fn handle_done_keys(&mut self, key: Key) -> (action: Action)
        ensures
            *final(self) == old(self).done_step(key),
            key == Key::Char('r') ==> action is Restart,
            key != Key::Char('r') ==> action is Nothing,
    {
        match key {
            Key::Char('q') | Key::Esc | Key::Enter => {
                self.should_quit = true;
                Action::Nothing
            },
            Key::Char('r') => Action::Restart,
            _ => Action::Nothing,
        }
    }

    /// The session with the error message cleared, as any key clears it.
    pub open spec fn error_cleared(self) -> App {
        App { error_message: None, ..self }
    }

    /// The session after a key: the error message goes, and the key goes to
    /// the screen that is shown.
    pub open spec fn key_step(self, key: Key, post: App, action: Action) -> bool {
        let mid = self.error_cleared();
        match self.state {
            AppState::Home => post == mid.home_step(key) && action is Nothing,
            AppState::SelectingFile => mid.browser_step(key, post, action),
            AppState::ExtractingAudio
            | AppState::GeneratingSubtitles
            | AppState::BurningSubtitles
            | AppState::ExtractingOverlay
            | AppState::PreviewingOverlay => post == mid.progress_step(key) && action is Nothing,
            AppState::Editing => mid.editor_step(key, post, action),
            AppState::Done => post == mid.done_step(key) && action == (if key == Key::Char('r') {
                Action::Restart
            } else {
                Action::Nothing
            }),
        }
    }

    /// Takes a key.
    pub fn handle_key(&mut self, key: Key) -> (action: Action)
        ensures
            old(self).key_step(key, *final(self), action),
    {
        self.error_message = None;
        match self.state {
            AppState::Home => {
                self.handle_home_keys(key);
                Action::Nothing
            },
            AppState::SelectingFile => self.handle_file_browser_keys(key),
            AppState::ExtractingAudio
            | AppState::GeneratingSubtitles
            | AppState::BurningSubtitles
            | AppState::ExtractingOverlay
            | AppState::PreviewingOverlay => {
                self.handle_progress_keys(key);
                Action::Nothing
            },
            AppState::Editing => self.handle_editor_keys(key),
            AppState::Done => self.handle_done_keys(key),
        }
    }
}

} // verus!
