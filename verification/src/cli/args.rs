//! What the command line carries, after parsing: the subcommands with their
//! options, and what follows from the options alone.

use crate::subtitle::burner::SubtitleBurner;
use std::path::PathBuf;
use vstd::prelude::*;

verus! {

/// The options that every subcommand shares, and the subcommand. Without a
/// subcommand the interactive editor starts.
#[derive(Debug)]
pub struct Cli {
    pub command: Option<Commands>,
    /// How often the flag for more output was given.
    pub verbose: u8,
    /// No output but errors.
    pub quiet: bool,
    /// Overwrite output files without asking.
    pub yes: bool,
    /// Never overwrite output files.
    pub no_overwrite: bool,
    /// A configuration file to use in place of the default one.
    pub config: Option<PathBuf>,
}

/// The subcommands.
#[derive(Debug)]
pub enum Commands {
    /// Extract the sound, transcribe it, and put the captions onto the video.
    Process(ProcessArgs),
    /// Extract the sound of a video.
    Extract(ExtractArgs),
    /// Transcribe a sound file into captions.
    Transcribe(TranscribeArgs),
    /// Put captions onto a video.
    Burn(BurnArgs),
    /// Edit a caption file interactively.
    Edit(EditArgs),
    /// Manage the configuration.
    Config(ConfigArgs),
}

/// The options of the whole pipeline.
#[derive(Debug)]
pub struct ProcessArgs {
    pub input: PathBuf,
    pub output: Option<PathBuf>,
    pub model: WhisperModel,
    pub language: String,
    pub srt_output: Option<PathBuf>,
    pub audio_output: Option<PathBuf>,
    pub keep_files: bool,
    pub translate: bool,
    pub font_size: u32,
    pub font_color: String,
    pub outline_color: String,
    pub style: Option<String>,
    pub use_overlay: bool,
    pub keep_overlay: bool,
    pub overlay_height: Option<u32>,
}

/// The options of the extraction of sound.
#[derive(Debug)]
pub struct ExtractArgs {
    pub input: PathBuf,
    pub output: Option<PathBuf>,
    pub sample_rate: u32,
    pub channels: u32,
    pub format: AudioFormat,
}

/// The options of the transcription.
#[derive(Debug)]
pub struct TranscribeArgs {
    pub input: PathBuf,
    pub output: Option<PathBuf>,
    pub model: WhisperModel,
    pub language: String,
    pub translate: bool,
    pub provider: String,
}

/// The options of putting captions onto a video.
#[derive(Debug)]
pub struct BurnArgs {
    pub video: PathBuf,
    pub subtitles: PathBuf,
    pub output: Option<PathBuf>,
    pub font_size: u32,
    pub font_color: String,
    pub outline_color: String,
    pub position: SubtitlePosition,
    pub style: Option<String>,
    pub video_codec: String,
    pub crf: u32,
    pub preset: String,
    pub use_overlay: bool,
    pub keep_overlay: bool,
    pub overlay_height: Option<u32>,
}

/// The options of the editor.
#[derive(Debug)]
pub struct EditArgs {
    pub input: PathBuf,
}

/// The options of the configuration management.
#[derive(Debug)]
pub struct ConfigArgs {
    pub show: bool,
    pub init: bool,
    pub path: bool,
}

/// The recognition models, from the smallest and fastest to the largest
/// and most exact.
#[derive(Debug, Clone, Copy, PartialEq, Eq, Structural)]
pub enum WhisperModel {
    Tiny,
    Base,
    Small,
    Medium,
    Large,
}

/// The formats of sound files.
#[derive(Debug, Clone, Copy, PartialEq, Eq, Structural)]
pub enum AudioFormat {
    Wav,
    Mp3,
    Flac,
}

/// Where captions stand on the picture.
#[derive(Debug, Clone, Copy, PartialEq, Eq, Structural)]
pub enum SubtitlePosition {
    Top,
    Middle,
    Bottom,
}

impl WhisperModel {
    /// The name of the file that holds the model.
    pub open spec fn file(self) -> Seq<char> {
        match self {
            WhisperModel::Tiny => "ggml-tiny.en.bin"@,
            WhisperModel::Base => "ggml-base.en.bin"@,
            WhisperModel::Small => "ggml-small.en.bin"@,
            WhisperModel::Medium => "ggml-medium.en.bin"@,
            WhisperModel::Large => "ggml-large.bin"@,
        }
    }

    /// The name of the model on the command line.
    pub open spec fn name(self) -> Seq<char> {
        match self {
            WhisperModel::Tiny => "tiny"@,
            WhisperModel::Base => "base"@,
            WhisperModel::Small => "small"@,
            WhisperModel::Medium => "medium"@,
            WhisperModel::Large => "large"@,
        }
    }

    /// The name of the file that holds the model.
    pub fn filename(&self) -> (r: &str)
        ensures
            r@ == self.file(),
    {
        match self {
            WhisperModel::Tiny => "ggml-tiny.en.bin",
            WhisperModel::Base => "ggml-base.en.bin",
            WhisperModel::Small => "ggml-small.en.bin",
            WhisperModel::Medium => "ggml-medium.en.bin",
            WhisperModel::Large => "ggml-large.bin",
        }
    }

    /// The name as text.
    pub fn as_str(&self) -> (r: &str)
        ensures
            r@ == self.name(),
    {
        match self {
            WhisperModel::Tiny => "tiny",
            WhisperModel::Base => "base",
            WhisperModel::Small => "small",
            WhisperModel::Medium => "medium",
            WhisperModel::Large => "large",
        }
    }
}

impl AudioFormat {
    /// The name of the format, which is also the extension of its files.
    pub open spec fn name(self) -> Seq<char> {
        match self {
            AudioFormat::Wav => "wav"@,
            AudioFormat::Mp3 => "mp3"@,
            AudioFormat::Flac => "flac"@,
        }
    }

    /// The name as text.
    pub fn as_str(&self) -> (r: &str)
        ensures
            r@ == self.name(),
    {
        match self {
            AudioFormat::Wav => "wav",
            AudioFormat::Mp3 => "mp3",
            AudioFormat::Flac => "flac",
        }
    }
}

impl SubtitlePosition {
    /// The name of the position on the command line.
    pub open spec fn name(self) -> Seq<char> {
        match self {
            SubtitlePosition::Top => "top"@,
            SubtitlePosition::Middle => "middle"@,
            SubtitlePosition::Bottom => "bottom"@,
        }
    }

    /// The name as text.
    pub fn as_str(&self) -> (r: &str)
        ensures
            r@ == self.name(),
    {
        match self {
            SubtitlePosition::Top => "top",
            SubtitlePosition::Middle => "middle",
            SubtitlePosition::Bottom => "bottom",
        }
    }
}

/// The burner that the options ask for: the method, whether the layer is
/// kept, and its height where one is given.
pub open spec fn burner_for(use_overlay: bool, keep_overlay: bool, height: Option<u32>)
    -> SubtitleBurner {
    SubtitleBurner {
        use_overlay,
        keep_overlay,
        overlay_height: height,
        overlay_width: None,
        overlay_x_offset: None,
        overlay_y_offset: None,
    }
}

fn make_burner(use_overlay: bool, keep_overlay: bool, height: Option<u32>) -> (r: SubtitleBurner)
    ensures
        r == burner_for(use_overlay, keep_overlay, height),
{
    let burner = SubtitleBurner::new().with_overlay(use_overlay).keep_overlay_file(keep_overlay);
    match height {
        Some(h) => burner.with_overlay_height(h),
        None => burner,
    }
}

impl BurnArgs {
    /// The burner that the options ask for.
    pub fn burner(&self) -> (r: SubtitleBurner)
        ensures
            r == burner_for(self.use_overlay, self.keep_overlay, self.overlay_height),
    {
        make_burner(self.use_overlay, self.keep_overlay, self.overlay_height)
    }
}

impl ProcessArgs {
    /// The burner that the options ask for.
    pub fn burner(&self) -> (r: SubtitleBurner)
        ensures
            r == burner_for(self.use_overlay, self.keep_overlay, self.overlay_height),
    {
        make_burner(self.use_overlay, self.keep_overlay, self.overlay_height)
    }
}

/// How much is logged.
#[derive(Debug, Clone, Copy, PartialEq, Eq, Structural)]
pub enum LogLevel {
    Warn,
    Info,
    Debug,
    Trace,
}

impl LogLevel {
    /// The name of the level as the logger takes it.
    pub open spec fn name(self) -> Seq<char> {
        match self {
            LogLevel::Warn => "warn"@,
            LogLevel::Info => "info"@,
            LogLevel::Debug => "debug"@,
            LogLevel::Trace => "trace"@,
        }
    }

    /// The name as text.
    pub fn as_str(&self) -> (r: &str)
        ensures
            r@ == self.name(),
    {
        match self {
            LogLevel::Warn => "warn",
            LogLevel::Info => "info",
            LogLevel::Debug => "debug",
            LogLevel::Trace => "trace",
        }
    }
}

impl Cli {
    /// The level that the flags ask for: none when quiet, else warnings, and
    /// one level more for each time that more output was asked for.
    pub open spec fn level(self) -> Option<LogLevel> {
        if self.quiet {
            None
        } else if self.verbose == 0 {
            Some(LogLevel::Warn)
        } else if self.verbose == 1 {
            Some(LogLevel::Info)
        } else if self.verbose == 2 {
            Some(LogLevel::Debug)
        } else {
            Some(LogLevel::Trace)
        }
    }

    /// The level that the flags ask for.
    pub fn log_level(&self) -> (r: Option<LogLevel>)
        ensures
            r == self.level(),
    {
        if self.quiet {
            None
        } else {
            Some(
                match self.verbose {
                    0 => LogLevel::Warn,
                    1 => LogLevel::Info,
                    2 => LogLevel::Debug,
                    _ => LogLevel::Trace,
                },
            )
        }
    }
}

} // verus!
