//! Starting the jobs: what is checked before one is handed out, and how
//! its files are named.

use crate::app::{owned, text_of, Action, App, AppState, Job};
use crate::paths::{
    clone_path, extension, extension_replaced, extension_text, file_name_replaced, file_stem,
    stem_text, with_extension, with_file_name,
};
use crate::text::{push_str, string_of};
use std::path::PathBuf;
use vstd::prelude::*;

verus! {

/// The name of the video with captions: `<stem>_subtitled.<extension>`.
pub fn subtitled_name(stem: &str, extension: &str) -> (r: String)
    ensures
        r@ == stem@ + "_subtitled."@ + extension@,
{
    let mut buf: Vec<char> = Vec::new();
    push_str(&mut buf, stem);
    push_str(&mut buf, "_subtitled.");
    push_str(&mut buf, extension);
    assert(buf@ == stem@ + "_subtitled."@ + extension@);
    string_of(&buf)
}

/// The name of the caption layer of a video: `<stem>_overlay.mp4`.
pub fn overlay_name(stem: &str) -> (r: String)
    ensures
        r@ == stem@ + "_overlay.mp4"@,
{
    let mut buf: Vec<char> = Vec::new();
    push_str(&mut buf, stem);
    push_str(&mut buf, "_overlay.mp4");
    assert(buf@ == stem@ + "_overlay.mp4"@);
    string_of(&buf)
}

/// The path of the video with captions for a video: beside the video, named
/// `<stem>_subtitled.<extension>` after it. There is none without a video, or
/// where the video has no file stem or no extension.
pub open spec fn subtitled_output(video: Option<PathBuf>) -> Option<PathBuf> {
    match video {
        Some(v) => match (stem_text(v), extension_text(v)) {
            (Some(s), Some(e)) => Some(file_name_replaced(v, s + "_subtitled."@ + e)),
            _ => None,
        },
        None => None,
    }
}

/// The path of the caption layer for a video: beside the video, named
/// `<stem>_overlay.mp4` after it. There is none without a video, or where the
/// video has no file stem.
pub open spec fn overlay_output(video: Option<PathBuf>) -> Option<PathBuf> {
    match video {
        Some(v) => match stem_text(v) {
            Some(s) => Some(file_name_replaced(v, s + "_overlay.mp4"@)),
            None => None,
        },
        None => None,
    }
}

/// The path of the video with captions beside `video`.
fn subtitled_path(video: &PathBuf) -> (r: Option<PathBuf>)
    ensures
        r == subtitled_output(Some(*video)),
{
    match (file_stem(video), extension(video)) {
        (Some(s), Some(e)) => {
            let name = subtitled_name(s.as_str(), e.as_str());
            Some(with_file_name(video, name.as_str()))
        },
        _ => None,
    }
}

/// The path of the caption layer beside `video`.
fn overlay_path(video: &PathBuf) -> (r: Option<PathBuf>)
    ensures
        r == overlay_output(Some(*video)),
{
    match file_stem(video) {
        Some(s) => Some(with_file_name(video, overlay_name(s.as_str()).as_str())),
        None => None,
    }
}

impl App {
    /// The session with nothing changed but the error message, which reads
    /// `text`.
    pub open spec fn fails_with(self, text: Seq<char>, post: App) -> bool {
        post == (App { error_message: post.error_message, ..self }) && text_of(post.error_message)
            == Some(text)
    }

    pub(crate) fn fail(&mut self, text: &str)
        ensures
            old(self).fails_with(text@, *final(self)),
    {
        self.error_message = Some(owned(text));
    }

    /// What `start_audio_extraction` does: without a video an error message
    /// and nothing else; with one, the session goes to the extraction screen,
    /// the sound file is the video's path with the extension `wav`, and the
    /// job is handed out.
    pub open spec fn audio_started(self, post: App, action: Action) -> bool {
        if self.video_path is None {
            action is Nothing && self.fails_with("No video loaded"@, post)
        } else {
            &&& post == (App {
                state: AppState::ExtractingAudio,
                progress: 0,
                progress_message: post.progress_message,
                job_active: true,
                audio_path: Some(extension_replaced(self.video_path->0, "wav"@)),
                ..self
            })
            &&& post.progress_message@ == "Starting audio extraction..."@
            &&& action == Action::Start(
                Job::ExtractAudio {
                    video: self.video_path->0,
                    audio: extension_replaced(self.video_path->0, "wav"@),
                },
            )
        }
    }

    /// Goes to the extraction of the sound of the chosen video. Without a
    /// video the session only gets an error message.
    pub fn start_audio_extraction(&mut self) -> (action: Action)
        ensures
            old(self).audio_started(*final(self), action),
    {
        let video = match &self.video_path {
            Some(p) => clone_path(p),
            None => {
                self.fail("No video loaded");
                return Action::Nothing;
            },
        };
        self.state = AppState::ExtractingAudio;
        self.progress = 0;
        self.progress_message = owned("Starting audio extraction...");
        self.job_active = true;
        proof {
            reveal_strlit("wav");
        }
        let audio = with_extension(&video, "wav");
        self.audio_path = Some(clone_path(&audio));
        Action::Start(Job::ExtractAudio { video, audio })
    }

    /// What `start_subtitle_generation` does: without a sound file an error
    /// message and nothing else; with one, the progress starts anew, the
    /// caption file is the sound file's path with the extension `srt`, and
    /// the job is handed out.
    pub open spec fn generation_started(self, post: App, action: Action) -> bool {
        if self.audio_path is None {
            action is Nothing && self.fails_with("No audio extracted"@, post)
        } else {
            &&& post == (App {
                progress: 0,
                progress_message: post.progress_message,
                job_active: true,
                srt_path: Some(extension_replaced(self.audio_path->0, "srt"@)),
                ..self
            })
            &&& post.progress_message@ == "Initializing Whisper model..."@
            &&& action == Action::Start(
                Job::Transcribe {
                    audio: self.audio_path->0,
                    srt: extension_replaced(self.audio_path->0, "srt"@),
                },
            )
        }
    }

    /// Goes on to the transcription of the extracted sound. Without a sound
    /// file the session only gets an error message.
    pub fn start_subtitle_generation(&mut self) -> (action: Action)
        ensures
            old(self).generation_started(*final(self), action),
    {
        let audio = match &self.audio_path {
            Some(p) => clone_path(p),
            None => {
                self.fail("No audio extracted");
                return Action::Nothing;
            },
        };
        self.progress = 0;
        self.progress_message = owned("Initializing Whisper model...");
        self.job_active = true;
        proof {
            reveal_strlit("srt");
        }
        let srt = with_extension(&audio, "srt");
        self.srt_path = Some(clone_path(&srt));
        Action::Start(Job::Transcribe { audio, srt })
    }

    /// What `start_burning_to` does with `output`, the path for the video
    /// with captions where one could be made. An empty track, a missing
    /// video or caption file and a missing output path each give an error
    /// message and nothing else. Otherwise the session goes to the burning
    /// screen and the job is handed out.
    pub open spec fn burning_started(
        self,
        output: Option<PathBuf>,
        post: App,
        action: Action,
    ) -> bool {
        if self.subtitles@.len() == 0 {
            action is Nothing && self.fails_with("No subtitles to burn"@, post)
        } else if self.video_path is None {
            action is Nothing && self.fails_with("No video loaded"@, post)
        } else if self.srt_path is None {
            action is Nothing && self.fails_with("No subtitles loaded"@, post)
        } else if output is None {
            action is Nothing && self.fails_with("Video file has no name or extension"@, post)
        } else {
            &&& post == (App {
                state: AppState::BurningSubtitles,
                progress: 0,
                progress_message: post.progress_message,
                job_active: true,
                output_path: output,
                ..self
            })
            &&& post.progress_message@ == "Starting subtitle burning..."@
            &&& action == Action::Start(
                Job::Burn {
                    video: self.video_path->0,
                    srt: self.srt_path->0,
                    output: output->0,
                    burner: self.overlay.burner_spec(),
                },
            )
        }
    }

    /// Goes to burning the captions into the video, with `output` as the
    /// path of the result, where one could be made.
    pub fn start_burning_to(&mut self, output: Option<PathBuf>) -> (action: Action)
        ensures
            old(self).burning_started(output, *final(self), action),
    {
        if self.subtitles.len() == 0 {
            self.fail("No subtitles to burn");
            return Action::Nothing;
        }
        let video = match &self.video_path {
            Some(p) => clone_path(p),
            None => {
                self.fail("No video loaded");
                return Action::Nothing;
            },
        };
        let srt = match &self.srt_path {
            Some(p) => clone_path(p),
            None => {
                self.fail("No subtitles loaded");
                return Action::Nothing;
            },
        };
        let output = match output {
            Some(p) => p,
            None => {
                self.fail("Video file has no name or extension");
                return Action::Nothing;
            },
        };
        let burner = self.overlay.burner();
        self.state = AppState::BurningSubtitles;
        self.progress = 0;
        self.progress_message = owned("Starting subtitle burning...");
        self.job_active = true;
        self.output_path = Some(clone_path(&output));
        Action::Start(Job::Burn { video, srt, output, burner })
    }

    /// Validates the track and goes to burning the captions into the video.
    /// The output lies beside the video, named `<stem>_subtitled.<ext>`.
    pub fn start_burning(&mut self) -> (action: Action)
        ensures
            old(self).burning_started(
                subtitled_output(old(self).video_path),
                *final(self),
                action,
            ),
    {
        let output = match &self.video_path {
            Some(video) => subtitled_path(video),
            None => None,
        };
        self.start_burning_to(output)
    }

    /// What `start_overlay_extraction_to` does with `output`, the path for
    /// the caption layer where one could be made.
    pub open spec fn extraction_started(
        self,
        output: Option<PathBuf>,
        post: App,
        action: Action,
    ) -> bool {
        if self.subtitles@.len() == 0 {
            action is Nothing && self.fails_with("No subtitles to extract overlay from"@, post)
        } else if self.video_path is None {
            action is Nothing && self.fails_with("No video loaded"@, post)
        } else if self.srt_path is None {
            action is Nothing && self.fails_with("No subtitles loaded"@, post)
        } else if output is None {
            action is Nothing && self.fails_with("Video file has no name or extension"@, post)
        } else {
            &&& post == (App {
                state: AppState::ExtractingOverlay,
                progress: 0,
                progress_message: post.progress_message,
                job_active: true,
                output_path: output,
                ..self
            })
            &&& post.progress_message@ == "Extracting subtitle overlay..."@
            &&& action == Action::Start(
                Job::ExtractOverlay {
                    video: self.video_path->0,
                    srt: self.srt_path->0,
                    output: output->0,
                    burner: self.overlay.sizing_burner_spec(),
                },
            )
        }
    }

    /// Goes to rendering the caption layer alone, with `output` as the path
    /// of the result, where one could be made.
    pub fn start_overlay_extraction_to(&mut self, output: Option<PathBuf>) -> (action: Action)
        ensures
            old(self).extraction_started(output, *final(self), action),
    {
        if self.subtitles.len() == 0 {
            self.fail("No subtitles to extract overlay from");
            return Action::Nothing;
        }
        let video = match &self.video_path {
            Some(p) => clone_path(p),
            None => {
                self.fail("No video loaded");
                return Action::Nothing;
            },
        };
        let srt = match &self.srt_path {
            Some(p) => clone_path(p),
            None => {
                self.fail("No subtitles loaded");
                return Action::Nothing;
            },
        };
        let output = match output {
            Some(p) => p,
            None => {
                self.fail("Video file has no name or extension");
                return Action::Nothing;
            },
        };
        let burner = self.overlay.sizing_burner();
        self.state = AppState::ExtractingOverlay;
        self.progress = 0;
        self.progress_message = owned("Extracting subtitle overlay...");
        self.job_active = true;
        self.output_path = Some(clone_path(&output));
        Action::Start(Job::ExtractOverlay { video, srt, output, burner })
    }

    /// Validates the track and goes to rendering the caption layer alone. The
    /// output lies beside the video, named `<stem>_overlay.mp4`.
    pub fn start_overlay_extraction(&mut self) -> (action: Action)
        ensures
            old(self).extraction_started(
                overlay_output(old(self).video_path),
                *final(self),
                action,
            ),
    {
        let output = match &self.video_path {
            Some(video) => overlay_path(video),
            None => None,
        };
        self.start_overlay_extraction_to(output)
    }
}

} // verus!
