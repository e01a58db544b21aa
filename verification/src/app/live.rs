//! The live preview as the session sees it: requested, started, watched,
//! stopped, and started again when the overlay settings change.

use crate::app::{owned, text_of, Action, App, AppState, Job, Launch, PreviewStatus};
use crate::command::joined;
use crate::decimal::{push_signed, signed_decimal};
use crate::error::JobError;
use crate::paths::clone_path;
use crate::text::{push_str, string_of};
use vstd::prelude::*;

verus! {

/// An exit status as the message on a failed preview shows it.
pub open spec fn status_text(code: Option<i32>) -> Seq<char> {
    match code {
        Some(n) => "Some("@ + signed_decimal(n as int) + ")"@,
        None => "None"@,
    }
}

/// The message on a preview player that failed.
pub open spec fn preview_failure_text(code: Option<i32>) -> Seq<char> {
    "Preview exited with error (code: "@ + status_text(code) + "). Check if MPV is installed."@
}

fn preview_failure(code: Option<i32>) -> (r: String)
    ensures
        r@ == preview_failure_text(code),
{
    let mut buf: Vec<char> = Vec::new();
    push_str(&mut buf, "Preview exited with error (code: ");
    match code {
        Some(n) => {
            push_str(&mut buf, "Some(");
            push_signed(&mut buf, n);
            push_str(&mut buf, ")");
        },
        None => {
            push_str(&mut buf, "None");
        },
    }
    push_str(&mut buf, "). Check if MPV is installed.");
    assert(buf@ == preview_failure_text(code));
    string_of(&buf)
}

/// What is to be done with what `start_preview` gave.
pub open spec fn launch_action(launch: Option<Launch>) -> Action {
    match launch {
        Some(l) => Action::LaunchPreview(l),
        None => Action::Nothing,
    }
}

impl App {
    /// What `start_preview` does: an empty track or a missing video or
    /// caption file gives an error message and nothing to launch; otherwise
    /// the session stays as it is, and the player is to be launched on the
    /// video and the caption file with the overlay settings of the session.
    pub open spec fn preview_requested(self, post: App, launch: Option<Launch>) -> bool {
        if self.subtitles@.len() == 0 {
            launch is None && self.fails_with("No subtitles to preview"@, post)
        } else if self.video_path is None {
            launch is None && self.fails_with("No video loaded"@, post)
        } else if self.srt_path is None {
            launch is None && self.fails_with("No subtitles loaded"@, post)
        } else {
            post == self && launch == Some(
                Launch {
                    video: self.video_path->0,
                    srt: self.srt_path->0,
                    burner: self.overlay.burner_spec(),
                },
            )
        }
    }

    /// Checks that there is something to preview, and says what the player
    /// is to be launched with.
    pub fn start_preview(&mut self) -> (launch: Option<Launch>)
        ensures
            old(self).preview_requested(*final(self), launch),
    {
        if self.subtitles.len() == 0 {
            self.fail("No subtitles to preview");
            return None;
        }
        let video = match &self.video_path {
            Some(p) => clone_path(p),
            None => {
                self.fail("No video loaded");
                return None;
            },
        };
        let srt = match &self.srt_path {
            Some(p) => clone_path(p),
            None => {
                self.fail("No subtitles loaded");
                return None;
            },
        };
        Some(Launch { video, srt, burner: self.overlay.burner() })
    }

    /// The session once the player has been launched: with the size of the
    /// video that was measured, the preview is active; a failure gives an
    /// error message.
    pub fn preview_started(&mut self, result: Result<(u32, u32), JobError>)
        ensures
            match result {
                Ok((w, h)) => {
                    &&& *final(self) == (App {
                        preview_video_width: w,
                        preview_video_height: h,
                        preview_active: true,
                        progress_message: final(self).progress_message,
                        ..*old(self)
                    })
                    &&& final(self).progress_message@
                        == "Live preview active - adjust with h/H/w/W/x/X/y/Y (Press p to stop)"@
                },
                Err(e) => old(self).fails_with(
                    "Failed to start preview: "@ + e.text(),
                    *final(self),
                ),
            },
    {
        match result {
            Ok((w, h)) => {
                self.preview_video_width = w;
                self.preview_video_height = h;
                self.preview_active = true;
                self.progress_message = owned(
                    "Live preview active - adjust with h/H/w/W/x/X/y/Y (Press p to stop)",
                );
            },
            Err(e) => {
                self.error_message = Some(
                    joined("Failed to start preview: ", e.message().as_str()),
                );
            },
        }
    }

    /// The session with the preview marked as stopped.
    pub open spec fn preview_stopped(self, post: App) -> bool {
        post == (App { preview_active: false, progress_message: post.progress_message, ..self })
            && post.progress_message@ == "Preview stopped"@
    }

    /// Marks the preview as stopped.
    pub fn stop_preview(&mut self)
        ensures
            old(self).preview_stopped(*final(self)),
    {
        self.preview_active = false;
        self.progress_message = owned("Preview stopped");
    }

    /// What `toggle_preview` does: an active preview is stopped; otherwise
    /// one is requested.
    pub open spec fn preview_toggled(self, post: App, action: Action) -> bool {
        if self.preview_active {
            action is StopPreview && self.preview_stopped(post)
        } else {
            exists|launch: Option<Launch>|
                self.preview_requested(post, launch) && action == launch_action(launch)
        }
    }

    /// Stops the preview where it is active, and requests one where it is
    /// not.
    pub fn toggle_preview(&mut self) -> (action: Action)
        ensures
            old(self).preview_toggled(*final(self), action),
    {
        if self.preview_active {
            self.stop_preview();
            Action::StopPreview
        } else {
            let launch = self.start_preview();
            let ghost seen = launch;
            let action = match launch {
                Some(l) => Action::LaunchPreview(l),
                None => Action::Nothing,
            };
            assert(old(self).preview_requested(*self, seen) && action == launch_action(seen));
            action
        }
    }

    /// What `update_preview_overlay` does: nothing without an active preview;
    /// with one, the preview is stopped and requested again with the
    /// settings as they are now.
    pub open spec fn preview_updated(self, post: App, action: Action) -> bool {
        if !self.preview_active {
            post == self && action is Nothing
        } else {
            exists|mid: App, launch: Option<Launch>|
                self.preview_stopped(mid) && mid.preview_requested(post, launch) && action
                    == Action::RestartPreview(launch)
        }
    }

    /// Starts an active preview again with the settings as they are now.
    pub fn update_preview_overlay(&mut self) -> (action: Action)
        ensures
            old(self).preview_updated(*final(self), action),
    {
        if !self.preview_active {
            return Action::Nothing;
        }
        self.stop_preview();
        let ghost mid = *self;
        let launch = self.start_preview();
        assert(old(self).preview_stopped(mid) && mid.preview_requested(*self, launch));
        Action::RestartPreview(launch)
    }

    /// The session after a look at the preview player. Without an active
    /// preview, or with the player running, nothing changes. A player that
    /// was closed ends the preview with a message; one that failed, or whose
    /// state is unknown, ends it with an error message.
    pub fn preview_polled(&mut self, status: PreviewStatus)
        ensures
            !old(self).preview_active || status == PreviewStatus::Running ==> *final(self) == *old(
                self,
            ),
            old(self).preview_active ==> match status {
                PreviewStatus::Running => true,
                PreviewStatus::Closed => {
                    &&& *final(self) == (App {
                        preview_active: false,
                        progress_message: final(self).progress_message,
                        ..*old(self)
                    })
                    &&& final(self).progress_message@ == "Preview closed"@
                },
                PreviewStatus::Failed(code) => {
                    &&& *final(self) == (App {
                        preview_active: false,
                        error_message: final(self).error_message,
                        ..*old(self)
                    })
                    &&& text_of(final(self).error_message) == Some(preview_failure_text(code))
                },
                PreviewStatus::Unknown => {
                    &&& *final(self) == (App {
                        preview_active: false,
                        error_message: final(self).error_message,
                        ..*old(self)
                    })
                    &&& text_of(final(self).error_message) == Some("Preview process error"@)
                },
            },
    {
        if !self.preview_active {
            return ;
        }
        match status {
            PreviewStatus::Running => {},
            PreviewStatus::Closed => {
                self.preview_active = false;
                self.progress_message = owned("Preview closed");
            },
            PreviewStatus::Failed(code) => {
                self.preview_active = false;
                self.error_message = Some(preview_failure(code));
            },
            PreviewStatus::Unknown => {
                self.preview_active = false;
                self.error_message = Some(owned("Preview process error"));
            },
        }
    }

    /// Goes to the preview that runs as a job: the player shows the video
    /// with its captions and the session waits for it to close.
    pub fn start_previewing(&mut self) -> (action: Action)
        ensures
            exists|launch: Option<Launch>, mid: App|
                {
                    &&& old(self).preview_requested(mid, launch)
                    &&& match launch {
                        None => *final(self) == mid && action is Nothing,
                        Some(l) => {
                            &&& *final(self) == (App {
                                state: AppState::PreviewingOverlay,
                                progress: 0,
                                progress_message: final(self).progress_message,
                                job_active: true,
                                ..mid
                            })
                            &&& final(self).progress_message@ == "Preparing preview..."@
                            &&& action == Action::Start(
                                Job::Preview { video: l.video, srt: l.srt, burner: l.burner },
                            )
                        },
                    }
                },
    {
        let launch = self.start_preview();
        let ghost mid = *self;
        let ghost seen = launch;
        match launch {
            None => Action::Nothing,
            Some(l) => {
                self.state = AppState::PreviewingOverlay;
                self.progress = 0;
                self.progress_message = owned("Preparing preview...");
                self.job_active = true;
                let action = Action::Start(
                    Job::Preview { video: l.video, srt: l.srt, burner: l.burner },
                );
                assert(old(self).preview_requested(mid, seen));
                action
            },
        }
    }
}

} // verus!
