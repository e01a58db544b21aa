//! Saving the track from the editor, and what follows it.

use crate::app::jobs::{overlay_output, subtitled_output};
use crate::app::{Action, AfterSave, App};
use crate::command::joined;
use crate::error::JobError;
use crate::paths::{clone_path, display, display_text};
use crate::subtitle::srt::{serialize_srt, track_text};
use vstd::prelude::*;

verus! {

impl App {
    /// What the editor goes on with after saving.
    pub open spec fn continued(self, then: AfterSave, post: App, action: Action) -> bool {
        match then {
            AfterSave::Nothing => post == self && action is Nothing,
            AfterSave::Burn => self.burning_started(
                subtitled_output(self.video_path),
                post,
                action,
            ),
            AfterSave::ExtractOverlay => self.extraction_started(
                overlay_output(self.video_path),
                post,
                action,
            ),
            AfterSave::TogglePreview => self.preview_toggled(post, action),
        }
    }

    /// Goes on with what was to follow the saving of the track.
    pub fn continue_after_save(&mut self, then: AfterSave) -> (action: Action)
        ensures
            old(self).continued(then, *final(self), action),
    {
        match then {
            AfterSave::Nothing => Action::Nothing,
            AfterSave::Burn => self.start_burning(),
            AfterSave::ExtractOverlay => self.start_overlay_extraction(),
            AfterSave::TogglePreview => self.toggle_preview(),
        }
    }

    /// What `save_subtitles` does: the session stays as it is, and the track
    /// is to be written to its file as `serialize_srt` gives it, with what
    /// follows. A session without a caption file goes on at once.
    pub open spec fn save_requested(self, then: AfterSave, post: App, action: Action) -> bool {
        match self.srt_path {
            Some(path) => {
                &&& post == self
                &&& action matches Action::Save { path: p, content, then: t }
                &&& p == path
                &&& t == then
                &&& content@ == track_text(self.track())
            },
            None => self.continued(then, post, action),
        }
    }

    /// Asks for the track to be written to its file, with what is to follow.
    pub fn save_subtitles(&mut self, then: AfterSave) -> (action: Action)
        ensures
            old(self).save_requested(then, *final(self), action),
    {
        match &self.srt_path {
            Some(path) => Action::Save {
                path: clone_path(path),
                content: serialize_srt(&self.subtitles),
                then,
            },
            None => self.continue_after_save(then),
        }
    }

    /// What `saved` makes of the outcome of writing the track: a failure
    /// gives an error message with its reason; success a message that names
    /// the file.
    pub open spec fn save_noted(self, result: Result<(), JobError>, post: App) -> bool {
        match result {
            Err(e) => self.fails_with("Failed to save SRT: "@ + e.text(), post),
            Ok(_) => match self.srt_path {
                Some(path) => {
                    &&& post == (App { progress_message: post.progress_message, ..self })
                    &&& post.progress_message@ == "Saved to "@ + display_text(path)
                },
                None => post == self,
            },
        }
    }

    /// Takes the outcome of writing the track and goes on with `then`.
    pub fn saved(&mut self, result: Result<(), JobError>, then: AfterSave) -> (action: Action)
        ensures
            exists|mid: App|
                old(self).save_noted(result, mid) && mid.continued(then, *final(self), action),
    {
        match &result {
            Err(e) => {
                self.error_message = Some(joined("Failed to save SRT: ", e.message().as_str()));
            },
            Ok(_) => {
                match &self.srt_path {
                    Some(path) => {
                        let shown = display(path);
                        self.progress_message = joined("Saved to ", shown.as_str());
                    },
                    None => {},
                }
            },
        }
        let ghost mid = *self;
        let action = self.continue_after_save(then);
        assert(old(self).save_noted(result, mid) && mid.continued(then, *self, action));
        action
    }
}

} // verus!
