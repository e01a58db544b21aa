//! Taking the reports of the running job.

use crate::app::{text_of, Action, App, AppState, ProgressMessage};
use crate::paths::clone_path;
use crate::subtitle::srt::Subtitle;
use std::path::PathBuf;
use vstd::prelude::*;

verus! {

/// What the reports of a job have made of the session so far.
pub struct Drain {
    pub state: AppState,
    pub progress: u8,
    pub message: Seq<char>,
    pub error: Option<Seq<char>>,
    /// The job has ended, well or badly: no more reports are awaited.
    pub finished: bool,
    /// The sound was extracted: transcription is to start.
    pub start_generation: bool,
    /// The transcription is done: the track is to be read from its file.
    pub reload: bool,
}

/// The effect of one report. Progress replaces what is shown. Completion
/// moves on: from extraction to transcription, from transcription to the
/// editor, from burning to the last screen, from overlay extraction and
/// preview back to the editor. An error is shown and ends the job; the screen
/// stays.
pub open spec fn received(d: Drain, m: ProgressMessage) -> Drain {
    match m {
        ProgressMessage::Progress(p, text) => Drain { progress: p, message: text@, ..d },
        ProgressMessage::Complete => match d.state {
            AppState::ExtractingAudio => Drain {
                state: AppState::GeneratingSubtitles,
                progress: 0,
                start_generation: true,
                ..d
            },
            AppState::GeneratingSubtitles => Drain {
                state: AppState::Editing,
                finished: true,
                reload: true,
                ..d
            },
            AppState::BurningSubtitles => Drain { state: AppState::Done, finished: true, ..d },
            AppState::ExtractingOverlay | AppState::PreviewingOverlay => Drain {
                state: AppState::Editing,
                finished: true,
                ..d
            },
            _ => d,
        },
        ProgressMessage::Error(e) => Drain { error: Some(e@), finished: true, ..d },
    }
}

/// The effect of reports in the order in which they were sent.
pub open spec fn received_all(d: Drain, ms: Seq<ProgressMessage>) -> Drain
    decreases ms.len(),
{
    if ms.len() == 0 {
        d
    } else {
        received(received_all(d, ms.drop_last()), ms.last())
    }
}

/// Whether a report is one of progress.
pub open spec fn is_progress(m: ProgressMessage) -> bool {
    m is Progress
}

/// However many reports were queued, where the last is one of progress, it
/// is what the session shows, whatever came before it.
pub proof fn lemma_last_progress_shows(d: Drain, ms: Seq<ProgressMessage>)
    requires
        ms.len() > 0,
        ms.last() is Progress,
    ensures
        received_all(d, ms).progress == ms.last()->Progress_0,
        received_all(d, ms).message == ms.last()->Progress_1@,
{
}

/// Reports of progress alone change nothing but what is shown: the screen
/// stays, no error appears, the job goes on, and nothing is started.
pub proof fn lemma_progress_only(d: Drain, ms: Seq<ProgressMessage>)
    requires
        forall|i: int| 0 <= i < ms.len() ==> is_progress(#[trigger] ms[i]),
    ensures
        received_all(d, ms) == if ms.len() == 0 {
            d
        } else {
            Drain { progress: ms.last()->Progress_0, message: ms.last()->Progress_1@, ..d }
        },
    decreases ms.len(),
{
    if ms.len() > 0 {
        let front = ms.drop_last();
        assert forall|i: int| 0 <= i < front.len() implies is_progress(#[trigger] front[i]) by {
            assert(front[i] == ms[i]);
        }
        lemma_progress_only(d, front);
        assert(is_progress(ms[ms.len() - 1]));
    }
}

/// The reports are applied one after the other: those before a report have
/// all had their effect when it has its own.
pub proof fn lemma_received_in_order(d: Drain, before: Seq<ProgressMessage>, m: ProgressMessage)
    ensures
        received_all(d, before.push(m)) == received(received_all(d, before), m),
{
    assert(before.push(m).drop_last() == before);
}

impl App {
    /// Where a drain begins.
    pub open spec fn at_drain(self) -> Drain {
        Drain {
            state: self.state,
            progress: self.progress,
            message: self.progress_message@,
            error: text_of(self.error_message),
            finished: false,
            start_generation: false,
            reload: false,
        }
    }

    /// The session that shows what a drain has come to; the job is still
    /// awaited unless it has ended.
    pub open spec fn drained_to(self, d: Drain, post: App) -> bool {
        &&& post == (App {
            state: d.state,
            progress: d.progress,
            progress_message: post.progress_message,
            error_message: post.error_message,
            job_active: !d.finished,
            ..self
        })
        &&& post.progress_message@ == d.message
        &&& text_of(post.error_message) == d.error
    }

    /// Takes all reports that the running job has queued, in the order in
    /// which they were sent, and only then acts on what they came to: the
    /// track is to be read again from the file that is handed back, where
    /// the transcription is done, and the transcription is started, where
    /// the sound was extracted. Without a running job the reports are left
    /// alone.
    pub fn drain(&mut self, messages: &Vec<ProgressMessage>) -> (r: (Option<PathBuf>, Action))
        ensures
            !old(self).job_active ==> *final(self) == *old(self) && r.0 is None && r.1 is Nothing,
            old(self).job_active ==> {
                let d = received_all(old(self).at_drain(), messages@);
                &&& r.0 == if d.reload {
                    old(self).srt_path
                } else {
                    None
                }
                &&& exists|mid: App|
                    {
                        &&& old(self).drained_to(d, mid)
                        &&& if d.start_generation {
                            mid.generation_started(*final(self), r.1)
                        } else {
                            *final(self) == mid && r.1 is Nothing
                        }
                    }
            },
    {
        if !self.job_active {
            return (None, Action::Nothing);
        }
        let mut finished = false;
        let mut start_generation = false;
        let mut reload = false;
        let n = messages.len();
        let mut i: usize = 0;
        assert(messages@.take(0).len() == 0);
        while i < n
            invariant
                i <= n == messages.len(),
                old(self).drained_to(
                    Drain {
                        finished: false,
                        ..received_all(old(self).at_drain(), messages@.take(i as int))
                    },
                    *self,
                ),
                finished == received_all(old(self).at_drain(), messages@.take(i as int)).finished,
                start_generation == received_all(
                    old(self).at_drain(),
                    messages@.take(i as int),
                ).start_generation,
                reload == received_all(old(self).at_drain(), messages@.take(i as int)).reload,
            decreases n - i,
        {
            assert(messages@.take(i + 1).drop_last() == messages@.take(i as int));
            assert(messages@.take(i + 1).last() == messages[i as int]);
            match &messages[i] {
                ProgressMessage::Progress(p, text) => {
                    self.progress = *p;
                    self.progress_message = text.clone();
                },
                ProgressMessage::Complete => {
                    match self.state {
                        AppState::ExtractingAudio => {
                            self.state = AppState::GeneratingSubtitles;
                            self.progress = 0;
                            start_generation = true;
                        },
                        AppState::GeneratingSubtitles => {
                            reload = true;
                            self.state = AppState::Editing;
                            finished = true;
                        },
                        AppState::BurningSubtitles => {
                            self.state = AppState::Done;
                            finished = true;
                        },
                        AppState::ExtractingOverlay | AppState::PreviewingOverlay => {
                            self.state = AppState::Editing;
                            finished = true;
                        },
                        _ => {},
                    }
                },
                ProgressMessage::Error(e) => {
                    self.error_message = Some(e.clone());
                    finished = true;
                },
            }
            i += 1;
        }
        assert(messages@.take(n as int) == messages@);
        let ghost d = received_all(old(self).at_drain(), messages@);
        if finished {
            self.job_active = false;
        }
        let ghost mid = *self;
        assert(old(self).drained_to(d, mid));
        let path = if reload {
            match &self.srt_path {
                Some(p) => Some(clone_path(p)),
                None => None,
            }
        } else {
            None
        };
        let action = if start_generation {
            self.start_subtitle_generation()
        } else {
            Action::Nothing
        };
        (path, action)
    }

    /// Takes the track that was read from its file after the transcription;
    /// where the file could not be read, the track stays as it is.
    pub fn track_loaded(&mut self, subtitles: Option<Vec<Subtitle>>)
        ensures
            *final(self) == (match subtitles {
                Some(track) => App { subtitles: track, ..*old(self) },
                None => *old(self),
            }),
    {
        match subtitles {
            Some(track) => {
                self.subtitles = track;
            },
            None => {},
        }
    }
}

} // verus!
