//! What holds of every session, whatever keys are pressed and whatever the
//! jobs report.

use crate::app::{
    appended_caption, received, received_all, reindexed, retimed, Action, App, AppState, Drain, Key,
    ProgressMessage,
};
use crate::browser::FileBrowser;
use crate::error::JobError;
use crate::subtitle::generator::{chars_total, lemma_split_len, split_captions, track_of, Segment};
use crate::subtitle::srt::Caption;
use vstd::prelude::*;

verus! {

/// The screens on which the session waits for a job.
pub open spec fn is_working(state: AppState) -> bool {
    state == AppState::ExtractingAudio || state == AppState::GeneratingSubtitles || state
        == AppState::BurningSubtitles || state == AppState::ExtractingOverlay || state
        == AppState::PreviewingOverlay
}

/// A report takes the session to the last screen only from the burning
/// screen, and only when it says that the job is done.
pub proof fn lemma_done_only_after_burning(d: Drain, m: ProgressMessage)
    requires
        received(d, m).state == AppState::Done,
    ensures
        d.state == AppState::Done || (d.state == AppState::BurningSubtitles && m is Complete),
{
}

/// A failed job leaves the session on its screen, with the failure as the
/// error message, and ends the wait for reports.
pub proof fn lemma_error_stays(d: Drain, e: String)
    ensures
        received(d, ProgressMessage::Error(e)).state == d.state,
        received(d, ProgressMessage::Error(e)).error == Some(e@),
        received(d, ProgressMessage::Error(e)).finished,
{
}

/// No key takes the session to the last screen.
pub proof fn lemma_keys_never_finish(pre: App, key: Key, post: App, action: Action)
    requires
        pre.key_step(key, post, action),
        pre.state != AppState::Done,
    ensures
        post.state != AppState::Done,
{
}

/// At most one job at a time: reports are awaited only on a screen that
/// waits for a job.
pub open spec fn one_job(app: App) -> bool {
    app.job_active ==> is_working(app.state)
}

/// A new session awaits no job, its track is numbered, and its overlay
/// settings are well formed.
pub proof fn lemma_fresh_is_sound(app: App, file_browser: FileBrowser)
    requires
        app.is_fresh(file_browser),
    ensures
        one_job(app),
        numbered(app.track()),
        app.overlay.well_formed(),
{
}

/// A key keeps the session to one job at a time, and hands a job out only
/// when none is awaited.
pub proof fn lemma_keys_keep_one_job(pre: App, key: Key, post: App, action: Action)
    requires
        pre.key_step(key, post, action),
        one_job(pre),
    ensures
        one_job(post),
        action is Start ==> !pre.job_active && post.job_active,
{
}

/// What follows the saving of the track in the editor keeps the session to
/// one job at a time, and hands a job out only when none is awaited.
pub proof fn lemma_saved_keeps_one_job(
    pre: App,
    result: Result<(), JobError>,
    then: crate::app::AfterSave,
    mid: App,
    post: App,
    action: Action,
)
    requires
        pre.save_noted(result, mid),
        mid.continued(then, post, action),
        one_job(pre),
        pre.state == AppState::Editing,
    ensures
        one_job(post),
        action is Start ==> !pre.job_active && post.job_active,
{
}

/// The reports of one job as a worker sends them: progress, and at the very
/// end at most one report that the job is done or has failed.
pub open spec fn orderly(ms: Seq<ProgressMessage>) -> bool {
    forall|i: int| 0 <= i < ms.len() - 1 ==> (#[trigger] ms[i]) is Progress
}

/// The reports of one job, taken in any number of drains, keep the session
/// to one job at a time: the wait ends with the job, and the transcription
/// is started only when the extraction is done.
pub proof fn lemma_drain_keeps_one_job(
    pre: App,
    ms: Seq<ProgressMessage>,
    mid: App,
    post: App,
    action: Action,
)
    requires
        pre.job_active,
        one_job(pre),
        orderly(ms),
        pre.drained_to(received_all(pre.at_drain(), ms), mid),
        if received_all(pre.at_drain(), ms).start_generation {
            mid.generation_started(post, action)
        } else {
            post == mid && action is Nothing
        },
    ensures
        one_job(post),
        action is Start ==> received_all(pre.at_drain(), ms).state
            == AppState::GeneratingSubtitles && pre.state == AppState::ExtractingAudio,
{
    if ms.len() > 0 {
        let front = ms.drop_last();
        assert forall|i: int| 0 <= i < front.len() implies crate::app::is_progress(
            #[trigger] front[i],
        ) by {
            assert(front[i] == ms[i]);
        }
        crate::app::lemma_progress_only(pre.at_drain(), front);
    }
}

/// A caption that starts before it ends still does after any of the keys
/// that move its times.
pub proof fn lemma_retimed_in_order(c: Caption, key: char)
    requires
        c.start_time < c.end_time,
    ensures
        retimed(c, key).start_time < retimed(c, key).end_time,
        retimed(c, key).index == c.index,
        retimed(c, key).text == c.text,
{
}

/// The entries of a track are numbered from one in the order in which they
/// stand.
pub open spec fn numbered(track: Seq<Caption>) -> bool {
    forall|i: int| 0 <= i < track.len() ==> (#[trigger] track[i]).index == i + 1
}

/// A numbered track stays numbered when a caption is appended, and the new
/// caption starts where the last one ends.
pub proof fn lemma_appended_numbered(track: Seq<Caption>)
    requires
        numbered(track),
        track.len() < usize::MAX,
    ensures
        numbered(track.push(appended_caption(track))),
        track.len() > 0 ==> appended_caption(track).start_time == track.last().end_time,
        appended_caption(track).start_time <= appended_caption(track).end_time,
{
}

/// Whatever the numbers were, a track is numbered after a caption was
/// deleted, and the captions that are left are those that were there, in
/// their order.
pub proof fn lemma_deleted_numbered(track: Seq<Caption>, at: int)
    requires
        0 <= at < track.len() <= usize::MAX,
    ensures
        numbered(reindexed(track.remove(at))),
        reindexed(track.remove(at)).len() == track.len() - 1,
        forall|i: int|
            0 <= i < track.len() - 1 ==> {
                let left = #[trigger] reindexed(track.remove(at))[i];
                let was = if i < at {
                    track[i]
                } else {
                    track[i + 1]
                };
                left.start_time == was.start_time && left.end_time == was.end_time && left.text
                    == was.text
            },
{
}

/// No key makes well-formed overlay settings ill-formed, and no key breaks
/// the numbering of the track.
pub proof fn lemma_keys_keep_track_and_settings(pre: App, key: Key, post: App, action: Action)
    requires
        pre.key_step(key, post, action),
    ensures
        pre.overlay.well_formed() ==> post.overlay.well_formed(),
        numbered(pre.track()) ==> numbered(post.track()),
{
    if numbered(pre.track()) && pre.state == AppState::Editing {
        let track = pre.track();
        let at = pre.selected_index as int;
        assert(track.len() == pre.subtitles.len());
        if at < track.len() {
            lemma_deleted_numbered(track, at);
        }
        if track.len() < usize::MAX {
            lemma_appended_numbered(track);
        }
    }
}

/// The captions that a transcription gives are numbered from one without a
/// gap, as long as their number fits the machine.
pub proof fn lemma_generated_numbered(segments: Seq<Segment>)
    requires
        chars_total(segments) <= usize::MAX,
    ensures
        numbered(track_of(segments)),
        track_of(segments).len() <= chars_total(segments),
    decreases segments.len(),
{
    if segments.len() > 0 {
        let front = segments.drop_last();
        let seg = segments.last();
        lemma_generated_numbered(front);
        let before = track_of(front);
        let first = before.len() as int + 1;
        let added = split_captions(first, seg.start_ms, seg.end_ms, seg.text@);
        lemma_split_len(first, seg.start_ms, seg.end_ms, seg.text@);
        let all = track_of(segments);
        assert(all == before + added);
        assert forall|i: int| 0 <= i < all.len() implies (#[trigger] all[i]).index == i + 1 by {
            if i < before.len() {
                assert(all[i] == before[i]);
            } else {
                assert(all[i] == added[i - before.len()]);
            }
        }
    }
}

} // verus!
