//! The live preview: an outside player that shows the video with its
//! captions and the outline of the caption layer. A change of the overlay
//! settings stops the player and starts it again.

use crate::app::PreviewStatus;
use vstd::prelude::*;

verus! {

/// How often the removal of the control endpoint is tried after the player
/// was stopped.
pub const REMOVE_ATTEMPTS: u32 = 5;

/// How long to wait between two tries to remove the control endpoint, in
/// milliseconds.
pub const REMOVE_RETRY_MS: u64 = 50;

/// How long to wait after the player was stopped before it is started
/// again, in milliseconds.
pub const SETTLE_MS: u64 = 200;

/// How long the session waits for a key before it looks at the job and the
/// player again, in milliseconds.
pub const TICK_MS: u64 = 100;

/// What follows a try to remove the control endpoint.
#[derive(Debug, Clone, Copy, PartialEq, Eq, Structural)]
pub enum Removal {
    /// The endpoint is gone.
    Done,
    /// It is still there: wait `REMOVE_RETRY_MS` and try again.
    Retry,
    /// It is still there after the last try: leave it.
    GiveUp,
}

/// What follows the try number `attempt`, counted from one, that did or did
/// not remove the endpoint.
pub open spec fn removal_step(attempt: u32, removed: bool) -> Removal {
    if removed {
        Removal::Done
    } else if attempt < 5 {
        Removal::Retry
    } else {
        Removal::GiveUp
    }
}

/// What follows a try to remove the control endpoint.
pub fn after_removal_attempt(attempt: u32, removed: bool) -> (r: Removal)
    ensures
        r == removal_step(attempt, removed),
{
    if removed {
        Removal::Done
    } else if attempt < REMOVE_ATTEMPTS {
        Removal::Retry
    } else {
        Removal::GiveUp
    }
}

/// How a player is doing that has, or has not yet, left: `exit` is none
/// while it runs, else its status, where it left one.
pub open spec fn status_of(exit: Option<Option<i32>>) -> PreviewStatus {
    match exit {
        None => PreviewStatus::Running,
        Some(Some(0)) => PreviewStatus::Closed,
        Some(code) => PreviewStatus::Failed(code),
    }
}

/// How a player is doing, by whether and how it has left.
pub fn preview_status(exit: Option<Option<i32>>) -> (r: PreviewStatus)
    ensures
        r == status_of(exit),
{
    match exit {
        None => PreviewStatus::Running,
        Some(Some(0)) => PreviewStatus::Closed,
        Some(code) => PreviewStatus::Failed(code),
    }
}

} // verus!
