//! Why a job fails, and how a worker tells of it.

use crate::app::ProgressMessage;
use crate::subtitle::srt::SrtError;
use crate::text::{push_str, string_of};
use vstd::prelude::*;

verus! {

/// Why a job failed. Each failure carries its message, but a malformed track,
/// which carries what is wrong with it and where.
#[derive(Debug)]
pub enum JobError {
    /// A tool that the job needs is missing.
    ToolNotFound(String),
    /// A tool left with a failure; the message holds what it printed.
    ToolExecutionFailed(String),
    /// A file could not be read or written.
    IoError(String),
    /// A track file could not be read as a track.
    MalformedTrack(SrtError),
    /// The job was asked for something that cannot be done.
    ValidationError(String),
    /// The recognition model could not be fetched.
    ModelFetchError(String),
}

impl JobError {
    /// The message of the failure.
    pub open spec fn text(self) -> Seq<char> {
        match self {
            JobError::ToolNotFound(m) => m@,
            JobError::ToolExecutionFailed(m) => m@,
            JobError::IoError(m) => m@,
            JobError::MalformedTrack(e) => e.text(),
            JobError::ValidationError(m) => m@,
            JobError::ModelFetchError(m) => m@,
        }
    }

    /// The message of the failure.
    pub fn message(&self) -> (r: String)
        ensures
            r@ == self.text(),
    {
        match self {
            JobError::ToolNotFound(m) => m.clone(),
            JobError::ToolExecutionFailed(m) => m.clone(),
            JobError::IoError(m) => m.clone(),
            JobError::MalformedTrack(e) => e.message(),
            JobError::ValidationError(m) => m.clone(),
            JobError::ModelFetchError(m) => m.clone(),
        }
    }
}

/// What a tool that has run makes of the job: it goes on where the tool left
/// with success; otherwise it fails with `what`, a colon, and what the tool
/// printed.
pub fn tool_outcome(what: &str, success: bool, diagnostic: &str) -> (r: Result<(), JobError>)
    ensures
        success ==> r is Ok,
        !success ==> (r matches Err(JobError::ToolExecutionFailed(m)) && m@ == what@ + ": "@
            + diagnostic@),
{
    if success {
        Ok(())
    } else {
        let mut buf: Vec<char> = Vec::new();
        push_str(&mut buf, what);
        push_str(&mut buf, ": ");
        push_str(&mut buf, diagnostic);
        assert(buf@ == what@ + ": "@ + diagnostic@);
        Err(JobError::ToolExecutionFailed(string_of(&buf)))
    }
}

/// The report that ends the reports of a job, however the job went: that it
/// is done, or that it failed, with the message of the failure.
pub fn last_report(result: &Result<(), JobError>) -> (r: ProgressMessage)
    ensures
        match *result {
            Ok(_) => r is Complete,
            Err(e) => r matches ProgressMessage::Error(m) && m@ == e.text(),
        },
{
    match result {
        Ok(_) => ProgressMessage::Complete,
        Err(e) => ProgressMessage::Error(e.message()),
    }
}

} // verus!
