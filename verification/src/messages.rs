//! Events crossing from a worker to the observer, and the errors of the
//! repository layer.
//!
//! Progress is carried in hundredths of the fraction the observer displays,
//! so that the core states exact arithmetic about it.

use vstd::prelude::*;

use crate::models::CommitInfo;
use crate::models::LogLevel;
use crate::models::PreviewData;

verus! {

/// One event of an operation, delivered to the observer in order.
#[derive(Clone, Debug)]
pub enum BackgroundMessage {
    Log(String),
    LogTyped(String, LogLevel),
    /// Progress in hundredths: 0 is idle, 100 is complete.
    Progress(u32),
    CommitsLoaded(Vec<CommitInfo>),
    CommitRewritten,
    PreviewReady(PreviewData),
    Error(String),
    Done,
}

/// Whether `m` is a plain log line with the given text.
pub open spec fn is_log(m: BackgroundMessage, text: Seq<char>) -> bool {
    m matches BackgroundMessage::Log(t) && t@ == text
}

/// Whether `m` is an error event with the given text.
pub open spec fn is_error(m: BackgroundMessage, text: Seq<char>) -> bool {
    m matches BackgroundMessage::Error(t) && t@ == text
}

/// Whether `m` reports the given progress, in hundredths.
pub open spec fn is_progress(m: BackgroundMessage, p: u32) -> bool {
    m matches BackgroundMessage::Progress(q) && q == p
}

/// Failure of the repository layer.
#[derive(Clone, Debug)]
pub enum GitError {
    /// The path does not hold a repository that can be opened.
    NotAGitRepository(String),
    /// A read of the object or reference database failed.
    ReadError(String),
}

impl GitError {
    /// The underlying message, for the observer-facing error text.
    pub fn text(&self) -> (r: &String)
        ensures
            r@ == self.text_spec(),
    {
        match self {
            GitError::NotAGitRepository(m) => m,
            GitError::ReadError(m) => m,
        }
    }

    /// The underlying message of the error.
    pub open spec fn text_spec(&self) -> Seq<char> {
        match self {
            GitError::NotAGitRepository(m) => m@,
            GitError::ReadError(m) => m@,
        }
    }
}

} // verus!
