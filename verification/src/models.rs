//! Value types crossing the core boundary: commit records, log entries,
//! preview snapshots.

use vstd::prelude::*;

use crate::gitio;

verus! {

/// Immutable record of one commit, as shown to the observer.
#[derive(Clone, Debug)]
pub struct CommitInfo {
    pub hash: String,
    pub short_hash: String,
    pub message: String,
    pub date: String,
    pub author: String,
}

impl CommitInfo {
    pub fn new(
        hash: String,
        short_hash: String,
        message: String,
        date: String,
        author: String,
    ) -> (r: Self)
        ensures
            r.hash == hash,
            r.short_hash == short_hash,
            r.message == message,
            r.date == date,
            r.author == author,
    {
        Self { hash, short_hash, message, date, author }
    }
}

/// Severity of a log entry.
#[derive(Clone, Debug, PartialEq)]
pub enum LogLevel {
    Info,
    Success,
    Warning,
    Error,
    Debug,
}

impl LogLevel {
    /// The icon shown next to an entry of this level.
    pub fn icon(&self) -> (r: &'static str)
        ensures
            r@ == match self {
                LogLevel::Info => "\u{1F4DD}"@,
                LogLevel::Success => "\u{2705}"@,
                LogLevel::Warning => "\u{26A0}\u{FE0F}"@,
                LogLevel::Error => "\u{274C}"@,
                LogLevel::Debug => "\u{1F50D}"@,
            },
    {
        match self {
            LogLevel::Info => "\u{1F4DD}",
            LogLevel::Success => "\u{2705}",
            LogLevel::Warning => "\u{26A0}\u{FE0F}",
            LogLevel::Error => "\u{274C}",
            LogLevel::Debug => "\u{1F50D}",
        }
    }

    /// The red, green and blue components of the colour an entry of this
    /// level is drawn in.
    pub fn color(&self) -> (r: (u8, u8, u8))
        ensures
            r == match self {
                LogLevel::Info => (150u8, 150u8, 160u8),
                LogLevel::Success => (80u8, 200u8, 120u8),
                LogLevel::Warning => (255u8, 180u8, 50u8),
                LogLevel::Error => (255u8, 100u8, 100u8),
                LogLevel::Debug => (120u8, 120u8, 140u8),
            },
    {
        match self {
            LogLevel::Info => (150, 150, 160),
            LogLevel::Success => (80, 200, 120),
            LogLevel::Warning => (255, 180, 50),
            LogLevel::Error => (255, 100, 100),
            LogLevel::Debug => (120, 120, 140),
        }
    }
}

/// Which log entries the observer chooses to see.
#[derive(PartialEq, Clone, Copy, Debug)]
pub enum LogFilter {
    All,
    Important,
    ErrorsOnly,
}

/// Whether the filter `f` lets an entry of level `l` through.
pub open spec fn filter_shows(f: LogFilter, l: LogLevel) -> bool {
    match f {
        LogFilter::All => true,
        LogFilter::Important => l is Success || l is Warning || l is Error,
        LogFilter::ErrorsOnly => l is Error,
    }
}

impl LogFilter {
    pub fn should_show(&self, level: &LogLevel) -> (r: bool)
        ensures
            r == filter_shows(*self, *level),
    {
        match self {
            LogFilter::All => true,
            LogFilter::Important => matches!(
                level,
                LogLevel::Success | LogLevel::Warning | LogLevel::Error
            ),
            LogFilter::ErrorsOnly => matches!(level, LogLevel::Error),
        }
    }

    pub fn name(&self) -> (r: &'static str)
        ensures
            r@ == match self {
                LogFilter::All => "All"@,
                LogFilter::Important => "Important"@,
                LogFilter::ErrorsOnly => "Errors"@,
            },
    {
        match self {
            LogFilter::All => "All",
            LogFilter::Important => "Important",
            LogFilter::ErrorsOnly => "Errors",
        }
    }
}

/// One line of the observer-facing log.
#[derive(Clone, Debug)]
pub struct LogEntry {
    pub timestamp: String,
    pub message: String,
    pub level: LogLevel,
}

impl LogEntry {
    pub fn new(timestamp: String, message: String, level: LogLevel) -> (r: Self)
        ensures
            r.timestamp == timestamp,
            r.message == message,
            r.level == level,
    {
        Self { timestamp, message, level }
    }

    /// Entry stamped with the current wall-clock time.
    pub fn now(message: String, level: LogLevel) -> (r: Self)
        ensures
            r.message == message,
            r.level == level,
            r.timestamp@.len() == 8,
    {
        let timestamp = gitio::now_hhmmss();
        Self::new(timestamp, message, level)
    }
}

/// Immutable snapshot of a completed rewrite, held until the operator
/// confirms or cancels.
#[derive(Clone, Debug)]
pub struct PreviewData {
    pub commit_hash: String,
    pub old_message: String,
    pub new_message: String,
    pub affected_commits: Vec<String>,
    pub diff_output: String,
}

impl PreviewData {
    pub fn new(
        commit_hash: String,
        old_message: String,
        new_message: String,
        affected_commits: Vec<String>,
        diff_output: String,
    ) -> (r: Self)
        ensures
            r.commit_hash == commit_hash,
            r.old_message == old_message,
            r.new_message == new_message,
            r.affected_commits == affected_commits,
            r.diff_output == diff_output,
    {
        Self { commit_hash, old_message, new_message, affected_commits, diff_output }
    }
}

} // verus!
