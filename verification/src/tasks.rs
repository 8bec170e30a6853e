//! Worker units of one operation each: loading a page of commits, rolling
//! back, and finishing a rewrite by gathering its preview.
//!
//! Each unit returns the ordered event sequence the observer receives.
//! The contracts pin the exact shape of that sequence for every outcome:
//! which log lines come in which order, which terminal event closes the
//! epoch, and what the payloads hold.

use vstd::prelude::*;

use crate::gitio;
use crate::messages::BackgroundMessage;
use crate::messages::GitError;
use crate::messages::is_error;
use crate::messages::is_log;
use crate::messages::is_progress;
use crate::models::CommitInfo;
use crate::models::PreviewData;
use crate::refs::get_original_refs;
use crate::refs::listing_ok;
use crate::refs::restore_original_refs;
use crate::repo::GitRepository;
use crate::repo::GitRepositoryImpl;
use crate::repo::RawCommit;
use crate::repo::display_message;
use crate::repo::load_ok;
use crate::repo::opt_view;
use crate::text::dec_digits;
use crate::text::take_chars;
use crate::text::usize_to_string;

verus! {

/// A load that could not open the repository: the optional opening log,
/// then a terminal error and nothing more — not even `Done`, as the epoch
/// never started reading.
pub open spec fn load_open_failed_events(
    r: Seq<BackgroundMessage>,
    reset: bool,
    m: Seq<char>,
) -> bool {
    let base: int = if reset {
        1
    } else {
        0
    };
    &&& r.len() == base + 1
    &&& reset ==> is_log(r[0], "Opening repository..."@)
    &&& is_error(r[base], "Failed to open repository: "@ + m)
}

/// A load whose page read failed: the page is aborted whole, the error is
/// terminal, and the epoch closes with `Done`.
pub open spec fn load_read_failed_events(
    r: Seq<BackgroundMessage>,
    reset: bool,
    m: Seq<char>,
) -> bool {
    let base: int = if reset {
        2
    } else {
        0
    };
    &&& r.len() == base + 2
    &&& reset ==> is_log(r[0], "Opening repository..."@) && is_log(r[1], "Reading commits..."@)
    &&& is_error(r[base], "Error reading commits: "@ + m)
    &&& r[base + 1] is Done
}

/// A successful load: the loaded page is announced, delivered, and the
/// epoch closes with `Done`.
pub open spec fn load_loaded_events(
    r: Seq<BackgroundMessage>,
    reset: bool,
    commits: Seq<CommitInfo>,
    limit: int,
    offset: int,
) -> bool {
    let base: int = if reset {
        2
    } else {
        0
    };
    &&& r.len() == base + 3
    &&& reset ==> is_log(r[0], "Opening repository..."@) && is_log(r[1], "Reading commits..."@)
    &&& is_log(
        r[base],
        "\u{2705} Loaded "@ + dec_digits(commits.len() as int) + (if reset {
            " commits"@
        } else {
            " more commits"@
        }),
    )
    &&& (r[base + 1] matches BackgroundMessage::CommitsLoaded(c) && c@ == commits)
    &&& load_ok(commits, limit, offset)
    &&& r[base + 2] is Done
}

/// Every event sequence a load may produce.
pub open spec fn load_task_events(
    r: Seq<BackgroundMessage>,
    reset: bool,
    limit: int,
    offset: int,
) -> bool {
    ||| exists|m: Seq<char>| load_open_failed_events(r, reset, m)
    ||| exists|m: Seq<char>| load_read_failed_events(r, reset, m)
    ||| exists|commits: Seq<CommitInfo>| load_loaded_events(r, reset, commits, limit, offset)
}

/// Loads one page of history and reports it as events: opening and reading
/// logs when the page replaces the list, the loaded records, and a
/// terminal event.
pub fn load_commits_task(path: &str, limit: usize, offset: usize, reset: bool) -> (r: Vec<
    BackgroundMessage,
>)
    requires
        offset + limit <= usize::MAX,
    ensures
        load_task_events(r@, reset, limit as int, offset as int),
{
    let mut events: Vec<BackgroundMessage> = Vec::new();
    if reset {
        events.push(BackgroundMessage::Log("Opening repository...".to_owned()));
    }
    let repo = match GitRepositoryImpl::open(path) {
        Ok(repo) => repo,
        Err(e) => {
            let mut text = "Failed to open repository: ".to_owned();
            text.append(e.text().as_str());
            events.push(BackgroundMessage::Error(text));
            proof {
                assert(load_open_failed_events(events@, reset, e.text_spec()));
            }
            return events;
        },
    };
    if reset {
        events.push(BackgroundMessage::Log("Reading commits...".to_owned()));
    }
    match repo.load_commits(limit, offset) {
        Ok(commits) => {
            let count = commits.len();
            let mut text = "\u{2705} Loaded ".to_owned();
            let digits = usize_to_string(count);
            text.append(digits.as_str());
            if reset {
                text.append(" commits");
            } else {
                text.append(" more commits");
            }
            events.push(BackgroundMessage::Log(text));
            let ghost commits_view = commits@;
            events.push(BackgroundMessage::CommitsLoaded(commits));
            events.push(BackgroundMessage::Done);
            proof {
                assert(load_loaded_events(
                    events@,
                    reset,
                    commits_view,
                    limit as int,
                    offset as int,
                ));
            }
            events
        },
        Err(e) => {
            let mut text = "Error reading commits: ".to_owned();
            text.append(e.text().as_str());
            events.push(BackgroundMessage::Error(text));
            events.push(BackgroundMessage::Done);
            proof {
                assert(load_read_failed_events(events@, reset, e.text_spec()));
            }
            events
        },
    }
}

/// A rollback that restored `count` references and closed the epoch.
pub open spec fn rollback_ok_events(r: Seq<BackgroundMessage>, count: int) -> bool {
    &&& r.len() == 6
    &&& is_log(r[0], "Restoring original refs..."@)
    &&& is_progress(r[1], 30)
    &&& is_progress(r[2], 70)
    &&& is_log(r[3], "\u{2705} Rollback completed! Restored "@ + dec_digits(count) + " refs"@)
    &&& is_progress(r[4], 100)
    &&& r[5] is Done
    &&& count >= 0
}

/// A rollback that could not open the repository or list the backups.
pub open spec fn rollback_failed_events(r: Seq<BackgroundMessage>, m: Seq<char>) -> bool {
    &&& r.len() == 5
    &&& is_log(r[0], "Restoring original refs..."@)
    &&& is_progress(r[1], 30)
    &&& is_error(r[2], "Rollback error: "@ + m)
    &&& is_progress(r[3], 100)
    &&& r[4] is Done
}

/// Every event sequence a rollback may produce.
pub open spec fn rollback_task_events(r: Seq<BackgroundMessage>) -> bool {
    ||| exists|count: int| rollback_ok_events(r, count)
    ||| exists|m: Seq<char>| rollback_failed_events(r, m)
}

/// Rolls the repository back and reports the count of restored references
/// as events.  Restoring twice never errors: with nothing left the count
/// is zero.
pub fn rollback_changes_task(path: &str) -> (r: Vec<BackgroundMessage>)
    ensures
        rollback_task_events(r@),
{
    let mut events: Vec<BackgroundMessage> = Vec::new();
    events.push(BackgroundMessage::Log("Restoring original refs...".to_owned()));
    events.push(BackgroundMessage::Progress(30));
    match restore_original_refs(path) {
        Ok(count) => {
            events.push(BackgroundMessage::Progress(70));
            let mut text = "\u{2705} Rollback completed! Restored ".to_owned();
            let digits = usize_to_string(count);
            text.append(digits.as_str());
            text.append(" refs");
            events.push(BackgroundMessage::Log(text));
            events.push(BackgroundMessage::Progress(100));
            events.push(BackgroundMessage::Done);
            proof {
                assert(rollback_ok_events(events@, count as int));
            }
            events
        },
        Err(e) => {
            let mut text = "Rollback error: ".to_owned();
            text.append(e.text().as_str());
            events.push(BackgroundMessage::Error(text));
            events.push(BackgroundMessage::Progress(100));
            events.push(BackgroundMessage::Done);
            proof {
                assert(rollback_failed_events(events@, e.text_spec()));
            }
            events
        },
    }
}

/// What the preview of a finished rewrite holds: the target id, the first
/// line of the old message as read back, the replacement, the backup
/// listing (empty when listing failed), and the graph-log excerpt or its
/// placeholder.
pub open spec fn preview_matches(
    p: PreviewData,
    hash: Seq<char>,
    raw: RawCommit,
    new_message: Seq<char>,
    refs: Seq<String>,
    log_output: Option<String>,
) -> bool {
    &&& p.commit_hash@ == hash
    &&& p.old_message@ == display_message(opt_view(raw.message))
    &&& p.new_message@ == new_message
    &&& p.affected_commits@ == refs
    &&& (listing_ok(refs) || refs.len() == 0)
    &&& p.diff_output@ == (match log_output {
        Some(l) => l@,
        None => "Failed to get diff"@,
    })
}

/// A preview gathering that failed before a snapshot was built: the
/// collecting log, then a terminal error.
pub open spec fn preview_failed_events(
    r: Seq<BackgroundMessage>,
    prefix: Seq<char>,
    m: Seq<char>,
) -> bool {
    &&& r.len() == 2
    &&& is_log(r[0], "Collecting preview data..."@)
    &&& is_error(r[1], prefix + m)
}

/// Whether `m` delivers a preview snapshot with the given contents.
pub open spec fn delivers_preview(
    m: BackgroundMessage,
    hash: Seq<char>,
    raw: RawCommit,
    new_message: Seq<char>,
    refs: Seq<String>,
    log_output: Option<String>,
) -> bool {
    m matches BackgroundMessage::PreviewReady(p) && preview_matches(
        p,
        hash,
        raw,
        new_message,
        refs,
        log_output,
    )
}

/// A successful preview: announced, delivered, and the epoch closed.
pub open spec fn preview_ready_events(
    r: Seq<BackgroundMessage>,
    hash: Seq<char>,
    new_message: Seq<char>,
    log_output: Option<String>,
) -> bool {
    exists|raw: RawCommit, refs: Seq<String>|
        {
            &&& r.len() == 5
            &&& is_log(r[0], "Collecting preview data..."@)
            &&& is_log(
                r[1],
                "\u{2705} Commit "@ + hash.take(if hash.len() < 8 {
                    hash.len() as int
                } else {
                    8
                }) + " successfully rewritten! Showing preview..."@,
            )
            &&& is_progress(r[2], 100)
            &&& #[trigger] delivers_preview(r[3], hash, raw, new_message, refs, log_output)
            &&& r[4] is Done
        }
}

/// Every event sequence the preview gathering may produce.
pub open spec fn finish_rewrite_events(
    r: Seq<BackgroundMessage>,
    hash: Seq<char>,
    new_message: Seq<char>,
    log_output: Option<String>,
) -> bool {
    ||| exists|m: Seq<char>| preview_failed_events(r, "Failed to open repository: "@, m)
    ||| exists|m: Seq<char>| preview_failed_events(r, "Invalid hash format: "@, m)
    ||| exists|m: Seq<char>| preview_failed_events(r, "Commit not found: "@, m)
    ||| preview_ready_events(r, hash, new_message, log_output)
}

/// After the rewrite subprocess exits successfully: reads the target's
/// message back, lists the backup references (an empty list is tolerated,
/// not an error), takes the graph-log excerpt the caller gathered (or its
/// placeholder), and bundles the immutable preview snapshot.
pub fn finish_rewrite(
    path: &str,
    commit_hash: &str,
    new_message: String,
    log_output: Option<String>,
) -> (r: Vec<BackgroundMessage>)
    ensures
        finish_rewrite_events(r@, commit_hash@, new_message@, log_output),
{
    let ghost new_message_view = new_message@;
    let ghost log_given = log_output;
    let mut events: Vec<BackgroundMessage> = Vec::new();
    events.push(BackgroundMessage::Log("Collecting preview data...".to_owned()));
    let repo = match GitRepositoryImpl::open(path) {
        Ok(repo) => repo,
        Err(e) => {
            let mut text = "Failed to open repository: ".to_owned();
            text.append(e.text().as_str());
            events.push(BackgroundMessage::Error(text));
            proof {
                assert(preview_failed_events(events@, "Failed to open repository: "@, e.text_spec()));
            }
            return events;
        },
    };
    match gitio::parse_oid(commit_hash) {
        Ok(_) => {},
        Err(e) => {
            let msg = gitio::error_message(&e);
            let ghost msg_view = msg@;
            let mut text = "Invalid hash format: ".to_owned();
            text.append(msg.as_str());
            events.push(BackgroundMessage::Error(text));
            proof {
                assert(preview_failed_events(events@, "Invalid hash format: "@, msg_view));
            }
            return events;
        },
    }
    let raw = match gitio::read_commit(repo.raw(), commit_hash) {
        Ok(raw) => raw,
        Err(e) => {
            let msg = gitio::error_message(&e);
            let ghost msg_view = msg@;
            let mut text = "Commit not found: ".to_owned();
            text.append(msg.as_str());
            events.push(BackgroundMessage::Error(text));
            proof {
                assert(preview_failed_events(events@, "Commit not found: "@, msg_view));
            }
            return events;
        },
    };
    let ghost raw_ghost = raw;
    let old_message = match &raw.message {
        Some(m) => if m.as_str().is_empty() {
            "(no message)".to_owned()
        } else {
            crate::text::first_line(m.as_str())
        },
        None => "(no message)".to_owned(),
    };
    let affected_commits = match get_original_refs(path) {
        Ok(refs) => refs,
        Err(_) => Vec::new(),
    };
    let ghost affected_view = affected_commits@;
    let diff_output = match log_output {
        Some(l) => l,
        None => "Failed to get diff".to_owned(),
    };
    let preview = PreviewData::new(
        commit_hash.to_owned(),
        old_message,
        new_message,
        affected_commits,
        diff_output,
    );
    let mut text = "\u{2705} Commit ".to_owned();
    let short = take_chars(commit_hash, 8);
    text.append(short.as_str());
    text.append(" successfully rewritten! Showing preview...");
    events.push(BackgroundMessage::Log(text));
    events.push(BackgroundMessage::Progress(100));
    let ghost preview_ghost = preview;
    events.push(BackgroundMessage::PreviewReady(preview));
    events.push(BackgroundMessage::Done);
    proof {
        assert(preview_matches(
            preview_ghost,
            commit_hash@,
            raw_ghost,
            new_message_view,
            affected_view,
            log_given,
        ));
        assert(delivers_preview(
            events@[3],
            commit_hash@,
            raw_ghost,
            new_message_view,
            affected_view,
            log_given,
        ));
        assert(preview_ready_events(events@, commit_hash@, new_message_view, log_given));
    }
    events
}

/// The synthetic acknowledgment events of a confirmed preview: the epoch
/// closes as accepted, and the `CommitRewritten` event schedules the
/// follow-up reload.
pub fn confirm_messages() -> (r: Vec<BackgroundMessage>)
    ensures
        r@.len() == 4,
        is_log(r@[0], "Cleaning up temporary refs..."@),
        is_log(r@[1], "\u{2705} Changes confirmed!"@),
        r@[2] is CommitRewritten,
        r@[3] is Done,
{
    let mut events: Vec<BackgroundMessage> = Vec::new();
    events.push(BackgroundMessage::Log("Cleaning up temporary refs...".to_owned()));
    events.push(BackgroundMessage::Log("\u{2705} Changes confirmed!".to_owned()));
    events.push(BackgroundMessage::CommitRewritten);
    events.push(BackgroundMessage::Done);
    events
}

} // verus!
