//! The rewrite subprocess driver's verified half: the arguments handed to
//! `git filter-branch`, the generated message-filter script, the filter
//! rule itself, and the per-tick stepping of a running rewrite.
//!
//! Spawning the subprocess, draining its pipes and sleeping between polls
//! are outside work; the caller feeds each observation back into
//! [`rewrite_poll_step`] and forwards the events it returns.

use vstd::prelude::*;

use crate::messages::BackgroundMessage;
use crate::messages::is_error;
use crate::messages::is_log;
use crate::messages::is_progress;
use crate::shell::escape_single_quotes;
use crate::shell::msg_filter_script_of;
use crate::text::dec_digits;
use crate::text::str_eq;
use crate::text::trim_of;
use crate::text::trim_spaces;
use crate::text::usize_to_string;

verus! {

/// The message-filter rule: the target commit receives the replacement
/// message, every other commit keeps its own.
pub open spec fn filtered_message(
    commit_id: Seq<char>,
    target_id: Seq<char>,
    original: Seq<char>,
    replacement: Seq<char>,
) -> Seq<char> {
    if commit_id == target_id {
        replacement
    } else {
        original
    }
}

/// The filter rule applied to one commit.
pub fn apply_message_filter(
    commit_id: &str,
    target_id: &str,
    original: &str,
    replacement: &str,
) -> (r: String)
    ensures
        r@ == filtered_message(commit_id@, target_id@, original@, replacement@),
{
    if str_eq(commit_id, target_id) {
        replacement.to_owned()
    } else {
        original.to_owned()
    }
}

/// A history rewritten by the filter rule: identifiers are kept, the
/// target's message is replaced, all others pass through.
pub open spec fn rewrite_history(
    h: Seq<(Seq<char>, Seq<char>)>,
    target_id: Seq<char>,
    replacement: Seq<char>,
) -> Seq<(Seq<char>, Seq<char>)> {
    h.map(
        |i: int, c: (Seq<char>, Seq<char>)| (c.0, filtered_message(c.0, target_id, c.1, replacement)),
    )
}

/// Law — exactly one rewrite: in the rewritten history every commit keeps
/// its identifier, each commit whose identifier is the target carries the
/// replacement message, and every other message is identical to what it
/// was before.
pub proof fn lemma_exactly_one_rewrite(
    h: Seq<(Seq<char>, Seq<char>)>,
    target_id: Seq<char>,
    replacement: Seq<char>,
)
    ensures
        rewrite_history(h, target_id, replacement).len() == h.len(),
        forall|i: int|
            0 <= i < h.len() ==> (#[trigger] rewrite_history(h, target_id, replacement)[i]).0
                == h[i].0,
        forall|i: int|
            0 <= i < h.len() && h[i].0 == target_id ==> (#[trigger] rewrite_history(
                h,
                target_id,
                replacement,
            )[i]).1 == replacement,
        forall|i: int|
            0 <= i < h.len() && h[i].0 != target_id ==> (#[trigger] rewrite_history(
                h,
                target_id,
                replacement,
            )[i]).1 == h[i].1,
{
}

/// Builds the shell expression handed to `--msg-filter`: it echoes the
/// quoted replacement for the target commit and passes every other message
/// through `cat`.
pub fn msg_filter_script(commit_hash: &str, new_message: &str) -> (r: String)
    ensures
        r@ == msg_filter_script_of(commit_hash@, new_message@),
{
    let mut s = "if [ \"$GIT_COMMIT\" = \"".to_owned();
    s.append(commit_hash);
    s.append("\" ]; then echo '");
    let esc = escape_single_quotes(new_message);
    s.append(esc.as_str());
    s.append("'; else cat; fi");
    proof {
        reveal_strlit("\" ]; then echo '");
        reveal_strlit("\" ]; then echo ");
        reveal_strlit("'; else cat; fi");
        reveal_strlit("; else cat; fi");
        assert("\" ]; then echo '"@ =~= "\" ]; then echo "@ + seq!['\'']);
        assert("'; else cat; fi"@ =~= seq!['\''] + "; else cat; fi"@);
        assert(s@ =~= msg_filter_script_of(commit_hash@, new_message@));
    }
    s
}

/// The command-line arguments of the rewrite subprocess.  The scope falls
/// back to every branch when no branch name is at hand, so a detached head
/// never makes the rewrite silently do nothing.
pub fn filter_branch_args(
    commit_hash: &str,
    new_message: &str,
    modify_all_branches: bool,
    branch_name: Option<&String>,
) -> (r: Vec<String>)
    ensures
        r@.len() == 6,
        r@[0]@ == "filter-branch"@,
        r@[1]@ == "-f"@,
        r@[2]@ == "--msg-filter"@,
        r@[3]@ == msg_filter_script_of(commit_hash@, new_message@),
        r@[4]@ == "--"@,
        r@[5]@ == (if modify_all_branches {
            "--all"@
        } else {
            match branch_name {
                Some(b) => b@,
                None => "--all"@,
            }
        }),
{
    let mut args: Vec<String> = Vec::new();
    args.push("filter-branch".to_owned());
    args.push("-f".to_owned());
    args.push("--msg-filter".to_owned());
    args.push(msg_filter_script(commit_hash, new_message));
    args.push("--".to_owned());
    if modify_all_branches {
        args.push("--all".to_owned());
    } else {
        match branch_name {
            Some(branch) => args.push(branch.clone()),
            None => args.push("--all".to_owned()),
        }
    }
    args
}

/// The command-line arguments of the graph-log excerpt: the last `lines`
/// entries across all references, one line each.
pub fn git_log_args(lines: usize) -> (r: Vec<String>)
    ensures
        r@.len() == 5,
        r@[0]@ == "log"@,
        r@[1]@ == "--oneline"@,
        r@[2]@ == "--graph"@,
        r@[3]@ == "--all"@,
        r@[4]@ == seq!['-'] + dec_digits(lines as int),
{
    let mut args: Vec<String> = Vec::new();
    args.push("log".to_owned());
    args.push("--oneline".to_owned());
    args.push("--graph".to_owned());
    args.push("--all".to_owned());
    let mut count = "-".to_owned();
    let digits = usize_to_string(lines);
    count.append(digits.as_str());
    proof {
        reveal_strlit("-");
        assert("-"@ =~= seq!['-']);
    }
    args.push(count);
    args
}

/// How the driver goes on after one poll of the subprocess.
#[derive(Clone, Copy, Debug, PartialEq)]
pub enum StepDecision {
    /// The subprocess is still running: sleep one interval and poll again.
    KeepPolling,
    /// The subprocess exited successfully: gather the preview.
    CollectPreview,
    /// The operation failed; a terminal error event has been emitted.
    Abort,
}

/// What one poll of the subprocess observed.
#[derive(Debug)]
pub enum PollOutcome {
    StillRunning,
    /// The subprocess exited; the payload tells whether its status was
    /// success.
    Exited(bool),
    /// Polling itself failed, with the reported text.
    PollError(String),
}

/// One tick of the completion poll: advances the synthetic progress by five
/// hundredths, capped at ninety until postprocessing finishes, and turns
/// the observation into the events of this tick.
pub fn rewrite_poll_step(progress: u32, outcome: PollOutcome) -> (r: (
    u32,
    Vec<BackgroundMessage>,
    StepDecision,
))
    requires
        progress <= 100,
    ensures
        r.0 == (if progress + 5 > 90 {
            90u32
        } else {
            (progress + 5) as u32
        }),
        r.0 >= progress || progress > 90,
        r.1@.len() >= 1 && is_progress(r.1@[0], r.0),
        match outcome {
            PollOutcome::StillRunning => r.1@.len() == 1 && r.2 is KeepPolling,
            PollOutcome::Exited(success) => {
                &&& r.1@.len() == 3
                &&& is_progress(r.1@[1], 90)
                &&& (if success {
                    is_log(r.1@[2], "\u{2705} git filter-branch completed successfully"@)
                        && r.2 is CollectPreview
                } else {
                    is_error(r.1@[2], "git filter-branch failed (see logs above)"@) && r.2 is Abort
                })
            },
            PollOutcome::PollError(e) => r.1@.len() == 2 && is_error(
                r.1@[1],
                "Error checking status: "@ + e@,
            ) && r.2 is Abort,
        },
{
    let next: u32 = if progress + 5 > 90 {
        90
    } else {
        progress + 5
    };
    let mut events: Vec<BackgroundMessage> = Vec::new();
    events.push(BackgroundMessage::Progress(next));
    match outcome {
        PollOutcome::StillRunning => (next, events, StepDecision::KeepPolling),
        PollOutcome::Exited(success) => {
            events.push(BackgroundMessage::Progress(90));
            if success {
                events.push(
                    BackgroundMessage::Log(
                        "\u{2705} git filter-branch completed successfully".to_owned(),
                    ),
                );
                (next, events, StepDecision::CollectPreview)
            } else {
                events.push(
                    BackgroundMessage::Error(
                        "git filter-branch failed (see logs above)".to_owned(),
                    ),
                );
                (next, events, StepDecision::Abort)
            }
        },
        PollOutcome::PollError(e) => {
            let mut text = "Error checking status: ".to_owned();
            text.append(e.as_str());
            events.push(BackgroundMessage::Error(text));
            (next, events, StepDecision::Abort)
        },
    }
}

/// The fixed events a rewrite emits before the subprocess is spawned.
pub fn rewrite_start_messages() -> (r: Vec<BackgroundMessage>)
    ensures
        r@.len() == 6,
        is_log(r@[0], "Searching for commit in repository..."@),
        is_progress(r@[1], 30),
        is_log(r@[2], "Preparing to rewrite history..."@),
        is_log(r@[3], "\u{2699}\u{FE0F} Using git filter-branch..."@),
        is_log(r@[4], "\u{23F3} This may take a while..."@),
        is_progress(r@[5], 50),
{
    let mut events: Vec<BackgroundMessage> = Vec::new();
    events.push(BackgroundMessage::Log("Searching for commit in repository...".to_owned()));
    events.push(BackgroundMessage::Progress(30));
    events.push(BackgroundMessage::Log("Preparing to rewrite history...".to_owned()));
    events.push(BackgroundMessage::Log("\u{2699}\u{FE0F} Using git filter-branch...".to_owned()));
    events.push(BackgroundMessage::Log("\u{23F3} This may take a while...".to_owned()));
    events.push(BackgroundMessage::Progress(50));
    events
}

/// The terminal event when the rewrite subprocess cannot be started.
pub fn spawn_failed_message(err: &str) -> (r: BackgroundMessage)
    ensures
        is_error(r, "Failed to start git filter-branch: "@ + err@),
{
    let mut text = "Failed to start git filter-branch: ".to_owned();
    text.append(err);
    BackgroundMessage::Error(text)
}

/// A non-blank output line of the subprocess becomes a tagged log event;
/// blank lines are discarded.
pub fn output_line_event(line: &str) -> (r: Option<BackgroundMessage>)
    ensures
        match r {
            Some(m) => trim_of(line@).len() != 0 && is_log(m, "\u{1F4DD} "@ + line@),
            None => trim_of(line@).len() == 0,
        },
{
    let trimmed = trim_spaces(line);
    if trimmed.as_str().is_empty() {
        None
    } else {
        let mut text = "\u{1F4DD} ".to_owned();
        text.append(line);
        Some(BackgroundMessage::Log(text))
    }
}

} // verus!
