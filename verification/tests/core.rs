use commit_rewriter::driver::PollOutcome;
use commit_rewriter::driver::StepDecision;
use commit_rewriter::driver::apply_message_filter;
use commit_rewriter::driver::filter_branch_args;
use commit_rewriter::driver::git_log_args;
use commit_rewriter::driver::msg_filter_script;
use commit_rewriter::driver::output_line_event;
use commit_rewriter::driver::rewrite_poll_step;
use commit_rewriter::driver::rewrite_start_messages;
use commit_rewriter::driver::spawn_failed_message;
use commit_rewriter::messages::BackgroundMessage;
use commit_rewriter::models::CommitInfo;
use commit_rewriter::shell::escape_single_quotes;
use commit_rewriter::text::first_line;
use commit_rewriter::text::str_eq;
use commit_rewriter::text::strip_prefix_str;
use commit_rewriter::text::take_chars;
use commit_rewriter::text::trim_spaces;
use commit_rewriter::text::usize_to_string;
use commit_rewriter::view::filter_commits;

fn commit(hash: &str, message: &str, author: &str) -> CommitInfo {
    CommitInfo::new(
        hash.to_string(),
        take_chars(hash, 8),
        message.to_string(),
        "2024-01-01 12:00".to_string(),
        author.to_string(),
    )
}

#[test]
fn test_escape_plain_text_unchanged() {
    assert_eq!(escape_single_quotes("fix typo"), "fix typo");
    assert_eq!(escape_single_quotes(""), "");
    assert_eq!(escape_single_quotes("back\\slash\nline"), "back\\slash\nline");
}

#[test]
fn test_escape_single_quotes_rewrites_quotes() {
    assert_eq!(escape_single_quotes("it's"), "it'\\''s");
    assert_eq!(escape_single_quotes("'"), "'\\''");
    assert_eq!(escape_single_quotes("a 'b' c"), "a '\\''b'\\'' c");
}

#[test]
fn test_msg_filter_script_exact() {
    let script = msg_filter_script("abc123", "it's done");
    assert_eq!(
        script,
        "if [ \"$GIT_COMMIT\" = \"abc123\" ]; then echo 'it'\\''s done'; else cat; fi"
    );
}

#[test]
fn test_filter_branch_args_all_branches() {
    let args = filter_branch_args("abc123", "msg", true, None);
    assert_eq!(args.len(), 6);
    assert_eq!(args[0], "filter-branch");
    assert_eq!(args[1], "-f");
    assert_eq!(args[2], "--msg-filter");
    assert_eq!(args[4], "--");
    assert_eq!(args[5], "--all");
}

#[test]
fn test_filter_branch_args_single_branch() {
    let branch = "main".to_string();
    let args = filter_branch_args("abc123", "msg", false, Some(&branch));
    assert_eq!(args[5], "main");
}

#[test]
fn test_filter_branch_args_falls_back_without_branch() {
    // detached head: no branch resolved, the scope widens to all branches
    let args = filter_branch_args("abc123", "msg", false, None);
    assert_eq!(args[5], "--all");
}

#[test]
fn test_git_log_args_exact() {
    let args = git_log_args(10);
    assert_eq!(args, vec!["log", "--oneline", "--graph", "--all", "-10"]);
}

#[test]
fn test_apply_message_filter_rewrites_only_target() {
    let target = apply_message_filter("c2", "c2", "old message", "new message");
    assert_eq!(target, "new message");
    let other = apply_message_filter("c1", "c2", "old message", "new message");
    assert_eq!(other, "old message");
}

#[test]
fn test_rewrite_poll_step_running() {
    let (p, events, decision) = rewrite_poll_step(50, PollOutcome::StillRunning);
    assert_eq!(p, 55);
    assert_eq!(events.len(), 1);
    assert!(matches!(events[0], BackgroundMessage::Progress(55)));
    assert_eq!(decision, StepDecision::KeepPolling);
}

#[test]
fn test_rewrite_poll_step_caps_progress() {
    let (p, _, _) = rewrite_poll_step(88, PollOutcome::StillRunning);
    assert_eq!(p, 90);
    let (p2, _, _) = rewrite_poll_step(90, PollOutcome::StillRunning);
    assert_eq!(p2, 90);
}

#[test]
fn test_rewrite_poll_step_success() {
    let (_, events, decision) = rewrite_poll_step(60, PollOutcome::Exited(true));
    assert_eq!(events.len(), 3);
    assert!(matches!(events[1], BackgroundMessage::Progress(90)));
    match &events[2] {
        BackgroundMessage::Log(text) => {
            assert_eq!(text, "✅ git filter-branch completed successfully")
        }
        other => panic!("unexpected event: {:?}", other),
    }
    assert_eq!(decision, StepDecision::CollectPreview);
}

#[test]
fn test_rewrite_poll_step_failure() {
    let (_, events, decision) = rewrite_poll_step(60, PollOutcome::Exited(false));
    match &events[2] {
        BackgroundMessage::Error(text) => {
            assert_eq!(text, "git filter-branch failed (see logs above)")
        }
        other => panic!("unexpected event: {:?}", other),
    }
    assert_eq!(decision, StepDecision::Abort);
}

#[test]
fn test_rewrite_start_messages_sequence() {
    let events = rewrite_start_messages();
    assert_eq!(events.len(), 6);
    assert!(matches!(&events[0], BackgroundMessage::Log(t) if t == "Searching for commit in repository..."));
    assert!(matches!(events[1], BackgroundMessage::Progress(30)));
    assert!(matches!(&events[3], BackgroundMessage::Log(t) if t == "⚙️ Using git filter-branch..."));
    assert!(matches!(events[5], BackgroundMessage::Progress(50)));
}

#[test]
fn test_spawn_failed_message() {
    match spawn_failed_message("boom") {
        BackgroundMessage::Error(text) => {
            assert_eq!(text, "Failed to start git filter-branch: boom")
        }
        other => panic!("unexpected event: {:?}", other),
    }
}

#[test]
fn test_output_line_event_discards_blank_lines() {
    assert!(output_line_event("").is_none());
    assert!(output_line_event("   \t ").is_none());
    match output_line_event("Rewrite abc (1/3)") {
        Some(BackgroundMessage::Log(text)) => assert_eq!(text, "📝 Rewrite abc (1/3)"),
        other => panic!("unexpected event: {:?}", other),
    }
}

#[test]
fn test_text_utilities() {
    assert_eq!(first_line("first\nsecond\nthird"), "first");
    assert_eq!(first_line("windows\r\nline"), "windows");
    assert_eq!(first_line("single"), "single");
    assert_eq!(trim_spaces("  refs/original/x \n"), "refs/original/x");
    assert_eq!(take_chars("abc123def456", 8), "abc123de");
    assert_eq!(take_chars("abc", 8), "abc");
    assert_eq!(usize_to_string(0), "0");
    assert_eq!(usize_to_string(42), "42");
    assert_eq!(usize_to_string(100500), "100500");
    assert!(str_eq("same", "same"));
    assert!(!str_eq("same", "Same"));
    assert_eq!(
        strip_prefix_str("refs/original/refs/heads/main", "refs/original/"),
        Some("refs/heads/main".to_string())
    );
    assert_eq!(strip_prefix_str("refs/heads/main", "refs/original/"), None);
}

#[test]
fn test_filter_commits_blank_query_keeps_all() {
    let commits = vec![
        commit("aaa1111122222", "Initial commit", "John Doe"),
        commit("bbb3333344444", "Fix bug", "Jane Roe"),
    ];
    let kept = filter_commits(&commits, "   ");
    assert_eq!(kept, vec![0, 1]);
}

#[test]
fn test_filter_commits_is_case_insensitive() {
    let commits = vec![
        commit("aaa1111122222", "Initial commit", "John Doe"),
        commit("bbb3333344444", "Fix parser bug", "Jane Roe"),
        commit("ccc5555566666", "Update docs", "John Doe"),
    ];
    // would fail if lowercasing handed its input back unchanged
    assert_eq!(filter_commits(&commits, "DOE"), vec![0, 2]);
    assert_eq!(filter_commits(&commits, "PARSER"), vec![1]);
    assert_eq!(filter_commits(&commits, "BBB33"), vec![1]);
    assert_eq!(filter_commits(&commits, "nothing-matches"), Vec::<usize>::new());
}
