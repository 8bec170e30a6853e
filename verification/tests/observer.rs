use commit_rewriter::messages::BackgroundMessage;
use commit_rewriter::models::CommitInfo;
use commit_rewriter::models::LogLevel;
use commit_rewriter::models::PreviewData;
use commit_rewriter::state::RewriterState;
use commit_rewriter::tasks::confirm_messages;

fn commit(hash: &str, message: &str) -> CommitInfo {
    CommitInfo::new(
        hash.to_string(),
        hash.chars().take(8).collect(),
        message.to_string(),
        "2024-01-01 12:00".to_string(),
        "John Doe".to_string(),
    )
}

#[test]
fn test_new_state_is_idle() {
    let state = RewriterState::new();
    assert!(state.repo_path.is_none());
    assert!(state.modify_all_branches);
    assert_eq!(state.commits_limit, 50);
    assert!(!state.is_processing);
    assert!(!state.loading_more);
    assert!(state.preview_data.is_none());
}

#[test]
fn test_add_log_records_message_and_level() {
    let mut state = RewriterState::new();
    state.add_log("hello there");
    state.add_log_typed("warned", LogLevel::Warning);
    assert_eq!(state.logs.len(), 2);
    assert_eq!(state.logs[0].message, "hello there");
    assert_eq!(state.logs[0].level, LogLevel::Info);
    assert_eq!(state.logs[1].message, "warned");
    assert_eq!(state.logs[1].level, LogLevel::Warning);
}

#[test]
fn test_process_progress_and_done() {
    let mut state = RewriterState::new();
    state.is_processing = true;
    state.show_progress = true;
    let (repaint, rewritten) = state.process_background_messages(vec![
        BackgroundMessage::Progress(100),
        BackgroundMessage::Done,
    ]);
    assert!(repaint);
    assert!(!rewritten);
    assert_eq!(state.progress, 100);
    assert!(!state.is_processing);
    // progress reached the end, so the bar is hidden again
    assert!(!state.show_progress);
}

#[test]
fn test_process_error_ends_processing() {
    let mut state = RewriterState::new();
    state.is_processing = true;
    state.loading_more = true;
    state.show_progress = true;
    let (repaint, rewritten) =
        state.process_background_messages(vec![BackgroundMessage::Error("boom".to_string())]);
    assert!(repaint);
    assert!(!rewritten);
    assert!(!state.is_processing);
    assert!(!state.loading_more);
    assert!(!state.show_progress);
    assert_eq!(state.logs.last().unwrap().message, "ERROR: boom");
    assert_eq!(state.logs.last().unwrap().level, LogLevel::Error);
}

#[test]
fn test_process_commits_loaded_replaces_list() {
    let mut state = RewriterState::new();
    let batch = vec![commit("aaa111", "one"), commit("bbb222", "two")];
    let (_, _) =
        state.process_background_messages(vec![BackgroundMessage::CommitsLoaded(batch)]);
    assert_eq!(state.commits.len(), 2);
    assert_eq!(state.commits_loaded, 2);
    assert_eq!(state.commits_limit, 2);
    assert_eq!(state.filtered_count, 2);
}

#[test]
fn test_process_commits_loaded_appends_when_loading_more() {
    let mut state = RewriterState::new();
    state.process_background_messages(vec![BackgroundMessage::CommitsLoaded(vec![commit(
        "aaa111", "one",
    )])]);
    state.loading_more = true;
    state.process_background_messages(vec![BackgroundMessage::CommitsLoaded(vec![commit(
        "bbb222", "two",
    )])]);
    assert_eq!(state.commits.len(), 2);
    assert_eq!(state.commits[0].message, "one");
    assert_eq!(state.commits[1].message, "two");
    assert!(!state.loading_more);
    assert_eq!(state.commits_loaded, 2);
}

#[test]
fn test_process_preview_ready_opens_modal() {
    let mut state = RewriterState::new();
    let preview = PreviewData::new(
        "abc".to_string(),
        "old".to_string(),
        "new".to_string(),
        Vec::new(),
        "log".to_string(),
    );
    let (_, _) =
        state.process_background_messages(vec![BackgroundMessage::PreviewReady(preview)]);
    assert!(state.show_preview_modal);
    assert_eq!(state.preview_data.as_ref().unwrap().new_message, "new");
}

#[test]
fn test_commit_rewritten_triggers_reload_signal() {
    let mut state = RewriterState::new();
    let (repaint, rewritten) = state.process_background_messages(confirm_messages());
    assert!(repaint);
    assert!(rewritten);
    assert_eq!(state.logs.last().unwrap().message, "✅ Changes confirmed!");
}

#[test]
fn test_dispatch_requires_repository() {
    let mut state = RewriterState::new();
    assert!(state.load_commits_async().is_none());
    assert_eq!(
        state.logs.last().unwrap().message,
        "❌ Repository not selected"
    );
    assert!(state
        .rewrite_commit_async("abc".to_string(), "msg".to_string())
        .is_none());
    assert!(state.rollback_changes_async().is_none());
}

#[test]
fn test_dispatch_load_marks_processing() {
    let mut state = RewriterState::new();
    state.repo_path = Some("some/repo".to_string());
    let req = state.load_commits_async().unwrap();
    assert_eq!(req.path, "some/repo");
    assert_eq!(req.limit, 50);
    assert_eq!(req.offset, 0);
    assert!(req.reset);
    assert!(state.is_processing);
}

#[test]
fn test_dispatch_load_more_is_gated() {
    let mut state = RewriterState::new();
    state.repo_path = Some("some/repo".to_string());
    state.commits_loaded = 50;
    state.is_processing = true;
    assert!(state.load_more_commits_async().is_none());
    state.is_processing = false;
    let req = state.load_more_commits_async().unwrap();
    assert_eq!(req.offset, 50);
    assert_eq!(req.limit, 50);
    assert!(!req.reset);
    assert!(state.loading_more);
    // a second "load more" while one is in flight is refused
    assert!(state.load_more_commits_async().is_none());
}

#[test]
fn test_dispatch_rollback_sets_progress() {
    let mut state = RewriterState::new();
    state.repo_path = Some("some/repo".to_string());
    let path = state.rollback_changes_async().unwrap();
    assert_eq!(path, "some/repo");
    assert!(state.is_processing);
    assert!(state.show_progress);
    assert_eq!(state.progress, 10);
    assert_eq!(state.logs.last().unwrap().message, "🔄 Rolling back changes...");
}

#[test]
fn test_dispatch_rewrite_announces_scope() {
    let mut state = RewriterState::new();
    state.repo_path = Some("target/not_a_repo_here".to_string());
    state.modify_all_branches = true;
    let req = state
        .rewrite_commit_async("abc123def4567890".to_string(), "fix typo".to_string())
        .unwrap();
    assert_eq!(req.path, "target/not_a_repo_here");
    assert_eq!(req.commit_hash, "abc123def4567890");
    assert_eq!(req.new_message, "fix typo");
    assert!(req.modify_all_branches);
    assert!(state.is_processing);
    assert!(state.show_progress);
    assert_eq!(state.progress, 20);
    let n = state.logs.len();
    assert_eq!(state.logs[n - 2].message, "Starting commit rewrite abc123de...");
    assert_eq!(
        state.logs[n - 1].message,
        "⚠️ Changes will be applied to ALL branches"
    );
}

#[test]
fn test_confirm_preview_closes_modal() {
    let mut state = RewriterState::new();
    state.repo_path = Some("some/repo".to_string());
    state.show_preview_modal = true;
    state.preview_data = Some(PreviewData::new(
        "abc".to_string(),
        "old".to_string(),
        "new".to_string(),
        Vec::new(),
        "log".to_string(),
    ));
    assert!(state.confirm_preview());
    assert!(!state.show_preview_modal);
    assert!(state.preview_data.is_none());

    state.repo_path = None;
    assert!(!state.confirm_preview());
}
