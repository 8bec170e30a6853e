use commit_rewriter::models::CommitInfo;
use commit_rewriter::models::LogEntry;
use commit_rewriter::models::LogFilter;
use commit_rewriter::models::LogLevel;
use commit_rewriter::models::PreviewData;

#[test]
fn test_commit_info_creation() {
    let commit = CommitInfo::new(
        "abc123def456".to_string(),
        "abc123de".to_string(),
        "Initial commit".to_string(),
        "2024-01-01 12:00".to_string(),
        "John Doe".to_string(),
    );

    assert_eq!(commit.hash, "abc123def456");
    assert_eq!(commit.short_hash, "abc123de");
    assert_eq!(commit.message, "Initial commit");
    assert_eq!(commit.date, "2024-01-01 12:00");
    assert_eq!(commit.author, "John Doe");
}

#[test]
fn test_log_level_icon() {
    assert_eq!(LogLevel::Info.icon(), "📝");
    assert_eq!(LogLevel::Success.icon(), "✅");
    assert_eq!(LogLevel::Warning.icon(), "⚠️");
    assert_eq!(LogLevel::Error.icon(), "❌");
    assert_eq!(LogLevel::Debug.icon(), "🔍");
}

#[test]
fn test_log_filter_should_show() {
    let filter = LogFilter::Important;
    assert!(!filter.should_show(&LogLevel::Info));
    assert!(filter.should_show(&LogLevel::Success));
    assert!(filter.should_show(&LogLevel::Warning));
    assert!(filter.should_show(&LogLevel::Error));
    assert!(!filter.should_show(&LogLevel::Debug));
}

#[test]
fn test_log_entry_creation() {
    let entry = LogEntry::new(
        "12:00:00".to_string(),
        "Test message".to_string(),
        LogLevel::Info,
    );

    assert_eq!(entry.timestamp, "12:00:00");
    assert_eq!(entry.message, "Test message");
    assert_eq!(entry.level, LogLevel::Info);
}

#[test]
fn test_preview_data_creation() {
    let preview = PreviewData::new(
        "abc123".to_string(),
        "Old message".to_string(),
        "New message".to_string(),
        vec!["refs/heads/main".to_string()],
        "* abc123 New message".to_string(),
    );

    assert_eq!(preview.commit_hash, "abc123");
    assert_eq!(preview.old_message, "Old message");
    assert_eq!(preview.new_message, "New message");
    assert_eq!(preview.affected_commits.len(), 1);
    assert_eq!(preview.diff_output, "* abc123 New message");
}

#[test]
fn test_log_level_color() {
    assert_eq!(LogLevel::Info.color(), (150, 150, 160));
    assert_eq!(LogLevel::Success.color(), (80, 200, 120));
    assert_eq!(LogLevel::Warning.color(), (255, 180, 50));
    assert_eq!(LogLevel::Error.color(), (255, 100, 100));
    assert_eq!(LogLevel::Debug.color(), (120, 120, 140));
}

#[test]
fn test_log_filter_names() {
    assert_eq!(LogFilter::All.name(), "All");
    assert_eq!(LogFilter::Important.name(), "Important");
    assert_eq!(LogFilter::ErrorsOnly.name(), "Errors");
}

#[test]
fn test_log_entry_now_timestamp_shape() {
    let entry = LogEntry::now("hello".to_string(), LogLevel::Debug);
    assert_eq!(entry.message, "hello");
    assert_eq!(entry.level, LogLevel::Debug);
    assert_eq!(entry.timestamp.chars().count(), 8);
}
