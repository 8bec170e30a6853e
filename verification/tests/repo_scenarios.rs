use commit_rewriter::messages::BackgroundMessage;
use commit_rewriter::messages::GitError;
use commit_rewriter::refs::get_original_refs;
use commit_rewriter::refs::rollback_changes;
use commit_rewriter::repo::GitRepository;
use commit_rewriter::repo::GitRepositoryImpl;
use commit_rewriter::repo::get_current_branch;
use commit_rewriter::tasks::finish_rewrite;
use commit_rewriter::tasks::load_commits_task;
use commit_rewriter::tasks::rollback_changes_task;

fn fresh_path(name: &str) -> String {
    let nanos = std::time::SystemTime::now()
        .duration_since(std::time::UNIX_EPOCH)
        .unwrap()
        .as_nanos();
    format!("/tmp/commit_rewriter_it_{}_{}", name, nanos)
}

fn init_repo(name: &str) -> (git2::Repository, String) {
    let path = fresh_path(name);
    let repo = git2::Repository::init(&path).unwrap();
    (repo, path)
}

fn add_commit(repo: &git2::Repository, message: &str, secs: i64) -> git2::Oid {
    let sig = git2::Signature::new("John Doe", "john@example.com", &git2::Time::new(secs, 0))
        .unwrap();
    let tree_id = repo.treebuilder(None).unwrap().write().unwrap();
    let tree = repo.find_tree(tree_id).unwrap();
    match repo.head() {
        Ok(head) => {
            let parent = head.peel_to_commit().unwrap();
            repo.commit(Some("HEAD"), &sig, &sig, message, &tree, &[&parent])
                .unwrap()
        }
        Err(_) => repo
            .commit(Some("HEAD"), &sig, &sig, message, &tree, &[])
            .unwrap(),
    }
}

#[test]
fn test_get_current_branch() {
    let _ = get_current_branch(".");
}

#[test]
fn test_is_valid_repo() {
    let _ = GitRepositoryImpl::is_valid_repo(".");
}

#[test]
fn test_open_missing_repository_fails() {
    assert!(!GitRepositoryImpl::is_valid_repo("target/this_is_no_repository_at_all"));
    assert!(matches!(
        GitRepositoryImpl::open("target/this_is_no_repository_at_all"),
        Err(GitError::NotAGitRepository(_))
    ));
}

#[test]
fn test_load_commits_of_unborn_head_is_read_error() {
    // a fresh repository has no commit for the head to resolve to
    let (_repo, path) = init_repo("unborn");
    let reader = GitRepositoryImpl::open(&path).unwrap();
    assert!(matches!(reader.load_commits(10, 0), Err(GitError::ReadError(_))));
}

#[test]
fn test_load_commits_pagination() {
    let (repo, path) = init_repo("pagination");
    for i in 0..5i64 {
        add_commit(&repo, &format!("commit number {}", i), 1704110400 + i * 60);
    }
    let reader = GitRepositoryImpl::open(&path).unwrap();

    let all = reader.load_commits(5, 0).unwrap();
    assert_eq!(all.len(), 5);
    // newest first
    assert_eq!(all[0].message, "commit number 4");
    assert_eq!(all[4].message, "commit number 0");

    // min(L, max(0, N - O)) records for every window
    assert_eq!(reader.load_commits(2, 0).unwrap().len(), 2);
    assert_eq!(reader.load_commits(2, 4).unwrap().len(), 1);
    assert_eq!(reader.load_commits(2, 5).unwrap().len(), 0);
    assert_eq!(reader.load_commits(10, 0).unwrap().len(), 5);

    // concatenating successive pages gives the single big page
    let mut paged: Vec<String> = Vec::new();
    for k in 0..3usize {
        for c in reader.load_commits(2, 2 * k).unwrap() {
            paged.push(c.hash.clone());
        }
    }
    let whole: Vec<String> = all.iter().map(|c| c.hash.clone()).collect();
    assert_eq!(paged, whole);
}

#[test]
fn test_load_commits_record_fields() {
    let (repo, path) = init_repo("record_fields");
    let oid = add_commit(&repo, "Subject line\n\nBody text", 1704110400);
    let reader = GitRepositoryImpl::open(&path).unwrap();
    let commits = reader.load_commits(10, 0).unwrap();
    assert_eq!(commits.len(), 1);
    let c = &commits[0];
    assert_eq!(c.hash, oid.to_string());
    assert_eq!(c.short_hash, oid.to_string().chars().take(8).collect::<String>());
    assert_eq!(c.message, "Subject line");
    assert_eq!(c.date, "2024-01-01 12:00");
    assert_eq!(c.author, "John Doe");
}

#[test]
fn test_current_branch_of_fresh_repo() {
    let (repo, path) = init_repo("branch_name");
    add_commit(&repo, "first", 1704110400);
    let name = get_current_branch(&path).unwrap();
    let head = repo.head().unwrap();
    assert_eq!(Some(name.as_str()), head.shorthand().ok());
}

#[test]
fn test_rollback_restores_and_is_idempotent() {
    let (repo, path) = init_repo("rollback");
    let c1 = add_commit(&repo, "first", 1704110400);
    let c2 = add_commit(&repo, "second", 1704110460);
    let branch_ref = repo.head().unwrap().name().unwrap().to_string();
    assert_eq!(repo.refname_to_id(&branch_ref).unwrap(), c2);

    // simulate the backup the rewrite tool leaves behind
    let backup_name = format!("refs/original/{}", branch_ref);
    repo.reference(&backup_name, c1, true, "backup").unwrap();

    let listed = get_original_refs(&path).unwrap();
    assert_eq!(listed, vec![backup_name.clone()]);

    // first rollback restores the branch to the pre-rewrite target
    assert_eq!(rollback_changes(&path).unwrap(), 1);
    assert_eq!(repo.refname_to_id(&branch_ref).unwrap(), c1);
    assert!(repo.find_reference(&backup_name).is_err());

    // the second rollback has nothing left: zero, not an error
    assert_eq!(rollback_changes(&path).unwrap(), 0);
    assert_eq!(repo.refname_to_id(&branch_ref).unwrap(), c1);
}

#[test]
fn test_rollback_task_event_sequence() {
    let (repo, path) = init_repo("rollback_events");
    add_commit(&repo, "only", 1704110400);
    let events = rollback_changes_task(&path);
    assert_eq!(events.len(), 6);
    assert!(matches!(&events[0], BackgroundMessage::Log(t) if t == "Restoring original refs..."));
    assert!(matches!(events[1], BackgroundMessage::Progress(30)));
    assert!(matches!(events[2], BackgroundMessage::Progress(70)));
    assert!(matches!(&events[3], BackgroundMessage::Log(t) if t == "✅ Rollback completed! Restored 0 refs"));
    assert!(matches!(events[4], BackgroundMessage::Progress(100)));
    assert!(matches!(events[5], BackgroundMessage::Done));
}

#[test]
fn test_load_commits_task_events() {
    let (repo, path) = init_repo("load_events");
    add_commit(&repo, "only commit", 1704110400);
    let events = load_commits_task(&path, 50, 0, true);
    assert_eq!(events.len(), 5);
    assert!(matches!(&events[0], BackgroundMessage::Log(t) if t == "Opening repository..."));
    assert!(matches!(&events[1], BackgroundMessage::Log(t) if t == "Reading commits..."));
    assert!(matches!(&events[2], BackgroundMessage::Log(t) if t == "✅ Loaded 1 commits"));
    match &events[3] {
        BackgroundMessage::CommitsLoaded(commits) => {
            assert_eq!(commits.len(), 1);
            assert_eq!(commits[0].message, "only commit");
        }
        other => panic!("unexpected event: {:?}", other),
    }
    assert!(matches!(events[4], BackgroundMessage::Done));
}

#[test]
fn test_load_commits_task_open_failure() {
    let events = load_commits_task("target/missing_repo_for_load", 50, 0, true);
    assert_eq!(events.len(), 2);
    assert!(matches!(&events[0], BackgroundMessage::Log(t) if t == "Opening repository..."));
    match &events[1] {
        BackgroundMessage::Error(text) => {
            assert!(text.starts_with("Failed to open repository: "))
        }
        other => panic!("unexpected event: {:?}", other),
    }
}

#[test]
fn test_happy_path_preview_after_rewrite() {
    // repository with three commits c1 -> c2 -> c3, head at c3; the
    // rewrite targeted c2, and the tool left a backup of the branch
    let (repo, path) = init_repo("happy_path");
    let _c1 = add_commit(&repo, "first commit", 1704110400);
    let c2 = add_commit(&repo, "second commit\n\ndetails", 1704110460);
    let c3 = add_commit(&repo, "third commit", 1704110520);
    let branch_ref = repo.head().unwrap().name().unwrap().to_string();
    let backup_name = format!("refs/original/{}", branch_ref);
    repo.reference(&backup_name, c3, true, "backup").unwrap();

    let events = finish_rewrite(
        &path,
        &c2.to_string(),
        "fix typo".to_string(),
        Some("* graph log excerpt".to_string()),
    );
    assert_eq!(events.len(), 5);
    assert!(matches!(&events[0], BackgroundMessage::Log(t) if t == "Collecting preview data..."));
    let short: String = c2.to_string().chars().take(8).collect();
    match &events[1] {
        BackgroundMessage::Log(text) => assert_eq!(
            text,
            &format!("✅ Commit {} successfully rewritten! Showing preview...", short)
        ),
        other => panic!("unexpected event: {:?}", other),
    }
    assert!(matches!(events[2], BackgroundMessage::Progress(100)));
    match &events[3] {
        BackgroundMessage::PreviewReady(preview) => {
            assert_eq!(preview.commit_hash, c2.to_string());
            assert_eq!(preview.old_message, "second commit");
            assert_eq!(preview.new_message, "fix typo");
            assert_eq!(preview.affected_commits, vec![backup_name.clone()]);
            assert_eq!(preview.diff_output, "* graph log excerpt");
        }
        other => panic!("unexpected event: {:?}", other),
    }
    assert!(matches!(events[4], BackgroundMessage::Done));
}

#[test]
fn test_finish_rewrite_without_log_uses_placeholder() {
    let (repo, path) = init_repo("no_log");
    let c1 = add_commit(&repo, "lone commit", 1704110400);
    let events = finish_rewrite(&path, &c1.to_string(), "new text".to_string(), None);
    match &events[3] {
        BackgroundMessage::PreviewReady(preview) => {
            assert_eq!(preview.diff_output, "Failed to get diff");
            assert_eq!(preview.affected_commits.len(), 0);
        }
        other => panic!("unexpected event: {:?}", other),
    }
}

#[test]
fn test_finish_rewrite_bad_hash() {
    let (repo, path) = init_repo("bad_hash");
    add_commit(&repo, "lone commit", 1704110400);
    let events = finish_rewrite(&path, "not-a-hash", "text".to_string(), None);
    assert_eq!(events.len(), 2);
    match &events[1] {
        BackgroundMessage::Error(text) => {
            assert!(text.starts_with("Invalid hash format: "))
        }
        other => panic!("unexpected event: {:?}", other),
    }
}

#[test]
fn test_rollback_after_rewrite_scenario() {
    // after the happy path: the backup points at the pre-rewrite head;
    // rollback moves the branch back and a second call restores nothing
    let (repo, path) = init_repo("rollback_after");
    let _c1 = add_commit(&repo, "first commit", 1704110400);
    let c2 = add_commit(&repo, "second commit", 1704110460);
    let branch_ref = repo.head().unwrap().name().unwrap().to_string();
    let backup_name = format!("refs/original/{}", branch_ref);
    repo.reference(&backup_name, c2, true, "backup").unwrap();
    // pretend the rewrite moved the branch to a rewritten chain
    let c3 = add_commit(&repo, "rewritten tip", 1704110520);
    assert_eq!(repo.refname_to_id(&branch_ref).unwrap(), c3);

    assert_eq!(rollback_changes(&path).unwrap(), 1);
    assert_eq!(repo.refname_to_id(&branch_ref).unwrap(), c2);
    assert_eq!(rollback_changes(&path).unwrap(), 0);
}
