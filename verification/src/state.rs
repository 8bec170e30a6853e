//! Observer state and orchestration: the single state the operator sees,
//! the per-event transition the observer applies when it drains its
//! channel, and the dispatch of new operations.
//!
//! At most one operation is in flight: dispatch refuses a new one while
//! `is_processing` is set (loading one more page is the one exception,
//! gated by `loading_more`), and every worker closes its epoch with a
//! terminal event that clears the flag.

use vstd::prelude::*;

use crate::messages::BackgroundMessage;
use crate::models::CommitInfo;
use crate::models::LogEntry;
use crate::models::LogFilter;
use crate::models::LogLevel;
use crate::models::PreviewData;
use crate::repo::get_current_branch;
use crate::text::take_chars;

verus! {

/// The kind of operation an epoch runs.
#[derive(Clone, Copy, Debug, PartialEq, Eq, Structural)]
pub enum OpKind {
    Load,
    Rewrite,
    Rollback,
}

/// Everything the observer holds between ticks.
pub struct RewriterState {
    pub repo_path: Option<String>,
    pub current_branch: Option<String>,
    pub modify_all_branches: bool,
    pub commits: Vec<CommitInfo>,
    pub selected_index: Option<usize>,
    pub commits_limit: usize,
    pub commits_loaded: usize,
    pub loading_more: bool,
    pub new_message: String,
    pub logs: Vec<LogEntry>,
    pub log_filter: LogFilter,
    /// Progress in hundredths, mirroring the `Progress` events.
    pub progress: u32,
    pub show_progress: bool,
    pub is_processing: bool,
    pub show_help: bool,
    pub search_query: String,
    pub filtered_count: usize,
    pub show_preview_modal: bool,
    pub preview_data: Option<PreviewData>,
    /// The explicit epoch: `None` when idle, the running operation's kind
    /// otherwise.  Loading one more page is gated by `loading_more`
    /// instead.
    pub current_op: Option<OpKind>,
}

/// The epoch field and the processing flag tell the same story: an
/// operation is in flight exactly when its kind is recorded.
pub open spec fn epoch_consistent(s: RewriterState) -> bool {
    s.current_op is Some <==> s.is_processing
}

/// A dispatched page load, for the caller to run on a worker.
pub struct LoadRequest {
    pub path: String,
    pub limit: usize,
    pub offset: usize,
    pub reset: bool,
}

/// A dispatched rewrite, for the caller to run on a worker.
pub struct RewriteRequest {
    pub path: String,
    pub commit_hash: String,
    pub new_message: String,
    pub modify_all_branches: bool,
    pub branch_name: Option<String>,
}

/// A fresh log entry with this text and level, stamped with some
/// eight-character wall-clock time.
pub open spec fn entry_ok(e: LogEntry, text: Seq<char>, level: LogLevel) -> bool {
    &&& e.message@ == text
    &&& e.level == level
    &&& e.timestamp@.len() == 8
}

/// The log kept to a bounded size: once past a thousand entries, the
/// oldest hundred are dropped.
pub open spec fn capped_logs(s: Seq<LogEntry>) -> Seq<LogEntry> {
    if s.len() > 1000 {
        s.skip(100)
    } else {
        s
    }
}

/// `post` is `pre` with one fresh entry of this text and level appended,
/// and the cap applied.
pub open spec fn logs_extended(
    pre: Seq<LogEntry>,
    post: Seq<LogEntry>,
    text: Seq<char>,
    level: LogLevel,
) -> bool {
    exists|e: LogEntry| #[trigger] entry_ok(e, text, level) && post == capped_logs(pre.push(e))
}

/// `post` is `pre` with two fresh entries appended in order.
pub open spec fn logs_extended2(
    pre: Seq<LogEntry>,
    post: Seq<LogEntry>,
    t1: Seq<char>,
    l1: LogLevel,
    t2: Seq<char>,
    l2: LogLevel,
) -> bool {
    exists|mid: Seq<LogEntry>|
        #[trigger] logs_extended(pre, mid, t1, l1) && logs_extended(mid, post, t2, l2)
}

/// All fields of `post` besides the log agree with `pre`.
pub open spec fn same_except_logs(pre: RewriterState, post: RewriterState) -> bool {
    post == (RewriterState { logs: post.logs, ..pre })
}

impl RewriterState {
    /// The idle state before any repository is selected.
    pub fn new() -> (r: Self)
        ensures
            r.repo_path is None,
            r.current_branch is None,
            r.modify_all_branches == true,
            r.commits@.len() == 0,
            r.selected_index is None,
            r.commits_limit == 50,
            r.commits_loaded == 0,
            r.loading_more == false,
            r.new_message@.len() == 0,
            r.logs@.len() == 0,
            r.log_filter is All,
            r.progress == 0,
            r.show_progress == false,
            r.is_processing == false,
            r.show_help == false,
            r.search_query@.len() == 0,
            r.filtered_count == 0,
            r.show_preview_modal == false,
            r.preview_data is None,
            r.current_op is None,
    {
        RewriterState {
            repo_path: None,
            current_branch: None,
            modify_all_branches: true,
            commits: Vec::new(),
            selected_index: None,
            commits_limit: 50,
            commits_loaded: 0,
            loading_more: false,
            new_message: String::new(),
            logs: Vec::new(),
            log_filter: LogFilter::All,
            progress: 0,
            show_progress: false,
            is_processing: false,
            show_help: false,
            search_query: String::new(),
            filtered_count: 0,
            show_preview_modal: false,
            preview_data: None,
            current_op: None,
        }
    }

    /// Appends one informational entry to the log.
    pub fn add_log(&mut self, message: &str)
        ensures
            logs_extended(old(self).logs@, final(self).logs@, message@, LogLevel::Info),
            same_except_logs(*old(self), *final(self)),
    {
        self.add_log_typed(message, LogLevel::Info);
    }

    /// Appends one entry to the log and keeps the log's size bounded.
    pub fn add_log_typed(&mut self, message: &str, level: LogLevel)
        ensures
            logs_extended(old(self).logs@, final(self).logs@, message@, level),
            same_except_logs(*old(self), *final(self)),
    {
        let entry = LogEntry::now(message.to_owned(), level);
        let ghost e = entry;
        self.logs.push(entry);
        let ghost pushed = self.logs@;
        if self.logs.len() > 1000 {
            let mut j: usize = 0;
            while j < 100
                invariant
                    0 <= j <= 100,
                    pushed.len() > 1000,
                    self.logs@ == pushed.skip(j as int),
                    same_except_logs(*old(self), *self),
                decreases 100 - j,
            {
                self.logs.remove(0);
                proof {
                    assert(pushed.skip(j as int).remove(0) =~= pushed.skip(j + 1));
                }
                j = j + 1;
            }
        }
        proof {
            assert(entry_ok(e, message@, level));
            assert(self.logs@ == capped_logs(old(self).logs@.push(e)));
        }
    }

    /// One observed event applied to the state.
    pub open spec fn step_rel(pre: RewriterState, post: RewriterState, msg: BackgroundMessage) -> bool {
        match msg {
            BackgroundMessage::Log(l) => {
                &&& logs_extended(pre.logs@, post.logs@, l@, LogLevel::Info)
                &&& same_except_logs(pre, post)
            },
            BackgroundMessage::LogTyped(l, lv) => {
                &&& logs_extended(pre.logs@, post.logs@, l@, lv)
                &&& same_except_logs(pre, post)
            },
            BackgroundMessage::Progress(p) => post == (RewriterState { progress: p, ..pre }),
            BackgroundMessage::CommitsLoaded(cs) => {
                if pre.loading_more {
                    &&& post.commits@ == pre.commits@ + cs@
                    &&& post.commits_loaded == post.commits@.len()
                    &&& post.loading_more == false
                    &&& post.filtered_count == post.commits@.len()
                    &&& post == (RewriterState {
                        commits: post.commits,
                        commits_loaded: post.commits_loaded,
                        loading_more: false,
                        filtered_count: post.filtered_count,
                        ..pre
                    })
                } else {
                    &&& post.commits@ == cs@
                    &&& post.commits_loaded == post.commits@.len()
                    &&& post.commits_limit == post.commits_loaded
                    &&& post.filtered_count == post.commits@.len()
                    &&& post == (RewriterState {
                        commits: post.commits,
                        commits_loaded: post.commits_loaded,
                        commits_limit: post.commits_limit,
                        filtered_count: post.filtered_count,
                        ..pre
                    })
                }
            },
            BackgroundMessage::CommitRewritten => post == pre,
            BackgroundMessage::PreviewReady(d) => post == (RewriterState {
                preview_data: Some(d),
                show_preview_modal: true,
                ..pre
            }),
            BackgroundMessage::Error(err) => {
                &&& logs_extended(pre.logs@, post.logs@, "ERROR: "@ + err@, LogLevel::Error)
                &&& post == (RewriterState {
                    logs: post.logs,
                    is_processing: false,
                    loading_more: false,
                    show_progress: false,
                    current_op: None,
                    ..pre
                })
            },
            BackgroundMessage::Done => post == (RewriterState {
                is_processing: false,
                loading_more: false,
                show_progress: if pre.progress >= 100 {
                    false
                } else {
                    pre.show_progress
                },
                current_op: None,
                ..pre
            }),
        }
    }

    /// A whole batch of events applied in order.
    pub open spec fn batch_rel(
        pre: RewriterState,
        post: RewriterState,
        msgs: Seq<BackgroundMessage>,
    ) -> bool
        decreases msgs.len(),
    {
        if msgs.len() == 0 {
            post == pre
        } else {
            exists|mid: RewriterState|
                #[trigger] Self::step_rel(pre, mid, msgs[0]) && Self::batch_rel(
                    mid,
                    post,
                    msgs.skip(1),
                )
        }
    }

    proof fn lemma_batch_rel_snoc(
        s0: RewriterState,
        s1: RewriterState,
        s2: RewriterState,
        msgs: Seq<BackgroundMessage>,
        msg: BackgroundMessage,
    )
        requires
            Self::batch_rel(s0, s1, msgs),
            Self::step_rel(s1, s2, msg),
        ensures
            Self::batch_rel(s0, s2, msgs.push(msg)),
        decreases msgs.len(),
    {
        if msgs.len() == 0 {
            assert(msgs.push(msg)[0] == msg);
            assert(msgs.push(msg).skip(1) =~= Seq::<BackgroundMessage>::empty());
            assert(Self::batch_rel(s2, s2, msgs.push(msg).skip(1)));
        } else {
            let mid = choose|mid: RewriterState|
                #[trigger] Self::step_rel(s0, mid, msgs[0]) && Self::batch_rel(
                    mid,
                    s1,
                    msgs.skip(1),
                );
            Self::lemma_batch_rel_snoc(mid, s1, s2, msgs.skip(1), msg);
            assert(msgs.skip(1).push(msg) =~= msgs.push(msg).skip(1));
            assert(msgs.push(msg)[0] == msgs[0]);
        }
    }

    /// Law — epoch invariant preserved: every observed event keeps the
    /// epoch and the processing flag in step, so at most one operation is
    /// ever accounted as in flight.
    pub proof fn lemma_step_preserves_epoch(
        pre: RewriterState,
        post: RewriterState,
        msg: BackgroundMessage,
    )
        requires
            Self::step_rel(pre, post, msg),
            epoch_consistent(pre),
        ensures
            epoch_consistent(post),
    {
    }

    /// Law — epoch invariant over a whole drained batch.
    pub proof fn lemma_batch_preserves_epoch(
        pre: RewriterState,
        post: RewriterState,
        msgs: Seq<BackgroundMessage>,
    )
        requires
            Self::batch_rel(pre, post, msgs),
            epoch_consistent(pre),
        ensures
            epoch_consistent(post),
        decreases msgs.len(),
    {
        if msgs.len() > 0 {
            let mid = choose|mid: RewriterState|
                #[trigger] Self::step_rel(pre, mid, msgs[0]) && Self::batch_rel(
                    mid,
                    post,
                    msgs.skip(1),
                );
            Self::lemma_step_preserves_epoch(pre, mid, msgs[0]);
            Self::lemma_batch_preserves_epoch(mid, post, msgs.skip(1));
        }
    }

    /// Drains one batch of events into the state, in order.  Returns
    /// whether anything calls for a repaint, and whether a finished
    /// rewrite was confirmed — the signal for the caller to dispatch the
    /// follow-up reload.
    pub fn process_background_messages(&mut self, msgs: Vec<BackgroundMessage>) -> (r: (bool, bool))
        ensures
            Self::batch_rel(*old(self), *final(self), msgs@),
            r.1 == exists|i: int| 0 <= i < msgs@.len() && msgs@[i] is CommitRewritten,
            r.0 == exists|i: int| 0 <= i < msgs@.len() && !((#[trigger] msgs@[i]) is CommitRewritten),
    {
        let ghost s0 = *self;
        let ghost orig = msgs@;
        let mut queue = msgs;
        let total: usize = queue.len();
        let mut needs_repaint = false;
        let mut commit_rewritten = false;
        let mut k: usize = 0;
        while queue.len() > 0
            invariant
                orig.len() == total as int,
                0 <= k <= orig.len(),
                queue@ == orig.skip(k as int),
                Self::batch_rel(s0, *self, orig.take(k as int)),
                commit_rewritten == exists|i: int|
                    0 <= i < k && (#[trigger] orig[i]) is CommitRewritten,
                needs_repaint == exists|i: int|
                    0 <= i < k && !((#[trigger] orig[i]) is CommitRewritten),
            decreases queue@.len(),
        {
            let msg = queue.remove(0);
            proof {
                assert(orig.skip(k as int).remove(0) =~= orig.skip(k + 1));
                assert(msg == orig[k as int]);
            }
            let ghost pre = *self;
            let ghost seen = msg;
            match msg {
                BackgroundMessage::Log(l) => {
                    self.add_log(l.as_str());
                    needs_repaint = true;
                },
                BackgroundMessage::LogTyped(l, lv) => {
                    self.add_log_typed(l.as_str(), lv);
                    needs_repaint = true;
                },
                BackgroundMessage::Progress(p) => {
                    self.progress = p;
                    needs_repaint = true;
                },
                BackgroundMessage::CommitsLoaded(cs) => {
                    let mut incoming = cs;
                    if self.loading_more {
                        self.commits.append(&mut incoming);
                        self.commits_loaded = self.commits.len();
                        self.loading_more = false;
                    } else {
                        self.commits = incoming;
                        self.commits_loaded = self.commits.len();
                        self.commits_limit = self.commits_loaded;
                    }
                    self.filtered_count = self.commits.len();
                    needs_repaint = true;
                },
                BackgroundMessage::CommitRewritten => {
                    commit_rewritten = true;
                },
                BackgroundMessage::PreviewReady(data) => {
                    self.preview_data = Some(data);
                    self.show_preview_modal = true;
                    needs_repaint = true;
                },
                BackgroundMessage::Error(err) => {
                    let mut text = "ERROR: ".to_owned();
                    text.append(err.as_str());
                    self.add_log_typed(text.as_str(), LogLevel::Error);
                    self.is_processing = false;
                    self.loading_more = false;
                    self.show_progress = false;
                    self.current_op = None;
                    needs_repaint = true;
                },
                BackgroundMessage::Done => {
                    self.is_processing = false;
                    self.loading_more = false;
                    if self.progress >= 100 {
                        self.show_progress = false;
                    }
                    self.current_op = None;
                    needs_repaint = true;
                },
            }
            proof {
                assert(Self::step_rel(pre, *self, seen));
                Self::lemma_batch_rel_snoc(s0, pre, *self, orig.take(k as int), seen);
                assert(orig.take(k as int).push(seen) =~= orig.take(k + 1));
            }
            k = k + 1;
        }
        proof {
            assert(orig.take(k as int) =~= orig);
        }
        (needs_repaint, commit_rewritten)
    }

    /// Dispatches a page load, unless no repository is selected.
    fn load_request(&mut self, limit: usize, offset: usize, reset: bool) -> (r: Option<
        LoadRequest,
    >)
        ensures
            match r {
                None => {
                    &&& old(self).repo_path is None
                    &&& logs_extended(
                        old(self).logs@,
                        final(self).logs@,
                        "\u{274C} Repository not selected"@,
                        LogLevel::Info,
                    )
                    &&& same_except_logs(*old(self), *final(self))
                },
                Some(req) => {
                    &&& old(self).repo_path matches Some(p) && req.path == p
                    &&& req.limit == limit
                    &&& req.offset == offset
                    &&& req.reset == reset
                    &&& if reset {
                        logs_extended(
                            old(self).logs@,
                            final(self).logs@,
                            "Requesting commits from repository..."@,
                            LogLevel::Info,
                        ) && *final(self) == (RewriterState {
                            logs: final(self).logs,
                            is_processing: true,
                            current_op: Some(OpKind::Load),
                            ..*old(self)
                        })
                    } else {
                        logs_extended(
                            old(self).logs@,
                            final(self).logs@,
                            "Loading more commits..."@,
                            LogLevel::Info,
                        ) && same_except_logs(*old(self), *final(self))
                    }
                },
            },
    {
        let path = match &self.repo_path {
            Some(p) => p.clone(),
            None => {
                self.add_log("\u{274C} Repository not selected");
                return None;
            },
        };
        if reset {
            self.add_log_typed("Requesting commits from repository...", LogLevel::Info);
            self.is_processing = true;
            self.current_op = Some(OpKind::Load);
        } else {
            self.add_log_typed("Loading more commits...", LogLevel::Info);
        }
        Some(LoadRequest { path, limit, offset, reset })
    }

    /// Dispatches the initial or refreshing page load.
    pub fn load_commits_async(&mut self) -> (r: Option<LoadRequest>)
        ensures
            match r {
                None => {
                    &&& old(self).repo_path is None
                    &&& logs_extended(
                        old(self).logs@,
                        final(self).logs@,
                        "\u{274C} Repository not selected"@,
                        LogLevel::Info,
                    )
                    &&& same_except_logs(*old(self), *final(self))
                },
                Some(req) => {
                    &&& old(self).repo_path matches Some(p) && req.path == p
                    &&& req.limit == old(self).commits_limit
                    &&& req.offset == 0
                    &&& req.reset == true
                    &&& logs_extended(
                        old(self).logs@,
                        final(self).logs@,
                        "Requesting commits from repository..."@,
                        LogLevel::Info,
                    )
                    &&& *final(self) == (RewriterState {
                        logs: final(self).logs,
                        is_processing: true,
                        current_op: Some(OpKind::Load),
                        ..*old(self)
                    })
                },
            },
    {
        let limit = self.commits_limit;
        self.load_request(limit, 0, true)
    }

    /// Dispatches one more page, unless a load or another operation is
    /// already in flight.
    pub fn load_more_commits_async(&mut self) -> (r: Option<LoadRequest>)
        ensures
            match r {
                None => if old(self).loading_more || old(self).is_processing {
                    *final(self) == *old(self)
                } else {
                    &&& old(self).repo_path is None
                    &&& logs_extended(
                        old(self).logs@,
                        final(self).logs@,
                        "\u{274C} Repository not selected"@,
                        LogLevel::Info,
                    )
                    &&& *final(self) == (RewriterState {
                        logs: final(self).logs,
                        loading_more: true,
                        ..*old(self)
                    })
                },
                Some(req) => {
                    &&& !old(self).loading_more && !old(self).is_processing
                    &&& old(self).repo_path matches Some(p) && req.path == p
                    &&& req.limit == 50
                    &&& req.offset == old(self).commits_loaded
                    &&& req.reset == false
                    &&& logs_extended(
                        old(self).logs@,
                        final(self).logs@,
                        "Loading more commits..."@,
                        LogLevel::Info,
                    )
                    &&& *final(self) == (RewriterState {
                        logs: final(self).logs,
                        loading_more: true,
                        ..*old(self)
                    })
                },
            },
    {
        if self.loading_more || self.is_processing {
            return None;
        }
        self.loading_more = true;
        let offset = self.commits_loaded;
        self.load_request(50, offset, false)
    }

    /// Dispatches a rewrite: resolves the current branch when it is not
    /// yet known, announces the scope, and marks the epoch as processing.
    pub fn rewrite_commit_async(&mut self, commit_hash: String, new_message: String) -> (r:
        Option<RewriteRequest>)
        ensures
            match r {
                None => {
                    &&& old(self).repo_path is None
                    &&& logs_extended(
                        old(self).logs@,
                        final(self).logs@,
                        "\u{274C} Repository not selected"@,
                        LogLevel::Info,
                    )
                    &&& same_except_logs(*old(self), *final(self))
                },
                Some(req) => {
                    &&& old(self).repo_path matches Some(p) && req.path == p
                    &&& req.commit_hash == commit_hash
                    &&& req.new_message == new_message
                    &&& req.modify_all_branches == old(self).modify_all_branches
                    &&& req.branch_name == final(self).current_branch
                    &&& (old(self).current_branch is Some ==> final(self).current_branch == old(
                        self,
                    ).current_branch)
                    &&& ({
                        let start = "Starting commit rewrite "@ + commit_hash@.take(
                            if commit_hash@.len() < 8 {
                                commit_hash@.len() as int
                            } else {
                                8
                            },
                        ) + "..."@;
                        if old(self).modify_all_branches {
                            logs_extended2(
                                old(self).logs@,
                                final(self).logs@,
                                start,
                                LogLevel::Info,
                                "\u{26A0}\u{FE0F} Changes will be applied to ALL branches"@,
                                LogLevel::Info,
                            )
                        } else {
                            match final(self).current_branch {
                                Some(b) => logs_extended2(
                                    old(self).logs@,
                                    final(self).logs@,
                                    start,
                                    LogLevel::Info,
                                    "\u{1F4CC} Changes will be applied only to branch: "@ + b@,
                                    LogLevel::Info,
                                ),
                                None => logs_extended(
                                    old(self).logs@,
                                    final(self).logs@,
                                    start,
                                    LogLevel::Info,
                                ),
                            }
                        }
                    })
                    &&& *final(self) == (RewriterState {
                        logs: final(self).logs,
                        current_branch: final(self).current_branch,
                        progress: 20,
                        is_processing: true,
                        show_progress: true,
                        current_op: Some(OpKind::Rewrite),
                        ..*old(self)
                    })
                },
            },
    {
        let path = match &self.repo_path {
            Some(p) => p.clone(),
            None => {
                self.add_log("\u{274C} Repository not selected");
                return None;
            },
        };
        if self.current_branch.is_none() {
            self.current_branch = get_current_branch(path.as_str());
        }
        let modify_all = self.modify_all_branches;
        let branch_name = self.current_branch.clone();
        let mut start = "Starting commit rewrite ".to_owned();
        let short = take_chars(commit_hash.as_str(), 8);
        start.append(short.as_str());
        start.append("...");
        self.add_log(start.as_str());
        if modify_all {
            self.add_log("\u{26A0}\u{FE0F} Changes will be applied to ALL branches");
        } else {
            match &branch_name {
                Some(branch) => {
                    let mut note = "\u{1F4CC} Changes will be applied only to branch: ".to_owned();
                    note.append(branch.as_str());
                    self.add_log(note.as_str());
                },
                None => {},
            }
        }
        self.progress = 20;
        self.is_processing = true;
        self.show_progress = true;
        self.current_op = Some(OpKind::Rewrite);
        Some(
            RewriteRequest {
                path,
                commit_hash,
                new_message,
                modify_all_branches: modify_all,
                branch_name,
            },
        )
    }

    /// Dispatches a rollback of the backup references.
    pub fn rollback_changes_async(&mut self) -> (r: Option<String>)
        ensures
            match r {
                None => {
                    &&& old(self).repo_path is None
                    &&& logs_extended(
                        old(self).logs@,
                        final(self).logs@,
                        "\u{274C} Repository not selected"@,
                        LogLevel::Info,
                    )
                    &&& same_except_logs(*old(self), *final(self))
                },
                Some(path) => {
                    &&& old(self).repo_path matches Some(p) && path == p
                    &&& logs_extended(
                        old(self).logs@,
                        final(self).logs@,
                        "\u{1F504} Rolling back changes..."@,
                        LogLevel::Info,
                    )
                    &&& *final(self) == (RewriterState {
                        logs: final(self).logs,
                        is_processing: true,
                        show_progress: true,
                        progress: 10,
                        current_op: Some(OpKind::Rollback),
                        ..*old(self)
                    })
                },
            },
    {
        let path = match &self.repo_path {
            Some(p) => p.clone(),
            None => {
                self.add_log("\u{274C} Repository not selected");
                return None;
            },
        };
        self.add_log("\u{1F504} Rolling back changes...");
        self.is_processing = true;
        self.show_progress = true;
        self.progress = 10;
        self.current_op = Some(OpKind::Rollback);
        Some(path)
    }

    /// Closes the preview epoch on confirm: the snapshot is discarded, and
    /// the caller sends the acknowledgment events when a repository is
    /// selected.
    pub fn confirm_preview(&mut self) -> (send: bool)
        ensures
            send == old(self).repo_path is Some,
            *final(self) == (RewriterState {
                show_preview_modal: false,
                preview_data: None,
                ..*old(self)
            }),
    {
        let send = self.repo_path.is_some();
        self.show_preview_modal = false;
        self.preview_data = None;
        send
    }

    /// Closes the preview epoch on cancel; the caller dispatches the
    /// rollback.
    pub fn close_preview(&mut self)
        ensures
            *final(self) == (RewriterState {
                show_preview_modal: false,
                preview_data: None,
                ..*old(self)
            }),
    {
        self.show_preview_modal = false;
        self.preview_data = None;
    }
}

} // verus!
