//! Repository reader: opening a repository, resolving the current branch
//! and walking history with pagination.
//!
//! The walk reads the repository on disk, so what it yields cannot be
//! pinned down here; what is proved is how a page is cut out of whatever
//! the walk yields: the first `offset` entries are skipped, at most `limit`
//! records are built, the walk stops as soon as the window is filled, and
//! each record is an exact function of the id and raw data read for it.

use vstd::prelude::*;

use crate::gitio;
use crate::gitio::utc_minute_display;
use crate::messages::GitError;
use crate::models::CommitInfo;
use crate::text::first_line;
use crate::text::first_line_of;
use crate::text::take_chars;

verus! {

/// Raw data of one commit object, as read from disk: the full message,
/// committer time in seconds since the epoch, and author name, as far as
/// each is present and valid UTF-8.
pub struct RawCommit {
    pub message: Option<String>,
    pub time_secs: i64,
    pub author_name: Option<String>,
}

/// View of an optional string.
pub open spec fn opt_view(o: Option<String>) -> Option<Seq<char>> {
    match o {
        Some(s) => Some(s@),
        None => None,
    }
}

/// The display message of a commit: the first line of its message, or a
/// placeholder when the message is absent or empty.
pub open spec fn display_message(msg: Option<Seq<char>>) -> Seq<char> {
    match msg {
        Some(m) => if m.len() == 0 {
            "(no message)"@
        } else {
            first_line_of(m)
        },
        None => "(no message)"@,
    }
}

/// The display name of a commit's author, or a placeholder when absent.
pub open spec fn display_author(name: Option<Seq<char>>) -> Seq<char> {
    match name {
        Some(n) => n,
        None => "Unknown"@,
    }
}

/// What the record of commit `id` with raw data `raw` holds: the full id,
/// its first eight characters, the display message, the fixed rendering of
/// the committer time, and the author name.
pub open spec fn record_matches(r: CommitInfo, id: Seq<char>, raw: RawCommit) -> bool {
    &&& r.hash@ == id
    &&& r.short_hash@ == id.take(if id.len() < 8 { id.len() as int } else { 8 })
    &&& r.message@ == display_message(opt_view(raw.message))
    &&& r.date@ == utc_minute_display(raw.time_secs as int)
    &&& r.author@ == display_author(opt_view(raw.author_name))
}

/// Builds the observer-facing record of one commit from what was read.
pub fn build_record(id: String, raw: RawCommit) -> (r: CommitInfo)
    ensures
        record_matches(r, id@, raw),
{
    let short = take_chars(id.as_str(), 8);
    let message = match &raw.message {
        Some(m) => if m.as_str().is_empty() {
            "(no message)".to_owned()
        } else {
            first_line(m.as_str())
        },
        None => "(no message)".to_owned(),
    };
    let date = gitio::format_timestamp_utc(raw.time_secs);
    let author = match raw.author_name {
        Some(n) => n,
        None => "Unknown".to_owned(),
    };
    CommitInfo::new(id, short, message, date, author)
}

/// How many records a page holds when the walk yielded `n` entries.
pub open spec fn page_len(n: int, limit: int, offset: int) -> int {
    if offset >= n {
        0
    } else if n - offset >= limit {
        limit
    } else {
        n - offset
    }
}

/// The page a walk that yielded `s` produces: `limit` entries starting at
/// `offset`, clipped to what is there.
pub open spec fn page_of<T>(s: Seq<T>, limit: int, offset: int) -> Seq<T> {
    if offset >= s.len() {
        Seq::empty()
    } else if s.len() - offset >= limit {
        s.subrange(offset, offset + limit)
    } else {
        s.subrange(offset, s.len() as int)
    }
}

/// Law — page size: a page of `limit` entries at `offset` over `n` yielded
/// entries holds exactly `min(limit, max(0, n - offset))` records.
pub proof fn lemma_page_of_len<T>(s: Seq<T>, limit: int, offset: int)
    requires
        limit >= 0,
        offset >= 0,
    ensures
        page_of(s, limit, offset).len() == page_len(s.len() as int, limit, offset),
        page_of(s, limit, offset).len() == (if limit <= s.len() - offset {
            limit
        } else if s.len() - offset >= 0 {
            s.len() - offset
        } else {
            0
        }),
        forall|k: int|
            0 <= k < page_of(s, limit, offset).len() ==> #[trigger] page_of(s, limit, offset)[k]
                == s[offset + k],
{
}

/// The first `k` successive pages of size `limit`, concatenated.
pub open spec fn pages_concat<T>(s: Seq<T>, limit: int, k: nat) -> Seq<T>
    decreases k,
{
    if k == 0 {
        Seq::empty()
    } else {
        pages_concat(s, limit, (k - 1) as nat) + page_of(s, limit, limit * ((k - 1) as int))
    }
}

/// Law — pagination covers the walk: concatenating the pages at offsets
/// `0, limit, 2*limit, ...` gives exactly the page one big call returns,
/// and once `k * limit` reaches the number of yielded entries it gives all
/// of them, in order.
pub proof fn lemma_pages_concat<T>(s: Seq<T>, limit: int, k: nat)
    requires
        limit >= 0,
    ensures
        pages_concat(s, limit, k) == page_of(s, limit * k, 0),
        limit * k >= s.len() ==> pages_concat(s, limit, k) == s,
    decreases k,
{
    if k == 0 {
        assert(limit * 0 == 0) by (nonlinear_arith);
        assert(page_of(s, 0, 0) =~= Seq::<T>::empty());
        if limit * k >= s.len() {
            assert(s =~= Seq::<T>::empty());
        }
    } else {
        lemma_pages_concat(s, limit, (k - 1) as nat);
        let m = limit * ((k - 1) as int);
        assert(limit * (k as int) == limit * ((k - 1) as int) + limit) by (nonlinear_arith);
        assert(limit * ((k - 1) as int) >= 0) by (nonlinear_arith)
            requires
                limit >= 0,
                k >= 1,
        ;
        assert(pages_concat(s, limit, k) == page_of(s, m, 0) + page_of(s, limit, m));
        if m >= s.len() {
            assert(page_of(s, m, 0) =~= (if s.len() == 0 {
                Seq::<T>::empty()
            } else {
                s
            }));
            assert(page_of(s, m, 0) + page_of(s, limit, m) =~= page_of(s, m + limit, 0));
        } else {
            assert(page_of(s, m, 0) + page_of(s, limit, m) =~= page_of(s, m + limit, 0));
        }
        if limit * k >= s.len() {
            assert(page_of(s, limit * k, 0) =~= s);
        }
    }
}

/// What a successful page load returns: `ids` are all entries the walk
/// yielded before it was stopped, `raws` what was read for the entries of
/// the window, and the records are the page cut out of `ids`.
pub open spec fn loaded_page(
    commits: Seq<CommitInfo>,
    ids: Seq<Seq<char>>,
    raws: Seq<RawCommit>,
    limit: int,
    offset: int,
) -> bool {
    &&& commits.len() == page_len(ids.len() as int, limit, offset)
    &&& raws.len() == commits.len()
    &&& ids.len() <= offset + limit
    &&& forall|k: int|
        0 <= k < commits.len() ==> record_matches(#[trigger] commits[k], ids[offset + k], raws[k])
}

/// A successful load: some walk yielded `ids`, raw data `raws` was read
/// for the window, and the records are the page cut out of them.
pub open spec fn load_ok(commits: Seq<CommitInfo>, limit: int, offset: int) -> bool {
    exists|ids: Seq<Seq<char>>, raws: Seq<RawCommit>|
        loaded_page(commits, ids, raws, limit, offset)
}

/// Law — a loaded page is a page: the full ids of the returned records are
/// exactly `page_of` the yielded entries.
pub proof fn lemma_loaded_page_is_page(
    commits: Seq<CommitInfo>,
    ids: Seq<Seq<char>>,
    raws: Seq<RawCommit>,
    limit: int,
    offset: int,
)
    requires
        loaded_page(commits, ids, raws, limit, offset),
        limit >= 0,
        offset >= 0,
    ensures
        commits.map(|k: int, c: CommitInfo| c.hash@) == page_of(ids, limit, offset),
{
    lemma_page_of_len(ids, limit, offset);
    assert(commits.map(|k: int, c: CommitInfo| c.hash@) =~= page_of(ids, limit, offset));
}

/// Access to a repository's history and current branch.
pub trait GitRepository {
    /// One page of history in reverse-chronological walk order: skips the
    /// first `offset` entries, returns at most `limit` records, and stops
    /// walking once the window is filled.  A read failure aborts the whole
    /// page.
    fn load_commits(&self, limit: usize, offset: usize) -> (r: Result<Vec<CommitInfo>, GitError>)
        requires
            offset + limit <= usize::MAX,
        ensures
            match r {
                Ok(commits) => load_ok(commits@, limit as int, offset as int),
                Err(e) => e is ReadError,
            },
    ;

    /// The short name of the branch the head points at, or `None` on a
    /// detached head or any failure.
    fn get_current_branch(&self) -> Option<String>;
}

/// The reader over a repository opened with git2.
pub struct GitRepositoryImpl {
    repo: git2::Repository,
}

impl GitRepositoryImpl {
    /// Opens the repository at `path`.
    pub fn open(path: &str) -> (r: Result<Self, GitError>)
        ensures
            r matches Err(e) ==> e is NotAGitRepository,
    {
        match gitio::repo_open(path) {
            Ok(repo) => Ok(Self { repo }),
            Err(e) => Err(GitError::NotAGitRepository(gitio::error_message(&e))),
        }
    }

    /// Non-destructive probe: whether `path` holds a repository that can be
    /// opened.
    pub fn is_valid_repo(path: &str) -> bool {
        match gitio::repo_open(path) {
            Ok(_) => true,
            Err(_) => false,
        }
    }

    /// The underlying git2 handle, for the reference helpers.
    pub(crate) fn raw(&self) -> &git2::Repository {
        &self.repo
    }
}

impl GitRepository for GitRepositoryImpl {
    fn load_commits(&self, limit: usize, offset: usize) -> (r: Result<Vec<CommitInfo>, GitError>) {
        let mut walk = match gitio::revwalk_new(&self.repo) {
            Ok(w) => w,
            Err(e) => {
                return Err(GitError::ReadError(gitio::error_message(&e)));
            },
        };
        match gitio::revwalk_push_head(&mut walk) {
            Ok(_) => {},
            Err(e) => {
                return Err(GitError::ReadError(gitio::error_message(&e)));
            },
        }
        let end_index: usize = offset + limit;
        let mut commits: Vec<CommitInfo> = Vec::new();
        let ghost mut ids: Seq<Seq<char>> = Seq::empty();
        let ghost mut raws: Seq<RawCommit> = Seq::empty();
        let mut i: usize = 0;
        while i < end_index
            invariant
                i <= end_index,
                end_index == offset + limit,
                ids.len() == i as int,
                commits@.len() == page_len(i as int, limit as int, offset as int),
                raws.len() == commits@.len(),
                forall|k: int|
                    0 <= k < commits@.len() ==> record_matches(
                        #[trigger] commits@[k],
                        ids[offset + k],
                        raws[k],
                    ),
            decreases end_index - i,
        {
            let step = gitio::revwalk_next(&mut walk);
            match step {
                None => {
                    proof {
                        assert(loaded_page(commits@, ids, raws, limit as int, offset as int));
                        assert(load_ok(commits@, limit as int, offset as int));
                    }
                    return Ok(commits);
                },
                Some(Err(e)) => {
                    return Err(GitError::ReadError(gitio::error_message(&e)));
                },
                Some(Ok(id)) => {
                    proof {
                        ids = ids.push(id@);
                    }
                    if i >= offset {
                        let raw = match gitio::read_commit(&self.repo, id.as_str()) {
                            Ok(raw) => raw,
                            Err(e) => {
                                return Err(GitError::ReadError(gitio::error_message(&e)));
                            },
                        };
                        let ghost graw = raw;
                        let record = build_record(id, raw);
                        commits.push(record);
                        proof {
                            raws = raws.push(graw);
                        }
                    }
                    i = i + 1;
                },
            }
        }
        proof {
            assert(loaded_page(commits@, ids, raws, limit as int, offset as int));
            assert(load_ok(commits@, limit as int, offset as int));
        }
        Ok(commits)
    }

    fn get_current_branch(&self) -> Option<String> {
        gitio::head_shorthand(&self.repo)
    }
}

/// The short name of the current branch at `path`, or `None` when the
/// repository cannot be opened or the head is detached.
pub fn get_current_branch(path: &str) -> Option<String> {
    match GitRepositoryImpl::open(path) {
        Ok(repo) => repo.get_current_branch(),
        Err(_) => None,
    }
}

} // verus!
