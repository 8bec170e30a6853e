//! Trusted boundary around the `git2` and `chrono` crates.
//!
//! Everything the verified code learns about the repository on disk flows
//! through the wrappers in this module.  Their contracts state only what the
//! outside crates' own documentation promises; results that depend on the
//! state of the repository are left unconstrained, and the verified callers
//! handle every value such a wrapper may hand back.

use vstd::prelude::*;

use crate::repo::RawCommit;

verus! {

#[verifier::external_type_specification]
#[verifier::external_body]
pub struct ExGit2Repository(git2::Repository);

#[verifier::external_type_specification]
#[verifier::external_body]
pub struct ExGit2Error(git2::Error);

#[verifier::external_type_specification]
#[verifier::external_body]
pub struct ExGit2Revwalk<'a>(git2::Revwalk<'a>);

#[verifier::external_type_specification]
#[verifier::external_body]
pub struct ExGit2Oid(git2::Oid);

/// Relies on git2::Repository::open: opens the repository at `path`.
#[verifier::external_body]
pub(crate) fn repo_open(path: &str) -> Result<git2::Repository, git2::Error> {
    git2::Repository::open(path)
}

/// Relies on git2::Error::message: the human-readable text of the error.
#[verifier::external_body]
pub(crate) fn error_message(e: &git2::Error) -> String {
    e.message().to_owned()
}

/// Relies on git2::Repository::revwalk: a fresh, empty history walk.
#[verifier::external_body]
pub(crate) fn revwalk_new<'a>(repo: &'a git2::Repository) -> Result<git2::Revwalk<'a>, git2::Error> {
    repo.revwalk()
}

/// Relies on git2::Revwalk::push_head: roots the walk at the current head.
#[verifier::external_body]
pub(crate) fn revwalk_push_head(walk: &mut git2::Revwalk<'_>) -> Result<(), git2::Error> {
    walk.push_head()
}

/// Relies on the `Iterator` impl of git2::Revwalk: the next commit id of the
/// walk, or `None` once the history is exhausted.  The id is hex-encoded by
/// git2::Oid's `Display` impl.
#[verifier::external_body]
pub(crate) fn revwalk_next(walk: &mut git2::Revwalk<'_>) -> Option<Result<String, git2::Error>> {
    walk.next().map(|r| r.map(|oid| oid.to_string()))
}

/// Relies on git2::Oid::from_str, git2::Repository::find_commit, and the
/// accessors git2::Commit::message, git2::Commit::time, git2::Time::seconds
/// and git2::Commit::author / git2::Signature::name: looks the commit up and
/// hands its message, committer time and author name over as plain values.
#[verifier::external_body]
pub(crate) fn read_commit(repo: &git2::Repository, id: &str) -> Result<RawCommit, git2::Error> {
    let oid = git2::Oid::from_str(id)?;
    let commit = repo.find_commit(oid)?;
    let raw = RawCommit {
        message: commit.message().ok().map(|m| m.to_owned()),
        time_secs: commit.time().seconds(),
        author_name: commit.author().name().ok().map(|n| n.to_owned()),
    };
    Ok(raw)
}

/// Relies on git2::Oid::from_str: whether `id` parses as an object id.
#[verifier::external_body]
pub(crate) fn parse_oid(id: &str) -> Result<(), git2::Error> {
    git2::Oid::from_str(id).map(|_| ())
}

/// Relies on git2::Repository::head and git2::Reference::shorthand: the
/// short name of the reference the head points at, or `None` when the head
/// cannot be resolved or has no valid UTF-8 short name.
#[verifier::external_body]
pub(crate) fn head_shorthand(repo: &git2::Repository) -> Option<String> {
    match repo.head() {
        Ok(head) => head.shorthand().ok().map(|s| s.to_owned()),
        Err(_) => None,
    }
}

/// Relies on git2::Repository::references_glob and
/// git2::References::names: the full names of the references matching the
/// glob, in listing order; an error on any name that is not valid UTF-8.
#[verifier::external_body]
pub(crate) fn reference_names_glob(
    repo: &git2::Repository,
    glob: &str,
) -> Result<Vec<String>, git2::Error> {
    let mut refs = repo.references_glob(glob)?;
    refs.names().map(|name| name.map(|s| s.to_owned())).collect()
}

/// Relies on git2::Repository::refname_to_id: the object id the reference
/// resolves to, hex-encoded by git2::Oid's `Display` impl.
#[verifier::external_body]
pub(crate) fn refname_to_id(repo: &git2::Repository, name: &str) -> Result<String, git2::Error> {
    repo.refname_to_id(name).map(|oid| oid.to_string())
}

/// Relies on git2::Oid::from_str and git2::Repository::reference: points the
/// reference `name` at the object `id`, overwriting it when `force` is set,
/// as the documentation of `reference` states.
#[verifier::external_body]
pub(crate) fn set_reference(
    repo: &git2::Repository,
    name: &str,
    id: &str,
    force: bool,
    log_message: &str,
) -> Result<(), git2::Error> {
    let oid = git2::Oid::from_str(id)?;
    repo.reference(name, oid, force, log_message)?;
    Ok(())
}

/// Relies on git2::Repository::find_reference and git2::Reference::delete:
/// removes the reference `name` from the repository.
#[verifier::external_body]
pub(crate) fn delete_reference(repo: &git2::Repository, name: &str) -> Result<(), git2::Error> {
    let mut r = repo.find_reference(name)?;
    r.delete()
}

/// Relies on chrono's `DateTime::<Utc>::from_timestamp` and its `"%Y-%m-%d
/// %H:%M"` formatting, which depend on the timestamp alone: the same
/// seconds value renders the same on every machine.  A timestamp outside
/// chrono's range renders as the epoch, as `Default` for `DateTime<Utc>`
/// gives it.
#[verifier::external_body]
pub(crate) fn format_timestamp_utc(secs: i64) -> (r: String)
    ensures
        r@ == utc_minute_display(secs as int),
{
    let dt = chrono::DateTime::<chrono::Utc>::from_timestamp(secs, 0).unwrap_or_default();
    dt.format("%Y-%m-%d %H:%M").to_string()
}

/// The rendering of a timestamp as `"%Y-%m-%d %H:%M"` in UTC, a function of
/// the seconds value alone.
pub uninterp spec fn utc_minute_display(secs: int) -> Seq<char>;

/// Relies on chrono's `Local::now` and its `"%H:%M:%S"` formatting: two
/// digits for each of hour, minute and second, eight characters in all.
#[verifier::external_body]
pub(crate) fn now_hhmmss() -> (r: String)
    ensures
        r@.len() == 8,
{
    chrono::Local::now().format("%H:%M:%S").to_string()
}

} // verus!
