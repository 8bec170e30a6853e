//! Ref backup inspector: listing and restoring the backup references the
//! rewrite tool leaves under the reserved `refs/original/` namespace.
//!
//! Restoration is per-reference: a failure on one backup never aborts the
//! others, and a backup is consumed (deleted) once its target has been
//! restored, so that a second rollback finds nothing left and restores
//! zero.

use vstd::prelude::*;

use crate::gitio;
use crate::messages::GitError;
use crate::repo::GitRepositoryImpl;
use crate::text::has_prefix;
use crate::text::strip_prefix_str;
use crate::text::trim_of;
use crate::text::trim_spaces;

verus! {

/// The cleaned backup listing: every raw name trimmed, blank entries and
/// entries outside the backup namespace dropped, listing order kept.
pub open spec fn cleaned_backup_refs(names: Seq<Seq<char>>) -> Seq<Seq<char>>
    decreases names.len(),
{
    if names.len() == 0 {
        Seq::empty()
    } else {
        let rest = cleaned_backup_refs(names.drop_last());
        let t = trim_of(names.last());
        if t.len() > 0 && has_prefix(t, "refs/original/"@) {
            rest.push(t)
        } else {
            rest
        }
    }
}

/// A successful listing: some raw listing `names` was read, and the result
/// is its cleaned form.
pub open spec fn listing_ok(refs: Seq<String>) -> bool {
    exists|names: Seq<Seq<char>>|
        refs.map(|i: int, r: String| r@) == cleaned_backup_refs(names)
}

/// Lists the backup references under `refs/original/`, in listing order,
/// trimmed of surrounding whitespace, blank entries dropped.
pub fn get_original_refs(path: &str) -> (r: Result<Vec<String>, GitError>)
    ensures
        match r {
            Ok(refs) => listing_ok(refs@) && forall|i: int|
                0 <= i < refs@.len() ==> has_prefix((#[trigger] refs@[i])@, "refs/original/"@)
                    && refs@[i]@.len() > 0,
            Err(e) => e is NotAGitRepository || e is ReadError,
        },
{
    let repo = match GitRepositoryImpl::open(path) {
        Ok(repo) => repo,
        Err(e) => {
            return Err(e);
        },
    };
    list_backup_refs(&repo)
}

/// Lists the backup references of an opened repository.
pub fn list_backup_refs(repo: &GitRepositoryImpl) -> (r: Result<Vec<String>, GitError>)
    ensures
        match r {
            Ok(refs) => listing_ok(refs@) && forall|i: int|
                0 <= i < refs@.len() ==> has_prefix((#[trigger] refs@[i])@, "refs/original/"@)
                    && refs@[i]@.len() > 0,
            Err(e) => e is ReadError,
        },
{
    let names = match gitio::reference_names_glob(repo.raw(), "refs/original/*") {
        Ok(names) => names,
        Err(e) => {
            return Err(GitError::ReadError(gitio::error_message(&e)));
        },
    };
    let mut out: Vec<String> = Vec::new();
    let ghost raw_names = names@.map(|i: int, n: String| n@);
    let mut i: usize = 0;
    proof {
        assert(raw_names.take(0) =~= Seq::<Seq<char>>::empty());
    }
    while i < names.len()
        invariant
            0 <= i <= names@.len(),
            raw_names == names@.map(|j: int, n: String| n@),
            raw_names.len() == names@.len(),
            out@.map(|j: int, r: String| r@) == cleaned_backup_refs(raw_names.take(i as int)),
            forall|j: int|
                0 <= j < out@.len() ==> has_prefix((#[trigger] out@[j])@, "refs/original/"@)
                    && out@[j]@.len() > 0,
        decreases names@.len() - i,
    {
        let t = trim_spaces(names[i].as_str());
        let keep: bool = if t.as_str().is_empty() {
            false
        } else {
            match strip_prefix_str(t.as_str(), "refs/original/") {
                Some(_) => true,
                None => false,
            }
        };
        proof {
            assert(raw_names.take(i + 1).drop_last() =~= raw_names.take(i as int));
            assert(raw_names.take(i + 1).last() == raw_names[i as int]);
            assert(raw_names[i as int] == names@[i as int]@);
        }
        if keep {
            out.push(t);
            proof {
                assert(out@.map(|j: int, r: String| r@) =~= cleaned_backup_refs(
                    raw_names.take(i as int),
                ).push(trim_of(names@[i as int]@)));
            }
        }
        i = i + 1;
    }
    proof {
        assert(raw_names.take(names@.len() as int) =~= raw_names);
        assert(listing_ok(out@));
    }
    Ok(out)
}

/// Restores every backup reference it can: computes the original path by
/// stripping the namespace prefix, resolves the backup's target, force
/// updates the original reference, and consumes the backup.  Each
/// reference is handled independently; the count reflects only those
/// restored.  This function itself never fails.
pub fn restore_refs(repo: &GitRepositoryImpl, refs: &Vec<String>) -> (count: usize)
    ensures
        count <= refs@.len(),
        refs@.len() == 0 ==> count == 0,
{
    let mut count: usize = 0;
    let mut i: usize = 0;
    while i < refs.len()
        invariant
            0 <= i <= refs@.len(),
            count <= i,
        decreases refs@.len() - i,
    {
        let backup = &refs[i];
        match strip_prefix_str(backup.as_str(), "refs/original/") {
            Some(target) => {
                match gitio::refname_to_id(repo.raw(), backup.as_str()) {
                    Ok(id) => {
                        match gitio::set_reference(
                            repo.raw(),
                            target.as_str(),
                            id.as_str(),
                            true,
                            "rollback: restore pre-rewrite target",
                        ) {
                            Ok(_) => {
                                // best effort: a backup that cannot be
                                // deleted still counts as restored
                                match gitio::delete_reference(repo.raw(), backup.as_str()) {
                                    Ok(_) => {},
                                    Err(_) => {},
                                }
                                count = count + 1;
                            },
                            Err(_) => {},
                        }
                    },
                    Err(_) => {},
                }
            },
            None => {},
        }
        i = i + 1;
    }
    count
}

/// Restores the backup references at `path`: the count of references
/// restored, or the failure of opening or listing.  Restoration itself
/// never fails, so with nothing left to restore the result is zero, not an
/// error.
pub fn restore_original_refs(path: &str) -> (r: Result<usize, GitError>)
    ensures
        r matches Err(e) ==> e is NotAGitRepository || e is ReadError,
{
    let repo = match GitRepositoryImpl::open(path) {
        Ok(repo) => repo,
        Err(e) => {
            return Err(e);
        },
    };
    let refs = match list_backup_refs(&repo) {
        Ok(refs) => refs,
        Err(e) => {
            return Err(e);
        },
    };
    Ok(restore_refs(&repo, &refs))
}

/// Rolls the repository back to its pre-rewrite state.
pub fn rollback_changes(path: &str) -> (r: Result<usize, GitError>)
    ensures
        r matches Err(e) ==> e is NotAGitRepository || e is ReadError,
{
    restore_original_refs(path)
}

} // verus!
