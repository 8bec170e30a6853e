//! What the view hands back to the orchestrator, and the search filter
//! over the loaded commit list.

use vstd::prelude::*;

use crate::models::CommitInfo;
use crate::text::contains_seq;
use crate::text::contains_str;
use crate::text::lower_of;
use crate::text::lowercase;
use crate::text::trim_of;
use crate::text::trim_spaces;

verus! {

/// What interacting with the commits list produced this tick.
pub struct CommitsListResult {
    /// Index, short id and message of a freshly selected commit.
    pub selected_commit: Option<(usize, String, String)>,
    pub load_more_clicked: bool,
    pub search_changed: bool,
}

/// What interacting with the message editor produced this tick.
pub struct EditorPanelResult {
    pub apply_clicked: bool,
}

/// What interacting with the main window chrome produced this tick.
pub struct MainWindowResult {
    pub pick_folder_clicked: bool,
    pub refresh_clicked: bool,
}

/// What interacting with the preview dialog produced this tick.
pub struct PreviewModalResult {
    pub confirm_clicked: bool,
    pub cancel_clicked: bool,
}

/// Whether a commit matches the search: the lowercased query occurs in its
/// lowercased message, id or author.
pub open spec fn commit_matches(c: CommitInfo, q: Seq<char>) -> bool {
    ||| contains_seq(lower_of(c.message@), q)
    ||| contains_seq(lower_of(c.hash@), q)
    ||| contains_seq(lower_of(c.author@), q)
}

/// The indices of the commits the search keeps: all of them for a blank
/// query, otherwise exactly the matching ones, in order.
pub fn filter_commits(commits: &Vec<CommitInfo>, query: &str) -> (r: Vec<usize>)
    ensures
        trim_of(query@).len() == 0 ==> r@.len() == commits@.len() && (forall|j: int|
            0 <= j < r@.len() ==> r@[j] == j),
        trim_of(query@).len() > 0 ==> {
            &&& forall|j: int|
                0 <= j < r@.len() ==> (#[trigger] r@[j]) < commits@.len() && commit_matches(
                    commits@[r@[j] as int],
                    lower_of(query@),
                )
            &&& forall|j1: int, j2: int| 0 <= j1 < j2 < r@.len() ==> r@[j1] < r@[j2]
            &&& forall|i: int|
                0 <= i < commits@.len() && #[trigger] commit_matches(
                    commits@[i],
                    lower_of(query@),
                ) ==> exists|j: int| 0 <= j < r@.len() && r@[j] == i
        },
{
    let mut out: Vec<usize> = Vec::new();
    let trimmed = trim_spaces(query);
    if trimmed.as_str().is_empty() {
        let mut i: usize = 0;
        while i < commits.len()
            invariant
                0 <= i <= commits@.len(),
                out@.len() == i as int,
                forall|j: int| 0 <= j < i ==> out@[j] == j,
            decreases commits@.len() - i,
        {
            out.push(i);
            i = i + 1;
        }
        out
    } else {
        let q = lowercase(query);
        let mut i: usize = 0;
        while i < commits.len()
            invariant
                0 <= i <= commits@.len(),
                q@ == lower_of(query@),
                forall|j: int|
                    0 <= j < out@.len() ==> (#[trigger] out@[j]) < i && commit_matches(
                        commits@[out@[j] as int],
                        lower_of(query@),
                    ),
                forall|j1: int, j2: int| 0 <= j1 < j2 < out@.len() ==> out@[j1] < out@[j2],
                forall|j: int|
                    0 <= j < i && #[trigger] commit_matches(commits@[j], lower_of(query@))
                        ==> exists|j2: int| 0 <= j2 < out@.len() && out@[j2] == j,
            decreases commits@.len() - i,
        {
            let c = &commits[i];
            let msg_l = lowercase(c.message.as_str());
            let hash_l = lowercase(c.hash.as_str());
            let author_l = lowercase(c.author.as_str());
            let m1 = contains_str(msg_l.as_str(), q.as_str());
            let m2 = contains_str(hash_l.as_str(), q.as_str());
            let m3 = contains_str(author_l.as_str(), q.as_str());
            let hit = m1 || m2 || m3;
            proof {
                assert(msg_l@ == lower_of(commits@[i as int].message@));
                assert(hash_l@ == lower_of(commits@[i as int].hash@));
                assert(author_l@ == lower_of(commits@[i as int].author@));
                assert(q@ == lower_of(query@));
                assert(hit == commit_matches(commits@[i as int], lower_of(query@)));
            }
            let ghost out0 = out@;
            if hit {
                out.push(i);
            }
            proof {
                assert forall|j: int|
                    0 <= j < i + 1 && #[trigger] commit_matches(
                        commits@[j],
                        lower_of(query@),
                    ) implies exists|j2: int| 0 <= j2 < out@.len() && out@[j2] == j by {
                    if j < i {
                        let j2 = choose|j2: int| 0 <= j2 < out0.len() && out0[j2] == j;
                        assert(out@[j2] == j);
                    } else {
                        assert(hit);
                        assert(out@[out@.len() - 1] == i as int);
                    }
                }
            }
            i = i + 1;
        }
        out
    }
}

} // verus!
