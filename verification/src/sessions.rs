//! Agent sessions: what a resumed session is linked to, the prompt of a
//! project session, and the pull-request facts that sessions report.
use vstd::prelude::*;
use crate::models::Branch;
use crate::projects::{opt_str, opt_string};
use crate::text::{append_str, str_eq};

verus! {

/// The records a session can be linked to, as the store found them.
pub struct SessionLinks {
    /// A project note started the session.
    pub project_note: bool,
    /// A commit was made by the session.
    pub commit: bool,
    /// A branch note was written by the session.
    pub note: bool,
    /// A review was made by the session.
    pub review: bool,
}

/// The kind of a resumed session, as the status event reports it: that of
/// the first record it is linked to (a project note, a commit, a branch
/// note, a review); otherwise the kind read from its prompt (`inferred`).
pub open spec fn resumed_kind(links: SessionLinks, inferred: Option<Seq<char>>) -> Option<Seq<char>> {
    if links.project_note {
        Some("note"@)
    } else if links.commit {
        Some("commit"@)
    } else if links.note {
        Some("note"@)
    } else if links.review {
        Some("review"@)
    } else {
        inferred
    }
}

/// The kind of a resumed session (see `resumed_kind`).
pub fn resumed_session_kind(links: &SessionLinks, inferred: Option<&str>) -> (res: Option<String>)
    ensures
        opt_string(res) == resumed_kind(*links, opt_str(inferred)),
{
    if links.project_note {
        Some("note".to_owned())
    } else if links.commit {
        Some("commit".to_owned())
    } else if links.note {
        Some("note".to_owned())
    } else if links.review {
        Some("review".to_owned())
    } else {
        match inferred {
            Some(k) => Some(k.to_owned()),
            None => None,
        }
    }
}

/// Where the branch of a resumed session comes from.
#[derive(Clone, Copy, Debug, PartialEq, Eq, Structural)]
pub enum BranchSource {
    /// The branch the caller named.
    Requested,
    /// The branch of the session's commit.
    Commit,
    /// The branch of the session's note.
    Note,
    /// The branch of the session's review.
    Review,
    /// No branch.
    NoBranch,
}

/// The branch of a resumed session: the one the caller named when the
/// store has it (`requested_found`), else that of the session's commit,
/// note or review, in this order.
pub fn resumed_branch_source(requested_found: bool, links: &SessionLinks) -> (res: BranchSource)
    ensures
        res == (if requested_found {
            BranchSource::Requested
        } else if links.commit {
            BranchSource::Commit
        } else if links.note {
            BranchSource::Note
        } else if links.review {
            BranchSource::Review
        } else {
            BranchSource::NoBranch
        }),
{
    if requested_found {
        BranchSource::Requested
    } else if links.commit {
        BranchSource::Commit
    } else if links.note {
        BranchSource::Note
    } else if links.review {
        BranchSource::Review
    } else {
        BranchSource::NoBranch
    }
}

/// The prompt of a project session: the action instructions and the
/// project's information in an `<action>` block, then the user's prompt.
pub open spec fn project_prompt(instructions: Seq<char>, project_context: Seq<char>, prompt: Seq<char>) -> Seq<char> {
    "<action>\n"@ + instructions + "\n\nProject information:\n"@ + project_context + "\n</action>\n\n"@ + prompt
}

/// Builds the prompt of a project session (see `project_prompt`).
pub fn project_session_prompt(instructions: &str, project_context: &str, prompt: &str) -> (res: String)
    ensures
        res@ == project_prompt(instructions@, project_context@, prompt@),
{
    let mut s = "<action>\n".to_owned();
    append_str(&mut s, instructions);
    append_str(&mut s, "\n\nProject information:\n");
    append_str(&mut s, project_context);
    append_str(&mut s, "\n</action>\n\n");
    append_str(&mut s, prompt);
    s
}

/// Whether GitHub's `mergeable` field says that a pull request can be merged.
pub fn is_mergeable(mergeable: &str) -> (res: bool)
    ensures
        res == (mergeable@ == "MERGEABLE"@),
{
    str_eq(mergeable, "MERGEABLE")
}

/// The error for a branch without a pull request.
pub open spec fn no_pull_request() -> Seq<char> {
    "Branch does not have an associated PR"@
}

/// The pull request whose status is refreshed: the branch's, which it must have.
pub fn branch_pr_number(branch: &Branch) -> (res: Result<u64, String>)
    ensures
        match branch.pr_number {
            Some(n) => res == Ok::<u64, String>(n),
            None => res matches Err(m) && m@ == no_pull_request(),
        },
{
    match branch.pr_number {
        Some(n) => Ok(n),
        None => Err("Branch does not have an associated PR".to_owned()),
    }
}

/// The positions, in order, of the branches that have a pull request: the
/// ones whose status a refresh of all branches reads.
pub fn branches_with_prs(branches: &[Branch]) -> (res: Vec<usize>)
    ensures
        forall|k: int| 0 <= k < res@.len() ==> #[trigger] res@[k] < branches@.len() && branches@[res@[k] as int].pr_number is Some,
        forall|j: int| 0 <= j < branches@.len() && (#[trigger] branches@[j]).pr_number is Some ==> res@.contains(j as usize),
        forall|k1: int, k2: int| 0 <= k1 < k2 < res@.len() ==> res@[k1] < res@[k2],
{
    let n = branches.len();
    let mut out: Vec<usize> = Vec::new();
    for i in 0..n
        invariant
            n == branches@.len(),
            forall|k: int| 0 <= k < out@.len() ==> #[trigger] out@[k] < i && branches@[out@[k] as int].pr_number is Some,
            forall|j: int| 0 <= j < i && (#[trigger] branches@[j]).pr_number is Some ==> out@.contains(j as usize),
            forall|k1: int, k2: int| 0 <= k1 < k2 < out@.len() ==> out@[k1] < out@[k2],
    {
        if branches[i].pr_number.is_some() {
            let ghost before = out@;
            out.push(i);
            proof {
                assert(out@[before.len() as int] == i);
                assert forall|j: int| 0 <= j <= i && (#[trigger] branches@[j]).pr_number is Some implies out@.contains(
                    j as usize,
                ) by {
                    if j < i {
                        let k = choose|k: int| 0 <= k < before.len() && before[k] == j as usize;
                        assert(out@[k] == j as usize);
                    } else {
                        assert(out@[before.len() as int] == j as usize);
                    }
                }
            }
        }
    }
    out
}

} // verus!
