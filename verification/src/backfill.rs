//! Start-up backfills: before commits that older processes lack, and
//! repository names that still hold a placeholder.

use vstd::prelude::*;
use crate::model::{ExecutionProcessRepoState, Repo};
use crate::naming::{hyphenated_text_of, uuid_text};
use crate::text::{clone_opt_text, opt_text};

verus! {

/// Whether a repository state takes part in the backfill: it has an after
/// commit and no before commit.
pub open spec fn needs_backfill(before: Option<Seq<char>>, after: Option<Seq<char>>) -> bool {
    before is None && after is Some
}

/// The before commit of a state once the backfill has run over it. A
/// state that takes part gets the after commit of the previous process of
/// its session and repository or, where there is none, the commit of the
/// base branch; where that could not be resolved either it stays without.
/// Any other state is left as it is.
pub open spec fn backfilled_before(
    before: Option<Seq<char>>,
    after: Option<Seq<char>>,
    previous_after: Option<Seq<char>>,
    branch_oid: Option<Seq<char>>,
) -> Option<Seq<char>> {
    if needs_backfill(before, after) {
        match previous_after {
            Some(commit) => Some(commit),
            None => branch_oid,
        }
    } else {
        before
    }
}

/// Whether the backfill of a state has to resolve the base branch: the
/// state takes part and no previous process gives a commit.
pub fn needs_branch_lookup(state: &ExecutionProcessRepoState, previous_after: &Option<String>) -> (
    lookup: bool)
    ensures
        lookup == (needs_backfill(
            opt_text(state.before_head_commit),
            opt_text(state.after_head_commit),
        ) && previous_after is None),
{
    state.before_head_commit.is_none() && state.after_head_commit.is_some()
        && previous_after.is_none()
}

/// Backfills the before commit of one repository state. `previous_after`
/// is the after commit of the previous process of the same session and
/// repository, `branch_oid` the commit of the base branch where it was
/// resolved. Returns whether the state was changed.
pub fn backfill_before_head_commits(
    state: &mut ExecutionProcessRepoState,
    previous_after: &Option<String>,
    branch_oid: &Option<String>,
) -> (changed: bool)
    ensures
        opt_text(final(state).before_head_commit) == backfilled_before(
            opt_text(old(state).before_head_commit),
            opt_text(old(state).after_head_commit),
            opt_text(*previous_after),
            opt_text(*branch_oid),
        ),
        final(state).execution_process_id == old(state).execution_process_id,
        final(state).repo_id == old(state).repo_id,
        final(state).after_head_commit == old(state).after_head_commit,
        final(state).merge_commit == old(state).merge_commit,
        changed == (needs_backfill(
            opt_text(old(state).before_head_commit),
            opt_text(old(state).after_head_commit),
        ) && (previous_after is Some || branch_oid is Some)),
        !changed ==> *final(state) == *old(state),
{
    if state.before_head_commit.is_some() || state.after_head_commit.is_none() {
        return false;
    }
    let resolved = match previous_after {
        Some(commit) => Some(commit.clone()),
        None => clone_opt_text(branch_oid),
    };
    match resolved {
        Some(commit) => {
            state.before_head_commit = Some(commit);
            true
        },
        None => false,
    }
}

/// Backfill idempotence: a before commit that is recorded is never
/// replaced, a second run with the same resolutions changes nothing, and
/// once a run has set a commit no later run changes it, whatever it
/// resolves.
pub proof fn lemma_backfill_idempotent(
    before: Option<Seq<char>>,
    after: Option<Seq<char>>,
    previous_after: Option<Seq<char>>,
    branch_oid: Option<Seq<char>>,
    later_previous_after: Option<Seq<char>>,
    later_branch_oid: Option<Seq<char>>,
)
    ensures
        before is Some ==> backfilled_before(before, after, previous_after, branch_oid) == before,
        backfilled_before(
            backfilled_before(before, after, previous_after, branch_oid),
            after,
            previous_after,
            branch_oid,
        ) == backfilled_before(before, after, previous_after, branch_oid),
        backfilled_before(before, after, previous_after, branch_oid) is Some ==> backfilled_before(
            backfilled_before(before, after, previous_after, branch_oid),
            after,
            later_previous_after,
            later_branch_oid,
        ) == backfilled_before(before, after, previous_after, branch_oid),
{
}

/// The name and display name a repository is given by the name backfill.
#[derive(Debug)]
pub struct RepoNameFix {
    pub repo_id: u128,
    pub name: String,
    pub display_name: String,
}

/// Takes the last component of a path with `std::path::Path::file_name`,
/// where it has one that is valid Unicode. What counts as a component
/// depends on the platform, so the contract claims nothing of the result.
#[verifier::external_body]
fn path_file_name(path: &str) -> (name: Option<String>) {
    std::path::Path::new(path).file_name().and_then(|n| n.to_str()).map(|s| s.to_string())
}

/// The fix for a repository whose name holds a placeholder, given the
/// last component of its path: that component becomes its name and its
/// display name, and a repository whose path has none is named by the
/// text of its id.
pub fn repo_name_fix(repo_id: u128, file_name: Option<String>) -> (fix: RepoNameFix)
    ensures
        fix.repo_id == repo_id,
        fix.name@ == (match file_name {
            Some(name) => name@,
            None => hyphenated_text_of(repo_id),
        }),
        fix.display_name@ == fix.name@,
{
    let name = match file_name {
        Some(name) => name,
        None => uuid_text(repo_id),
    };
    let display_name = name.clone();
    RepoNameFix { repo_id, name, display_name }
}

/// The fixes for the repositories whose names hold a placeholder: one per
/// repository, in the order given, each named after the last component of
/// the repository's path as the platform reads it.
pub fn backfill_repo_names(repos: &Vec<Repo>) -> (fixes: Vec<RepoNameFix>)
    ensures
        fixes@.len() == repos@.len(),
        forall|i: int|
            0 <= i < fixes@.len() ==> (#[trigger] fixes@[i]).repo_id == repos@[i].id && fixes@[i].name@
                == fixes@[i].display_name@,
{
    let mut fixes: Vec<RepoNameFix> = Vec::new();
    let mut i: usize = 0;
    while i < repos.len()
        invariant
            0 <= i <= repos.len(),
            fixes@.len() == i,
            forall|j: int|
                0 <= j < i ==> (#[trigger] fixes@[j]).repo_id == repos@[j].id && fixes@[j].name@
                    == fixes@[j].display_name@,
        decreases repos.len() - i,
    {
        let file_name = path_file_name(repos[i].path.as_str());
        fixes.push(repo_name_fix(repos[i].id, file_name));
        i = i + 1;
    }
    fixes
}

} // verus!
