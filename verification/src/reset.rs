//! Session reset: rewinding a session to one of its processes.
//!
//! A reset brings every worktree back to the commit it had before the
//! target process ran, stops what is running in the workspace, and drops
//! the target and every later process of the session.

use vstd::prelude::*;
use vstd::string::*;
use crate::error::ContainerError;
use crate::lifecycle::{stop_candidate, try_stop, RepoHead};
use crate::model::{repo_views, ExecutionProcess, ExecutionProcessRepoState, Repo, RepoView};
use crate::text::opt_text;

verus! {

/// How a worktree is brought to a commit.
#[derive(Clone, Copy, Debug, PartialEq, Eq, Structural)]
pub struct WorktreeResetOptions {
    pub perform_reset: bool,
    pub force_when_dirty: bool,
    pub is_dirty: bool,
    pub hard: bool,
}

/// One worktree to bring to a commit.
#[derive(Debug)]
pub struct WorktreeReset {
    pub repo_id: u128,
    /// The repository's directory below the container root.
    pub repo_name: String,
    pub target_oid: String,
    pub options: WorktreeResetOptions,
}

impl View for WorktreeReset {
    type V = (u128, Seq<char>, Seq<char>, WorktreeResetOptions);

    open spec fn view(&self) -> (u128, Seq<char>, Seq<char>, WorktreeResetOptions) {
        (self.repo_id, self.repo_name@, self.target_oid@, self.options)
    }
}

/// Everything a reset does, in the order it is done.
#[derive(Debug)]
pub struct ResetPlan {
    pub worktree_resets: Vec<WorktreeReset>,
    /// The processes to kill.
    pub stop: Vec<u128>,
    /// The processes to delete.
    pub drop: Vec<u128>,
}

/// The commit of the first entry for a repository; none where there is no
/// entry for it or the first one holds no commit.
pub open spec fn first_commit_for(entries: Seq<(u128, Option<Seq<char>>)>, repo_id: u128) -> Option<
    Seq<char>,
>
    decreases entries.len(),
{
    if entries.len() == 0 {
        None
    } else if entries[0].0 == repo_id {
        entries[0].1
    } else {
        first_commit_for(entries.drop_first(), repo_id)
    }
}

/// The before commits of a process's repository states, by repository.
pub open spec fn before_commits(states: Seq<ExecutionProcessRepoState>) -> Seq<
    (u128, Option<Seq<char>>),
> {
    states.map_values(|s: ExecutionProcessRepoState| (s.repo_id, opt_text(s.before_head_commit)))
}

/// The views of a list of observed or recorded heads.
pub open spec fn head_views(heads: Seq<RepoHead>) -> Seq<(u128, Option<Seq<char>>)> {
    heads.map_values(|h: RepoHead| h@)
}

/// The commit a repository is reset to: the before commit recorded for the
/// target process or, where none is recorded, the after commit of the
/// process before it.
pub open spec fn reset_target_oid(
    before: Seq<(u128, Option<Seq<char>>)>,
    previous_after: Seq<(u128, Option<Seq<char>>)>,
    repo_id: u128,
) -> Option<Seq<char>> {
    match first_commit_for(before, repo_id) {
        Some(oid) => Some(oid),
        None => first_commit_for(previous_after, repo_id),
    }
}

/// Whether the container counts as dirty: only where the check succeeded
/// and found it not clean.
pub open spec fn dirty_from(clean_check: Option<bool>) -> bool {
    clean_check == Some(false)
}

/// The options every worktree of one reset is reconciled with.
pub open spec fn reset_options(
    perform_git_reset: bool,
    force_when_dirty: bool,
    clean_check: Option<bool>,
) -> WorktreeResetOptions {
    WorktreeResetOptions {
        perform_reset: perform_git_reset,
        force_when_dirty,
        is_dirty: dirty_from(clean_check),
        hard: perform_git_reset,
    }
}

/// The reset of one repository's worktree; none where no commit is known
/// to go back to.
pub open spec fn worktree_reset_of(
    repo: RepoView,
    before: Seq<(u128, Option<Seq<char>>)>,
    previous_after: Seq<(u128, Option<Seq<char>>)>,
    options: WorktreeResetOptions,
) -> Option<(u128, Seq<char>, Seq<char>, WorktreeResetOptions)> {
    match reset_target_oid(before, previous_after, repo.id) {
        Some(oid) => Some((repo.id, repo.name, oid, options)),
        None => None,
    }
}

/// The id of a process that a reset to `target` deletes: one of the same
/// session that was created when the target was, or later.
pub open spec fn drop_candidate(process: ExecutionProcess, target: ExecutionProcess) -> Option<
    u128,
> {
    if process.session_id == target.session_id && process.created_at >= target.created_at {
        Some(process.id)
    } else {
        None
    }
}

/// The ids a reset to `target` deletes among `processes`, in their order.
pub open spec fn dropped_ids(processes: Seq<ExecutionProcess>, target: ExecutionProcess) -> Seq<
    u128,
> {
    processes.filter_map(|p: ExecutionProcess| drop_candidate(p, target))
}

/// The recorded before commit of a repository among a process's states.
pub fn recorded_before_commit(states: &Vec<ExecutionProcessRepoState>, repo_id: u128) -> (commit:
    Option<String>)
    ensures
        opt_text(commit) == first_commit_for(before_commits(states@), repo_id),
{
    let ghost entries = before_commits(states@);
    let mut i: usize = 0;
    proof {
        assert(entries.skip(0) =~= entries);
    }
    while i < states.len()
        invariant
            0 <= i <= states.len(),
            entries == before_commits(states@),
            first_commit_for(entries, repo_id) == first_commit_for(entries.skip(i as int), repo_id),
        decreases states.len() - i,
    {
        proof {
            assert(entries.skip(i as int).drop_first() =~= entries.skip(i as int + 1));
        }
        if states[i].repo_id == repo_id {
            return match &states[i].before_head_commit {
                Some(commit) => Some(commit.clone()),
                None => None,
            };
        }
        i = i + 1;
    }
    None
}

/// The commit recorded for a repository in a list of heads.
pub fn recorded_head(heads: &Vec<RepoHead>, repo_id: u128) -> (commit: Option<String>)
    ensures
        opt_text(commit) == first_commit_for(head_views(heads@), repo_id),
{
    let ghost entries = head_views(heads@);
    let mut i: usize = 0;
    proof {
        assert(entries.skip(0) =~= entries);
    }
    while i < heads.len()
        invariant
            0 <= i <= heads.len(),
            entries == head_views(heads@),
            first_commit_for(entries, repo_id) == first_commit_for(entries.skip(i as int), repo_id),
        decreases heads.len() - i,
    {
        proof {
            assert(entries.skip(i as int).drop_first() =~= entries.skip(i as int + 1));
        }
        if heads[i].repo_id == repo_id {
            return match &heads[i].head_commit {
                Some(commit) => Some(commit.clone()),
                None => None,
            };
        }
        i = i + 1;
    }
    None
}

/// The processes that a reset to `target` deletes, in the order given.
pub fn drop_at_and_after(processes: &Vec<ExecutionProcess>, target: &ExecutionProcess) -> (ids:
    Vec<u128>)
    ensures
        ids@ == dropped_ids(processes@, *target),
{
    let ghost pick = |p: ExecutionProcess| drop_candidate(p, *target);
    let mut ids: Vec<u128> = Vec::new();
    let mut i: usize = 0;
    while i < processes.len()
        invariant
            0 <= i <= processes.len(),
            pick == (|p: ExecutionProcess| drop_candidate(p, *target)),
            ids@ == processes@.take(i as int).filter_map(pick),
        decreases processes.len() - i,
    {
        proof {
            processes@.lemma_filter_map_take_succ(pick, i as int);
        }
        if processes[i].session_id == target.session_id && processes[i].created_at
            >= target.created_at {
            ids.push(processes[i].id);
        }
        i = i + 1;
    }
    proof {
        assert(processes@.take(processes.len() as int) =~= processes@);
    }
    ids
}

/// Checks that a reset of a session names one of its own processes.
pub fn check_reset_target(session_id: u128, target: &ExecutionProcess) -> (checked: Result<
    (),
    ContainerError,
>)
    ensures
        target.session_id == session_id ==> checked is Ok,
        target.session_id != session_id ==> (checked matches Err(ContainerError::Other(text))
            && text@ == "Process does not belong to this session"@),
{
    if target.session_id != session_id {
        Err(ContainerError::Other(String::from_str("Process does not belong to this session")))
    } else {
        Ok(())
    }
}

/// Plans the reset of a session to the process `target`.
///
/// `repo_states` are the states recorded for the target, and
/// `previous_after_heads` the after commits of the process before it in
/// the session, by repository. `processes` are the processes of all
/// sessions of the workspace, and `clean_check` says whether the container
/// was found clean, or is `None` where that could not be found out.
///
/// A target of another session is refused. Otherwise every repository
/// with a known commit to go back to is reconciled to it, every running
/// process of the workspace but its dev servers is stopped, and the target
/// and every later process of its session are dropped.
pub fn reset_session_to_process(
    session_id: u128,
    target: &ExecutionProcess,
    repos: &Vec<Repo>,
    repo_states: &Vec<ExecutionProcessRepoState>,
    previous_after_heads: &Vec<RepoHead>,
    processes: &Vec<ExecutionProcess>,
    clean_check: Option<bool>,
    perform_git_reset: bool,
    force_when_dirty: bool,
) -> (plan: Result<ResetPlan, ContainerError>)
    ensures
        target.session_id != session_id ==> (plan matches Err(ContainerError::Other(text))
            && text@ == "Process does not belong to this session"@),
        target.session_id == session_id ==> (plan matches Ok(p) && {
            &&& p.worktree_resets@.map_values(|w: WorktreeReset| w@) == repo_views(
                repos@,
            ).filter_map(
                |r: RepoView|
                    worktree_reset_of(
                        r,
                        before_commits(repo_states@),
                        head_views(previous_after_heads@),
                        reset_options(perform_git_reset, force_when_dirty, clean_check),
                    ),
            )
            &&& p.stop@ == processes@.filter_map(|p: ExecutionProcess| stop_candidate(p, false))
            &&& p.drop@ == dropped_ids(processes@, *target)
        }),
{
    match check_reset_target(session_id, target) {
        Err(refused) => { return Err(refused); },
        Ok(_) => {},
    }
    let is_dirty = match clean_check {
        Some(clean) => !clean,
        None => false,
    };
    let options = WorktreeResetOptions {
        perform_reset: perform_git_reset,
        force_when_dirty,
        is_dirty,
        hard: perform_git_reset,
    };
    let ghost views = repo_views(repos@);
    let ghost before = before_commits(repo_states@);
    let ghost previous = head_views(previous_after_heads@);
    let ghost pick = |r: RepoView|
        worktree_reset_of(
            r,
            before_commits(repo_states@),
            head_views(previous_after_heads@),
            reset_options(perform_git_reset, force_when_dirty, clean_check),
        );
    let ghost shown = |w: WorktreeReset| w@;
    let mut worktree_resets: Vec<WorktreeReset> = Vec::new();
    let mut i: usize = 0;
    proof {
        assert(worktree_resets@.map_values(shown) =~= views.take(0).filter_map(pick));
    }
    while i < repos.len()
        invariant
            0 <= i <= repos.len(),
            views == repo_views(repos@),
            before == before_commits(repo_states@),
            previous == head_views(previous_after_heads@),
            options == reset_options(perform_git_reset, force_when_dirty, clean_check),
            pick == (|r: RepoView|
                worktree_reset_of(
                    r,
                    before_commits(repo_states@),
                    head_views(previous_after_heads@),
                    reset_options(perform_git_reset, force_when_dirty, clean_check),
                )),
            shown == (|w: WorktreeReset| w@),
            worktree_resets@.map_values(shown) == views.take(i as int).filter_map(pick),
        decreases repos.len() - i,
    {
        proof {
            views.lemma_filter_map_take_succ(pick, i as int);
        }
        let repo = &repos[i];
        let target_oid = match recorded_before_commit(repo_states, repo.id) {
            Some(oid) => Some(oid),
            None => recorded_head(previous_after_heads, repo.id),
        };
        match target_oid {
            Some(oid) => {
                let ghost earlier = worktree_resets@;
                let reset = WorktreeReset {
                    repo_id: repo.id,
                    repo_name: repo.name.clone(),
                    target_oid: oid,
                    options,
                };
                worktree_resets.push(reset);
                proof {
                    assert(worktree_resets@.map_values(shown) =~= earlier.map_values(shown)
                        + seq![shown(reset)]);
                }
            },
            None => {},
        }
        i = i + 1;
    }
    proof {
        assert(views.take(repos.len() as int) =~= views);
    }
    let stop = try_stop(processes, false);
    let drop = drop_at_and_after(processes, target);
    Ok(ResetPlan { worktree_resets, stop, drop })
}

/// Whether the process at position `i` has the id `id` and is deleted by
/// a reset to `target`: it belongs to the target's session and is as old
/// as the target or younger.
pub open spec fn dropped_at(
    processes: Seq<ExecutionProcess>,
    target: ExecutionProcess,
    id: u128,
    i: int,
) -> bool {
    &&& 0 <= i < processes.len()
    &&& processes[i].id == id
    &&& processes[i].session_id == target.session_id
    &&& processes[i].created_at >= target.created_at
}

/// A reset drops exactly the processes of the target's session that are
/// as old as the target or younger: every dropped id belongs to such a
/// process, and every such process is dropped.
pub proof fn lemma_drop_at_and_after(processes: Seq<ExecutionProcess>, target: ExecutionProcess)
    ensures
        forall|id: u128| #[trigger]
            dropped_ids(processes, target).contains(id) <==> exists|i: int|
                dropped_at(processes, target, id, i),
    decreases processes.len(),
{
    let pick = |p: ExecutionProcess| drop_candidate(p, target);
    let dropped = dropped_ids(processes, target);
    if processes.len() == 0 {
        assert forall|id: u128| #[trigger] dropped.contains(id) <==> exists|i: int|
            dropped_at(processes, target, id, i) by {}
    } else {
        let rest = processes.drop_last();
        let last = processes.last();
        lemma_drop_at_and_after(rest, target);
        let rest_dropped = dropped_ids(rest, target);
        assert(dropped == match pick(last) {
            Some(id) => rest_dropped + seq![id],
            None => rest_dropped,
        });
        assert forall|id: u128| #[trigger] dropped.contains(id) <==> exists|i: int|
            dropped_at(processes, target, id, i) by {
            if dropped.contains(id) {
                let k = choose|k: int| 0 <= k < dropped.len() && dropped[k] == id;
                if k < rest_dropped.len() {
                    assert(rest_dropped[k] == id);
                    assert(rest_dropped.contains(id));
                    let i = choose|i: int| dropped_at(rest, target, id, i);
                    assert(processes[i] == rest[i]);
                    assert(dropped_at(processes, target, id, i));
                } else {
                    assert(pick(last) is Some);
                    assert(processes[processes.len() - 1] == last);
                    assert(dropped_at(processes, target, id, processes.len() - 1));
                }
            }
            if exists|i: int| dropped_at(processes, target, id, i) {
                let i = choose|i: int| dropped_at(processes, target, id, i);
                if i < rest.len() {
                    assert(rest[i] == processes[i]);
                    assert(dropped_at(rest, target, id, i));
                    assert(rest_dropped.contains(id));
                    let k = choose|k: int| 0 <= k < rest_dropped.len() && rest_dropped[k] == id;
                    assert(dropped[k] == id);
                } else {
                    assert(pick(last) == Some(id));
                    assert(dropped[dropped.len() - 1] == id);
                }
            }
        }
    }
}

} // verus!
