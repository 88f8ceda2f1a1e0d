//! The action builder: setup, cleanup and archive chains around a
//! coding-agent request.

use vstd::prelude::*;
use crate::action::{
    ExecutorAction, ExecutorActionType, ExecutorActionTypeView, ScriptContext, ScriptRequest,
    ScriptRequestLanguage, ScriptRequestView,
};
use crate::model::{repo_views, Repo, RepoView};
use crate::text::clone_opt_text;

verus! {

/// The script a repository has for the given role, if any.
pub open spec fn script_of(repo: RepoView, context: ScriptContext) -> Option<Seq<char>> {
    match context {
        ScriptContext::SetupScript => repo.setup_script,
        ScriptContext::CleanupScript => repo.cleanup_script,
        ScriptContext::ArchiveScript => repo.archive_script,
    }
}

/// The request that runs a repository's script for the given role: a Bash
/// script run in the repository's directory, named relative to the container
/// root. `None` where the repository has no such script.
pub open spec fn script_request_of(repo: RepoView, context: ScriptContext) -> Option<
    ExecutorActionTypeView,
> {
    match script_of(repo, context) {
        Some(script) => Some(
            ExecutorActionTypeView::ScriptRequest(
                ScriptRequestView {
                    script,
                    language: ScriptRequestLanguage::Bash,
                    context,
                    working_dir: Some(repo.name),
                },
            ),
        ),
        None => None,
    }
}

/// The script requests of the repositories that have a script for the given
/// role, in repository order.
pub open spec fn script_requests(repos: Seq<RepoView>, context: ScriptContext) -> Seq<
    ExecutorActionTypeView,
> {
    repos.filter_map(|r: RepoView| script_request_of(r, context))
}

/// The requests of an optional chain; none where there is no chain.
pub open spec fn chain_or_empty(action: Option<ExecutorAction>) -> Seq<ExecutorActionTypeView> {
    match action {
        Some(a) => a@,
        None => Seq::empty(),
    }
}

/// The single-node action that runs one repository's script for a role.
pub fn script_action_for_repo(repo: &Repo, context: ScriptContext) -> (action: Option<
    ExecutorAction,
>)
    ensures
        action is Some <==> script_of(repo@, context) is Some,
        action is Some ==> action.unwrap()@ == seq![script_request_of(repo@, context).unwrap()],
{
    let script = match context {
        ScriptContext::SetupScript => clone_opt_text(&repo.setup_script),
        ScriptContext::CleanupScript => clone_opt_text(&repo.cleanup_script),
        ScriptContext::ArchiveScript => clone_opt_text(&repo.archive_script),
    };
    match script {
        Some(script) => Some(
            ExecutorAction::new(
                ExecutorActionType::ScriptRequest(
                    ScriptRequest {
                        script,
                        language: ScriptRequestLanguage::Bash,
                        context,
                        working_dir: Some(repo.name.clone()),
                    },
                ),
                None,
            ),
        ),
        None => None,
    }
}

/// The chain of one role's scripts over the repositories, in repository
/// order; `None` where no repository has such a script.
pub fn script_actions_for_repos(repos: &Vec<Repo>, context: ScriptContext) -> (action: Option<
    ExecutorAction,
>)
    ensures
        action is None <==> script_requests(repo_views(repos@), context).len() == 0,
        chain_or_empty(action) == script_requests(repo_views(repos@), context),
{
    let ghost views = repo_views(repos@);
    let ghost pick = |r: RepoView| script_request_of(r, context);
    let mut root: Option<ExecutorAction> = None;
    let mut i: usize = 0;
    while i < repos.len()
        invariant
            0 <= i <= repos.len(),
            views == repo_views(repos@),
            pick == (|r: RepoView| script_request_of(r, context)),
            chain_or_empty(root) == views.take(i as int).filter_map(pick),
            root is Some ==> root.unwrap()@.len() >= 1,
        decreases repos.len() - i,
    {
        proof {
            views.lemma_filter_map_take_succ(pick, i as int);
        }
        match script_action_for_repo(&repos[i], context) {
            Some(action) => {
                proof {
                    action.lemma_chain_nonempty();
                }
                root = match root {
                    Some(chain) => Some(chain.append_action(action)),
                    None => Some(action),
                };
            },
            None => {},
        }
        i = i + 1;
    }
    proof {
        assert(views.take(repos.len() as int) =~= views);
    }
    root
}

/// The cleanup chain of a workspace's repositories.
pub fn cleanup_actions_for_repos(repos: &Vec<Repo>) -> (action: Option<ExecutorAction>)
    ensures
        action is None <==> script_requests(
            repo_views(repos@),
            ScriptContext::CleanupScript,
        ).len() == 0,
        chain_or_empty(action) == script_requests(repo_views(repos@), ScriptContext::CleanupScript),
{
    script_actions_for_repos(repos, ScriptContext::CleanupScript)
}

/// The archive chain of a workspace's repositories.
pub fn archive_actions_for_repos(repos: &Vec<Repo>) -> (action: Option<ExecutorAction>)
    ensures
        action is None <==> script_requests(
            repo_views(repos@),
            ScriptContext::ArchiveScript,
        ).len() == 0,
        chain_or_empty(action) == script_requests(repo_views(repos@), ScriptContext::ArchiveScript),
{
    script_actions_for_repos(repos, ScriptContext::ArchiveScript)
}

/// The setup chain of a workspace's repositories, on its own.
pub fn setup_actions_for_repos(repos: &Vec<Repo>) -> (action: Option<ExecutorAction>)
    ensures
        action is None <==> script_requests(
            repo_views(repos@),
            ScriptContext::SetupScript,
        ).len() == 0,
        chain_or_empty(action) == script_requests(repo_views(repos@), ScriptContext::SetupScript),
{
    script_actions_for_repos(repos, ScriptContext::SetupScript)
}

/// The stand-alone setup action of one repository, as started in parallel
/// mode: a single script request without a successor.
pub fn setup_action_for_repo(repo: &Repo) -> (action: Option<ExecutorAction>)
    ensures
        action is Some <==> repo@.setup_script is Some,
        action is Some ==> action.unwrap()@ == seq![
            script_request_of(repo@, ScriptContext::SetupScript).unwrap(),
        ],
{
    script_action_for_repo(repo, ScriptContext::SetupScript)
}

/// Mapping and filtering a sequence with one more element in front.
pub proof fn lemma_filter_map_prepend<A, B>(x: A, s: Seq<A>, f: spec_fn(A) -> Option<B>)
    ensures
        (seq![x] + s).filter_map(f) == (match f(x) {
            Some(y) => seq![y],
            None => Seq::<B>::empty(),
        }) + s.filter_map(f),
    decreases s.len(),
{
    let head = match f(x) {
        Some(y) => seq![y],
        None => Seq::<B>::empty(),
    };
    if s.len() == 0 {
        assert(seq![x] + s =~= seq![x]);
        Seq::lemma_filter_map_singleton(x, f);
        assert(head + s.filter_map(f) =~= head);
    } else {
        let t = seq![x] + s;
        assert(t.drop_last() =~= seq![x] + s.drop_last());
        assert(t.last() == s.last());
        lemma_filter_map_prepend(x, s.drop_last(), f);
        match f(s.last()) {
            Some(y) => {
                assert(t.filter_map(f) == t.drop_last().filter_map(f) + seq![y]);
                assert(s.filter_map(f) == s.drop_last().filter_map(f) + seq![y]);
                let earlier = s.drop_last().filter_map(f);
                assert((head + earlier) + seq![y] =~= head + (earlier + seq![y]));
            },
            None => {},
        }
    }
}

/// Puts the setup scripts of the repositories, in repository order, in
/// front of `next_action`.
pub fn build_sequential_setup_chain(repos: &Vec<Repo>, next_action: ExecutorAction) -> (chain:
    ExecutorAction)
    ensures
        chain@ == script_requests(repo_views(repos@), ScriptContext::SetupScript) + next_action@,
{
    let ghost views = repo_views(repos@);
    let ghost pick = |r: RepoView| script_request_of(r, ScriptContext::SetupScript);
    let ghost tail = next_action@;
    let mut chained = next_action;
    let mut i: usize = repos.len();
    proof {
        assert(views.subrange(i as int, views.len() as int) =~= Seq::<RepoView>::empty());
        assert(Seq::<RepoView>::empty().filter_map(pick) =~= Seq::empty());
        assert(Seq::<ExecutorActionTypeView>::empty() + tail =~= tail);
    }
    while i > 0
        invariant
            0 <= i <= repos.len(),
            views == repo_views(repos@),
            views.len() == repos.len(),
            pick == (|r: RepoView| script_request_of(r, ScriptContext::SetupScript)),
            chained@ == views.subrange(i as int, views.len() as int).filter_map(pick) + tail,
        decreases i,
    {
        i = i - 1;
        let ghost rest = views.subrange(i as int + 1, views.len() as int);
        proof {
            assert(views.subrange(i as int, views.len() as int) =~= seq![views[i as int]] + rest);
            lemma_filter_map_prepend(views[i as int], rest, pick);
        }
        match script_action_for_repo(&repos[i], ScriptContext::SetupScript) {
            Some(action) => {
                let ghost head = action@;
                chained = action.append_action(chained);
                proof {
                    assert(head + (rest.filter_map(pick) + tail) =~= (head + rest.filter_map(pick))
                        + tail);
                }
            },
            None => {
                proof {
                    assert(Seq::<ExecutorActionTypeView>::empty() + rest.filter_map(pick)
                        =~= rest.filter_map(pick));
                }
            },
        }
    }
    proof {
        assert(views.subrange(0, views.len() as int) =~= views);
    }
    chained
}

} // verus!
