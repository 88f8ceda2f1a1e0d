//! The workspace lifecycle: how a workspace starts its first run, when an
//! archive script may run, and what archiving stops.

use vstd::prelude::*;
use vstd::string::*;
use crate::action::{
    CodingAgentInitialRequest, CodingAgentInitialRequestView, ExecutorAction, ExecutorActionType,
    ExecutorActionTypeView, ExecutorConfig, ExecutorConfigView, ScriptContext,
};
use crate::builder::{
    archive_actions_for_repos, build_sequential_setup_chain, cleanup_actions_for_repos,
    script_requests, script_request_of, setup_action_for_repo,
};
use crate::error::ContainerError;
use crate::lifecycle::run_reason_at;
use crate::model::{
    repo_views, ExecutionProcess, ExecutionProcessRunReason, ExecutionProcessStatus, Repo, RepoView,
    Workspace,
};
use crate::text::{clone_non_empty, non_empty, opt_text};

verus! {

/// One execution to start: an action and the reason it runs under.
#[derive(Debug)]
pub struct ProcessStart {
    pub action: ExecutorAction,
    pub run_reason: ExecutionProcessRunReason,
}

impl View for ProcessStart {
    type V = (Seq<ExecutorActionTypeView>, ExecutionProcessRunReason);

    open spec fn view(&self) -> (Seq<ExecutorActionTypeView>, ExecutionProcessRunReason) {
        (self.action@, self.run_reason)
    }
}

/// The executions that open a workspace.
#[derive(Debug)]
pub struct WorkspaceStart {
    /// The executor recorded on the new session.
    pub session_executor: String,
    /// Setup scripts that run on their own, beside the main execution. A
    /// failure to start one of them does not keep the others, or the main
    /// execution, from starting.
    pub setup_starts: Vec<ProcessStart>,
    /// The execution whose start decides whether the workspace started.
    pub main_start: ProcessStart,
}

/// Whether every repository that has a setup script lets it run in
/// parallel. True where no repository has one.
pub open spec fn all_setups_parallel(repos: Seq<RepoView>) -> bool {
    forall|i: int|
        0 <= i < repos.len() && (#[trigger] repos[i]).setup_script is Some
            ==> repos[i].parallel_setup_script
}

/// The chain of the coding agent: its first request, which carries the
/// workspace's agent directory unless that is absent or empty, then the
/// cleanup scripts of the repositories.
pub open spec fn coding_chain(
    repos: Seq<RepoView>,
    executor_config: ExecutorConfigView,
    prompt: Seq<char>,
    agent_working_dir: Option<Seq<char>>,
) -> Seq<ExecutorActionTypeView> {
    seq![
        ExecutorActionTypeView::CodingAgentInitialRequest(
            CodingAgentInitialRequestView {
                prompt,
                executor_config,
                working_dir: non_empty(agent_working_dir),
            },
        ),
    ] + script_requests(repos, ScriptContext::CleanupScript)
}

/// The stand-alone setup executions of parallel mode: one single-request
/// chain per repository that has a setup script, in repository order.
pub open spec fn parallel_setup_starts(repos: Seq<RepoView>) -> Seq<
    (Seq<ExecutorActionTypeView>, ExecutionProcessRunReason),
> {
    script_requests(repos, ScriptContext::SetupScript).map_values(
        |t: ExecutorActionTypeView| (seq![t], ExecutionProcessRunReason::SetupScript),
    )
}

/// Whether every repository with a setup script lets it run in parallel.
pub fn setups_run_in_parallel(repos: &Vec<Repo>) -> (parallel: bool)
    ensures
        parallel == all_setups_parallel(repo_views(repos@)),
{
    let ghost views = repo_views(repos@);
    let mut i: usize = 0;
    while i < repos.len()
        invariant
            0 <= i <= repos.len(),
            views == repo_views(repos@),
            forall|j: int|
                0 <= j < i && (#[trigger] views[j]).setup_script is Some
                    ==> views[j].parallel_setup_script,
        decreases repos.len() - i,
    {
        if repos[i].setup_script.is_some() && !repos[i].parallel_setup_script {
            proof {
                assert(views[i as int].setup_script is Some);
                assert(!views[i as int].parallel_setup_script);
            }
            return false;
        }
        i = i + 1;
    }
    true
}

/// Plans the first run of a workspace for a prompt.
///
/// The coding agent's action carries the prompt, the executor and the
/// workspace's agent directory, and is followed by the cleanup scripts.
/// Where every setup script may run in parallel, each is started on its
/// own under the setup reason and the agent's chain is the main execution,
/// under the coding-agent reason. Otherwise the setup scripts are chained
/// in front of the agent's chain, and that one chain is the only execution,
/// under the setup reason.
pub fn start_workspace(
    workspace: &Workspace,
    repos: &Vec<Repo>,
    executor_config: ExecutorConfig,
    prompt: String,
) -> (plan: WorkspaceStart)
    ensures
        plan.session_executor@ == executor_config.executor@,
        all_setups_parallel(repo_views(repos@)) ==> {
            &&& plan.setup_starts@.map_values(|s: ProcessStart| s@) == parallel_setup_starts(
                repo_views(repos@),
            )
            &&& plan.main_start@ == (
                coding_chain(
                    repo_views(repos@),
                    executor_config@,
                    prompt@,
                    opt_text(workspace.agent_working_dir),
                ),
                ExecutionProcessRunReason::CodingAgent,
            )
        },
        !all_setups_parallel(repo_views(repos@)) ==> {
            &&& plan.setup_starts@.len() == 0
            &&& plan.main_start@ == (
                script_requests(repo_views(repos@), ScriptContext::SetupScript) + coding_chain(
                    repo_views(repos@),
                    executor_config@,
                    prompt@,
                    opt_text(workspace.agent_working_dir),
                ),
                ExecutionProcessRunReason::SetupScript,
            )
        },
{
    let ghost views = repo_views(repos@);
    let session_executor = executor_config.executor.clone();
    let working_dir = clone_non_empty(&workspace.agent_working_dir);
    let cleanup_action = cleanup_actions_for_repos(repos);
    let cleanup_boxed = match cleanup_action {
        Some(cleanup) => Some(Box::new(cleanup)),
        None => None,
    };
    let coding_action = ExecutorAction::new(
        ExecutorActionType::CodingAgentInitialRequest(
            CodingAgentInitialRequest { prompt, executor_config, working_dir },
        ),
        cleanup_boxed,
    );
    proof {
        let first = seq![coding_action.typ@];
        assert(first + Seq::<ExecutorActionTypeView>::empty() =~= first);
    }
    let mut setup_starts: Vec<ProcessStart> = Vec::new();
    if setups_run_in_parallel(repos) {
        let ghost pick = |r: RepoView| script_request_of(r, ScriptContext::SetupScript);
        let ghost wrap = |t: ExecutorActionTypeView|
            (seq![t], ExecutionProcessRunReason::SetupScript);
        let ghost shown = |s: ProcessStart| s@;
        let mut i: usize = 0;
        proof {
            assert(setup_starts@.map_values(shown) =~= views.take(0).filter_map(pick).map_values(
                wrap,
            ));
        }
        while i < repos.len()
            invariant
                0 <= i <= repos.len(),
                views == repo_views(repos@),
                pick == (|r: RepoView| script_request_of(r, ScriptContext::SetupScript)),
                wrap == (|t: ExecutorActionTypeView|
                    (seq![t], ExecutionProcessRunReason::SetupScript)),
                shown == (|s: ProcessStart| s@),
                setup_starts@.map_values(shown) == views.take(i as int).filter_map(
                    pick,
                ).map_values(wrap),
            decreases repos.len() - i,
        {
            proof {
                views.lemma_filter_map_take_succ(pick, i as int);
            }
            match setup_action_for_repo(&repos[i]) {
                Some(action) => {
                    let ghost before = setup_starts@;
                    let ghost request = script_request_of(
                        views[i as int],
                        ScriptContext::SetupScript,
                    ).unwrap();
                    let start = ProcessStart {
                        action,
                        run_reason: ExecutionProcessRunReason::SetupScript,
                    };
                    setup_starts.push(start);
                    proof {
                        let earlier = views.take(i as int).filter_map(pick);
                        assert(setup_starts@.map_values(shown) =~= before.map_values(shown).push(
                            shown(start),
                        ));
                        assert((earlier + seq![request]).map_values(wrap) =~= earlier.map_values(
                            wrap,
                        ).push(wrap(request)));
                    }
                },
                None => {
                    proof {
                        let earlier = views.take(i as int).filter_map(pick);
                        assert(earlier + Seq::<ExecutorActionTypeView>::empty() =~= earlier);
                    }
                },
            }
            i = i + 1;
        }
        proof {
            assert(views.take(repos.len() as int) =~= views);
        }
        WorkspaceStart {
            session_executor,
            setup_starts,
            main_start: ProcessStart {
                action: coding_action,
                run_reason: ExecutionProcessRunReason::CodingAgent,
            },
        }
    } else {
        let main_action = build_sequential_setup_chain(repos, coding_action);
        WorkspaceStart {
            session_executor,
            setup_starts,
            main_start: ProcessStart {
                action: main_action,
                run_reason: ExecutionProcessRunReason::SetupScript,
            },
        }
    }
}

/// Every request of a script chain is a script request.
pub proof fn lemma_script_requests_are_scripts(repos: Seq<RepoView>, context: ScriptContext)
    ensures
        forall|j: int|
            0 <= j < script_requests(repos, context).len() ==> (#[trigger] script_requests(
                repos,
                context,
            )[j]).is_script(),
    decreases repos.len(),
{
    let pick = |r: RepoView| script_request_of(r, context);
    if repos.len() > 0 {
        lemma_script_requests_are_scripts(repos.drop_last(), context);
        let earlier = repos.drop_last().filter_map(pick);
        assert forall|j: int| 0 <= j < repos.filter_map(pick).len() implies (
        #[trigger] repos.filter_map(pick)[j]).is_script() by {
            if j < earlier.len() {
                assert(repos.filter_map(pick)[j] == earlier[j]);
                assert(script_requests(repos.drop_last(), context)[j].is_script());
            }
        }
    }
}

/// Where some setup script may not run in parallel, there is a setup
/// script.
pub proof fn lemma_sequential_has_setup(repos: Seq<RepoView>)
    requires
        !all_setups_parallel(repos),
    ensures
        script_requests(repos, ScriptContext::SetupScript).len() >= 1,
    decreases repos.len(),
{
    let i = choose|i: int|
        0 <= i < repos.len() && (#[trigger] repos[i]).setup_script is Some
            && !repos[i].parallel_setup_script;
    if repos.last().setup_script is None {
        assert(i < repos.len() - 1);
        assert(repos.drop_last()[i] == repos[i]);
        lemma_sequential_has_setup(repos.drop_last());
    }
}

/// The chain of a sequential start is walked one process at a time: its
/// setup scripts run under the setup reason, the agent under the
/// coding-agent reason and the first cleanup script under the cleanup
/// reason. A further cleanup script follows a script, and so runs under
/// the setup reason.
pub proof fn lemma_sequential_chain_reasons(
    repos: Seq<RepoView>,
    executor_config: ExecutorConfigView,
    prompt: Seq<char>,
    agent_working_dir: Option<Seq<char>>,
    i: int,
)
    requires
        !all_setups_parallel(repos),
        0 <= i < (script_requests(repos, ScriptContext::SetupScript) + coding_chain(
            repos,
            executor_config,
            prompt,
            agent_working_dir,
        )).len(),
    ensures
        ({
            let setups = script_requests(repos, ScriptContext::SetupScript);
            let chain = setups + coding_chain(repos, executor_config, prompt, agent_working_dir);
            &&& setups.len() >= 1
            &&& run_reason_at(chain, ExecutionProcessRunReason::SetupScript, i) == (if i
                < setups.len() {
                ExecutionProcessRunReason::SetupScript
            } else if i == setups.len() {
                ExecutionProcessRunReason::CodingAgent
            } else if i == setups.len() + 1 {
                ExecutionProcessRunReason::CleanupScript
            } else {
                ExecutionProcessRunReason::SetupScript
            })
        }),
{
    let setups = script_requests(repos, ScriptContext::SetupScript);
    let cleanups = script_requests(repos, ScriptContext::CleanupScript);
    lemma_sequential_has_setup(repos);
    lemma_script_requests_are_scripts(repos, ScriptContext::SetupScript);
    lemma_script_requests_are_scripts(repos, ScriptContext::CleanupScript);
    let chain = setups + coding_chain(repos, executor_config, prompt, agent_working_dir);
    let n = setups.len() as int;
    assert forall|j: int| 0 <= j < chain.len() implies (#[trigger] chain[j]).is_script() == (j
        != n) by {
        if j < n {
            assert(chain[j] == setups[j]);
        } else if j > n {
            assert(chain[j] == cleanups[j - n - 1]);
        }
    }
    if i > 0 {
        assert(chain[i - 1].is_script() == (i - 1 != n));
        assert(chain[i].is_script() == (i != n));
    }
}

/// Whether the check for running processes lets an archive script run:
/// only where it succeeded and found none. A check that failed counts as
/// a running process.
pub fn archive_may_run(running_check: Option<bool>) -> (open: bool)
    ensures
        open == (running_check == Some(false)),
{
    match running_check {
        Some(running) => !running,
        None => false,
    }
}

/// Decides whether an archive script runs for a workspace.
///
/// `running_check` says whether the workspace has a running process other
/// than a dev server, or is `None` where that could not be found out.
/// `container_ready` says whether the container could be materialised. The
/// archive chain runs, under the archive reason, where nothing else runs,
/// the container is ready and some repository has an archive script; in
/// every other case nothing is started.
pub fn try_run_archive_script(
    running_check: Option<bool>,
    container_ready: bool,
    repos: &Vec<Repo>,
) -> (start: Option<ProcessStart>)
    ensures
        start is Some <==> (running_check == Some(false) && container_ready && script_requests(
            repo_views(repos@),
            ScriptContext::ArchiveScript,
        ).len() > 0),
        start is Some ==> start.unwrap()@ == (
            script_requests(repo_views(repos@), ScriptContext::ArchiveScript),
            ExecutionProcessRunReason::ArchiveScript,
        ),
{
    if !archive_may_run(running_check) || !container_ready {
        return None;
    }
    match archive_actions_for_repos(repos) {
        Some(action) => Some(
            ProcessStart { action, run_reason: ExecutionProcessRunReason::ArchiveScript },
        ),
        None => None,
    }
}

/// The id of a process that archiving stops: a running dev server.
pub open spec fn running_dev_server(process: ExecutionProcess) -> Option<u128> {
    if process.status == ExecutionProcessStatus::Running && process.run_reason
        == ExecutionProcessRunReason::DevServer {
        Some(process.id)
    } else {
        None
    }
}

/// What archiving a workspace does before its archive script is tried.
#[derive(Debug)]
pub struct ArchivePlan {
    /// The value the workspace's archived flag is set to.
    pub archived: bool,
    /// The dev servers to kill, each on a best-effort basis.
    pub stop_dev_servers: Vec<u128>,
}

/// Plans the archiving of a workspace from its processes: the workspace is
/// flagged as archived and every running dev server is stopped.
pub fn archive_workspace(processes: &Vec<ExecutionProcess>) -> (plan: ArchivePlan)
    ensures
        plan.archived,
        plan.stop_dev_servers@ == processes@.filter_map(
            |p: ExecutionProcess| running_dev_server(p),
        ),
{
    let ghost pick = |p: ExecutionProcess| running_dev_server(p);
    let mut ids: Vec<u128> = Vec::new();
    let mut i: usize = 0;
    while i < processes.len()
        invariant
            0 <= i <= processes.len(),
            pick == (|p: ExecutionProcess| running_dev_server(p)),
            ids@ == processes@.take(i as int).filter_map(pick),
        decreases processes.len() - i,
    {
        proof {
            processes@.lemma_filter_map_take_succ(pick, i as int);
        }
        let running = match processes[i].status {
            ExecutionProcessStatus::Running => true,
            _ => false,
        };
        let dev_server = match processes[i].run_reason {
            ExecutionProcessRunReason::DevServer => true,
            _ => false,
        };
        if running && dev_server {
            ids.push(processes[i].id);
        }
        i = i + 1;
    }
    proof {
        assert(processes@.take(processes.len() as int) =~= processes@);
    }
    ArchivePlan { archived: true, stop_dev_servers: ids }
}

/// Where an executor looks for its options.
#[derive(Debug)]
pub struct DiscoveryPaths {
    /// The root of the workspace's container, where options are discovered
    /// for a workspace.
    pub workspace_root: Option<String>,
    /// The agent's directory below the root, where the workspace sets one.
    pub working_dir: Option<String>,
    /// The path of the repository in question.
    pub repo_path: Option<String>,
}

/// The container path a workspace has on record, if it is not empty.
pub fn recorded_container_ref(workspace: &Workspace) -> (container_ref: Option<String>)
    ensures
        opt_text(container_ref) == non_empty(opt_text(workspace.container_ref)),
{
    clone_non_empty(&workspace.container_ref)
}

/// Resolves where an executor discovers its options for a workspace, from
/// the container path in use. An empty path is refused. The working
/// directory is the workspace's agent directory unless that is absent or
/// empty, and the repository path is given where the workspace has exactly
/// one repository.
pub fn discover_executor_options(
    container_ref: &str,
    workspace: &Workspace,
    repos: &Vec<Repo>,
) -> (paths: Result<DiscoveryPaths, ContainerError>)
    ensures
        container_ref@.len() == 0 ==> (paths matches Err(ContainerError::Other(text)) && text@
            == "Workspace path is empty"@),
        container_ref@.len() > 0 ==> (paths matches Ok(p) && {
            &&& opt_text(p.workspace_root) == Some(container_ref@)
            &&& opt_text(p.working_dir) == non_empty(
                opt_text(workspace.agent_working_dir),
            )
            &&& opt_text(p.repo_path) == (if repos@.len() == 1 {
                Some(repos@[0].path@)
            } else {
                None
            })
        }),
{
    if container_ref.is_empty() {
        return Err(ContainerError::Other(String::from_str("Workspace path is empty")));
    }
    let working_dir = clone_non_empty(&workspace.agent_working_dir);
    let repo_path = if repos.len() == 1 {
        Some(repos[0].path.clone())
    } else {
        None
    };
    Ok(
        DiscoveryPaths {
            workspace_root: Some(String::from_str(container_ref)),
            working_dir,
            repo_path,
        },
    )
}

/// Resolves where an executor discovers its options outside a workspace:
/// in the given repository, where one was found, and nowhere else.
pub fn discover_repo_options(repo: Option<&Repo>) -> (paths: DiscoveryPaths)
    ensures
        paths.workspace_root is None,
        paths.working_dir is None,
        opt_text(paths.repo_path) == (match repo {
            Some(r) => Some(r.path@),
            None => None,
        }),
{
    let repo_path = match repo {
        Some(r) => Some(r.path.clone()),
        None => None,
    };
    DiscoveryPaths { workspace_root: None, working_dir: None, repo_path }
}

} // verus!
