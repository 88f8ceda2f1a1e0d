//! The execution lifecycle: what a new execution records, when a finished
//! one is finalized, which action follows it, and which processes a stop
//! request reaches.

use vstd::prelude::*;
use vstd::string::*;
use crate::action::{
    ExecutorAction, ExecutorActionType, ExecutorActionTypeView, ExecutorConfig, ExecutorConfigView,
};
use crate::error::{ContainerError, ExecutorError};
use crate::model::{
    CreateExecutionProcessRepoState, ExecutionContext, ExecutionProcess, ExecutionProcessRunReason,
    ExecutionProcessStatus, Session, Workspace,
};
use crate::text::{clone_opt_text, concat2, opt_text};

verus! {

/// The head commit observed in one repository's worktree; `None` where it
/// could not be read.
#[derive(Debug)]
pub struct RepoHead {
    pub repo_id: u128,
    pub head_commit: Option<String>,
}

impl View for RepoHead {
    type V = (u128, Option<Seq<char>>);

    open spec fn view(&self) -> (u128, Option<Seq<char>>) {
        (self.repo_id, opt_text(self.head_commit))
    }
}

/// Where an executor's log normaliser is to run.
#[derive(Debug)]
pub struct NormalizeTarget {
    pub executor_config: ExecutorConfig,
    /// The request's working directory, relative to the workspace's
    /// current directory; `None` for that directory itself.
    pub working_dir: Option<String>,
}

/// Everything a new execution records before its child is spawned.
#[derive(Debug)]
pub struct ExecutionStart {
    pub session_id: u128,
    pub executor_action: ExecutorAction,
    pub run_reason: ExecutionProcessRunReason,
    pub repo_states: Vec<CreateExecutionProcessRepoState>,
    /// Whether the workspace's archived flag is cleared.
    pub clear_archived: bool,
    /// The prompt of the coding-agent turn to record, if the action has one.
    pub coding_agent_prompt: Option<String>,
    /// Where log normalisation runs once the child is up, if anywhere.
    pub normalize: Option<NormalizeTarget>,
}

/// The model of a repository state at process creation: repository,
/// before, after and merge commit.
pub open spec fn created_state_view(state: CreateExecutionProcessRepoState) -> (
    u128,
    Option<Seq<char>>,
    Option<Seq<char>>,
    Option<Seq<char>>,
) {
    (
        state.repo_id,
        opt_text(state.before_head_commit),
        opt_text(state.after_head_commit),
        opt_text(state.merge_commit),
    )
}

/// The state recorded for an observed head: the head is the before commit,
/// and neither an after commit nor a merge commit is set.
pub open spec fn initial_state_of(head: RepoHead) -> (
    u128,
    Option<Seq<char>>,
    Option<Seq<char>>,
    Option<Seq<char>>,
) {
    (head.repo_id, opt_text(head.head_commit), None, None)
}

/// The executor and working directory a request's logs are normalised
/// with when the request is started; a script has none.
pub open spec fn normalization_of(typ: ExecutorActionTypeView) -> Option<
    (ExecutorConfigView, Option<Seq<char>>),
> {
    match typ {
        ExecutorActionTypeView::ScriptRequest(_) => None,
        ExecutorActionTypeView::CodingAgentInitialRequest(r) => Some(
            (r.executor_config, r.working_dir),
        ),
        ExecutorActionTypeView::CodingAgentFollowUpRequest(r) => Some(
            (r.executor_config, r.working_dir),
        ),
        ExecutorActionTypeView::ReviewRequest(r) => Some((r.executor_config, r.working_dir)),
    }
}

/// The model of an optional normalisation target.
pub open spec fn normalize_view(target: Option<NormalizeTarget>) -> Option<
    (ExecutorConfigView, Option<Seq<char>>),
> {
    match target {
        Some(t) => Some((t.executor_config@, opt_text(t.working_dir))),
        None => None,
    }
}

/// Where the logs of a freshly started request are normalised.
pub fn normalization_target(typ: &ExecutorActionType) -> (target: Option<NormalizeTarget>)
    ensures
        normalize_view(target) == normalization_of(typ@),
{
    match typ {
        ExecutorActionType::ScriptRequest(_) => None,
        ExecutorActionType::CodingAgentInitialRequest(r) => Some(
            NormalizeTarget {
                executor_config: r.executor_config.clone(),
                working_dir: clone_opt_text(&r.working_dir),
            },
        ),
        ExecutorActionType::CodingAgentFollowUpRequest(r) => Some(
            NormalizeTarget {
                executor_config: r.executor_config.clone(),
                working_dir: clone_opt_text(&r.working_dir),
            },
        ),
        ExecutorActionType::ReviewRequest(r) => Some(
            NormalizeTarget {
                executor_config: r.executor_config.clone(),
                working_dir: clone_opt_text(&r.working_dir),
            },
        ),
    }
}

/// Prepares a new execution of `executor_action` in a session.
///
/// `heads` holds one entry per repository of the workspace, with the head
/// commit observed in its worktree just now. The execution is refused when
/// the workspace has no repositories or no container. Otherwise every
/// repository gets a state whose before commit is the observed head, the
/// archived flag is cleared unless an archive script is run, and a
/// prompt-bearing action records its prompt.
pub fn start_execution(
    workspace: &Workspace,
    session: &Session,
    heads: &Vec<RepoHead>,
    executor_action: &ExecutorAction,
    run_reason: ExecutionProcessRunReason,
) -> (start: Result<ExecutionStart, ContainerError>)
    ensures
        heads@.len() == 0 ==> (start matches Err(ContainerError::Other(text)) && text@
            == "Workspace has no repositories configured"@),
        heads@.len() > 0 && workspace.container_ref is None ==> (start matches Err(
            ContainerError::Other(text),
        ) && text@ == "Container ref not found"@),
        heads@.len() > 0 && workspace.container_ref is Some ==> (start matches Ok(s) && {
            &&& s.session_id == session.id
            &&& s.executor_action@ == executor_action@
            &&& s.run_reason == run_reason
            &&& s.clear_archived == (run_reason != ExecutionProcessRunReason::ArchiveScript)
            &&& opt_text(s.coding_agent_prompt) == executor_action@[0].prompt()
            &&& normalize_view(s.normalize) == normalization_of(executor_action@[0])
            &&& s.repo_states@.map_values(|st: CreateExecutionProcessRepoState| created_state_view(st))
                == heads@.map_values(|h: RepoHead| initial_state_of(h))
        }),
{
    if heads.len() == 0 {
        return Err(
            ContainerError::Other(String::from_str("Workspace has no repositories configured")),
        );
    }
    if workspace.container_ref.is_none() {
        return Err(ContainerError::Other(String::from_str("Container ref not found")));
    }
    let ghost made = |st: CreateExecutionProcessRepoState| created_state_view(st);
    let ghost wanted = |h: RepoHead| initial_state_of(h);
    let mut repo_states: Vec<CreateExecutionProcessRepoState> = Vec::new();
    let mut i: usize = 0;
    while i < heads.len()
        invariant
            0 <= i <= heads.len(),
            made == (|st: CreateExecutionProcessRepoState| created_state_view(st)),
            wanted == (|h: RepoHead| initial_state_of(h)),
            repo_states@.map_values(made) == heads@.take(i as int).map_values(wanted),
        decreases heads.len() - i,
    {
        let ghost before = repo_states@;
        let state = CreateExecutionProcessRepoState {
            repo_id: heads[i].repo_id,
            before_head_commit: clone_opt_text(&heads[i].head_commit),
            after_head_commit: None,
            merge_commit: None,
        };
        repo_states.push(state);
        proof {
            assert(heads@.take(i as int + 1) =~= heads@.take(i as int).push(heads@[i as int]));
            assert(repo_states@.map_values(made) =~= before.map_values(made).push(made(state)));
            assert(heads@.take(i as int + 1).map_values(wanted) =~= heads@.take(
                i as int,
            ).map_values(wanted).push(wanted(heads@[i as int])));
        }
        i = i + 1;
    }
    proof {
        assert(heads@.take(heads.len() as int) =~= heads@);
    }
    let clear_archived = match run_reason {
        ExecutionProcessRunReason::ArchiveScript => false,
        _ => true,
    };
    let typ = executor_action.typ();
    Ok(
        ExecutionStart {
            session_id: session.id,
            executor_action: executor_action.clone(),
            run_reason,
            repo_states,
            clear_archived,
            coding_agent_prompt: typ.prompt(),
            normalize: normalization_target(typ),
        },
    )
}

/// The kind of a normalised conversation entry that reports an error.
#[derive(Clone, Copy, Debug, PartialEq, Eq, Structural)]
pub enum NormalizedEntryError {
    SetupRequired,
    Other,
}

/// A normalised error entry and the conversation index it is added at.
#[derive(Debug)]
pub struct ErrorEntryPatch {
    pub index: usize,
    pub error_type: NormalizedEntryError,
    pub content: String,
}

/// What is recorded when the child of a new execution could not be spawned.
#[derive(Debug)]
pub struct StartFailure {
    /// The status the process row is given.
    pub status: ExecutionProcessStatus,
    /// Its exit code: none.
    pub exit_code: Option<i64>,
    /// The text of the error line appended to the execution's log.
    pub stderr_line: String,
    /// The setup-required entry appended after it, where the executable is
    /// missing.
    pub setup_required: Option<ErrorEntryPatch>,
}

/// The conversation index at which a setup-required entry is added.
pub const SETUP_REQUIRED_ENTRY_INDEX: usize = 2;

/// The model of an optional error entry: index, kind and content.
pub open spec fn entry_view(entry: Option<ErrorEntryPatch>) -> Option<
    (usize, NormalizedEntryError, Seq<char>),
> {
    match entry {
        Some(e) => Some((e.index, e.error_type, e.content@)),
        None => None,
    }
}

/// The setup-required entry an error calls for, if it says that an
/// executable is missing.
pub open spec fn setup_required_of(error: ContainerError) -> Option<
    (usize, NormalizedEntryError, Seq<char>),
> {
    match error.missing_program() {
        Some(program) => Some(
            (
                SETUP_REQUIRED_ENTRY_INDEX,
                NormalizedEntryError::SetupRequired,
                "The required executable `"@ + program + "` is not installed."@,
            ),
        ),
        None => None,
    }
}

/// What is recorded for an execution whose child could not be spawned: the
/// process fails without an exit code, the error is written to its log as
/// an error line, and a missing executable adds a setup-required entry.
pub fn start_failure(error: &ContainerError) -> (failure: StartFailure)
    ensures
        failure.status == ExecutionProcessStatus::Failed,
        failure.exit_code is None,
        failure.stderr_line@ == "Failed to start execution: "@ + error.spec_message(),
        entry_view(failure.setup_required) == setup_required_of(*error),
{
    let text = error.message();
    let stderr_line = concat2("Failed to start execution: ", text.as_str());
    let setup_required = match error {
        ContainerError::ExecutorError(ExecutorError::ExecutableNotFound { program }) => {
            let mut content = concat2("The required executable `", program.as_str());
            content.append("` is not installed.");
            Some(
                ErrorEntryPatch {
                    index: SETUP_REQUIRED_ENTRY_INDEX,
                    error_type: NormalizedEntryError::SetupRequired,
                    content,
                },
            )
        },
        _ => None,
    };
    StartFailure {
        status: ExecutionProcessStatus::Failed,
        exit_code: None,
        stderr_line,
        setup_required,
    }
}

/// Whether a finished process ends its chain. A dev server never does, nor
/// does a setup script without a successor (one started on its own, beside
/// the agent). Of the others a failed or killed process always does, and a
/// completed one does where no action follows.
pub open spec fn finalizes(
    run_reason: ExecutionProcessRunReason,
    status: ExecutionProcessStatus,
    has_next_action: bool,
) -> bool {
    if run_reason == ExecutionProcessRunReason::DevServer {
        false
    } else if run_reason == ExecutionProcessRunReason::SetupScript && !has_next_action {
        false
    } else if status == ExecutionProcessStatus::Failed || status
        == ExecutionProcessStatus::Killed {
        true
    } else {
        !has_next_action
    }
}

/// Whether the process of `ctx` ends its chain.
pub fn should_finalize(ctx: &ExecutionContext) -> (finalize: bool)
    ensures
        finalize == finalizes(
            ctx.execution_process.run_reason,
            ctx.execution_process.status,
            ctx.execution_process.executor_action@.len() > 1,
        ),
{
    let has_next_action = ctx.execution_process.executor_action.next_action().is_some();
    match ctx.execution_process.run_reason {
        ExecutionProcessRunReason::DevServer => false,
        ExecutionProcessRunReason::SetupScript => {
            if !has_next_action {
                false
            } else {
                match ctx.execution_process.status {
                    ExecutionProcessStatus::Failed | ExecutionProcessStatus::Killed => true,
                    _ => false,
                }
            }
        },
        _ => {
            match ctx.execution_process.status {
                ExecutionProcessStatus::Failed | ExecutionProcessStatus::Killed => true,
                _ => !has_next_action,
            }
        },
    }
}

/// The reason under which the successor of a request runs: a script after
/// a script is a setup script, a script after an agent or a review is a
/// cleanup script, and an agent or a review is always the coding agent.
pub open spec fn next_run_reason(
    current: ExecutorActionTypeView,
    next: ExecutorActionTypeView,
) -> ExecutionProcessRunReason {
    if next.is_script() {
        if current.is_script() {
            ExecutionProcessRunReason::SetupScript
        } else {
            ExecutionProcessRunReason::CleanupScript
        }
    } else {
        ExecutionProcessRunReason::CodingAgent
    }
}

/// The reason under which the action at position `i` of a chain runs
/// when the chain is walked one process at a time and its head runs under
/// `head`.
pub open spec fn run_reason_at(
    chain: Seq<ExecutorActionTypeView>,
    head: ExecutionProcessRunReason,
    i: int,
) -> ExecutionProcessRunReason {
    if i == 0 {
        head
    } else {
        next_run_reason(chain[i - 1], chain[i])
    }
}

/// The next execution of a chain.
#[derive(Debug)]
pub struct NextStart {
    pub action: ExecutorAction,
    pub run_reason: ExecutionProcessRunReason,
}

/// The execution that follows the process of `ctx` in its chain: none where
/// its action has no successor, else the rest of the chain under the reason
/// that the two requests call for.
pub fn try_start_next_action(ctx: &ExecutionContext) -> (next: Option<NextStart>)
    ensures
        next is Some <==> ctx.execution_process.executor_action@.len() > 1,
        next is Some ==> next.unwrap().action@
            == ctx.execution_process.executor_action@.drop_first(),
        next is Some ==> next.unwrap().run_reason == next_run_reason(
            ctx.execution_process.executor_action@[0],
            ctx.execution_process.executor_action@[1],
        ),
{
    let action = &ctx.execution_process.executor_action;
    match action.next_action() {
        None => None,
        Some(next_action) => {
            let run_reason = if next_action.typ().is_script() {
                if action.typ().is_script() {
                    ExecutionProcessRunReason::SetupScript
                } else {
                    ExecutionProcessRunReason::CleanupScript
                }
            } else {
                ExecutionProcessRunReason::CodingAgent
            };
            Some(NextStart { action: next_action.clone(), run_reason })
        },
    }
}

/// What follows the end of a process.
#[derive(Debug)]
pub enum ExitStep {
    /// The chain ends here: the workspace is finalized and nothing more
    /// is started.
    Finalize,
    /// The chain goes on with its next action.
    StartNext(NextStart),
    /// Nothing follows.
    Rest,
}

/// Decides what follows the end of the process of `ctx`. A process that
/// finalizes ends its chain, whatever would follow it. Any other process
/// is followed by the next action of its chain, if it has one.
pub fn after_exit(ctx: &ExecutionContext) -> (step: ExitStep)
    ensures
        step is Finalize <==> finalizes(
            ctx.execution_process.run_reason,
            ctx.execution_process.status,
            ctx.execution_process.executor_action@.len() > 1,
        ),
        step is StartNext <==> !(step is Finalize)
            && ctx.execution_process.executor_action@.len() > 1,
        step matches ExitStep::StartNext(next) ==> next.action@
            == ctx.execution_process.executor_action@.drop_first() && next.run_reason
            == next_run_reason(
            ctx.execution_process.executor_action@[0],
            ctx.execution_process.executor_action@[1],
        ),
{
    if should_finalize(ctx) {
        ExitStep::Finalize
    } else {
        match try_start_next_action(ctx) {
            Some(next) => ExitStep::StartNext(next),
            None => ExitStep::Rest,
        }
    }
}

/// The id of a process that a stop request reaches: it is running, and it
/// is no dev server unless dev servers are included.
pub open spec fn stop_candidate(process: ExecutionProcess, include_dev_server: bool) -> Option<
    u128,
> {
    if process.status == ExecutionProcessStatus::Running && (include_dev_server
        || process.run_reason != ExecutionProcessRunReason::DevServer) {
        Some(process.id)
    } else {
        None
    }
}

/// The processes, among those of a workspace's sessions, that a stop
/// request kills, in the order given.
pub fn try_stop(processes: &Vec<ExecutionProcess>, include_dev_server: bool) -> (ids: Vec<u128>)
    ensures
        ids@ == processes@.filter_map(
            |p: ExecutionProcess| stop_candidate(p, include_dev_server),
        ),
{
    let ghost pick = |p: ExecutionProcess| stop_candidate(p, include_dev_server);
    let mut ids: Vec<u128> = Vec::new();
    let mut i: usize = 0;
    while i < processes.len()
        invariant
            0 <= i <= processes.len(),
            pick == (|p: ExecutionProcess| stop_candidate(p, include_dev_server)),
            ids@ == processes@.take(i as int).filter_map(pick),
        decreases processes.len() - i,
    {
        proof {
            processes@.lemma_filter_map_take_succ(pick, i as int);
        }
        let process = &processes[i];
        let running = match process.status {
            ExecutionProcessStatus::Running => true,
            _ => false,
        };
        let dev_server = match process.run_reason {
            ExecutionProcessRunReason::DevServer => true,
            _ => false,
        };
        if running && (include_dev_server || !dev_server) {
            ids.push(process.id);
        }
        i = i + 1;
    }
    proof {
        assert(processes@.take(processes.len() as int) =~= processes@);
    }
    ids
}

/// The status of a process once it has been asked to stop with `status`:
/// a running process takes the status, and any other keeps its own.
pub open spec fn stopped_status(
    current: ExecutionProcessStatus,
    status: ExecutionProcessStatus,
) -> ExecutionProcessStatus {
    if current == ExecutionProcessStatus::Running {
        status
    } else {
        current
    }
}

/// Stops a process with a final status. Only a running process changes;
/// the result says whether this one did, and so whether there is a child
/// to kill and a message store to close.
pub fn stop_execution(process: &mut ExecutionProcess, status: ExecutionProcessStatus) -> (stopped:
    bool)
    requires
        status != ExecutionProcessStatus::Running,
    ensures
        final(process).status == stopped_status(old(process).status, status),
        stopped == (old(process).status == ExecutionProcessStatus::Running),
        final(process).id == old(process).id,
        final(process).session_id == old(process).session_id,
        final(process).run_reason == old(process).run_reason,
        final(process).executor_action == old(process).executor_action,
        final(process).exit_code == old(process).exit_code,
        final(process).created_at == old(process).created_at,
{
    match process.status {
        ExecutionProcessStatus::Running => {
            process.status = status;
            true
        },
        _ => false,
    }
}

/// Stopping is idempotent: a process that has been stopped is not changed
/// by being stopped again, whatever status the second request names.
pub proof fn lemma_stop_is_idempotent(
    current: ExecutionProcessStatus,
    status: ExecutionProcessStatus,
    again: ExecutionProcessStatus,
)
    requires
        status != ExecutionProcessStatus::Running,
    ensures
        stopped_status(stopped_status(current, status), again) == stopped_status(current, status),
{
}

/// An after-head commit to record for one repository of a process.
#[derive(Debug)]
pub struct AfterHeadUpdate {
    pub execution_process_id: u128,
    pub repo_id: u128,
    pub after_head_commit: String,
}

impl View for AfterHeadUpdate {
    type V = (u128, u128, Seq<char>);

    open spec fn view(&self) -> (u128, u128, Seq<char>) {
        (self.execution_process_id, self.repo_id, self.after_head_commit@)
    }
}

/// The update an observed head calls for; none where the head could not
/// be read.
pub open spec fn after_head_of(process_id: u128, head: RepoHead) -> Option<
    (u128, u128, Seq<char>),
> {
    match head.head_commit {
        Some(commit) => Some((process_id, head.repo_id, commit@)),
        None => None,
    }
}

/// The after-head commits to record for a process that has reached its
/// end, from the heads observed in its repositories: one update per
/// repository whose head could be read, in the order given.
pub fn after_head_updates(process_id: u128, heads: &Vec<RepoHead>) -> (updates: Vec<
    AfterHeadUpdate,
>)
    ensures
        updates@.map_values(|u: AfterHeadUpdate| u@) == heads@.filter_map(
            |h: RepoHead| after_head_of(process_id, h),
        ),
{
    let ghost pick = |h: RepoHead| after_head_of(process_id, h);
    let ghost shown = |u: AfterHeadUpdate| u@;
    let mut updates: Vec<AfterHeadUpdate> = Vec::new();
    let mut i: usize = 0;
    while i < heads.len()
        invariant
            0 <= i <= heads.len(),
            pick == (|h: RepoHead| after_head_of(process_id, h)),
            shown == (|u: AfterHeadUpdate| u@),
            updates@.map_values(shown) == heads@.take(i as int).filter_map(pick),
        decreases heads.len() - i,
    {
        proof {
            heads@.lemma_filter_map_take_succ(pick, i as int);
        }
        match &heads[i].head_commit {
            Some(commit) => {
                let ghost before = updates@;
                let update = AfterHeadUpdate {
                    execution_process_id: process_id,
                    repo_id: heads[i].repo_id,
                    after_head_commit: commit.clone(),
                };
                updates.push(update);
                proof {
                    assert(updates@.map_values(shown) =~= before.map_values(shown) + seq![
                        shown(update),
                    ]);
                }
            },
            None => {},
        }
        i = i + 1;
    }
    proof {
        assert(heads@.take(heads.len() as int) =~= heads@);
    }
    updates
}

/// What the start-up sweep does to a row that is still marked running
/// although nothing runs it.
#[derive(Clone, Copy, Debug, PartialEq, Eq, Structural)]
pub struct OrphanCleanup {
    pub execution_process_id: u128,
    pub status: ExecutionProcessStatus,
    pub exit_code: Option<i64>,
}

/// The sweep of one row: a running row fails without an exit code, and
/// any other row is not touched.
pub open spec fn orphan_cleanup_of(process: ExecutionProcess) -> Option<OrphanCleanup> {
    if process.status == ExecutionProcessStatus::Running {
        Some(
            OrphanCleanup {
                execution_process_id: process.id,
                status: ExecutionProcessStatus::Failed,
                exit_code: None,
            },
        )
    } else {
        None
    }
}

/// Sweeps the rows found at start-up: every row that is still marked
/// running is orphaned and fails without an exit code, whatever it was
/// started for. Where the container of such a row still exists, the heads
/// observed in it then become the row's after commits, as
/// `after_head_updates` gives them.
pub fn cleanup_orphan_executions(processes: &Vec<ExecutionProcess>) -> (cleanups: Vec<
    OrphanCleanup,
>)
    ensures
        cleanups@ == processes@.filter_map(|p: ExecutionProcess| orphan_cleanup_of(p)),
{
    let ghost pick = |p: ExecutionProcess| orphan_cleanup_of(p);
    let mut cleanups: Vec<OrphanCleanup> = Vec::new();
    let mut i: usize = 0;
    while i < processes.len()
        invariant
            0 <= i <= processes.len(),
            pick == (|p: ExecutionProcess| orphan_cleanup_of(p)),
            cleanups@ == processes@.take(i as int).filter_map(pick),
        decreases processes.len() - i,
    {
        proof {
            processes@.lemma_filter_map_take_succ(pick, i as int);
        }
        match processes[i].status {
            ExecutionProcessStatus::Running => {
                cleanups.push(
                    OrphanCleanup {
                        execution_process_id: processes[i].id,
                        status: ExecutionProcessStatus::Failed,
                        exit_code: None,
                    },
                );
            },
            _ => {},
        }
        i = i + 1;
    }
    proof {
        assert(processes@.take(processes.len() as int) =~= processes@);
    }
    cleanups
}

} // verus!
