//! The records the service reasons about, as plain values.
//!
//! Identifiers are 128-bit numbers, commits are object-id strings and
//! creation times are integers that grow with time.

use vstd::prelude::*;
use crate::action::ExecutorAction;
use crate::text::opt_text;

verus! {

/// Where an execution process stands.
#[derive(Clone, Copy, Debug, PartialEq, Eq, Structural)]
pub enum ExecutionProcessStatus {
    Running,
    Completed,
    Failed,
    Killed,
}

/// Why an execution process was started.
#[derive(Clone, Copy, Debug, PartialEq, Eq, Structural)]
pub enum ExecutionProcessRunReason {
    SetupScript,
    CodingAgent,
    CleanupScript,
    ArchiveScript,
    DevServer,
}

/// A repository that can be materialised into workspaces. Its name is also
/// the name of its directory inside a container.
#[derive(Debug)]
pub struct Repo {
    pub id: u128,
    pub name: String,
    pub path: String,
    pub setup_script: Option<String>,
    pub cleanup_script: Option<String>,
    pub archive_script: Option<String>,
    pub parallel_setup_script: bool,
}

pub ghost struct RepoView {
    pub id: u128,
    pub name: Seq<char>,
    pub path: Seq<char>,
    pub setup_script: Option<Seq<char>>,
    pub cleanup_script: Option<Seq<char>>,
    pub archive_script: Option<Seq<char>>,
    pub parallel_setup_script: bool,
}

impl View for Repo {
    type V = RepoView;

    open spec fn view(&self) -> RepoView {
        RepoView {
            id: self.id,
            name: self.name@,
            path: self.path@,
            setup_script: opt_text(self.setup_script),
            cleanup_script: opt_text(self.cleanup_script),
            archive_script: opt_text(self.archive_script),
            parallel_setup_script: self.parallel_setup_script,
        }
    }
}

/// The views of a list of repositories, in the same order.
pub open spec fn repo_views(repos: Seq<Repo>) -> Seq<RepoView> {
    repos.map_values(|r: Repo| r@)
}

/// A workspace: a branch and, once provisioned, the path of its container.
#[derive(Debug)]
pub struct Workspace {
    pub id: u128,
    pub name: Option<String>,
    pub branch: String,
    pub container_ref: Option<String>,
    pub agent_working_dir: Option<String>,
    pub archived: bool,
}

/// A session: one ordered run of execution processes in a workspace.
#[derive(Debug)]
pub struct Session {
    pub id: u128,
    pub workspace_id: u128,
    pub executor: Option<String>,
}

/// One execution process of a session.
#[derive(Debug)]
pub struct ExecutionProcess {
    pub id: u128,
    pub session_id: u128,
    pub status: ExecutionProcessStatus,
    pub run_reason: ExecutionProcessRunReason,
    pub executor_action: ExecutorAction,
    pub exit_code: Option<i64>,
    pub created_at: i64,
}

/// The commits of one repository around one execution process.
#[derive(Debug)]
pub struct ExecutionProcessRepoState {
    pub execution_process_id: u128,
    pub repo_id: u128,
    pub before_head_commit: Option<String>,
    pub after_head_commit: Option<String>,
    pub merge_commit: Option<String>,
}

/// The repository state recorded when a process is created.
#[derive(Debug)]
pub struct CreateExecutionProcessRepoState {
    pub repo_id: u128,
    pub before_head_commit: Option<String>,
    pub after_head_commit: Option<String>,
    pub merge_commit: Option<String>,
}

/// A process together with the session, workspace and repositories it ran in.
#[derive(Debug)]
pub struct ExecutionContext {
    pub execution_process: ExecutionProcess,
    pub session: Session,
    pub workspace: Workspace,
    pub repos: Vec<Repo>,
}

} // verus!
