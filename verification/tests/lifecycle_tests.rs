use container_service::action::{
    CodingAgentFollowUpRequest, CodingAgentInitialRequest, ExecutorAction, ExecutorActionType,
    ExecutorConfig, ReviewRequest, ScriptContext, ScriptRequest, ScriptRequestLanguage,
};
use container_service::error::{ContainerError, ExecutorError};
use container_service::lifecycle::{
    after_exit, after_head_updates, cleanup_orphan_executions, normalization_target, should_finalize,
    start_execution, start_failure, stop_execution, try_start_next_action, try_stop,
    ExitStep, NormalizedEntryError, RepoHead, SETUP_REQUIRED_ENTRY_INDEX,
};
use container_service::model::{
    ExecutionContext, ExecutionProcess, ExecutionProcessRepoState, ExecutionProcessRunReason,
    ExecutionProcessStatus, Repo, Session, Workspace,
};
use container_service::notification::{completion_notification, finalize_task};
use container_service::reset::{
    check_reset_target, drop_at_and_after, recorded_before_commit, recorded_head, reset_session_to_process,
};
use container_service::workspace::archive_workspace;

fn config() -> ExecutorConfig {
    ExecutorConfig { executor: "CODEX".to_string(), variant: Some("fast".to_string()) }
}

fn script(next: Option<ExecutorAction>) -> ExecutorAction {
    ExecutorAction::new(
        ExecutorActionType::ScriptRequest(ScriptRequest {
            script: "run.sh".to_string(),
            language: ScriptRequestLanguage::Bash,
            context: ScriptContext::SetupScript,
            working_dir: Some("A".to_string()),
        }),
        next.map(Box::new),
    )
}

fn agent(next: Option<ExecutorAction>) -> ExecutorAction {
    ExecutorAction::new(
        ExecutorActionType::CodingAgentInitialRequest(CodingAgentInitialRequest {
            prompt: "do it".to_string(),
            executor_config: config(),
            working_dir: Some("sub".to_string()),
        }),
        next.map(Box::new),
    )
}

fn follow_up(next: Option<ExecutorAction>) -> ExecutorAction {
    ExecutorAction::new(
        ExecutorActionType::CodingAgentFollowUpRequest(CodingAgentFollowUpRequest {
            prompt: "more".to_string(),
            session_id: "s-1".to_string(),
            executor_config: config(),
            working_dir: None,
        }),
        next.map(Box::new),
    )
}

fn review(next: Option<ExecutorAction>) -> ExecutorAction {
    ExecutorAction::new(
        ExecutorActionType::ReviewRequest(ReviewRequest {
            prompt: "review".to_string(),
            executor_config: config(),
            working_dir: Some("rev".to_string()),
        }),
        next.map(Box::new),
    )
}

fn process(
    id: u128,
    session_id: u128,
    status: ExecutionProcessStatus,
    run_reason: ExecutionProcessRunReason,
    action: ExecutorAction,
    created_at: i64,
) -> ExecutionProcess {
    ExecutionProcess { id, session_id, status, run_reason, executor_action: action, exit_code: None, created_at }
}

fn context(p: ExecutionProcess, name: Option<&str>, executor: Option<&str>) -> ExecutionContext {
    ExecutionContext {
        execution_process: p,
        session: Session { id: 1, workspace_id: 9, executor: executor.map(|s| s.to_string()) },
        workspace: Workspace {
            id: 9,
            name: name.map(|s| s.to_string()),
            branch: "vk/ab12-fix".to_string(),
            container_ref: Some("/tmp/ws".to_string()),
            agent_working_dir: None,
            archived: false,
        },
        repos: Vec::new(),
    }
}

fn head(repo_id: u128, commit: Option<&str>) -> RepoHead {
    RepoHead { repo_id, head_commit: commit.map(|s| s.to_string()) }
}

#[test]
fn should_finalize_follows_the_truth_table() {
    let reasons = [
        ExecutionProcessRunReason::SetupScript,
        ExecutionProcessRunReason::CodingAgent,
        ExecutionProcessRunReason::CleanupScript,
        ExecutionProcessRunReason::ArchiveScript,
        ExecutionProcessRunReason::DevServer,
    ];
    let statuses = [
        ExecutionProcessStatus::Running,
        ExecutionProcessStatus::Completed,
        ExecutionProcessStatus::Failed,
        ExecutionProcessStatus::Killed,
    ];
    for reason in reasons {
        for status in statuses {
            for has_next in [false, true] {
                let action = if has_next { script(Some(agent(None))) } else { script(None) };
                let ctx = context(process(1, 1, status, reason, action, 0), None, None);
                let expected = if reason == ExecutionProcessRunReason::DevServer {
                    false
                } else if reason == ExecutionProcessRunReason::SetupScript && !has_next {
                    false
                } else if matches!(status, ExecutionProcessStatus::Failed | ExecutionProcessStatus::Killed) {
                    true
                } else {
                    !has_next
                };
                assert_eq!(should_finalize(&ctx), expected, "{:?} {:?} {}", reason, status, has_next);
            }
        }
    }
}

#[test]
fn should_finalize_named_cases() {
    let done = ExecutionProcessStatus::Completed;
    let ctx = context(process(1, 1, done, ExecutionProcessRunReason::CodingAgent, agent(None), 0), None, None);
    assert!(should_finalize(&ctx));
    let ctx = context(process(1, 1, done, ExecutionProcessRunReason::CodingAgent, agent(Some(script(None))), 0), None, None);
    assert!(!should_finalize(&ctx));
    let ctx = context(process(1, 1, ExecutionProcessStatus::Failed, ExecutionProcessRunReason::SetupScript, script(None), 0), None, None);
    assert!(!should_finalize(&ctx));
    let ctx = context(process(1, 1, ExecutionProcessStatus::Killed, ExecutionProcessRunReason::SetupScript, script(Some(agent(None))), 0), None, None);
    assert!(should_finalize(&ctx));
    let ctx = context(process(1, 1, ExecutionProcessStatus::Failed, ExecutionProcessRunReason::DevServer, script(None), 0), None, None);
    assert!(!should_finalize(&ctx));
}

#[test]
fn next_action_run_reason_table() {
    let running = ExecutionProcessStatus::Completed;
    let reason = ExecutionProcessRunReason::SetupScript;
    let cases: Vec<(ExecutorAction, Option<ExecutionProcessRunReason>)> = vec![
        (script(None), None),
        (agent(None), None),
        (script(Some(script(None))), Some(ExecutionProcessRunReason::SetupScript)),
        (agent(Some(script(None))), Some(ExecutionProcessRunReason::CleanupScript)),
        (follow_up(Some(script(None))), Some(ExecutionProcessRunReason::CleanupScript)),
        (review(Some(script(None))), Some(ExecutionProcessRunReason::CleanupScript)),
        (script(Some(agent(None))), Some(ExecutionProcessRunReason::CodingAgent)),
        (script(Some(follow_up(None))), Some(ExecutionProcessRunReason::CodingAgent)),
        (script(Some(review(None))), Some(ExecutionProcessRunReason::CodingAgent)),
        (agent(Some(review(None))), Some(ExecutionProcessRunReason::CodingAgent)),
    ];
    for (action, expected) in cases {
        let ctx = context(process(1, 1, running, reason, action, 0), None, None);
        let next = try_start_next_action(&ctx);
        assert_eq!(next.as_ref().map(|n| n.run_reason), expected);
    }
}

#[test]
fn walking_a_chain_starts_each_action_once() {
    let chain = script(Some(script(Some(agent(Some(script(Some(script(None)))))))));
    let mut reasons = vec![ExecutionProcessRunReason::SetupScript];
    let mut current = chain;
    loop {
        let reason = *reasons.last().unwrap();
        let ctx = context(process(1, 1, ExecutionProcessStatus::Completed, reason, current, 0), None, None);
        match try_start_next_action(&ctx) {
            Some(next) => {
                reasons.push(next.run_reason);
                current = next.action;
            }
            None => break,
        }
    }
    assert_eq!(
        reasons,
        vec![
            ExecutionProcessRunReason::SetupScript,
            ExecutionProcessRunReason::SetupScript,
            ExecutionProcessRunReason::CodingAgent,
            ExecutionProcessRunReason::CleanupScript,
            ExecutionProcessRunReason::SetupScript,
        ]
    );
}

#[test]
fn start_execution_records_the_observed_heads() {
    let ctx = context(process(1, 1, ExecutionProcessStatus::Running, ExecutionProcessRunReason::CodingAgent, agent(None), 0), None, None);
    let heads = vec![head(10, Some("abc")), head(11, None)];
    let action = agent(Some(script(None)));
    let start = start_execution(&ctx.workspace, &ctx.session, &heads, &action, ExecutionProcessRunReason::CodingAgent)
        .expect("start");
    assert_eq!(start.session_id, 1);
    assert_eq!(start.run_reason, ExecutionProcessRunReason::CodingAgent);
    assert!(start.clear_archived);
    assert_eq!(start.coding_agent_prompt.as_deref(), Some("do it"));
    assert_eq!(start.repo_states.len(), 2);
    assert_eq!(start.repo_states[0].repo_id, 10);
    assert_eq!(start.repo_states[0].before_head_commit.as_deref(), Some("abc"));
    assert_eq!(start.repo_states[0].after_head_commit, None);
    assert_eq!(start.repo_states[0].merge_commit, None);
    assert_eq!(start.repo_states[1].repo_id, 11);
    assert_eq!(start.repo_states[1].before_head_commit, None);
    assert!(start.executor_action.next_action().is_some());
    let target = start.normalize.expect("normalize target");
    assert_eq!(target.executor_config.executor, "CODEX");
    assert_eq!(target.executor_config.variant.as_deref(), Some("fast"));
    assert_eq!(target.working_dir.as_deref(), Some("sub"));
}

#[test]
fn start_execution_of_a_script_has_no_prompt() {
    let ctx = context(process(1, 1, ExecutionProcessStatus::Running, ExecutionProcessRunReason::CodingAgent, agent(None), 0), None, None);
    let heads = vec![head(10, Some("abc"))];
    let start = start_execution(&ctx.workspace, &ctx.session, &heads, &script(None), ExecutionProcessRunReason::ArchiveScript)
        .expect("start");
    assert!(!start.clear_archived);
    assert_eq!(start.coding_agent_prompt, None);
    assert!(start.normalize.is_none());
    let start = start_execution(&ctx.workspace, &ctx.session, &heads, &script(None), ExecutionProcessRunReason::SetupScript)
        .expect("start");
    assert!(start.clear_archived);
}

#[test]
fn start_execution_refuses_a_workspace_without_repositories() {
    let ctx = context(process(1, 1, ExecutionProcessStatus::Running, ExecutionProcessRunReason::CodingAgent, agent(None), 0), None, None);
    match start_execution(&ctx.workspace, &ctx.session, &Vec::new(), &agent(None), ExecutionProcessRunReason::CodingAgent) {
        Err(ContainerError::Other(text)) => assert_eq!(text, "Workspace has no repositories configured"),
        other => panic!("unexpected: {:?}", other),
    }
}

#[test]
fn start_execution_refuses_a_workspace_without_container() {
    let mut ctx = context(process(1, 1, ExecutionProcessStatus::Running, ExecutionProcessRunReason::CodingAgent, agent(None), 0), None, None);
    ctx.workspace.container_ref = None;
    match start_execution(&ctx.workspace, &ctx.session, &vec![head(1, None)], &agent(None), ExecutionProcessRunReason::CodingAgent) {
        Err(ContainerError::Other(text)) => assert_eq!(text, "Container ref not found"),
        other => panic!("unexpected: {:?}", other),
    }
}

#[test]
fn review_is_normalised_in_its_own_directory_at_start() {
    let target = normalization_target(review(None).typ()).expect("target");
    assert_eq!(target.working_dir.as_deref(), Some("rev"));
    assert!(normalization_target(script(None).typ()).is_none());
    let target = normalization_target(follow_up(None).typ()).expect("target");
    assert_eq!(target.working_dir, None);
}

#[test]
fn executable_not_found_adds_a_setup_required_entry() {
    let error = ContainerError::ExecutorError(ExecutorError::ExecutableNotFound { program: "codex".to_string() });
    let failure = start_failure(&error);
    assert_eq!(failure.status, ExecutionProcessStatus::Failed);
    assert_eq!(failure.exit_code, None);
    assert_eq!(failure.stderr_line, "Failed to start execution: Executable `codex` not found in PATH");
    let entry = failure.setup_required.expect("setup-required entry");
    assert_eq!(entry.index, 2);
    assert_eq!(SETUP_REQUIRED_ENTRY_INDEX, 2);
    assert_eq!(entry.error_type, NormalizedEntryError::SetupRequired);
    assert_eq!(entry.content, "The required executable `codex` is not installed.");
}

#[test]
fn other_start_failures_only_write_an_error_line() {
    let failure = start_failure(&ContainerError::Io("disk full".to_string()));
    assert_eq!(failure.stderr_line, "Failed to start execution: Io error: disk full");
    assert!(failure.setup_required.is_none());
    let failure = start_failure(&ContainerError::ExecutorError(ExecutorError::Other("spawn".to_string())));
    assert_eq!(failure.stderr_line, "Failed to start execution: spawn");
    assert!(failure.setup_required.is_none());
}

#[test]
fn error_messages_per_variant() {
    assert_eq!(ContainerError::GitServiceError("g".to_string()).message(), "g");
    assert_eq!(ContainerError::Sqlx("s".to_string()).message(), "s");
    assert_eq!(ContainerError::Worktree("w".to_string()).message(), "w");
    assert_eq!(ContainerError::Workspace("w2".to_string()).message(), "w2");
    assert_eq!(ContainerError::WorkspaceManager("m".to_string()).message(), "m");
    assert_eq!(ContainerError::Session("se".to_string()).message(), "se");
    assert_eq!(ContainerError::ExecutionProcess("p".to_string()).message(), "p");
    assert_eq!(ContainerError::Io("i".to_string()).message(), "Io error: i");
    assert_eq!(ContainerError::KillFailed("k".to_string()).message(), "Failed to kill process: k");
    assert_eq!(ContainerError::Other("o".to_string()).message(), "o");
}

#[test]
fn orphan_sweep_fails_running_rows_and_records_heads() {
    let rows = vec![
        process(1, 1, ExecutionProcessStatus::Completed, ExecutionProcessRunReason::CodingAgent, agent(None), 1),
        process(2, 1, ExecutionProcessStatus::Running, ExecutionProcessRunReason::CodingAgent, agent(None), 2),
        process(3, 2, ExecutionProcessStatus::Running, ExecutionProcessRunReason::DevServer, script(None), 3),
    ];
    let cleanups = cleanup_orphan_executions(&rows);
    assert_eq!(cleanups.len(), 2);
    assert_eq!(cleanups[0].execution_process_id, 2);
    assert_eq!(cleanups[0].status, ExecutionProcessStatus::Failed);
    assert_eq!(cleanups[0].exit_code, None);
    assert_eq!(cleanups[1].execution_process_id, 3);
    let updates = after_head_updates(2, &vec![head(77, Some("X")), head(78, None)]);
    assert_eq!(updates.len(), 1);
    assert_eq!(updates[0].execution_process_id, 2);
    assert_eq!(updates[0].repo_id, 77);
    assert_eq!(updates[0].after_head_commit, "X");
}

#[test]
fn try_stop_spares_dev_servers_unless_included() {
    let rows = vec![
        process(1, 1, ExecutionProcessStatus::Running, ExecutionProcessRunReason::CodingAgent, agent(None), 1),
        process(2, 1, ExecutionProcessStatus::Running, ExecutionProcessRunReason::DevServer, script(None), 2),
        process(3, 2, ExecutionProcessStatus::Completed, ExecutionProcessRunReason::SetupScript, script(None), 3),
        process(4, 2, ExecutionProcessStatus::Running, ExecutionProcessRunReason::SetupScript, script(None), 4),
    ];
    assert_eq!(try_stop(&rows, false), vec![1, 4]);
    assert_eq!(try_stop(&rows, true), vec![1, 2, 4]);
    let plan = archive_workspace(&rows);
    assert!(plan.archived);
    assert_eq!(plan.stop_dev_servers, vec![2]);
}

#[test]
fn reset_goes_back_to_the_previous_after_commit() {
    let p = |id: u128, at: i64, status| process(id, 5, status, ExecutionProcessRunReason::CodingAgent, agent(None), at);
    let rows = vec![
        p(1, 10, ExecutionProcessStatus::Completed),
        p(2, 20, ExecutionProcessStatus::Completed),
        p(3, 30, ExecutionProcessStatus::Running),
        process(4, 6, ExecutionProcessStatus::Running, ExecutionProcessRunReason::DevServer, script(None), 40),
    ];
    let repos = vec![Repo {
        id: 100,
        name: "R".to_string(),
        path: "/repos/R".to_string(),
        setup_script: None,
        cleanup_script: None,
        archive_script: None,
        parallel_setup_script: false,
    }];
    let states = vec![ExecutionProcessRepoState {
        execution_process_id: 2,
        repo_id: 100,
        before_head_commit: None,
        after_head_commit: Some("Y".to_string()),
        merge_commit: None,
    }];
    let previous = vec![head(100, Some("X"))];
    let plan = reset_session_to_process(5, &rows[1], &repos, &states, &previous, &rows, Some(false), true, true)
        .expect("plan");
    assert_eq!(plan.worktree_resets.len(), 1);
    let reset = &plan.worktree_resets[0];
    assert_eq!(reset.repo_id, 100);
    assert_eq!(reset.repo_name, "R");
    assert_eq!(reset.target_oid, "X");
    assert!(reset.options.perform_reset);
    assert!(reset.options.force_when_dirty);
    assert!(reset.options.is_dirty);
    assert!(reset.options.hard);
    assert_eq!(plan.stop, vec![3]);
    assert_eq!(plan.drop, vec![2, 3]);
}

#[test]
fn reset_prefers_the_recorded_before_commit() {
    let target = process(2, 5, ExecutionProcessStatus::Completed, ExecutionProcessRunReason::CodingAgent, agent(None), 20);
    let repo = |id: u128, name: &str| Repo {
        id,
        name: name.to_string(),
        path: format!("/repos/{}", name),
        setup_script: None,
        cleanup_script: None,
        archive_script: None,
        parallel_setup_script: false,
    };
    let repos = vec![repo(100, "R"), repo(101, "S"), repo(102, "T")];
    let state = |repo_id: u128, before: Option<&str>| ExecutionProcessRepoState {
        execution_process_id: 2,
        repo_id,
        before_head_commit: before.map(|s| s.to_string()),
        after_head_commit: None,
        merge_commit: None,
    };
    let states = vec![state(100, Some("B")), state(101, None)];
    let previous = vec![head(100, Some("X")), head(101, None)];
    assert_eq!(recorded_before_commit(&states, 100).as_deref(), Some("B"));
    assert_eq!(recorded_before_commit(&states, 102), None);
    assert_eq!(recorded_head(&previous, 100).as_deref(), Some("X"));
    let plan = reset_session_to_process(5, &target, &repos, &states, &previous, &Vec::new(), None, false, true)
        .expect("plan");
    assert_eq!(plan.worktree_resets.len(), 1);
    assert_eq!(plan.worktree_resets[0].target_oid, "B");
    assert!(!plan.worktree_resets[0].options.perform_reset);
    assert!(!plan.worktree_resets[0].options.hard);
    assert!(!plan.worktree_resets[0].options.is_dirty);
    assert!(plan.stop.is_empty());
    assert!(plan.drop.is_empty());
}

#[test]
fn reset_refuses_a_process_of_another_session() {
    let target = process(2, 5, ExecutionProcessStatus::Completed, ExecutionProcessRunReason::CodingAgent, agent(None), 20);
    assert!(check_reset_target(5, &target).is_ok());
    assert!(matches!(check_reset_target(6, &target), Err(ContainerError::Other(_))));
    match reset_session_to_process(6, &target, &Vec::new(), &Vec::new(), &Vec::new(), &Vec::new(), None, true, true) {
        Err(ContainerError::Other(text)) => assert_eq!(text, "Process does not belong to this session"),
        other => panic!("unexpected: {:?}", other),
    }
}

#[test]
fn drop_at_and_after_keeps_older_and_foreign_processes() {
    let p = |id: u128, session: u128, at: i64| {
        process(id, session, ExecutionProcessStatus::Completed, ExecutionProcessRunReason::CodingAgent, agent(None), at)
    };
    let rows = vec![p(1, 5, 10), p(2, 5, 20), p(3, 6, 25), p(4, 5, 30), p(5, 5, 20)];
    assert_eq!(drop_at_and_after(&rows, &rows[1]), vec![2, 4, 5]);
}

#[test]
fn finalize_task_announces_completion_and_failure() {
    let ctx = context(
        process(1, 1, ExecutionProcessStatus::Completed, ExecutionProcessRunReason::CodingAgent, agent(None), 0),
        Some("Fix \"it\""),
        Some("CODEX"),
    );
    let n = finalize_task(&ctx).expect("notification");
    assert_eq!(n.title, "Workspace Complete: Fix \"it\"");
    assert_eq!(
        n.message,
        "\u{2705} 'Fix \"it\"' completed successfully\nBranch: \"vk/ab12-fix\"\nExecutor: Some(\"CODEX\")"
    );
    let ctx = context(
        process(1, 1, ExecutionProcessStatus::Failed, ExecutionProcessRunReason::CodingAgent, agent(None), 0),
        None,
        None,
    );
    let n = finalize_task(&ctx).expect("notification");
    assert_eq!(n.title, "Workspace Complete: vk/ab12-fix");
    assert_eq!(n.message, "\u{274c} 'vk/ab12-fix' execution failed\nBranch: \"vk/ab12-fix\"\nExecutor: None");
}

#[test]
fn finalize_task_is_silent_for_killed_and_running() {
    for status in [ExecutionProcessStatus::Killed, ExecutionProcessStatus::Running] {
        let ctx = context(process(1, 1, status, ExecutionProcessRunReason::CodingAgent, agent(None), 0), None, None);
        assert!(finalize_task(&ctx).is_none());
        assert!(completion_notification(status, "n", "b", "e").is_none());
    }
    let n = completion_notification(ExecutionProcessStatus::Completed, "n", "b", "e").expect("notification");
    assert_eq!(n.message, "\u{2705} 'n' completed successfully\nBranch: b\nExecutor: e");
}

#[test]
fn stop_execution_is_idempotent() {
    let mut p = process(1, 1, ExecutionProcessStatus::Running, ExecutionProcessRunReason::CodingAgent, agent(None), 0);
    assert!(stop_execution(&mut p, ExecutionProcessStatus::Killed));
    assert_eq!(p.status, ExecutionProcessStatus::Killed);
    assert!(!stop_execution(&mut p, ExecutionProcessStatus::Failed));
    assert_eq!(p.status, ExecutionProcessStatus::Killed);
    let mut done = process(2, 1, ExecutionProcessStatus::Completed, ExecutionProcessRunReason::CodingAgent, agent(None), 0);
    assert!(!stop_execution(&mut done, ExecutionProcessStatus::Killed));
    assert_eq!(done.status, ExecutionProcessStatus::Completed);
    assert_eq!(done.id, 2);
}

#[test]
fn a_finalized_process_ends_its_chain() {
    let chain = || script(Some(agent(None)));
    let ctx = context(process(1, 1, ExecutionProcessStatus::Failed, ExecutionProcessRunReason::SetupScript, chain(), 0), None, None);
    assert!(matches!(after_exit(&ctx), ExitStep::Finalize));
    let ctx = context(process(1, 1, ExecutionProcessStatus::Completed, ExecutionProcessRunReason::SetupScript, chain(), 0), None, None);
    match after_exit(&ctx) {
        ExitStep::StartNext(next) => {
            assert_eq!(next.run_reason, ExecutionProcessRunReason::CodingAgent);
            assert!(next.action.next_action().is_none());
        }
        other => panic!("unexpected: {:?}", other),
    }
    let ctx = context(process(1, 1, ExecutionProcessStatus::Completed, ExecutionProcessRunReason::SetupScript, script(None), 0), None, None);
    assert!(matches!(after_exit(&ctx), ExitStep::Rest));
    let ctx = context(process(1, 1, ExecutionProcessStatus::Completed, ExecutionProcessRunReason::DevServer, chain(), 0), None, None);
    assert!(matches!(after_exit(&ctx), ExitStep::StartNext(_)));
    let ctx = context(process(1, 1, ExecutionProcessStatus::Completed, ExecutionProcessRunReason::CodingAgent, agent(None), 0), None, None);
    assert!(matches!(after_exit(&ctx), ExitStep::Finalize));
}
