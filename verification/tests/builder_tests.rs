use container_service::action::{
    CodingAgentInitialRequest, ExecutorAction, ExecutorActionType, ExecutorConfig, ScriptContext,
    ScriptRequest, ScriptRequestLanguage,
};
use container_service::builder::{
    archive_actions_for_repos, build_sequential_setup_chain, cleanup_actions_for_repos,
    script_action_for_repo, setup_action_for_repo, setup_actions_for_repos,
};
use container_service::model::{ExecutionProcessRunReason, Repo, Workspace};
use container_service::workspace::{
    archive_may_run, discover_executor_options, discover_repo_options, recorded_container_ref,
    setups_run_in_parallel, start_workspace, try_run_archive_script,
};
use container_service::error::ContainerError;

fn repo(id: u128, name: &str, setup: Option<&str>, parallel: bool) -> Repo {
    Repo {
        id,
        name: name.to_string(),
        path: format!("/repos/{}", name),
        setup_script: setup.map(|s| s.to_string()),
        cleanup_script: None,
        archive_script: None,
        parallel_setup_script: parallel,
    }
}

fn workspace(agent_working_dir: Option<&str>) -> Workspace {
    Workspace {
        id: 7,
        name: Some("demo".to_string()),
        branch: "vk/demo".to_string(),
        container_ref: Some("/tmp/ws".to_string()),
        agent_working_dir: agent_working_dir.map(|s| s.to_string()),
        archived: false,
    }
}

fn config() -> ExecutorConfig {
    ExecutorConfig { executor: "CLAUDE_CODE".to_string(), variant: None }
}

fn chain_of(action: &ExecutorAction) -> Vec<&ExecutorActionType> {
    let mut out = vec![action.typ()];
    let mut cur = action;
    while let Some(next) = cur.next_action() {
        out.push(next.typ());
        cur = next;
    }
    out
}

fn script_of(typ: &ExecutorActionType) -> (&str, ScriptContext, Option<&str>) {
    match typ {
        ExecutorActionType::ScriptRequest(r) => {
            assert_eq!(r.language, ScriptRequestLanguage::Bash);
            (r.script.as_str(), r.context, r.working_dir.as_deref())
        }
        other => panic!("not a script: {:?}", other),
    }
}

#[test]
fn sequential_setup_builds_one_chain() {
    let repos = vec![repo(1, "A", Some("a.sh"), false), repo(2, "B", Some("b.sh"), false)];
    let plan = start_workspace(&workspace(None), &repos, config(), "hi".to_string());
    assert_eq!(plan.setup_starts.len(), 0);
    assert_eq!(plan.main_start.run_reason, ExecutionProcessRunReason::SetupScript);
    assert_eq!(plan.session_executor, "CLAUDE_CODE");
    let chain = chain_of(&plan.main_start.action);
    assert_eq!(chain.len(), 3);
    assert_eq!(script_of(chain[0]), ("a.sh", ScriptContext::SetupScript, Some("A")));
    assert_eq!(script_of(chain[1]), ("b.sh", ScriptContext::SetupScript, Some("B")));
    match chain[2] {
        ExecutorActionType::CodingAgentInitialRequest(r) => {
            assert_eq!(r.prompt, "hi");
            assert_eq!(r.executor_config.executor, "CLAUDE_CODE");
            assert_eq!(r.working_dir, None);
        }
        other => panic!("not the coding agent: {:?}", other),
    }
}

#[test]
fn parallel_setup_starts_three_leaves() {
    let repos = vec![repo(1, "A", Some("a.sh"), true), repo(2, "B", Some("b.sh"), true)];
    let plan = start_workspace(&workspace(None), &repos, config(), "hi".to_string());
    assert_eq!(plan.setup_starts.len(), 2);
    for (start, (script, dir)) in plan.setup_starts.iter().zip([("a.sh", "A"), ("b.sh", "B")]) {
        assert_eq!(start.run_reason, ExecutionProcessRunReason::SetupScript);
        assert!(start.action.next_action().is_none());
        assert_eq!(script_of(start.action.typ()), (script, ScriptContext::SetupScript, Some(dir)));
    }
    assert_eq!(plan.main_start.run_reason, ExecutionProcessRunReason::CodingAgent);
    assert!(plan.main_start.action.next_action().is_none());
    assert_eq!(plan.main_start.action.typ().prompt(), Some("hi".to_string()));
}

#[test]
fn one_sequential_repo_makes_the_whole_setup_sequential() {
    let repos = vec![
        repo(1, "A", Some("a.sh"), true),
        repo(2, "B", None, false),
        repo(3, "C", Some("c.sh"), false),
    ];
    assert!(!setups_run_in_parallel(&repos));
    let plan = start_workspace(&workspace(None), &repos, config(), "p".to_string());
    assert_eq!(plan.setup_starts.len(), 0);
    let chain = chain_of(&plan.main_start.action);
    assert_eq!(chain.len(), 3);
    assert_eq!(script_of(chain[0]).0, "a.sh");
    assert_eq!(script_of(chain[1]).0, "c.sh");
}

#[test]
fn no_setup_scripts_counts_as_parallel() {
    let repos = vec![repo(1, "A", None, false)];
    assert!(setups_run_in_parallel(&repos));
    assert!(setups_run_in_parallel(&Vec::new()));
    let plan = start_workspace(&workspace(None), &repos, config(), "p".to_string());
    assert_eq!(plan.setup_starts.len(), 0);
    assert_eq!(plan.main_start.run_reason, ExecutionProcessRunReason::CodingAgent);
}

#[test]
fn coding_agent_is_followed_by_cleanup_scripts() {
    let mut a = repo(1, "A", Some("a.sh"), false);
    a.cleanup_script = Some("clean-a.sh".to_string());
    let b = repo(2, "B", None, false);
    let mut c = repo(3, "C", None, false);
    c.cleanup_script = Some("clean-c.sh".to_string());
    let repos = vec![a, b, c];
    let plan = start_workspace(&workspace(Some("sub")), &repos, config(), "go".to_string());
    let chain = chain_of(&plan.main_start.action);
    assert_eq!(chain.len(), 4);
    assert_eq!(script_of(chain[0]), ("a.sh", ScriptContext::SetupScript, Some("A")));
    match chain[1] {
        ExecutorActionType::CodingAgentInitialRequest(r) => {
            assert_eq!(r.working_dir.as_deref(), Some("sub"))
        }
        other => panic!("not the coding agent: {:?}", other),
    }
    assert_eq!(script_of(chain[2]), ("clean-a.sh", ScriptContext::CleanupScript, Some("A")));
    assert_eq!(script_of(chain[3]), ("clean-c.sh", ScriptContext::CleanupScript, Some("C")));
}

#[test]
fn empty_agent_working_dir_is_dropped() {
    let plan = start_workspace(&workspace(Some("")), &Vec::new(), config(), "p".to_string());
    match plan.main_start.action.typ() {
        ExecutorActionType::CodingAgentInitialRequest(r) => assert_eq!(r.working_dir, None),
        other => panic!("not the coding agent: {:?}", other),
    }
}

#[test]
fn script_chains_skip_repos_without_script() {
    let mut a = repo(1, "A", None, false);
    a.archive_script = Some("arch-a.sh".to_string());
    let b = repo(2, "B", Some("b.sh"), false);
    let mut c = repo(3, "C", None, false);
    c.archive_script = Some("arch-c.sh".to_string());
    let repos = vec![a, b, c];
    let archive = archive_actions_for_repos(&repos).expect("archive chain");
    let chain = chain_of(&archive);
    assert_eq!(chain.len(), 2);
    assert_eq!(script_of(chain[0]), ("arch-a.sh", ScriptContext::ArchiveScript, Some("A")));
    assert_eq!(script_of(chain[1]), ("arch-c.sh", ScriptContext::ArchiveScript, Some("C")));
    let setup = setup_actions_for_repos(&repos).expect("setup chain");
    assert_eq!(chain_of(&setup).len(), 1);
    assert!(cleanup_actions_for_repos(&repos).is_none());
    assert!(cleanup_actions_for_repos(&Vec::new()).is_none());
}

#[test]
fn setup_action_for_repo_is_a_leaf() {
    let with = repo(1, "A", Some("a.sh"), true);
    let action = setup_action_for_repo(&with).expect("setup action");
    assert!(action.next_action().is_none());
    assert_eq!(script_of(action.typ()), ("a.sh", ScriptContext::SetupScript, Some("A")));
    assert!(setup_action_for_repo(&repo(2, "B", None, true)).is_none());
    assert!(script_action_for_repo(&with, ScriptContext::CleanupScript).is_none());
}

#[test]
fn sequential_chain_keeps_the_tail() {
    let tail = ExecutorAction::new(
        ExecutorActionType::CodingAgentInitialRequest(CodingAgentInitialRequest {
            prompt: "p".to_string(),
            executor_config: config(),
            working_dir: None,
        }),
        None,
    );
    let chain = build_sequential_setup_chain(&Vec::new(), tail.clone());
    assert_eq!(chain_of(&chain).len(), 1);
    let repos = vec![repo(1, "A", Some("a.sh"), false), repo(2, "B", None, false)];
    let chain = build_sequential_setup_chain(&repos, tail);
    let items = chain_of(&chain);
    assert_eq!(items.len(), 2);
    assert_eq!(script_of(items[0]).0, "a.sh");
    assert_eq!(items[1].prompt(), Some("p".to_string()));
}

#[test]
fn append_action_attaches_at_the_end() {
    let script = |s: &str| {
        ExecutorAction::new(
            ExecutorActionType::ScriptRequest(ScriptRequest {
                script: s.to_string(),
                language: ScriptRequestLanguage::Bash,
                context: ScriptContext::SetupScript,
                working_dir: None,
            }),
            None,
        )
    };
    let chain = script("1").append_action(script("2")).append_action(script("3").append_action(script("4")));
    let scripts: Vec<&str> = chain_of(&chain).into_iter().map(|t| script_of(t).0).collect();
    assert_eq!(scripts, vec!["1", "2", "3", "4"]);
}

#[test]
fn archive_script_waits_while_a_process_runs() {
    let mut a = repo(1, "A", None, false);
    a.archive_script = Some("arch.sh".to_string());
    let repos = vec![a];
    assert!(!archive_may_run(Some(true)));
    assert!(!archive_may_run(None));
    assert!(archive_may_run(Some(false)));
    assert!(try_run_archive_script(Some(true), true, &repos).is_none());
    assert!(try_run_archive_script(None, true, &repos).is_none());
    assert!(try_run_archive_script(Some(false), false, &repos).is_none());
    assert!(try_run_archive_script(Some(false), true, &vec![repo(2, "B", Some("b.sh"), false)]).is_none());
    let start = try_run_archive_script(Some(false), true, &repos).expect("archive start");
    assert_eq!(start.run_reason, ExecutionProcessRunReason::ArchiveScript);
    assert_eq!(script_of(start.action.typ()), ("arch.sh", ScriptContext::ArchiveScript, Some("A")));
}

#[test]
fn discovery_paths_follow_the_workspace() {
    let repos = vec![repo(1, "A", None, false)];
    let paths = discover_executor_options("/tmp/ws", &workspace(Some("sub")), &repos).expect("paths");
    assert_eq!(paths.workspace_root.as_deref(), Some("/tmp/ws"));
    assert_eq!(paths.working_dir.as_deref(), Some("sub"));
    assert_eq!(paths.repo_path.as_deref(), Some("/repos/A"));
    let two = vec![repo(1, "A", None, false), repo(2, "B", None, false)];
    let paths = discover_executor_options("/tmp/ws", &workspace(Some("")), &two).expect("paths");
    assert_eq!(paths.working_dir, None);
    assert_eq!(paths.repo_path, None);
    match discover_executor_options("", &workspace(None), &repos) {
        Err(ContainerError::Other(text)) => assert_eq!(text, "Workspace path is empty"),
        other => panic!("unexpected: {:?}", other),
    }
}

#[test]
fn recorded_container_ref_ignores_empty_paths() {
    let mut w = workspace(None);
    assert_eq!(recorded_container_ref(&w).as_deref(), Some("/tmp/ws"));
    w.container_ref = Some(String::new());
    assert_eq!(recorded_container_ref(&w), None);
    w.container_ref = None;
    assert_eq!(recorded_container_ref(&w), None);
}

#[test]
fn discovery_outside_a_workspace_uses_the_repository() {
    let r = repo(1, "A", None, false);
    let paths = discover_repo_options(Some(&r));
    assert_eq!(paths.workspace_root, None);
    assert_eq!(paths.working_dir, None);
    assert_eq!(paths.repo_path.as_deref(), Some("/repos/A"));
    let paths = discover_repo_options(None);
    assert_eq!((paths.workspace_root, paths.working_dir, paths.repo_path), (None, None, None));
}
