use wmgr::foreach_command::{CommandResult, CommandStatus, ForeachCommandConfig, ForeachCommandError, ForeachCommandUseCase, ForeachResult};
use wmgr::manifest::{Manifest, ManifestRepo};
use wmgr::workspace::{Workspace, WorkspaceConfig, WorkspaceStatus};

#[test]
fn test_foreach_config_creation() {
    let config = ForeachCommandConfig::new("git status")
        .with_parallel(true, Some(4))
        .with_groups(vec!["group1".to_string()])
        .with_continue_on_error(true)
        .with_verbose(true)
        .with_environment_variable("TEST_VAR", "test_value")
        .with_timeout(30);

    assert_eq!(config.command, "git status");
    assert!(config.parallel);
    assert_eq!(config.max_parallel, Some(4));
    assert!(config.continue_on_error);
    assert!(config.verbose);
    assert_eq!(config.environment_variables.get("TEST_VAR"), Some(&"test_value".to_string()));
    assert_eq!(config.timeout_seconds, Some(30));
}

#[test]
fn test_command_result_creation() {
    let result = CommandResult::new("test/repo".to_string());
    assert_eq!(result.dest, "test/repo");
    assert_eq!(result.status, CommandStatus::Skipped);
    assert!(!result.is_success());
    assert!(!result.is_failure());
}

#[test]
fn test_command_result_status() {
    let success_result = CommandResult::new("repo".to_string())
        .with_success(0, "output".to_string(), String::new(), 100);
    assert!(success_result.is_success());
    assert!(!success_result.is_failure());
    assert_eq!(success_result.exit_code, Some(0));

    let failed_result = CommandResult::new("repo".to_string())
        .with_failure(Some(1), "error".to_string(), 100);
    assert!(!failed_result.is_success());
    assert!(failed_result.is_failure());
    assert_eq!(failed_result.exit_code, Some(1));

    let timeout_result = CommandResult::new("repo".to_string()).with_timeout(1000);
    assert!(!timeout_result.is_success());
    assert!(timeout_result.is_failure());
    assert_eq!(timeout_result.status, CommandStatus::Timeout);

    let skipped_result = CommandResult::new("repo".to_string()).with_skip("No repo".to_string());
    assert!(!skipped_result.is_success());
    assert!(!skipped_result.is_failure());
    assert_eq!(skipped_result.status, CommandStatus::Skipped);
}

#[test]
fn test_foreach_result_counting() {
    let mut result = ForeachResult::new(false);

    let success_result = CommandResult::new("success".to_string())
        .with_success(0, "output".to_string(), String::new(), 100);
    let failed_result = CommandResult::new("failed".to_string())
        .with_failure(Some(1), "error".to_string(), 200);
    let skipped_result = CommandResult::new("skipped".to_string()).with_skip("No repo".to_string());

    result.add_result(success_result);
    result.add_result(failed_result);
    result.add_result(skipped_result);

    assert_eq!(result.success_count, 1);
    assert_eq!(result.failure_count, 1);
    assert_eq!(result.skipped_count, 1);
    assert_eq!(result.total_count(), 3);
    assert!(!result.is_success());
    assert_eq!(result.total_execution_time_ms, 300);

    let failed_results = result.failed_results();
    assert_eq!(failed_results.len(), 1);
    assert_eq!(failed_results[0].dest, "failed");
}

#[test]
fn test_command_validation() {
    let use_case = ForeachCommandUseCase::new(ForeachCommandConfig::new("git status"));
    assert!(use_case.validate_command().is_ok());

    let use_case = ForeachCommandUseCase::new(ForeachCommandConfig::new(""));
    assert!(use_case.validate_command().is_err());

    let use_case = ForeachCommandUseCase::new(ForeachCommandConfig::new("   "));
    assert!(use_case.validate_command().is_err());
}

#[test]
fn foreach_command_test_workspace_initialization_check() {
    let workspace_config = WorkspaceConfig::new("https://example.com/manifest.git", "main");
    let workspace = Workspace::new("/tmp/ws", workspace_config);
    let use_case = ForeachCommandUseCase::new(ForeachCommandConfig::new("git status"));
    assert!(use_case.check_workspace_initialized(&workspace).is_err());
    let ready = Workspace::new("/tmp/ws", WorkspaceConfig::default_local()).with_status(WorkspaceStatus::Initialized);
    assert!(use_case.check_workspace_initialized(&ready).is_ok());
}

#[test]
fn foreach_command_test_target_repositories_determination() {
    let repos = vec![
        ManifestRepo::new("git@github.com:example/repo1.git", "repo1"),
        ManifestRepo::new("git@github.com:example/repo2.git", "repo2"),
    ];
    let manifest = Manifest::new(repos);
    let workspace_config = WorkspaceConfig::new("https://example.com/manifest.git", "main");
    let workspace = Workspace::new("/tmp/ws", workspace_config).with_manifest(manifest);

    let use_case = ForeachCommandUseCase::new(ForeachCommandConfig::new("git status"));

    let result = use_case.determine_target_repositories(&workspace);
    assert!(result.is_ok());
    assert_eq!(result.unwrap().len(), 2);
}

#[test]
fn target_repositories_without_manifest_fail() {
    let workspace = Workspace::new("/tmp/ws", WorkspaceConfig::default_local());
    let use_case = ForeachCommandUseCase::new(ForeachCommandConfig::new("ls"));
    assert!(matches!(use_case.determine_target_repositories(&workspace), Err(ForeachCommandError::ProcessError(_))));
}

#[test]
fn test_environment_variables_preparation() {
    let workspace_config = WorkspaceConfig::new("https://example.com/manifest.git", "main");
    let workspace = Workspace::new("/tmp/ws", workspace_config).with_manifest(Manifest::new(vec![]));

    let config = ForeachCommandConfig::new("git status").with_environment_variable("CUSTOM_VAR", "custom_value");
    let use_case = ForeachCommandUseCase::new(config);

    let env_vars = use_case.prepare_environment_variables(&workspace).unwrap();

    assert!(env_vars.contains_key("TSRC_WORKSPACE_ROOT"));
    assert!(env_vars.contains_key("TSRC_MANIFEST_URL"));
    assert!(env_vars.contains_key("TSRC_MANIFEST_BRANCH"));
    assert_eq!(env_vars.get("CUSTOM_VAR"), Some(&"custom_value".to_string()));
    assert_eq!(env_vars.get("TSRC_MANIFEST_URL"), Some(&"https://example.com/manifest.git".to_string()));
}

#[test]
fn repo_environment_names_the_repository() {
    let base = wmgr::env_map::EnvMap::new();
    let repo = ManifestRepo::new("git@x:y/z.git", "a/b");
    let env = ForeachCommandUseCase::repo_environment(&base, &repo, "/ws/a/b");
    assert_eq!(env.get("TSRC_REPO_DEST"), Some(&"a/b".to_string()));
    assert_eq!(env.get("TSRC_REPO_PATH"), Some(&"/ws/a/b".to_string()));
}

#[test]
fn explicit_parallel_limit_is_kept() {
    let use_case = ForeachCommandUseCase::new(ForeachCommandConfig::new("ls").with_parallel(true, Some(8)));
    assert_eq!(use_case.effective_max_parallel(3), 8);
    assert_eq!(use_case.effective_max_parallel(20), 8);
}

#[test]
fn run_preparation_checks_in_order() {
    let ready = Workspace::new("/ws", WorkspaceConfig::new("https://m", "main"))
        .with_status(WorkspaceStatus::Initialized)
        .with_manifest(Manifest::new(vec![ManifestRepo::new("u", "a")]));
    let blank = ForeachCommandUseCase::new(ForeachCommandConfig::new("  "));
    assert!(matches!(blank.prepare_run(&ready), Err(ForeachCommandError::InvalidCommand)));
    let use_case = ForeachCommandUseCase::new(ForeachCommandConfig::new("ls"));
    let (repos, env) = use_case.prepare_run(&ready).unwrap();
    assert_eq!(repos.len(), 1);
    assert_eq!(env.get("TSRC_MANIFEST_BRANCH"), Some(&"main".to_string()));
    let fresh = Workspace::new("/ws", WorkspaceConfig::default_local());
    assert!(matches!(use_case.prepare_run(&fresh), Err(ForeachCommandError::WorkspaceNotInitialized(_))));
    let no_manifest = Workspace::new("/ws", WorkspaceConfig::default_local()).with_status(WorkspaceStatus::Initialized);
    assert!(matches!(use_case.prepare_run(&no_manifest), Err(ForeachCommandError::ProcessError(_))));
}

#[test]
fn default_parallel_limit_is_within_repositories() {
    let use_case = ForeachCommandUseCase::new(ForeachCommandConfig::new("ls"));
    let n = use_case.effective_max_parallel(5);
    assert!(n >= 1 && n <= 5);
    assert_eq!(use_case.effective_max_parallel(1), 1);
}
