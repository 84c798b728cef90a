use wmgr::manifest::{Manifest, ManifestRepo};
use wmgr::sync_repositories::{SyncOperation, SyncRepositoriesConfig, SyncRepositoriesError, SyncRepositoriesUseCase, SyncResult};
use wmgr::workspace::{Workspace, WorkspaceConfig, WorkspaceStatus};

#[test]
fn test_sync_config_default() {
    let config = SyncRepositoriesConfig::default();
    assert!(config.groups.is_none());
    assert!(!config.force);
    assert!(!config.no_correct_branch);
    assert!(config.parallel_jobs.is_none());
    assert!(!config.verbose);
}

#[test]
fn test_sync_result_creation() {
    let mut result = SyncResult::new();
    assert_eq!(result.synced_count, 0);
    assert_eq!(result.cloned_count, 0);
    assert_eq!(result.updated_count, 0);
    assert_eq!(result.skipped_count, 0);
    assert!(result.is_success());

    result.add_error("Test error".to_string());
    assert!(!result.is_success());
    assert_eq!(result.errors.len(), 1);
}

#[test]
fn sync_repositories_test_workspace_initialization_check() {
    let workspace_config = WorkspaceConfig::new("https://example.com/manifest.git", "main");
    let mut workspace = Workspace::new("/tmp/ws", workspace_config);

    let use_case = SyncRepositoriesUseCase::new(SyncRepositoriesConfig::default());

    let result = use_case.check_workspace_initialized(&workspace);
    assert!(result.is_err());

    workspace.status = WorkspaceStatus::Initialized;
    let result = use_case.check_workspace_initialized(&workspace);
    assert!(result.is_ok());
}

#[test]
fn sync_repositories_test_target_repositories_determination() {
    let workspace = Workspace::new("/tmp/ws", WorkspaceConfig::new("https://example.com/manifest.git", "main"))
        .with_manifest(Manifest::new(vec![]));
    let use_case = SyncRepositoriesUseCase::new(SyncRepositoriesConfig::default());
    assert!(use_case.determine_target_repositories(&workspace).is_ok());
}

#[test]
fn test_sync_config_with_options() {
    let config = SyncRepositoriesConfig::default()
        .with_groups(vec!["group1".to_string(), "group2".to_string()])
        .with_force(true)
        .with_no_correct_branch(true)
        .with_parallel_jobs(4)
        .with_verbose(true);

    assert_eq!(config.groups, Some(vec!["group1".to_string(), "group2".to_string()]));
    assert!(config.force);
    assert!(config.no_correct_branch);
    assert_eq!(config.parallel_jobs, Some(4));
    assert!(config.verbose);
}

#[test]
fn test_sync_result_statistics() {
    let mut result = SyncResult::new();

    result.synced_count = 5;
    result.cloned_count = 2;
    result.updated_count = 3;
    result.skipped_count = 1;

    assert_eq!(result.total_count(), 6);
    assert_eq!(result.cloned_count, 2);
    assert_eq!(result.updated_count, 3);
    assert_eq!(result.skipped_count, 1);
    assert!(result.is_success());
}

#[test]
fn test_sync_result_with_errors() {
    let mut result = SyncResult::new();

    result.add_error("Repository clone failed".to_string());
    result.add_error("Network timeout".to_string());

    assert!(!result.is_success());
    assert_eq!(result.errors.len(), 2);
    assert!(result.errors.contains(&"Repository clone failed".to_string()));
    assert!(result.errors.contains(&"Network timeout".to_string()));
}

#[test]
fn test_sync_operation_enum() {
    let cloned = SyncOperation::Cloned;
    let updated = SyncOperation::Updated;
    let skipped = SyncOperation::Skipped;

    assert_eq!(cloned, SyncOperation::Cloned);
    assert_ne!(cloned, updated);
    assert_ne!(updated, skipped);

    assert!(format!("{:?}", cloned).contains("Cloned"));
    assert!(format!("{:?}", updated).contains("Updated"));
    assert!(format!("{:?}", skipped).contains("Skipped"));
}

#[test]
fn test_sync_repositories_error_types() {
    let workspace_error = SyncRepositoriesError::WorkspaceNotInitialized("/tmp/workspace".to_string());
    assert!(workspace_error.to_string().contains("not initialized"));

    let clone_error = SyncRepositoriesError::RepositoryCloneFailed("Network error".to_string());
    assert!(clone_error.to_string().contains("Repository clone failed"));

    let remote_update_error = SyncRepositoriesError::RemoteUpdateFailed {
        repo: "example/repo".to_string(),
        error: "Merge conflict".to_string(),
    };
    assert!(remote_update_error.to_string().contains("Remote update failed"));
    assert!(remote_update_error.to_string().contains("example/repo"));

    let branch_sync_error = SyncRepositoriesError::BranchSyncFailed {
        repo: "example/repo".to_string(),
        error: "Fast-forward failed".to_string(),
    };
    assert!(branch_sync_error.to_string().contains("Branch sync failed"));
    assert!(branch_sync_error.to_string().contains("example/repo"));

    let git_op_error = SyncRepositoriesError::GitOperationFailed("Git error".to_string());
    assert!(git_op_error.to_string().contains("Git operation failed"));

    let manifest_error = SyncRepositoriesError::ManifestUpdateFailed("YAML parse error".to_string());
    assert!(manifest_error.to_string().contains("Manifest update failed"));
}

#[test]
fn each_outcome_counts_once() {
    let mut result = SyncResult::new();
    SyncRepositoriesUseCase::record_outcome(&mut result, "a", Ok(SyncOperation::Cloned));
    SyncRepositoriesUseCase::record_outcome(&mut result, "b", Ok(SyncOperation::Updated));
    SyncRepositoriesUseCase::record_outcome(&mut result, "c", Err(SyncRepositoriesError::GitOperationFailed("x".to_string())));
    assert_eq!(result.synced_count, 2);
    assert_eq!(result.total_count(), 3);
    assert_eq!(result.errors, vec!["Failed to sync c: Git operation failed: x".to_string()]);
}

#[test]
fn planned_operation_and_child_merge() {
    assert_eq!(SyncRepositoriesUseCase::planned_operation(true), SyncOperation::Updated);
    assert_eq!(SyncRepositoriesUseCase::planned_operation(false), SyncOperation::Cloned);
    let mut parent = SyncResult::new();
    parent.cloned_count = 1;
    let mut child = SyncResult::new();
    child.cloned_count = 2;
    child.add_error("e".to_string());
    SyncRepositoriesUseCase::merge_child_result(&mut parent, child);
    assert_eq!(parent.cloned_count, 3);
    assert_eq!(parent.errors.len(), 1);
    let use_case = SyncRepositoriesUseCase::new(SyncRepositoriesConfig::default().with_force(true));
    let child_config = use_case.child_config();
    assert!(!child_config.recursive);
    assert!(child_config.force);
}

#[test]
fn not_a_repository_error_names_the_path() {
    let repo = ManifestRepo::new("u", "d");
    let e = SyncRepositoriesUseCase::not_a_repository(&repo, "/ws/d");
    assert!(e.to_string().contains("/ws/d"));
}
