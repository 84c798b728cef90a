use wmgr::cli::{change_summary, full_command, state_label, state_marker, Cli, CliApp, Commands, OutputFormat};
use wmgr::cli_commands::{
    groups_filter, manifest_workspace_config, not_initialized_message, ApplyManifestCommand, ApplyStep, AuditArgs,
    AuditCommand, InitCommand, SyncCommand,
};
use wmgr::git_repository::{
    calculate_ahead_behind, check_fast_forward, current_branch_name, is_commit_id, reference_candidates, CloneConfig,
    FetchConfig, GitBranchType, GitRepositoryError, RepositoryStatus, ResetMode, StatusEntry, StatusFlags,
};
use wmgr::manifest::{Manifest, ManifestRepo};
use wmgr::status_check::RepositoryState;

type Progress = fn(&str, usize, usize);

#[test]
fn test_clone_config_default() {
    let config: CloneConfig<Progress> = CloneConfig::default();
    assert!(config.branch.is_none());
    assert!(!config.shallow);
    assert!(config.depth.is_none());
    assert!(!config.recursive);
    assert!(config.progress_callback.is_none());
}

#[test]
fn test_fetch_config_default() {
    let config: FetchConfig<Progress> = FetchConfig::default();
    assert_eq!(config.remote_name, "origin");
    assert!(config.refs.is_none());
    assert!(config.progress_callback.is_none());
}

#[test]
fn test_reset_modes() {
    assert_eq!(ResetMode::Soft as u8, 0);
    assert_ne!(ResetMode::Soft, ResetMode::Mixed);
    assert_ne!(ResetMode::Mixed, ResetMode::Hard);
}

#[test]
fn test_branch_types() {
    assert_ne!(GitBranchType::Local, GitBranchType::Remote);
}

#[test]
fn reference_lookup_order() {
    assert_eq!(
        reference_candidates("dev"),
        vec!["dev".to_string(), "refs/heads/dev".to_string(), "refs/remotes/origin/dev".to_string()]
    );
    assert!(is_commit_id("0123456789012345678901234567890123456789"));
    assert!(!is_commit_id("main"));
}

#[test]
fn branch_names_and_ahead_behind() {
    assert_eq!(current_branch_name(Some("main".to_string()), "abc"), "main");
    assert_eq!(current_branch_name(None, "0123456789abcdef"), "detached@01234567");
    assert_eq!(calculate_ahead_behind(Some("a"), Some("a")), (0, 0));
    assert_eq!(calculate_ahead_behind(Some("a"), Some("b")), (1, 0));
    assert_eq!(calculate_ahead_behind(None, Some("b")), (0, 0));
}

#[test]
fn fast_forward_needs_head_as_merge_base() {
    assert!(check_fast_forward("abc", "abc").is_ok());
    match check_fast_forward("abc", "def") {
        Err(e) => assert_eq!(e.to_string(), "Git merge failed: Fast-forward merge not possible"),
        Ok(()) => panic!("expected a failure"),
    }
    assert_eq!(GitRepositoryError::WorkingDirectoryDirty.to_string(), "Working directory has uncommitted changes");
}

fn flags(wt_modified: bool, wt_new: bool, index_new: bool) -> StatusFlags {
    StatusFlags { wt_modified, wt_new, index_modified: false, index_new, index_deleted: false }
}

#[test]
fn status_from_entries() {
    let entries = vec![
        StatusEntry { path: Some("a.rs".to_string()), flags: flags(true, false, false) },
        StatusEntry { path: Some("b.rs".to_string()), flags: flags(false, true, false) },
        StatusEntry { path: Some("c.rs".to_string()), flags: flags(true, false, true) },
        StatusEntry { path: None, flags: flags(true, true, true) },
    ];
    let s = RepositoryStatus::from_entries("main".to_string(), "abc".to_string(), &entries, (1, 0));
    assert_eq!(s.current_branch, Some("main".to_string()));
    assert!(!s.is_clean);
    assert_eq!(s.ahead, 1);
    assert_eq!(s.modified_files, vec!["a.rs".to_string(), "c.rs".to_string()]);
    assert_eq!(s.untracked_files, vec!["b.rs".to_string()]);
    assert_eq!(s.staged_files, vec!["c.rs".to_string()]);
    let clean = RepositoryStatus::from_entries("main".to_string(), "abc".to_string(), &vec![], (0, 0));
    assert!(clean.is_clean);
}

#[test]
fn test_audit_args_parsing() {
    let args = AuditArgs {
        groups: Some(vec!["group1".to_string(), "group2".to_string()]),
        parallel: true,
        max_parallel: Some(4),
        continue_on_vulnerabilities: false,
        verbose: true,
        workspace_dir: None,
    };

    assert_eq!(args.groups, Some(vec!["group1".to_string(), "group2".to_string()]));
    assert!(args.parallel);
    assert_eq!(args.max_parallel, Some(4));
    assert!(!args.continue_on_vulnerabilities);
    assert!(args.verbose);
}

#[test]
fn test_audit_command_creation() {
    let command = AuditCommand::new();
    assert!(command.display.colored);
}

#[test]
fn audit_args_to_config() {
    let args = AuditArgs {
        groups: None,
        parallel: false,
        max_parallel: Some(2),
        continue_on_vulnerabilities: true,
        verbose: false,
        workspace_dir: None,
    };
    let config = args.to_config();
    assert_eq!(config.groups, Some(vec![]));
    assert!(!config.parallel);
    assert!(!config.fail_on_vulnerabilities);
    assert!(!args.fails_after(true));
}

#[test]
fn init_command_target() {
    let cmd = InitCommand::new(None, false, false);
    assert_eq!(cmd.target_file("/home/me"), "/home/me/wmgr.yaml");
    assert!(cmd.check_target("/home/me/wmgr.yaml", true).is_err());
    assert!(cmd.check_target("/home/me/wmgr.yaml", false).is_ok());
    let cmd = InitCommand::new(Some("/w".to_string()), true, true);
    assert_eq!(cmd.target_file("/home/me"), "/w/manifest.yaml");
    assert!(cmd.check_target("/w/manifest.yaml", true).is_ok());
}

#[test]
fn sync_command_config() {
    let cmd = SyncCommand::new(vec![], true, false, Some(3), true, true);
    let c = cmd.config();
    assert!(c.groups.is_none());
    assert!(c.force);
    assert_eq!(c.parallel_jobs, Some(3));
    assert!(!c.recursive);
    assert_eq!(groups_filter(&vec!["g".to_string()]), Some(vec!["g".to_string()]));
}

#[test]
fn manifest_changes_by_destination() {
    let current = Manifest::new(vec![ManifestRepo::new("https://a/x.git", "x"), ManifestRepo::new("https://a/y.git", "y")]);
    let new = Manifest::new(vec![ManifestRepo::new("https://a/x2.git", "x"), ManifestRepo::new("https://a/z.git", "z")]);
    let cmd = ApplyManifestCommand::new("m.yml".to_string(), false, false, false);
    let changes = cmd.analyze_manifest_changes(Some(&current), &new);
    assert_eq!(changes.added.len(), 1);
    assert_eq!(changes.added[0].dest, "z");
    assert_eq!(changes.modified.len(), 1);
    assert_eq!(changes.modified[0].dest, "x");
    assert_eq!(changes.removed.len(), 1);
    assert_eq!(changes.removed[0].dest, "y");
    assert_eq!(cmd.next_step(&changes), ApplyStep::ForceRequired);

    let same = cmd.analyze_manifest_changes(Some(&current), &current);
    assert!(same.is_empty());
    assert_eq!(cmd.next_step(&same), ApplyStep::NoChanges);

    let fresh = cmd.analyze_manifest_changes(None, &new);
    assert_eq!(fresh.added.len(), 2);
    let dry = ApplyManifestCommand::new("m.yml".to_string(), true, true, false);
    assert_eq!(dry.next_step(&fresh), ApplyStep::DryRun);
    let forced = ApplyManifestCommand::new("m.yml".to_string(), true, false, false);
    assert_eq!(forced.next_step(&fresh), ApplyStep::Apply);
    assert_eq!(dry.missing_manifest_message(), "Manifest file not found: m.yml");
}

#[test]
fn workspace_config_from_manifest() {
    let c = manifest_workspace_config("/w/wmgr.yml", &None);
    assert_eq!(c.manifest_url, "file:///w/wmgr.yml");
    assert_eq!(c.manifest_branch, "main");
    let c = manifest_workspace_config("/w/wmgr.yml", &Some("dev".to_string()));
    assert_eq!(c.manifest_branch, "dev");
    assert_eq!(not_initialized_message("/w"), "Workspace not initialized at: /w\nManifest file not found");
}

#[test]
fn cli_application_settings() {
    let cli = Cli {
        verbose: true,
        no_color: true,
        directory: None,
        command: Commands::Status { branch: true, compact: false, group: vec![], output: OutputFormat::Json },
    };
    let app = CliApp::new(cli);
    assert!(!app.color_enabled());
    let status = app.status_config(true, false, &vec![]);
    assert!(status.verbose && status.show_branch && status.groups.is_none());
    let fe = app.foreach_config("git", &vec!["status".to_string(), "-s".to_string()], &vec!["g".to_string()], true, None, false);
    assert_eq!(fe.command, "git status -s");
    assert_eq!(fe.groups, Some(vec!["g".to_string()]));
    assert!(fe.change_dir);
    assert_eq!(full_command("ls", &vec![]), "ls");
    let audit = app.audit_args(&vec![], true, Some(2), false);
    assert!(audit.groups.is_none() && audit.verbose);
    let sync = app.sync_config(&vec![], false, true, None, false);
    assert!(sync.recursive && sync.no_correct_branch);
}

#[test]
fn status_display_pieces() {
    assert_eq!(change_summary(3, 1, 2), Some("3M 1S 2U".to_string()));
    assert_eq!(change_summary(0, 0, 5), Some("5U".to_string()));
    assert_eq!(change_summary(0, 0, 0), None);
    assert_eq!(state_marker(RepositoryState::Dirty), "M");
    assert_eq!(state_label(RepositoryState::WrongBranch), "wrong branch");
}
