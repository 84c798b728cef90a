use wmgr::manifest::{Manifest, ManifestRepo};
use wmgr::audit_report::LineStyle;
use wmgr::cli_commands::AuditCommand;
use wmgr::sys::limit_with_cpus;
use wmgr::security_audit::{RepoAuditResult, SecurityAuditConfig, SecurityAuditUseCase, WorkspaceAuditResult};
use wmgr::security_service::{AuditResult, SecurityError, Severity, Vulnerability, WarningCount};
use wmgr::status_check::{GitStatusInfo, RepositoryState, RepositoryStatus, StatusCheckConfig, StatusCheckError, StatusCheckUseCase, StatusResult};
use wmgr::workspace::{Workspace, WorkspaceConfig};

#[test]
fn test_status_config_default() {
    let config = StatusCheckConfig::default();
    assert!(config.groups.is_none());
    assert!(!config.show_branch);
    assert!(!config.compact);
    assert!(!config.verbose);
}

#[test]
fn test_repository_status_creation() {
    let status = RepositoryStatus::new("test/repo".to_string());
    assert_eq!(status.dest, "test/repo");
    assert_eq!(status.state, RepositoryState::Missing);
    assert!(status.current_branch.is_none());
    assert!(status.has_issues());
}

#[test]
fn test_repository_status_has_issues() {
    let clean_status = RepositoryStatus::new("repo".to_string()).with_file_changes(0, 0, 0);
    assert_eq!(clean_status.state, RepositoryState::Clean);
    assert!(!clean_status.has_issues());

    let dirty_status = RepositoryStatus::new("repo".to_string()).with_file_changes(1, 0, 0);
    assert_eq!(dirty_status.state, RepositoryState::Dirty);
    assert!(dirty_status.has_issues());

    let error_status = RepositoryStatus::new("repo".to_string()).with_error("Git error".to_string());
    assert_eq!(error_status.state, RepositoryState::Error);
    assert!(error_status.has_issues());
}

#[test]
fn test_status_result_counting() {
    let mut result = StatusResult::new();

    let clean_status = RepositoryStatus::new("clean".to_string()).with_file_changes(0, 0, 0);
    let dirty_status = RepositoryStatus::new("dirty".to_string()).with_file_changes(1, 0, 0);
    let missing_status = RepositoryStatus::new("missing".to_string());

    result.add_repository(clean_status);
    result.add_repository(dirty_status);
    result.add_repository(missing_status);

    assert_eq!(result.clean_count, 1);
    assert_eq!(result.dirty_count, 1);
    assert_eq!(result.missing_count, 1);
    assert_eq!(result.error_count, 0);
    assert_eq!(result.total_count(), 3);
    assert!(result.has_issues());
}

#[test]
fn status_check_test_workspace_initialization_check() {
    let workspace = Workspace::new("/tmp/ws", WorkspaceConfig::new("https://example.com/manifest.git", "main"));
    let use_case = StatusCheckUseCase::new(StatusCheckConfig::default());
    assert!(use_case.check_workspace_initialized(&workspace).is_err());
}

#[test]
fn status_check_test_target_repositories_determination() {
    let workspace = Workspace::new("/tmp/ws", WorkspaceConfig::new("https://example.com/manifest.git", "main"))
        .with_manifest(Manifest::new(vec![]));
    let use_case = StatusCheckUseCase::new(StatusCheckConfig::default());
    assert!(use_case.determine_target_repositories(&workspace).is_ok());
}

fn git(branch: &str, untracked: usize, ahead: usize) -> GitStatusInfo {
    GitStatusInfo {
        current_branch: Some(branch.to_string()),
        untracked_files: untracked,
        modified_files: 0,
        staged_files: 0,
        commits_ahead: ahead,
        commits_behind: 0,
    }
}

#[test]
fn repository_status_from_git_report() {
    let repo = ManifestRepo::new("u", "d");
    assert_eq!(StatusCheckUseCase::repository_status(&repo, false, Ok(git("main", 0, 0))).state, RepositoryState::Missing);
    assert_eq!(StatusCheckUseCase::repository_status(&repo, true, Ok(git("main", 0, 0))).state, RepositoryState::Clean);
    assert_eq!(StatusCheckUseCase::repository_status(&repo, true, Ok(git("main", 2, 0))).state, RepositoryState::Dirty);
    assert_eq!(StatusCheckUseCase::repository_status(&repo, true, Ok(git("dev", 0, 0))).state, RepositoryState::WrongBranch);
    assert_eq!(StatusCheckUseCase::repository_status(&repo, true, Ok(git("main", 0, 3))).state, RepositoryState::OutOfSync);
    let failed = StatusCheckUseCase::repository_status(&repo, true, Err(StatusCheckError::GitOperationFailed("x".to_string())));
    assert_eq!(failed.state, RepositoryState::Error);
    assert_eq!(failed.error_message, Some("Git operation failed: x".to_string()));
}

#[test]
fn test_security_audit_config() {
    let config = SecurityAuditConfig::new()
        .with_groups(vec!["group1".to_string()])
        .with_parallel(true, Some(4))
        .with_fail_on_vulnerabilities(false)
        .with_verbose(true);

    assert_eq!(config.groups, Some(vec!["group1".to_string()]));
    assert!(config.parallel);
    assert_eq!(config.max_parallel, Some(4));
    assert!(!config.fail_on_vulnerabilities);
    assert!(config.verbose);
}

#[test]
fn test_repo_audit_result() {
    let result = RepoAuditResult {
        dest: "test-repo".to_string(),
        audit_result: None,
        error: None,
        is_rust_project: false,
    };

    assert!(!result.is_success());
    assert!(!result.has_vulnerabilities());
    assert!(!result.has_critical_or_high_vulnerabilities());
}

#[test]
fn test_workspace_audit_result() {
    let mut result = WorkspaceAuditResult::new(false);
    assert_eq!(result.total_count(), 0);
    assert!(result.is_success());
    assert!(!result.has_vulnerabilities());

    let repo_result = RepoAuditResult {
        dest: "test-repo".to_string(),
        audit_result: None,
        error: None,
        is_rust_project: true,
    };

    result.add_result(repo_result);
    assert_eq!(result.total_count(), 1);
    assert_eq!(result.error_count, 1);
    assert!(!result.is_success());
}

#[test]
fn audit_tally_counts_vulnerable_repositories() {
    let mut count = WarningCount::new();
    count.high = 1;
    let audit = AuditResult {
        warning_count: count,
        vulnerabilities: vec![Vulnerability {
            id: "RUSTSEC-1".to_string(),
            severity: Severity::High,
            description: "d".to_string(),
            url: None,
        }],
    };
    let mut result = WorkspaceAuditResult::new(true);
    result.add_result(RepoAuditResult { dest: "a".to_string(), audit_result: Some(audit), error: None, is_rust_project: true });
    result.add_result(RepoAuditResult { dest: "b".to_string(), audit_result: None, error: None, is_rust_project: false });
    assert_eq!(result.total_count(), 2);
    assert_eq!(result.vulnerable_count, 1);
    assert_eq!(result.skipped_count, 1);
    assert!(result.has_vulnerabilities());
    assert!(result.has_critical_or_high_vulnerabilities());
    assert_eq!(result.vulnerable_results().len(), 1);
}

#[test]
fn audit_of_missing_and_failed_repositories() {
    let repo = ManifestRepo::new("u", "d");
    let missing = SecurityAuditUseCase::repo_audit_result(&repo, false, false, None);
    assert!(!missing.is_rust_project);
    let failed = SecurityAuditUseCase::repo_audit_result(&repo, true, true, Some(Err(SecurityError::ToolNotInstalled("cargo-audit".to_string()))));
    assert_eq!(failed.error, Some("Audit tool not installed: cargo-audit".to_string()));
    assert!(SecurityAuditUseCase::require_rust_projects(0).is_err());
    assert!(SecurityAuditUseCase::require_rust_projects(1).is_ok());
}

#[test]
fn rust_projects_are_kept_in_order() {
    let repos = vec![ManifestRepo::new("u", "a"), ManifestRepo::new("u", "b"), ManifestRepo::new("u", "c")];
    let kept = SecurityAuditUseCase::filter_rust_repositories(&repos, &vec![true, false, true]);
    assert_eq!(kept.iter().map(|r| r.dest.clone()).collect::<Vec<_>>(), vec!["a".to_string(), "c".to_string()]);
    assert!(SecurityAuditUseCase::filter_rust_repositories(&repos, &vec![false, false, false]).is_empty());
}

fn warn(critical: usize, high: usize, medium: usize, low: usize) -> WarningCount {
    WarningCount { critical, high, medium, low }
}

#[test]
fn audit_report_lines() {
    let mut result = WorkspaceAuditResult::new(false);
    let audit = AuditResult {
        warning_count: warn(1, 0, 2, 0),
        vulnerabilities: vec![Vulnerability {
            id: "RUSTSEC-1".to_string(),
            severity: Severity::Critical,
            description: "x".repeat(100),
            url: Some("https://rustsec.org/1".to_string()),
        }],
    };
    result.add_result(RepoAuditResult { dest: "a".to_string(), audit_result: Some(audit), error: None, is_rust_project: true });
    result.add_result(RepoAuditResult { dest: "b".to_string(), audit_result: None, error: Some("boom".to_string()), is_rust_project: true });
    result.add_result(RepoAuditResult { dest: "c".to_string(), audit_result: None, error: None, is_rust_project: false });
    let lines = AuditCommand::new().audit_report(&result, true);
    let texts: Vec<(LineStyle, String)> = lines.into_iter().map(|l| (l.style, l.text)).collect();
    let p = |s: &str| (LineStyle::Plain, s.to_string());
    let expected = vec![
        p("\n=== Security Audit Summary ==="),
        p("Total repositories: 3"),
        p("Audited (Rust projects): 1"),
        p("Skipped (non-Rust): 1"),
        p("Errors: 1"),
        p("With vulnerabilities: 1"),
        p("\n=== Vulnerabilities Found ==="),
        (LineStyle::Error, "📛 a: 3 vulnerabilities".to_string()),
        p("    🔴 Critical: 1"),
        p("    🟡 Medium: 2"),
        p("    Vulnerabilities:"),
        (LineStyle::Plain, format!("      - RUSTSEC-1 (critical): {}", "x".repeat(80))),
        p("        More info: https://rustsec.org/1"),
        p("\n=== Recommendations ==="),
        (LineStyle::Error, "❗ Critical or high severity vulnerabilities found!".to_string()),
        p("   • Review and update affected dependencies immediately"),
        p("   • Run 'cargo update' in affected repositories"),
        p("   • Check for security advisories and patches"),
        p("   • Run 'cargo audit' in individual repositories for more details"),
        p("   • Use 'cargo audit fix' to attempt automatic fixes"),
        p("\n=== Audit Errors ==="),
        (LineStyle::Error, "❌ b: boom".to_string()),
        p(""),
        (LineStyle::Error, "🚨 Security audit completed with critical/high vulnerabilities".to_string()),
    ];
    assert_eq!(texts, expected);
}

#[test]
fn audit_report_without_vulnerabilities() {
    let mut result = WorkspaceAuditResult::new(false);
    let audit = AuditResult { warning_count: warn(0, 0, 0, 0), vulnerabilities: vec![] };
    result.add_result(RepoAuditResult { dest: "a".to_string(), audit_result: Some(audit), error: None, is_rust_project: true });
    let lines = AuditCommand::new().audit_report(&result, false);
    assert_eq!(lines.len(), 9);
    assert_eq!(lines[6].style, LineStyle::Success);
    assert_eq!(lines[6].text, "✅ No vulnerabilities found!");
    assert_eq!(lines[8].style, LineStyle::Success);
    assert_eq!(lines[8].text, "✅ Security audit completed successfully - no vulnerabilities found");
}

#[test]
fn failed_results_match_error_count_after_additions() {
    let mut result = WorkspaceAuditResult::new(true);
    result.add_result(RepoAuditResult { dest: "a".to_string(), audit_result: None, error: Some("e".to_string()), is_rust_project: true });
    result.add_result(RepoAuditResult { dest: "b".to_string(), audit_result: None, error: None, is_rust_project: false });
    result.add_result(RepoAuditResult { dest: "c".to_string(), audit_result: None, error: Some("f".to_string()), is_rust_project: true });
    assert_eq!(result.failed_results().len(), result.error_count);
    assert_eq!(result.audited_count + result.skipped_count + result.error_count, result.total_count());
    assert!(result.vulnerable_count <= result.audited_count);
}

#[test]
fn parallel_limit_for_cpu_counts() {
    assert_eq!(limit_with_cpus(None, 10, 4), 4);
    assert_eq!(limit_with_cpus(None, 2, 8), 2);
    assert_eq!(limit_with_cpus(Some(7), 2, 8), 7);
    assert_eq!(limit_with_cpus(None, 0, 8), 0);
}
