use wmgr::command_executor::{CommandExecutor, CommandExecutorError, ExecutionConfig, ExecutionResult, ParallelConfig, ParallelResult};
use wmgr::credential::{CredentialProfile, CredentialSource};
use wmgr::credential_store::CredentialStore;
use wmgr::scm_factory::ScmFactory;
use wmgr::scm_type::ScmType;

#[test]
fn test_scm_type_from_str() {
    assert_eq!("git".parse::<ScmType>().unwrap(), ScmType::Git);
    assert_eq!("svn".parse::<ScmType>().unwrap(), ScmType::Svn);
    assert_eq!("subversion".parse::<ScmType>().unwrap(), ScmType::Svn);
    assert_eq!("p4".parse::<ScmType>().unwrap(), ScmType::P4);
    assert_eq!("perforce".parse::<ScmType>().unwrap(), ScmType::P4);

    assert!("unknown".parse::<ScmType>().is_err());
}

#[test]
fn test_scm_type_display() {
    assert_eq!(ScmType::Git.to_string(), "git");
    assert_eq!(ScmType::Svn.to_string(), "svn");
    assert_eq!(ScmType::P4.to_string(), "p4");
}

#[test]
fn test_scm_capabilities() {
    assert!(ScmType::Git.supports_branches());
    assert!(!ScmType::Svn.supports_branches());
    assert!(!ScmType::P4.supports_branches());

    assert!(ScmType::Git.supports_remotes());
    assert!(!ScmType::Svn.supports_remotes());
    assert!(!ScmType::P4.supports_remotes());

    assert!(ScmType::Git.supports_shallow_clone());
    assert!(!ScmType::Svn.supports_shallow_clone());
    assert!(!ScmType::P4.supports_shallow_clone());
}

#[test]
fn test_scm_metadata_dirs() {
    assert_eq!(ScmType::Git.metadata_dir(), ".git");
    assert_eq!(ScmType::Svn.metadata_dir(), ".svn");
    assert_eq!(ScmType::P4.metadata_dir(), ".p4");
}

#[test]
fn test_url_scheme_validation() {
    assert!(ScmType::Git.is_valid_url_scheme("https://github.com/user/repo.git"));
    assert!(ScmType::Git.is_valid_url_scheme("git@github.com:user/repo.git"));
    assert!(ScmType::Git.is_valid_url_scheme("ssh://git@server/repo.git"));

    assert!(ScmType::Svn.is_valid_url_scheme("https://svn.example.com/repo"));
    assert!(ScmType::Svn.is_valid_url_scheme("svn://server/repo"));
    assert!(ScmType::Svn.is_valid_url_scheme("svn+ssh://server/repo"));

    assert!(ScmType::P4.is_valid_url_scheme("perforce://server:1666"));
    assert!(ScmType::P4.is_valid_url_scheme("p4://server:1666"));
    assert!(ScmType::P4.is_valid_url_scheme("ssl:server:1666"));
    assert!(ScmType::P4.is_valid_url_scheme("server:1666"));
}

#[test]
fn invalid_schemes_and_names() {
    assert!(!ScmType::P4.is_valid_url_scheme("https://github.com/user/repo.git"));
    assert_eq!(ScmType::Git.executable_name(), "git");
    assert_eq!(ScmType::default(), ScmType::Git);
    match ScmType::parse_name("cvs") {
        Err(e) => assert!(e.to_string().contains("cvs")),
        Ok(_) => panic!("cvs is not supported"),
    }
}

#[test]
fn test_command_parsing() {
    let (program, args) = CommandExecutor::parse_command("git status --porcelain", false).unwrap();
    assert_eq!(program, "git");
    assert_eq!(args, vec!["status", "--porcelain"]);

    let (program, args) = CommandExecutor::parse_command("echo 'Hello World'", true).unwrap();
    assert_eq!(program, "sh");
    assert_eq!(args, vec!["-c", "echo 'Hello World'"]);
}

#[test]
fn empty_command_is_rejected() {
    assert!(CommandExecutor::parse_command("   ", false).is_err());
}

#[test]
fn test_execution_result_creation() {
    let result = ExecutionResult::new(0, "output".to_string(), "".to_string(), 100);
    assert!(result.success);
    assert_eq!(result.exit_code, 0);
    assert_eq!(result.stdout, "output");
    assert_eq!(result.execution_time_ms, 100);

    let timeout_result = ExecutionResult::timeout(1000);
    assert!(!timeout_result.success);
    assert_eq!(timeout_result.exit_code, -1);
    assert_eq!(timeout_result.stderr, "Command timed out");
    assert_eq!(timeout_result.execution_time_ms, 1000);
}

#[test]
fn test_parallel_config() {
    let config = ParallelConfig::new().with_max_concurrency(4).with_fail_fast(true);

    assert_eq!(config.max_concurrency, 4);
    assert!(config.fail_fast);
}

#[test]
fn test_execution_config() {
    let config = ExecutionConfig::new()
        .with_working_directory("/tmp/work")
        .with_environment_variable("KEY", "value")
        .with_timeout(30)
        .with_output_capture(true, false)
        .with_inherit_environment(false)
        .with_shell(true);

    assert_eq!(config.working_directory, Some("/tmp/work".to_string()));
    assert_eq!(config.environment_variables.get("KEY"), Some(&"value".to_string()));
    assert_eq!(config.timeout_seconds, Some(30));
    assert!(config.capture_stdout);
    assert!(!config.capture_stderr);
    assert!(!config.inherit_environment);
    assert!(config.use_shell);
}

#[test]
fn parallel_result_tally() {
    let mut result = ParallelResult::new();
    result.add_result("ok".to_string(), Ok(ExecutionResult::new(0, String::new(), String::new(), 1)));
    result.add_result("bad".to_string(), Ok(ExecutionResult::new(1, String::new(), String::new(), 1)));
    result.add_result("gone".to_string(), Err(CommandExecutorError::InvalidCommand("x".to_string())));
    assert_eq!(result.task_results.len(), 3);
    assert_eq!(result.success_count, 1);
    assert_eq!(result.failure_count, 2);
    assert!(!result.is_success());
    assert_eq!(result.failed_results().len(), 1);
}

#[test]
fn test_create_scm_instances() {
    let git_scm = ScmFactory::create_scm(ScmType::Git);
    assert!(git_scm.is_ok());
    assert_eq!(git_scm.unwrap().scm_type(), ScmType::Git);

    let svn_scm = ScmFactory::create_scm(ScmType::Svn);
    assert!(svn_scm.is_ok());
    assert_eq!(svn_scm.unwrap().scm_type(), ScmType::Svn);

    let p4_scm = ScmFactory::create_scm(ScmType::P4);
    assert!(p4_scm.is_ok());
    assert_eq!(p4_scm.unwrap().scm_type(), ScmType::P4);

    let hg_scm = ScmFactory::create_scm(ScmType::Hg);
    assert!(hg_scm.is_ok());
    assert_eq!(hg_scm.unwrap().scm_type(), ScmType::Hg);

    assert!(ScmFactory::create_scm(ScmType::Http).is_err());
    assert!(ScmFactory::create_scm(ScmType::Symlink).is_err());
    assert!(ScmFactory::create_scm(ScmType::S3).is_err());
    assert!(ScmFactory::create_scm(ScmType::GDrive).is_err());
}

#[test]
fn test_detect_scm_type() {
    // A path that does not exist holds no metadata directory.
    assert_eq!(ScmFactory::detect_scm_type(false, false, false, false), None);
    assert_eq!(ScmFactory::detect_scm_type(true, true, false, false), Some(ScmType::Git));
    assert_eq!(ScmFactory::detect_scm_type(false, true, false, false), Some(ScmType::Svn));
}

#[test]
fn custom_executable_is_used() {
    let b = ScmFactory::create_scm_with_executable(ScmType::Git, "/opt/git").unwrap();
    assert_eq!(b.executable(), "/opt/git");
}

#[test]
fn test_resolve_profile_name_priority() {
    assert_eq!(CredentialStore::resolve_profile_name(Some("cli"), Some("repo"), None), "cli");
    assert_eq!(CredentialStore::resolve_profile_name(None, Some("repo"), None), "repo");
    assert_eq!(CredentialStore::resolve_profile_name(None, None, None), "default");
    assert_eq!(CredentialStore::resolve_profile_name(None, None, Some("env")), "env");
}

#[test]
fn test_resolve_from_file() {
    let file = vec![
        (
            "default".to_string(),
            CredentialProfile { username: Some("testuser".to_string()), password: Some("testpass".to_string()), ..Default::default() },
        ),
        ("work".to_string(), CredentialProfile { aws_access_key_id: Some("AKIA123".to_string()), ..Default::default() }),
    ];

    let profile = CredentialStore::lookup_profile(&file, "default").unwrap();
    assert_eq!(profile.username, Some("testuser".to_string()));
    assert_eq!(profile.password, Some("testpass".to_string()));

    let work_profile = CredentialStore::lookup_profile(&file, "work").unwrap();
    assert_eq!(work_profile.aws_access_key_id, Some("AKIA123".to_string()));

    assert!(CredentialStore::lookup_profile(&file, "nonexistent").is_err());
}

#[test]
fn empty_levels_are_passed_over() {
    assert!(CredentialStore::accept_level("p", CredentialSource::EnvVar, Some(CredentialProfile::default())).is_none());
    assert!(CredentialStore::accept_level("p", CredentialSource::EnvVar, None).is_none());
    let r = CredentialStore::accept_level(
        "p",
        CredentialSource::EnvVar,
        Some(CredentialProfile { token: Some("t".to_string()), ..Default::default() }),
    )
    .unwrap();
    assert_eq!(r.profile_name, "p");
}

#[test]
fn collected_results_count_each_kind_and_stop_at_first_error() {
    let ok = |c: i32| Ok(ExecutionResult::new(c, String::new(), String::new(), 1));
    let outcomes = vec![
        ("a".to_string(), ok(0)),
        ("b".to_string(), ok(1)),
        ("c".to_string(), Err(CommandExecutorError::SpawnFailed("x".to_string()))),
        ("a".to_string(), ok(0)),
    ];
    let r = CommandExecutor::collect_results(outcomes, true, 9);
    assert_eq!((r.success_count, r.failure_count, r.total_execution_time_ms), (1, 2, 9));
    let ids: Vec<&str> = r.task_results.iter().map(|(id, _)| id.as_str()).collect();
    assert_eq!(ids, vec!["a", "b", "c"]);
    let outcomes = vec![
        ("a".to_string(), ok(0)),
        ("b".to_string(), Err(CommandExecutorError::SpawnFailed("x".to_string()))),
        ("a".to_string(), ok(3)),
    ];
    let r = CommandExecutor::collect_results(outcomes, false, 0);
    assert_eq!((r.success_count, r.failure_count), (1, 2));
    assert_eq!(r.task_results.len(), 2);
    assert!(matches!(&r.task_results[0].1, Ok(x) if x.exit_code == 3));
}
