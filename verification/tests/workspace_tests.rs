use wmgr::manifest::{Group, Manifest, ManifestRepo};
use wmgr::repository::{Remote, Repository};
use wmgr::scm_type::ScmType;
use wmgr::templates::{get_wmgr_template, TemplateProcessor};
use wmgr::workspace::{file_priority, is_manifest_file_name, sort_manifest_files, DiscoveryStep, Workspace, WorkspaceConfig, WorkspaceStatus};
use wmgr::workspace_config::{Defaults, RepositoryGroup};

#[test]
fn test_get_wmgr_template() {
    let template = get_wmgr_template();
    assert!(!template.is_empty());
    assert!(template.contains("wmgr configuration file template"));
}

#[test]
fn test_template_processor() {
    let processor = TemplateProcessor::new();
    let template = processor.get_default_wmgr_template();
    assert!(!template.is_empty());
    assert!(template.contains("groups:"));
    assert!(template.contains("repositories:"));
}

#[test]
fn workspace_test_workspace_config_creation() {
    let config = WorkspaceConfig::new("git@github.com:example/manifest.git", "main")
        .with_repo_groups(vec!["group1".to_string(), "group2".to_string()])
        .with_shallow_clones(true);

    assert_eq!(config.manifest_url, "git@github.com:example/manifest.git");
    assert_eq!(config.manifest_branch, "main");
    assert!(config.shallow_clones);
    assert_eq!(config.repo_groups.len(), 2);
}

#[test]
fn test_workspace_paths() {
    let config = WorkspaceConfig::new("git@github.com:example/manifest.git", "main");
    let workspace = Workspace::new("/path/to/workspace", config);

    assert_eq!(workspace.tsrc_dir(), "/path/to/workspace/.tsrc");
    assert_eq!(workspace.config_path(), "/path/to/workspace/.tsrc/config.yml");
    assert_eq!(workspace.manifest_dir(), "/path/to/workspace/.tsrc");
    assert_eq!(workspace.repo_path("repo1"), "/path/to/workspace/repo1");
}

#[test]
fn test_workspace_status() {
    let config = WorkspaceConfig::new("git@github.com:example/manifest.git", "main");
    let mut workspace = Workspace::new("/path/to/workspace", config);

    assert!(!workspace.is_initialized());
    assert!(!workspace.is_corrupted());

    workspace.status = WorkspaceStatus::Initialized;
    assert!(workspace.is_initialized());

    workspace.status = WorkspaceStatus::Corrupted;
    assert!(workspace.is_corrupted());
}

#[test]
fn test_filter_repos_by_groups() {
    let config = WorkspaceConfig::new("git@github.com:example/manifest.git", "main")
        .with_repo_groups(vec!["group1".to_string()]);

    let manifest_repos = vec![
        ManifestRepo::new("git@github.com:example/repo1.git", "repo1"),
        ManifestRepo::new("git@github.com:example/repo2.git", "repo2"),
    ];
    let groups = vec![("group1".to_string(), Group::new(vec!["repo1".to_string()]))];
    let manifest = Manifest::new(manifest_repos).with_groups(groups);

    let repositories = vec![
        Repository::new("repo1", vec![Remote::new("origin", "git@github.com:example/repo1.git")]),
        Repository::new("repo2", vec![Remote::new("origin", "git@github.com:example/repo2.git")]),
    ];

    let workspace = Workspace::new("/path/to/workspace", config)
        .with_manifest(manifest)
        .with_repositories(repositories);

    let filtered = workspace.filter_repos_by_groups();
    assert_eq!(filtered.len(), 1);
    assert_eq!(filtered[0].dest, "repo1");
}

#[test]
fn default_group_keeps_every_repository() {
    let workspace = Workspace::new("/w", WorkspaceConfig::default_local())
        .with_repositories(vec![Repository::new("a", vec![]), Repository::new("b", vec![])]);
    assert_eq!(workspace.filter_repos_by_groups().len(), 2);
}

#[test]
fn test_workspace_discovery() {
    // The search climbs from /tmp/ws/sub/dir until a directory holds a manifest file.
    let with_manifest = ["/tmp/ws"];
    let mut current = "/tmp/ws/sub/dir".to_string();
    let found = loop {
        match Workspace::discover_workspace_root(&current, with_manifest.contains(&current.as_str())) {
            DiscoveryStep::Found(p) => break Some(p),
            DiscoveryStep::Ascend(p) => current = p,
            DiscoveryStep::NotFound => break None,
        }
    };
    assert_eq!(found, Some("/tmp/ws".to_string()));

    let mut current = "/tmp/other/no_manifest".to_string();
    let found = loop {
        match Workspace::discover_workspace_root(&current, false) {
            DiscoveryStep::Found(p) => break Some(p),
            DiscoveryStep::Ascend(p) => current = p,
            DiscoveryStep::NotFound => break None,
        }
    };
    assert!(found.is_none());
}

#[test]
fn manifest_file_priorities() {
    assert!(is_manifest_file_name("wmgr.yml"));
    assert!(!is_manifest_file_name("tsrc.yml"));
    assert_eq!(file_priority("wmgr.yml", false), 1);
    assert_eq!(file_priority("manifest.yaml", true), 8);
    let sorted = sort_manifest_files(&vec!["/w/manifest.yml".to_string(), "/w/wmgr.yml".to_string()]);
    assert_eq!(sorted[0], "/w/wmgr.yml");
    let ws = Workspace::new("/w", WorkspaceConfig::default_local());
    assert_eq!(ws.manifest_file_path(&vec![]), "/w/wmgr.yml");
    assert_eq!(ws.manifest_file_path(&vec!["/w/.wmgr/manifest.yml".to_string(), "/w/wmgr.yaml".to_string()]), "/w/wmgr.yaml");
}

#[test]
fn workspace_config_test_workspace_config_creation() {
    let config = wmgr::workspace_config::WorkspaceConfig::new().with_defaults(Defaults {
        scm: ScmType::Git,
        branch: Some("main".to_string()),
        remote: Some("origin".to_string()),
        shallow: false,
    });

    assert!(config.defaults.is_some());
    assert_eq!(config.defaults.unwrap().scm, ScmType::Git);
}

#[test]
fn test_repository_group() {
    let repos = vec![
        ManifestRepo::new("https://github.com/user/repo1.git", "repo1"),
        ManifestRepo::new("https://github.com/user/repo2.git", "repo2"),
    ];

    let group = RepositoryGroup::new("test-group", repos).with_description("Test repositories");

    assert_eq!(group.name, "test-group");
    assert_eq!(group.description, Some("Test repositories".to_string()));
    assert_eq!(group.repositories.len(), 2);
}

#[test]
fn test_defaults_application() {
    let defaults = Defaults {
        scm: ScmType::Git,
        branch: Some("develop".to_string()),
        remote: Some("upstream".to_string()),
        shallow: true,
    };

    let repo = ManifestRepo::new("https://github.com/user/repo.git", "repo");

    let config = wmgr::workspace_config::WorkspaceConfig::new()
        .with_defaults(defaults)
        .with_repositories(vec![repo]);

    let normalized = config.normalize_repositories();
    assert_eq!(normalized[0].scm, ScmType::Git);
    assert_eq!(normalized[0].branch, Some("develop".to_string()));
}

#[test]
fn test_mixed_scm_validation() {
    let repos = vec![
        ManifestRepo::with_scm("https://github.com/user/repo.git", "git-repo", ScmType::Git),
        ManifestRepo::with_scm("https://svn.server.com/repos/project", "svn-repo", ScmType::Svn),
        ManifestRepo::with_scm("perforce://p4:1666//depot/project/...", "p4-repo", ScmType::P4),
    ];

    let config = wmgr::workspace_config::WorkspaceConfig::new().with_repositories(repos);
    assert!(config.validate().is_ok());
}

#[test]
fn test_invalid_url_validation() {
    let repos = vec![ManifestRepo::with_scm("https://github.com/user/repo.git", "repo", ScmType::P4)];

    let config = wmgr::workspace_config::WorkspaceConfig::new().with_repositories(repos);
    assert!(config.validate().is_err());
}

#[test]
fn groups_of_a_configuration() {
    let g = RepositoryGroup::new("g", vec![ManifestRepo::new("https://a/x.git", "x")]);
    let config = wmgr::workspace_config::WorkspaceConfig::new().with_groups(vec![g]);
    assert_eq!(config.get_group_names(), vec!["g".to_string()]);
    assert_eq!(config.get_repositories_in_group("g").len(), 1);
    assert!(config.get_repositories_in_group("h").is_empty());
    assert!(config.find_repository_by_dest("x").is_some());
}
