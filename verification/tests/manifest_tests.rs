use wmgr::manifest::{Group, Manifest, ManifestRepo};
use wmgr::manifest_service::{ManifestProcessingOptions, ManifestService, ManifestServiceError};
use wmgr::repository::{Remote, Repository};

#[test]
fn test_group_creation() {
    let group = Group::new(vec!["repo1".to_string(), "repo2".to_string()])
        .with_description("Test group");

    assert_eq!(group.repos.len(), 2);
    assert_eq!(group.description, Some("Test group".to_string()));
}

#[test]
fn test_manifest_repo_creation() {
    let repo = ManifestRepo::new("git@github.com:example/repo.git", "path/to/repo");

    assert_eq!(repo.url, "git@github.com:example/repo.git");
    assert_eq!(repo.dest, "path/to/repo");
    assert!(!repo.shallow);
}

#[test]
fn test_manifest_repo_to_repository() {
    let mut manifest_repo = ManifestRepo::new("git@github.com:example/repo.git", "path/to/repo");
    manifest_repo.branch = Some("main".to_string());
    manifest_repo.sha1 = Some("abc123".to_string());

    let repo = manifest_repo.to_repository();

    assert_eq!(repo.dest, "path/to/repo");
    assert_eq!(repo.branch, Some("main".to_string()));
    assert_eq!(repo.sha1, Some("abc123".to_string()));
    assert_eq!(repo.clone_url(), Some("git@github.com:example/repo.git"));
}

#[test]
fn test_manifest_with_groups() {
    let repos = vec![
        ManifestRepo::new("git@github.com:example/repo1.git", "repo1"),
        ManifestRepo::new("git@github.com:example/repo2.git", "repo2"),
        ManifestRepo::new("git@github.com:example/repo3.git", "repo3"),
    ];

    let groups = vec![(
        "group1".to_string(),
        Group::new(vec!["repo1".to_string(), "repo2".to_string()]),
    )];

    let manifest = Manifest::new(repos).with_groups(groups);

    let group_repos = manifest.get_repos_in_group("group1");
    assert_eq!(group_repos.len(), 2);
    assert_eq!(group_repos[0].dest, "repo1");
    assert_eq!(group_repos[1].dest, "repo2");
}

#[test]
fn repos_in_missing_group_is_empty() {
    let manifest = Manifest::new(vec![ManifestRepo::new("u", "a")]);
    assert!(manifest.get_repos_in_group("none").is_empty());
    assert!(manifest.find_repo_by_dest("a").is_some());
    assert!(manifest.find_repo_by_dest("b").is_none());
}

#[test]
fn test_remote_creation() {
    let remote = Remote::new("origin", "git@github.com:example/repo.git");
    assert_eq!(remote.name, "origin");
    assert_eq!(remote.url, "git@github.com:example/repo.git");
}

#[test]
fn test_repository_creation() {
    let remotes = vec![Remote::new("origin", "git@github.com:example/repo.git")];
    let repo = Repository::new("path/to/repo", remotes);

    assert_eq!(repo.dest, "path/to/repo");
    assert_eq!(repo.remotes.len(), 1);
    assert_eq!(repo.clone_url(), Some("git@github.com:example/repo.git"));
}

#[test]
fn test_repository_builder() {
    let remotes = vec![Remote::new("origin", "git@github.com:example/repo.git")];
    let repo = Repository::new("path/to/repo", remotes)
        .with_branch("main")
        .with_sha1("abc123")
        .with_shallow(true);

    assert_eq!(repo.branch, Some("main".to_string()));
    assert_eq!(repo.sha1, Some("abc123".to_string()));
    assert!(repo.shallow);
    assert!(repo.has_fixed_ref());
}

#[test]
fn test_get_remote() {
    let remotes = vec![
        Remote::new("origin", "git@github.com:example/repo.git"),
        Remote::new("upstream", "git@github.com:upstream/repo.git"),
    ];
    let repo = Repository::new("path/to/repo", remotes);

    assert!(repo.get_remote("origin").is_some());
    assert!(repo.get_remote("upstream").is_some());
    assert!(repo.get_remote("nonexistent").is_none());

    let origin = repo.get_origin().unwrap();
    assert_eq!(origin.name, "origin");
}

#[test]
fn repository_without_remotes_has_no_clone_url() {
    let repo = Repository::new("d", vec![]);
    assert_eq!(repo.clone_url(), None);
    assert!(!repo.has_fixed_ref());
    assert!(Repository::new("d", vec![]).with_tag("v1").has_fixed_ref());
}

#[test]
fn test_list_groups() {
    let groups = vec![
        ("group1".to_string(), Group::new(vec![])),
        ("group2".to_string(), Group::new(vec![])),
    ];

    let manifest = Manifest::new(vec![]).with_groups(groups);
    let service = ManifestService::default();

    let mut group_list = service.list_groups(&manifest);
    group_list.sort();

    assert_eq!(group_list, vec!["group1", "group2"]);
}

#[test]
fn test_get_group_info() {
    let repos = vec![
        ManifestRepo::new("https://github.com/example/repo1.git", "repo1"),
        ManifestRepo::new("https://github.com/example/repo2.git", "repo2"),
    ];

    let groups = vec![(
        "group1".to_string(),
        Group::new(vec!["repo1".to_string(), "repo2".to_string()]).with_description("Test group"),
    )];

    let manifest = Manifest::new(repos).with_groups(groups);
    let service = ManifestService::default();

    let (group, group_repos) = service.get_group_info(&manifest, "group1").unwrap();
    assert_eq!(group.description, Some("Test group".to_string()));
    assert_eq!(group_repos.len(), 2);

    assert!(service.get_group_info(&manifest, "nonexistent").is_none());
}

#[test]
fn test_depth_limit() {
    let mut options = ManifestProcessingOptions::default();
    options.max_depth = 2;

    let service = ManifestService::new(options);

    assert_eq!(service.options().max_depth, 2);
    assert!(service.check_depth(2).is_ok());
    match service.check_depth(3) {
        Err(e) => assert_eq!(e.to_string(), "Deep manifest depth limit exceeded (max: 2, current: 3)"),
        Ok(()) => panic!("depth 3 is over the limit"),
    }
}

#[test]
fn test_merge_manifests() {
    let service = ManifestService::default();

    let base_repos = vec![ManifestRepo::new("https://github.com/example/repo1.git", "repo1")];
    let base_manifest = Manifest::new(base_repos);

    let include_repos = vec![
        ManifestRepo::new("https://github.com/example/repo2.git", "repo2"),
        ManifestRepo::new("https://github.com/example/repo1.git", "repo1"),
    ];
    let include_manifest = Manifest::new(include_repos);

    let merged = service.merge_manifests(base_manifest, include_manifest, 1).unwrap();

    assert_eq!(merged.repos.len(), 2);
    assert!(merged.repos.iter().any(|r| r.dest == "repo1"));
    assert!(merged.repos.iter().any(|r| r.dest == "repo2"));
}

#[test]
fn test_manifest_validation() {
    let manifest = Manifest::new(vec![
        ManifestRepo::new("https://github.com/example/repo1.git", "repo1"),
        ManifestRepo::new("https://github.com/example/repo2.git", "repo1"),
    ]);
    let service = ManifestService::default();
    let result = service.validate_manifest(&manifest);
    assert!(matches!(result, Err(ManifestServiceError::ValidationError(_))));
}

#[test]
fn valid_manifest_passes_validation() {
    let manifest = Manifest::new(vec![
        ManifestRepo::new("https://github.com/example/repo1.git", "repo1"),
        ManifestRepo::new("https://github.com/example/repo2.git", "repo2"),
    ]);
    assert!(ManifestService::default().validate_manifest(&manifest).is_ok());
}

#[test]
fn test_filter_by_groups() {
    let repos = vec![
        ManifestRepo::new("https://github.com/example/repo1.git", "repo1"),
        ManifestRepo::new("https://github.com/example/repo2.git", "repo2"),
        ManifestRepo::new("https://github.com/example/repo3.git", "repo3"),
    ];
    let groups = vec![
        ("group1".to_string(), Group::new(vec!["repo1".to_string(), "repo2".to_string()])),
        ("group2".to_string(), Group::new(vec!["repo3".to_string()])),
    ];
    let manifest = Manifest::new(repos).with_groups(groups);
    let service = ManifestService::default();

    let filtered = service.filter_by_groups(&manifest, &["group1".to_string()]).unwrap();

    assert_eq!(filtered.repos.len(), 2);
    assert!(filtered.repos.iter().any(|r| r.dest == "repo1"));
    assert!(filtered.repos.iter().any(|r| r.dest == "repo2"));
    assert!(!filtered.repos.iter().any(|r| r.dest == "repo3"));

    let groups = filtered.groups.unwrap();
    assert!(groups.iter().any(|(n, _)| n == "group1"));
    assert!(!groups.iter().any(|(n, _)| n == "group2"));
}

#[test]
fn test_group_not_found() {
    let manifest = Manifest::new(vec![]);
    let service = ManifestService::default();

    let result = service.filter_by_groups(&manifest, &["nonexistent".to_string()]);
    assert!(matches!(result, Err(ManifestServiceError::GroupNotFound(_))));
}

#[test]
fn circular_inclusion_is_detected() {
    let service = ManifestService::default();
    let visited = vec!["a.yml".to_string()];
    assert!(matches!(
        service.check_circular(&visited, "a.yml"),
        Err(ManifestServiceError::CircularDependency(_))
    ));
    assert!(service.check_circular(&visited, "b.yml").is_ok());
}

#[test]
fn remote_fetch_disabled_error() {
    let e = ManifestService::fetch_disabled("https://x/m.yml");
    assert_eq!(e.to_string(), "Failed to fetch remote manifest from https://x/m.yml: Remote fetch is disabled");
}

#[test]
fn repositories_keep_branch_and_remotes() {
    let repo = ManifestRepo::new("https://github.com/o/r.git", "r").with_branch("dev");
    let m = Manifest::new(vec![repo]);
    let rs = m.to_repositories();
    assert_eq!(rs.len(), 1);
    assert_eq!(rs[0].dest, "r");
    assert_eq!(rs[0].branch.as_deref(), Some("dev"));
    assert_eq!(rs[0].remotes[0].name, "origin");
    assert_eq!(rs[0].remotes[0].url, "https://github.com/o/r.git");
}
