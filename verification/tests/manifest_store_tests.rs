use wmgr::manifest::{FileCopy, FileSymlink, Group, Manifest, ManifestRepo};
use wmgr::manifest_store::{FileOperationConfig, FileStep, ManifestProcessingOptions, ManifestStore, ManifestStoreError};

fn store_with(config: FileOperationConfig) -> ManifestStore {
    ManifestStore::with_options(ManifestProcessingOptions { file_operation_config: config, ..ManifestProcessingOptions::default() })
}

#[test]
fn path_validation_rules() {
    let store = ManifestStore::new();
    assert!(store.validate_copy_paths("/ws/repo/a.txt", "/ws/a.txt").is_ok());
    assert!(matches!(store.validate_copy_paths("/ws/../a", "/ws/b"), Err(ManifestStoreError::PathValidationFailed(_))));
    assert!(store.validate_copy_paths("/ws/a", "/ws/a").is_err());
    assert!(store.validate_symlink_paths("/ws/link", "../shared").is_ok());
    assert!(store.validate_symlink_paths("/ws/link", "/etc/../x").is_err());
}

#[test]
fn file_operation_paths() {
    let repo = ManifestRepo::new("u", "repo");
    let copy = FileCopy { file: "a.txt".to_string(), dest: "top/a.txt".to_string() };
    assert_eq!(
        ManifestStore::copy_paths(&copy, &repo, "/ws"),
        ("/ws/repo/a.txt".to_string(), "/ws/top/a.txt".to_string())
    );
    let link = FileSymlink { source: "l".to_string(), target: "repo/x".to_string() };
    assert_eq!(ManifestStore::symlink_paths(&link, "/ws"), ("/ws/l".to_string(), "repo/x".to_string()));
    let mut manifest = Manifest::new(vec![ManifestRepo::new("u", "repo")]);
    manifest.repos[0].copy = Some(vec![FileCopy { file: "../x".to_string(), dest: "y".to_string() }]);
    assert!(ManifestStore::new().validate_file_operations(&manifest, "/ws/wmgr.yml").is_err());
}

#[test]
fn backup_names_and_pruning() {
    assert_eq!(ManifestStore::backup_file_name("wmgr.yml", "20240101_120000"), "wmgr.yml.bak_20240101_120000");
    assert!(ManifestStore::is_backup_of("wmgr.yml.bak_1", "wmgr.yml"));
    assert!(!ManifestStore::is_backup_of("other.bak_1", "wmgr.yml"));
    let store = store_with(FileOperationConfig { max_backups: 2, ..FileOperationConfig::default() });
    let backups = vec!["b3".to_string(), "b2".to_string(), "b1".to_string(), "b0".to_string()];
    assert_eq!(store.backups_to_remove(&backups), vec!["b1".to_string(), "b0".to_string()]);
}

#[test]
fn file_operation_steps() {
    let store = ManifestStore::new();
    assert_eq!(
        store.file_steps(false, true, false),
        vec![FileStep::Validate, FileStep::Backup, FileStep::CreateParents, FileStep::RefuseExisting]
    );
    assert_eq!(store.file_steps(false, false, false), vec![FileStep::Validate, FileStep::CreateParents, FileStep::Perform]);
    let overwrite = store_with(FileOperationConfig {
        overwrite_existing: true,
        create_backup: false,
        validate_paths: false,
        create_parent_dirs: false,
        max_backups: 5,
    });
    assert_eq!(overwrite.file_steps(true, true, true), vec![FileStep::RemoveLink, FileStep::Perform]);
}

#[test]
fn file_operation_results() {
    let mut result = ManifestStore::pending_result("/a", "/b", "copy");
    assert!(ManifestStore::record_step(&mut result, FileStep::Backup, false, Ok(())));
    assert!(result.backup_created);
    assert!(!ManifestStore::record_step(&mut result, FileStep::CreateParents, false, Err("denied".to_string())));
    assert_eq!(result.error, Some("Failed to create parent directory: denied".to_string()));
    let mut refused = ManifestStore::pending_result("/a", "/b", "symlink");
    assert!(!ManifestStore::record_step(&mut refused, FileStep::RefuseExisting, true, Ok(())));
    assert_eq!(refused.error, Some("Source exists and overwrite is disabled".to_string()));
    let mut done = ManifestStore::pending_result("/a", "/b", "copy");
    assert!(ManifestStore::record_step(&mut done, FileStep::Perform, false, Ok(())));
    assert!(done.success && done.error.is_none());
}

#[test]
fn custom_processing_options() {
    let options = ManifestProcessingOptions { process_copy_operations: false, ..ManifestProcessingOptions::default() };
    let store = ManifestStore::with_options(options);
    assert!(!store.options().process_copy_operations);
    assert!(store.blocked_by_existing(true));
    assert!(!store.blocked_by_existing(false));
}

#[test]
fn store_filters_to_the_core_group() {
    let manifest = Manifest::new(vec![ManifestRepo::new("https://github.com/o/a.git", "a"), ManifestRepo::new("https://github.com/o/b.git", "b")])
        .with_groups(vec![("core".to_string(), Group::new(vec!["a".to_string()]))]);
    let store = ManifestStore::new();
    let f = store.filter_manifest_by_groups(&manifest, &["core".to_string()]).unwrap();
    assert_eq!(f.repos.len(), 1);
    assert_eq!(f.repos[0].dest, "a");
    assert!(store.filter_manifest_by_groups(&manifest, &["none".to_string()]).is_err());
}
