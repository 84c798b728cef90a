use wmgr::rclone::{RcloneManager, RemoteAction};
use wmgr::s3::{parse_s3_url, relative_object_path, S3Config, S3Error};

#[test]
fn test_default_config_path() {
    let manager = RcloneManager::new(Some("/home/user"));
    let path = manager.config_path();
    assert!(path.contains("wmgr/rclone.conf"));
}

#[test]
fn test_custom_config_path() {
    let manager = RcloneManager::with_config_path("/tmp/test-rclone.conf");
    assert_eq!(manager.config_path(), "/tmp/test-rclone.conf");
}

#[test]
fn test_is_ci() {
    assert!(!RcloneManager::is_ci(false, false));
    assert!(RcloneManager::is_ci(true, false));
    assert!(RcloneManager::is_ci(false, true));
}

#[test]
fn test_has_local_browser_headless_override() {
    assert!(!RcloneManager::has_local_browser(true, false, false, false, true, false));
    assert!(RcloneManager::has_local_browser(false, false, false, false, false, false));
    assert!(!RcloneManager::has_local_browser(false, false, false, true, false, false));
    assert!(RcloneManager::has_local_browser(false, false, false, true, false, true));
    assert!(!RcloneManager::has_local_browser(false, true, false, false, false, false));
}

#[test]
fn default_config_path_without_home() {
    assert_eq!(RcloneManager::default_config_path(None), "/tmp/wmgr-rclone.conf");
    assert_eq!(RcloneManager::default_config_path(Some("/h")), "/h/.config/wmgr/rclone.conf");
}

#[test]
fn remote_listing_and_actions() {
    assert!(RcloneManager::remote_listed("a:\n  gdrive: \n", "gdrive"));
    assert!(!RcloneManager::remote_listed("gdrive2:\n", "gdrive"));
    assert_eq!(RcloneManager::remote_config("g"), "[g]\ntype = drive\n");
    assert_eq!(RcloneManager::remote_action(false, false), RemoteAction::CreateAndAuthorize);
    assert_eq!(RcloneManager::remote_action(true, true), RemoteAction::Ready);
    assert_eq!(RcloneManager::remote_action(true, false), RemoteAction::Reauthorize);
    assert!(RcloneManager::ci_auth_required("g").to_string().contains("WMGR_GDRIVE_TOKEN"));
}

#[test]
fn test_parse_s3_url() {
    let (bucket, prefix) = parse_s3_url("s3://my-bucket/path/to/files").unwrap();
    assert_eq!(bucket, "my-bucket");
    assert_eq!(prefix, "path/to/files");

    let (bucket, prefix) = parse_s3_url("s3://my-bucket").unwrap();
    assert_eq!(bucket, "my-bucket");
    assert_eq!(prefix, "");

    assert!(parse_s3_url("https://example.com").is_err());
    assert!(parse_s3_url("s3://").is_err());
}

#[test]
fn s3_error_messages() {
    match parse_s3_url("https://x") {
        Err(e) => assert_eq!(e.to_string(), "Invalid S3 URL: URL must start with s3://: https://x"),
        Ok(_) => panic!("expected an error"),
    }
    match parse_s3_url("s3:///p") {
        Err(S3Error::InvalidUrl(m)) => assert_eq!(m, "Bucket name is empty"),
        _ => panic!("expected an error"),
    }
}

#[test]
fn s3_config_flags() {
    let c = S3Config::default();
    assert!(!c.has_static_credentials());
    assert!(!c.force_path_style());
    let c = S3Config {
        access_key_id: Some("a".to_string()),
        secret_access_key: Some("b".to_string()),
        endpoint_url: Some("http://minio".to_string()),
        ..S3Config::default()
    };
    assert!(c.has_static_credentials());
    assert!(c.force_path_style());
}

#[test]
fn relative_paths_of_objects() {
    assert_eq!(relative_object_path("p/a/b.txt", "p"), Some("a/b.txt".to_string()));
    assert_eq!(relative_object_path("p/dir/", "p"), None);
}
