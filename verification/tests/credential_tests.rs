use wmgr::credential_service::CredentialService;
use wmgr::credential_store::CredentialStore;
use wmgr::manifest::ManifestRepo;
use wmgr::credential::{CredentialError, CredentialHelperRunner, CredentialProfile, CredentialSource, ResolvedCredentials};

#[test]
fn test_credential_profile_is_empty() {
    assert!(CredentialProfile::default().is_empty());

    let profile = CredentialProfile {
        username: Some("user".to_string()),
        ..Default::default()
    };
    assert!(!profile.is_empty());
}

#[test]
fn test_credential_profile_merge() {
    let mut base = CredentialProfile {
        username: Some("existing".to_string()),
        ..Default::default()
    };
    let other = CredentialProfile {
        username: Some("should_not_override".to_string()),
        password: Some("new_pass".to_string()),
        ..Default::default()
    };

    base.merge_from(&other);
    assert_eq!(base.username, Some("existing".to_string()));
    assert_eq!(base.password, Some("new_pass".to_string()));
}

#[test]
fn test_credential_source_display() {
    assert_eq!(CredentialSource::EnvVar.to_string(), "environment variable");
    assert_eq!(
        CredentialSource::ProfileFile.to_string(),
        "credential profile file"
    );
}

#[test]
fn test_parse_helper_output() {
    let output = "username=myuser\npassword=mypass\ntoken=mytoken\n";
    let profile = CredentialHelperRunner::parse_helper_output(output).unwrap();
    assert_eq!(profile.username, Some("myuser".to_string()));
    assert_eq!(profile.password, Some("mypass".to_string()));
    assert_eq!(profile.token, Some("mytoken".to_string()));
}

#[test]
fn test_parse_helper_output_with_aws() {
    let output = "aws_access_key_id=AKIA123\naws_secret_access_key=secret\n";
    let profile = CredentialHelperRunner::parse_helper_output(output).unwrap();
    assert_eq!(profile.aws_access_key_id, Some("AKIA123".to_string()));
    assert_eq!(profile.aws_secret_access_key, Some("secret".to_string()));
}

#[test]
fn test_parse_helper_output_empty() {
    let profile = CredentialHelperRunner::parse_helper_output("").unwrap();
    assert!(profile.is_empty());
}

#[test]
fn merge_keeps_set_fields_and_is_idempotent() {
    let mut a = CredentialProfile { token: Some("t".to_string()), ..Default::default() };
    let b = CredentialProfile {
        token: Some("other".to_string()),
        gdrive_client_id: Some("cid".to_string()),
        ..Default::default()
    };
    a.merge_from(&b);
    assert_eq!(a.token, Some("t".to_string()));
    assert_eq!(a.gdrive_client_id, Some("cid".to_string()));
    let before = a.clone();
    a.merge_from(&b);
    assert_eq!(a.token, before.token);
    assert_eq!(a.gdrive_client_id, before.gdrive_client_id);
}

#[test]
fn helper_output_ignores_unknown_keys_and_blank_lines() {
    let profile = CredentialHelperRunner::parse_helper_output("\nfoo=bar\nusername=u\n").unwrap();
    assert_eq!(profile.username, Some("u".to_string()));
    assert!(profile.password.is_none());
}

#[test]
fn helper_input_names_protocol_and_host() {
    let input = CredentialHelperRunner::helper_input("https", "github.com");
    assert!(input.contains("protocol=https"));
    assert!(input.contains("host=github.com"));
}

#[test]
fn resolved_credentials_empty_has_empty_profile() {
    let r = ResolvedCredentials::empty("work");
    assert!(r.profile.is_empty());
    assert_eq!(r.profile_name, "work");
}

#[test]
fn credential_error_text() {
    let e = CredentialError::HelperFailed("boom".to_string());
    assert!(e.to_string().contains("boom"));
}

#[test]
fn credential_levels_in_priority_order() {
    let user = |u: &str| CredentialProfile { username: Some(u.to_string()), ..Default::default() };
    let r = CredentialStore::resolve_credentials("p", user("env"), Some(Ok(user("cli"))), None, None);
    assert_eq!(r.source, CredentialSource::EnvVar);
    assert_eq!(r.profile.username, Some("env".to_string()));

    let r = CredentialStore::resolve_credentials(
        "p",
        CredentialProfile::default(),
        Some(Err(CredentialError::ProfileNotFound("p".to_string()))),
        Some(Ok(CredentialProfile::default())),
        Some(Ok(user("helper"))),
    );
    assert_eq!(r.source, CredentialSource::CredentialHelper);
    assert_eq!(r.profile.username, Some("helper".to_string()));
    assert_eq!(r.profile_name, "p");

    let r = CredentialStore::resolve_credentials("p", CredentialProfile::default(), None, Some(Ok(user("file"))), None);
    assert_eq!(r.source, CredentialSource::ProfileFile);

    let r = CredentialStore::resolve_credentials("p", CredentialProfile::default(), None, None, None);
    assert_eq!(r.source, CredentialSource::Manifest);
    assert!(r.profile.is_empty());
}

#[test]
fn test_credential_service_fallback_to_manifest() {
    let service = CredentialService::new(None, None);
    let repo = ManifestRepo::new("https://example.com/repo.git", "repo").with_auth("manifest_user", "manifest_pass");
    let name = service.profile_name_for(&repo, None);
    assert_eq!(name, "default");
    let resolved = service.get_credentials_for_repo(&repo, &name, CredentialProfile::default(), None, None, None);
    assert_eq!(resolved.profile.username, Some("manifest_user".to_string()));
    assert_eq!(resolved.profile.password, Some("manifest_pass".to_string()));
}

#[test]
fn found_username_is_kept_over_manifest() {
    let service = CredentialService::new(Some("work".to_string()), None);
    let repo = ManifestRepo::new("https://example.com/repo.git", "repo").with_auth("m", "mp");
    assert_eq!(service.profile_name_for(&repo, Some("env")), "work");
    let env = CredentialProfile { username: Some("u".to_string()), ..Default::default() };
    let resolved = service.get_credentials_for_repo(&repo, "work", env, None, None, None);
    assert_eq!(resolved.profile.username, Some("u".to_string()));
    assert_eq!(resolved.profile.password, Some("mp".to_string()));
    assert_eq!(resolved.source, CredentialSource::EnvVar);
}
