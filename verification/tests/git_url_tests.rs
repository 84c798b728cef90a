use wmgr::git_url::{validate_host_security, validate_path_security, validate_security, GitUrl, GitUrlError};
use wmgr::ip::is_private_ip;
use wmgr::git_url::check_injection_patterns;


#[test]
fn test_ssh_url_normalization() {
    let git_url = GitUrl::new("git@github.com:owner/repo.git").unwrap();
    assert_eq!(git_url.as_str(), "https://github.com/owner/repo");
    assert_eq!(git_url.host(), "github.com");
    assert_eq!(git_url.repo_path(), "owner/repo");
}

#[test]
fn test_https_url() {
    let git_url = GitUrl::new("https://github.com/owner/repo.git").unwrap();
    assert_eq!(git_url.as_str(), "https://github.com/owner/repo");
    assert_eq!(git_url.scheme(), "https");
    assert_eq!(git_url.host(), "github.com");
    assert_eq!(git_url.repo_path(), "owner/repo");
}

#[test]
fn test_git_scheme_url() {
    let git_url = GitUrl::new("git://github.com/owner/repo").unwrap();
    assert_eq!(git_url.as_str(), "https://github.com/owner/repo");
    assert_eq!(git_url.scheme(), "https");
}

#[test]
fn test_url_conversion() {
    let git_url = GitUrl::new("git@github.com:owner/repo.git").unwrap();
    assert_eq!(git_url.to_ssh_url(), "git@github.com:owner/repo.git");
    assert_eq!(git_url.to_https_url(), "https://github.com/owner/repo.git");
}

#[test]
fn test_repo_info() {
    let git_url = GitUrl::new("https://github.com/owner/repo").unwrap();
    assert_eq!(git_url.repo_name(), Some("repo"));
    assert_eq!(git_url.organization(), Some("owner"));
}

#[test]
fn test_same_repo_check() {
    let url1 = GitUrl::new("git@github.com:owner/repo.git").unwrap();
    let url2 = GitUrl::new("https://github.com/owner/repo").unwrap();
    let url3 = GitUrl::new("https://github.com/owner/other-repo").unwrap();

    assert!(url1.is_same_repo(&url2));
    assert!(!url1.is_same_repo(&url3));
}

#[test]
fn test_invalid_urls() {
    assert!(GitUrl::new("invalid-url").is_err());
    assert!(GitUrl::new("ftp://example.com/repo").is_err());
    assert!(GitUrl::new("https://github.com/").is_err());
}

#[test]
fn test_repo_name_extraction() {
    let git_url = GitUrl::new("https://github.com/owner/my-repo").unwrap();
    assert_eq!(git_url.repo_name(), Some("my-repo"));

    let git_url_deep = GitUrl::new("https://gitlab.com/group/subgroup/project").unwrap();
    assert_eq!(git_url_deep.repo_name(), Some("project"));

    let git_url_single = GitUrl::new("https://github.com/standalone").unwrap();
    assert_eq!(git_url_single.repo_name(), Some("standalone"));

    let git_url_empty = GitUrl::new("https://github.com/owner/").unwrap();
    assert_eq!(git_url_empty.repo_name(), Some(""));
}

#[test]
fn test_organization_extraction() {
    let git_url = GitUrl::new("https://github.com/my-org/repo").unwrap();
    assert_eq!(git_url.organization(), Some("my-org"));

    let git_url_deep = GitUrl::new("https://gitlab.com/group/subgroup/project").unwrap();
    assert_eq!(git_url_deep.organization(), Some("group"));

    let git_url_single = GitUrl::new("https://github.com/standalone").unwrap();
    assert_eq!(git_url_single.organization(), None);
}

#[test]
fn test_same_repo_comparison() {
    let ssh_url = GitUrl::new("git@github.com:owner/repo.git").unwrap();
    let https_url = GitUrl::new("https://github.com/owner/repo").unwrap();
    let https_git_url = GitUrl::new("https://github.com/owner/repo.git").unwrap();
    let different_repo = GitUrl::new("https://github.com/owner/other-repo").unwrap();
    let different_host = GitUrl::new("https://gitlab.com/owner/repo").unwrap();

    assert!(ssh_url.is_same_repo(&https_url));
    assert!(https_url.is_same_repo(&https_git_url));
    assert!(ssh_url.is_same_repo(&https_git_url));
    assert!(!ssh_url.is_same_repo(&different_repo));
    assert!(!https_url.is_same_repo(&different_host));
}

#[test]
fn test_http_url_support() {
    let git_url = GitUrl::new("http://github.com/owner/repo").unwrap();
    assert_eq!(git_url.as_str(), "http://github.com/owner/repo");
    assert_eq!(git_url.scheme(), "http");
    assert_eq!(git_url.host(), "github.com");
    assert_eq!(git_url.repo_path(), "owner/repo");
}

#[test]
fn test_edge_cases() {
    let git_url_with_port = GitUrl::new("https://github.com:443/owner/repo").unwrap();
    assert_eq!(git_url_with_port.host(), "github.com");

    let git_url_nested =
        GitUrl::new("https://gitlab.example.com/group/subgroup/project").unwrap();
    assert_eq!(git_url_nested.repo_path(), "group/subgroup/project");
    assert_eq!(git_url_nested.organization(), Some("group"));
    assert_eq!(git_url_nested.repo_name(), Some("project"));
}

#[test]
fn test_display_trait() {
    let git_url = GitUrl::new("https://github.com/owner/repo").unwrap();
    assert_eq!(git_url.to_string(), "https://github.com/owner/repo");
}

#[test]
fn test_try_from_str() {
    let git_url: Result<GitUrl, _> = "git@github.com:owner/repo.git".try_into();
    assert!(git_url.is_ok());
    assert_eq!(git_url.unwrap().as_str(), "https://github.com/owner/repo");
}

#[test]
fn test_try_from_string() {
    let url_string = String::from("https://github.com/owner/repo.git");
    let git_url: Result<GitUrl, _> = url_string.try_into();
    assert!(git_url.is_ok());
    assert_eq!(git_url.unwrap().as_str(), "https://github.com/owner/repo");
}

#[test]
fn test_whitespace_handling() {
    let git_url = GitUrl::new("  https://github.com/owner/repo.git  ").unwrap();
    assert_eq!(git_url.as_str(), "https://github.com/owner/repo");
}

#[test]
fn test_error_types() {
    let invalid_result = GitUrl::new("not-a-url");
    assert!(matches!(invalid_result, Err(GitUrlError::InvalidFormat(_))));

    let ftp_result = GitUrl::new("ftp://example.com/repo");
    assert!(matches!(ftp_result, Err(GitUrlError::InvalidFormat(_))));

    let missing_path_result = GitUrl::new("https://github.com/");
    assert!(matches!(
        missing_path_result,
        Err(GitUrlError::MissingRepoPath)
    ));
}

#[test]
fn test_unsupported_scheme_error() {
    let error = GitUrlError::UnsupportedScheme("ftp".to_string());
    assert_eq!(error.to_string(), "Unsupported URL scheme: ftp");
}

#[test]
fn test_url_injection_detection() {
    let result = GitUrl::new("javascript:alert('xss')");
    assert!(matches!(result, Err(GitUrlError::UrlInjectionAttempt(_))));

    let result = GitUrl::new("data:text/html,<script>alert('xss')</script>");
    assert!(matches!(result, Err(GitUrlError::UrlInjectionAttempt(_))));

    let result = GitUrl::new("https://github.com/../../../etc/passwd");
    assert!(matches!(result, Err(GitUrlError::UrlInjectionAttempt(_))));

    let result = GitUrl::new("https://github.com/owner/repo\x00");
    assert!(matches!(result, Err(GitUrlError::InvalidCharacters(_))));

    let result = GitUrl::new("https://github.com/owner/repo<script>");
    assert!(matches!(result, Err(GitUrlError::UrlInjectionAttempt(_))));
}

#[test]
fn test_blocked_domains() {
    let result = GitUrl::new("https://localhost/owner/repo");
    assert!(matches!(result, Err(GitUrlError::BlockedDomain(_))));

    let result = GitUrl::new("https://127.0.0.1/owner/repo");
    assert!(matches!(result, Err(GitUrlError::BlockedDomain(_))));

    let result = GitUrl::new("https://169.254.169.254/owner/repo");
    assert!(matches!(result, Err(GitUrlError::BlockedDomain(_))));

    let result = GitUrl::new("https://metadata.google.internal/owner/repo");
    assert!(matches!(result, Err(GitUrlError::BlockedDomain(_))));
}

#[test]
fn test_private_ip_detection() {
    let result = GitUrl::new("https://10.0.0.1/owner/repo");
    assert!(matches!(result, Err(GitUrlError::BlockedDomain(_))));

    let result = GitUrl::new("https://172.16.0.1/owner/repo");
    assert!(matches!(result, Err(GitUrlError::BlockedDomain(_))));

    let result = GitUrl::new("https://192.168.1.1/owner/repo");
    assert!(matches!(result, Err(GitUrlError::BlockedDomain(_))));

    let result = GitUrl::new("https://169.254.1.1/owner/repo");
    assert!(matches!(result, Err(GitUrlError::BlockedDomain(_))));
}

#[test]
fn test_url_length_validation() {
    let long_url = format!("https://github.com/{}", "a".repeat(2050));
    let result = GitUrl::new(&long_url);
    assert!(matches!(result, Err(GitUrlError::MaliciousUrl(_))));
}

#[test]
fn test_empty_url_validation() {
    let result = GitUrl::new("");
    assert!(matches!(result, Err(GitUrlError::InvalidFormat(_))));

    let result = GitUrl::new("   ");
    assert!(matches!(result, Err(GitUrlError::InvalidFormat(_))));
}

#[test]
fn test_valid_urls_pass_security() {
    let result = GitUrl::new("https://github.com/owner/repo");
    assert!(result.is_ok());

    let result = GitUrl::new("https://gitlab.com/owner/repo");
    assert!(result.is_ok());

    let result = GitUrl::new("git@github.com:owner/repo.git");
    assert!(result.is_ok());
}

#[test]
fn test_path_security_validation() {
    let result = GitUrl::new("https://github.com/owner/../../../etc/passwd");
    assert!(matches!(result, Err(GitUrlError::UrlInjectionAttempt(_))));

    let result = GitUrl::new("https://github.com/owner/..\\..\\windows\\system32");
    assert!(matches!(result, Err(GitUrlError::UrlInjectionAttempt(_))));

    let result = GitUrl::new("https://github.com/owner/repo|evil");
    assert!(matches!(result, Err(GitUrlError::InvalidCharacters(_))));

    let result = GitUrl::new("https://github.com/owner/repo?query");
    assert!(matches!(result, Err(GitUrlError::InvalidCharacters(_))));

    let result = GitUrl::new("https://github.com/owner/repo*");
    assert!(matches!(result, Err(GitUrlError::InvalidCharacters(_))));
}

#[test]
fn test_hostname_character_validation() {
    let result = GitUrl::new("https://github|evil.com/owner/repo");
    assert!(matches!(result, Err(GitUrlError::InvalidCharacters(_))));

    let result = GitUrl::new("https://github<evil>.com/owner/repo");
    assert!(matches!(result, Err(GitUrlError::InvalidCharacters(_))));
}

#[test]
fn test_ipv6_security() {
    let result = GitUrl::new("https://[::1]/owner/repo");
    assert!(matches!(result, Err(GitUrlError::BlockedDomain(_))));

    let result = GitUrl::new("https://[fc00::1]/owner/repo");
    assert!(matches!(result, Err(GitUrlError::BlockedDomain(_))));
}

#[test]
fn test_error_messages() {
    let result = GitUrl::new("javascript:alert('xss')");
    if let Err(e) = result {
        assert!(e.to_string().contains("URL injection attempt detected"));
    }

    let result = GitUrl::new("https://localhost/owner/repo");
    if let Err(e) = result {
        assert!(e.to_string().contains("Blocked domain"));
    }

    let result = GitUrl::new("https://10.0.0.1/owner/repo");
    if let Err(e) = result {
        assert!(e.to_string().contains("Private IP address not allowed"));
    }
}

#[test]
fn security_checks_alone() {
    assert!(validate_security("https://github.com/o/r").is_ok());
    assert!(matches!(validate_security("vbscript:x"), Err(GitUrlError::UrlInjectionAttempt(_))));
    assert!(validate_host_security("github.com").is_ok());
    assert!(matches!(validate_host_security("192.168.0.1"), Err(GitUrlError::BlockedDomain(_))));
    assert!(validate_path_security("owner/repo").is_ok());
    assert!(validate_path_security("owner/../x").is_err());
}

#[test]
fn parsed_components_of_ssh_url() {
    let u = GitUrl::new("git@gitlab.com:g/s/p.git").unwrap();
    assert_eq!(u.to_ssh_url(), "git@gitlab.com:g/s/p.git");
    assert_eq!(u.to_https_url(), "https://gitlab.com/g/s/p.git");
    assert_eq!(u.organization(), Some("g"));
}

#[test]
fn injection_patterns_ignore_case() {
    assert!(matches!(GitUrl::new("JavaScript:alert(1)"), Err(GitUrlError::UrlInjectionAttempt(_))));
    assert!(matches!(GitUrl::new("https://github.com/OWNER/Repo"), Ok(_)));
}

#[test]
fn ipv6_with_dotted_ipv4_tail_is_private() {
    assert!(is_private_ip("::0.0.0.1"));
    assert!(is_private_ip("::0.0.0.0"));
    assert!(is_private_ip("fc00::1.2.3.4"));
    assert!(is_private_ip("[fd12:3456::10.0.0.1]"));
    assert!(is_private_ip("0:0:0:0:0:0:0.0.0.1"));
    assert!(!is_private_ip("::ffff:127.0.0.1"));
    assert!(!is_private_ip("2001:db8::1.2.3.4"));
    assert!(!is_private_ip("1.2.3.4::"));
    assert!(!is_private_ip("::1.2.3"));
    assert!(!is_private_ip("::1.2.3.4:5"));
    assert!(!is_private_ip("0:0:0:0:0:0:0:0.0.0.1"));
    let r = validate_host_security("::0.0.0.1");
    assert_eq!(
        r,
        Err(GitUrlError::BlockedDomain("Private IP address not allowed: ::0.0.0.1".to_string()))
    );
}

#[test]
fn injection_check_on_lowered_text() {
    assert_eq!(
        check_injection_patterns("javascript:alert(1)"),
        Err(GitUrlError::UrlInjectionAttempt("Detected suspicious pattern: javascript:".to_string()))
    );
    assert_eq!(
        check_injection_patterns("https://github.com//evil"),
        Err(GitUrlError::UrlInjectionAttempt("Detected suspicious pattern: // outside of scheme".to_string()))
    );
    assert!(check_injection_patterns("https://github.com/owner/repo").is_ok());
}

#[test]
fn user_information_is_not_part_of_the_host() {
    assert!(validate_security("https://user@github.com/owner/repo").is_ok());
    assert!(validate_security("https://a@b@github.com/owner/repo").is_ok());
    assert_eq!(
        validate_security("https://user@localhost/owner/repo"),
        Err(GitUrlError::BlockedDomain("Localhost not allowed: localhost".to_string()))
    );
    assert!(validate_security("https://github.com?x").is_ok());
    assert!(matches!(validate_security("https://git|hub.com?x"), Err(GitUrlError::InvalidCharacters(_))));
}
