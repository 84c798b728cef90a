use wmgr::scm_status::{active_bookmark, changeset_count, git_status_result, hg_ahead_behind, hg_status_result, p4_status_result, phase_of, svn_status_result};

fn pairs(v: &[(&str, &str)]) -> Vec<(String, String)> {
    v.iter().map(|(a, b)| (a.to_string(), b.to_string())).collect()
}

#[test]
fn git_status_from_outputs() {
    let s = git_status_result(
        "abc123".to_string(),
        Some("main".to_string()),
        " M src/lib.rs\n",
        "",
        Some("2".to_string()),
        Some("x".to_string()),
    );
    assert_eq!(s.current_revision, "abc123");
    assert_eq!(s.current_branch, Some("main".to_string()));
    assert!(s.has_changes);
    assert!(!s.has_untracked);
    assert_eq!(s.ahead_count, Some(2));
    assert_eq!(s.behind_count, None);
    assert_eq!(s.extra_info, pairs(&[("scm_type", "git"), ("branch", "main")]));

    let detached = git_status_result("abc".to_string(), Some(String::new()), "", "new.txt", Some("1".to_string()), None);
    assert_eq!(detached.current_branch, None);
    assert_eq!(detached.ahead_count, None);
    assert!(detached.has_untracked);
    assert_eq!(detached.extra_info, pairs(&[("scm_type", "git")]));
}

#[test]
fn svn_status_from_outputs() {
    let s = svn_status_result(" 42\n", Some("https://svn/x/branches/feat/src".to_string()), "M       a.c\n?       b.c\n");
    assert_eq!(s.current_revision, "42");
    assert_eq!(s.current_branch, Some("branches/feat".to_string()));
    assert!(s.has_changes);
    assert!(s.has_untracked);
    assert_eq!(
        s.extra_info,
        pairs(&[("scm_type", "svn"), ("url", "https://svn/x/branches/feat/src"), ("branch_path", "branches/feat")])
    );
    let clean = svn_status_result("7", None, "?  only.txt\n");
    assert!(!clean.has_changes);
    assert_eq!(clean.current_branch, None);
}

#[test]
fn p4_status_from_outputs() {
    let s = p4_status_result("Change 1234 on 2024/01/01 by u@c 'msg'", "", "ssl:p4:1666", "ws", "//depot/x/...");
    assert_eq!(s.current_revision, "1234");
    assert_eq!(s.current_branch, Some("//depot/x/...".to_string()));
    assert!(!s.has_changes);
    assert_eq!(s.extra_info.len(), 4);
    assert_eq!(p4_status_result("", "//depot/a#1 - edit", "s", "c", "d").current_revision, "unknown");
}

#[test]
fn hg_status_from_outputs() {
    let s = hg_status_result(
        "a1b2c3+",
        Some("default".to_string()),
        "M x\n? y\n",
        Some("parent: 1".to_string()),
        Some("   old   1:aa\n * feature   2:bb\n".to_string()),
        Some("2: draft\n".to_string()),
        Some(1),
        None,
    );
    assert_eq!(s.current_revision, "a1b2c3");
    assert!(s.has_changes && s.has_untracked);
    assert_eq!(
        s.extra_info,
        pairs(&[
            ("scm_type", "hg"),
            ("branch", "default"),
            ("active_bookmark", "feature"),
            ("phase", "draft"),
            ("summary", "parent: 1"),
        ])
    );
    assert_eq!(active_bookmark("  a 1:x\n"), None);
    assert_eq!(phase_of("nothing"), None);
    assert_eq!(changeset_count("xxx"), 3);
    assert_eq!(hg_ahead_behind(true, Some("default".to_string()), Some("xx".to_string()), None), (Some(2), None));
    assert_eq!(hg_ahead_behind(false, Some("default".to_string()), Some("xx".to_string()), None), (None, None));
}
