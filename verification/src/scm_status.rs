//! The status of a working copy as each back end reads it from the output of its
//! status commands: revision, branch, local changes, untracked files, distance to
//! the upstream, and the back end's own details.
use crate::scm_backends::{hg_change_line, svn_branch, svn_change_line, untracked_line, HgScm, P4Scm, SvnScm};
use crate::scm_interface::StatusResult;
use crate::text::{
    char_vecs_view, chars_of, chars_to_string, contains, lines_of, lines_spec, owned, parse_usize, parse_usize_spec, split_chars,
    split_spec, split_whitespace, str_contains, str_trim, trim, words, lemma_split_nonempty,
};
use vstd::prelude::*;

verus! {

/// The view of an optional text.
pub open spec fn opt_text(o: Option<String>) -> Option<Seq<char>> {
    match o {
        Some(s) => Some(s@),
        None => None,
    }
}

/// The view of an optional text, with an empty text counting as none.
pub open spec fn nonempty_text(o: Option<String>) -> Option<Seq<char>> {
    match o {
        Some(s) => if s@.len() > 0 { Some(s@) } else { None },
        None => None,
    }
}

/// A count read from an optional command output as `usize::from_str` reads it.
pub open spec fn parsed_count(o: Option<String>) -> Option<nat> {
    match o {
        Some(s) => parse_usize_spec(s@),
        None => None,
    }
}

/// `c` is the count `v`.
pub open spec fn count_is(c: Option<usize>, v: Option<nat>) -> bool {
    match c {
        Some(n) => v == Some(n as nat),
        None => v is None,
    }
}

/// The views of key/value pairs.
pub open spec fn pairs_view(s: Seq<(String, String)>) -> Seq<(Seq<char>, Seq<char>)> {
    s.map_values(|p: (String, String)| (p.0@, p.1@))
}

/// No two pairs share a key.
pub open spec fn keys_distinct(s: Seq<(Seq<char>, Seq<char>)>) -> bool {
    forall|i: int, j: int| 0 <= i < s.len() && 0 <= j < s.len() && i != j ==> (#[trigger] s[i]).0 != (#[trigger] s[j]).0
}

/// Every key is in `ks`.
pub open spec fn keys_in(s: Seq<(Seq<char>, Seq<char>)>, ks: Set<Seq<char>>) -> bool {
    forall|i: int| 0 <= i < s.len() ==> ks.contains(#[trigger] s[i].0)
}

/// Appending an optional pair with a key not among the keys so far keeps keys distinct.
proof fn lemma_add_opt_pair(a: Seq<(Seq<char>, Seq<char>)>, ks: Set<Seq<char>>, k: Seq<char>, v: Option<Seq<char>>)
    requires
        keys_distinct(a),
        keys_in(a, ks),
        !ks.contains(k),
    ensures
        keys_distinct(a + opt_pair(k, v)),
        keys_in(a + opt_pair(k, v), ks.insert(k)),
{
    let s = a + opt_pair(k, v);
    assert forall|i: int| 0 <= i < s.len() implies ks.insert(k).contains(#[trigger] s[i].0) by {
        if i < a.len() {
            assert(s[i] == a[i]);
        }
    }
    assert forall|i: int, j: int| 0 <= i < s.len() && 0 <= j < s.len() && i != j implies (#[trigger] s[i]).0 != (#[trigger] s[j]).0 by {
        if i < a.len() {
            assert(s[i] == a[i]);
            assert(ks.contains(a[i].0));
        }
        if j < a.len() {
            assert(s[j] == a[j]);
            assert(ks.contains(a[j].0));
        }
    }
}

/// `key` with the value, when there is one.
pub open spec fn opt_pair(key: Seq<char>, v: Option<Seq<char>>) -> Seq<(Seq<char>, Seq<char>)> {
    match v {
        Some(x) => seq![(key, x)],
        None => Seq::empty(),
    }
}

/// An optional count read from a command output.
fn count_from(o: Option<String>) -> (r: Option<usize>)
    ensures
        count_is(r, parsed_count(o)),
{
    match o {
        Some(s) => parse_usize(s.as_str()),
        None => None,
    }
}

/// An optional text, with an empty one counting as none.
fn nonempty(o: Option<String>) -> (r: Option<String>)
    ensures
        opt_text(r) == nonempty_text(o),
{
    match o {
        Some(s) => if s.unicode_len() > 0 { Some(s) } else { None },
        None => None,
    }
}

/// A key/value pair.
fn pair(k: &str, v: &str) -> (r: (String, String))
    ensures
        r.0@ == k@ && r.1@ == v@,
{
    (owned(k), owned(v))
}

/// The status of a Git working copy, from the outputs of `rev-parse HEAD`, `branch
/// --show-current` (none when it failed), `status --porcelain`, `ls-files --others
/// --exclude-standard`, and the two `rev-list --count` runs against the upstream
/// (none when the upstream does not exist or the run failed). Without a branch there
/// are no counts; a count that does not read as a number is none.
pub fn git_status_result(
    revision: String,
    branch_output: Option<String>,
    status_output: &str,
    untracked_output: &str,
    ahead_output: Option<String>,
    behind_output: Option<String>,
) -> (r: StatusResult)
    ensures
        r.current_revision@ == revision@,
        opt_text(r.current_branch) == nonempty_text(branch_output),
        r.has_changes == (status_output@.len() > 0),
        r.has_untracked == (untracked_output@.len() > 0),
        count_is(r.ahead_count, if nonempty_text(branch_output) is Some { parsed_count(ahead_output) } else { None }),
        count_is(r.behind_count, if nonempty_text(branch_output) is Some { parsed_count(behind_output) } else { None }),
        pairs_view(r.extra_info@) == seq![("scm_type"@, "git"@)] + opt_pair("branch"@, nonempty_text(branch_output)),
        keys_distinct(pairs_view(r.extra_info@)),
{
    let current_branch = nonempty(branch_output);
    let (ahead_count, behind_count) = match &current_branch {
        Some(_) => (count_from(ahead_output), count_from(behind_output)),
        None => (None, None),
    };
    let mut extra_info: Vec<(String, String)> = Vec::new();
    extra_info.push(pair("scm_type", "git"));
    match &current_branch {
        Some(b) => extra_info.push(pair("branch", b.as_str())),
        None => {},
    }
    assert(pairs_view(extra_info@) =~= seq![("scm_type"@, "git"@)] + opt_pair("branch"@, nonempty_text(branch_output)));
    proof {
        reveal_strlit("scm_type");
        reveal_strlit("branch");
        assert("scm_type"@[0] != "branch"@[0]);
    }
    StatusResult {
        current_revision: revision,
        current_branch,
        has_changes: status_output.unicode_len() > 0,
        has_untracked: untracked_output.unicode_len() > 0,
        ahead_count,
        behind_count,
        extra_info,
    }
}

/// The status of a Subversion working copy, from the outputs of `info --show-item
/// revision`, `info --show-item url` (none when it failed) and `status`: the trimmed
/// revision, the branch read from the URL, a change for a line that is not blank and
/// does not start with `?`, an untracked file for a line starting with `?`; no counts.
pub fn svn_status_result(info_output: &str, url_output: Option<String>, status_output: &str) -> (r: StatusResult)
    ensures
        r.current_revision@ == trim(info_output@),
        opt_text(r.current_branch) == (match url_output {
            Some(u) => svn_branch(u@),
            None => None,
        }),
        r.has_changes == exists|i: int| 0 <= i < lines_spec(status_output@).len() && svn_change_line(#[trigger] lines_spec(status_output@)[i]),
        r.has_untracked == exists|i: int| 0 <= i < lines_spec(status_output@).len() && untracked_line(#[trigger] lines_spec(status_output@)[i]),
        r.ahead_count is None && r.behind_count is None,
        pairs_view(r.extra_info@) == seq![("scm_type"@, "svn"@)] + opt_pair("url"@, opt_text(url_output))
            + opt_pair("branch_path"@, match url_output {
                Some(u) => svn_branch(u@),
                None => None,
            }),
        keys_distinct(pairs_view(r.extra_info@)),
{
    let current_revision = str_trim(info_output);
    let current_branch = match &url_output {
        Some(u) => SvnScm::branch_from_url(u.as_str()),
        None => None,
    };
    let has_changes = SvnScm::has_local_changes(status_output);
    let has_untracked = SvnScm::has_untracked_files(status_output);
    let mut extra_info: Vec<(String, String)> = Vec::new();
    extra_info.push(pair("scm_type", "svn"));
    match &url_output {
        Some(u) => extra_info.push(pair("url", u.as_str())),
        None => {},
    }
    match &current_branch {
        Some(b) => extra_info.push(pair("branch_path", b.as_str())),
        None => {},
    }
    proof {
        let branch = match url_output {
            Some(u) => svn_branch(u@),
            None => None,
        };
        assert(pairs_view(extra_info@) =~= seq![("scm_type"@, "svn"@)] + opt_pair("url"@, opt_text(url_output))
            + opt_pair("branch_path"@, branch));
        reveal_strlit("scm_type");
        reveal_strlit("url");
        reveal_strlit("branch_path");
        let e0 = seq![("scm_type"@, "svn"@)];
        let k0 = set!["scm_type"@];
        assert("url"@[0] != "scm_type"@[0]);
        lemma_add_opt_pair(e0, k0, "url"@, opt_text(url_output));
        assert("branch_path"@[0] != "scm_type"@[0] && "branch_path"@[0] != "url"@[0]);
        lemma_add_opt_pair(e0 + opt_pair("url"@, opt_text(url_output)), k0.insert("url"@), "branch_path"@, branch);
    }
    StatusResult {
        current_revision,
        current_branch,
        has_changes,
        has_untracked,
        ahead_count: None,
        behind_count: None,
        extra_info,
    }
}

/// The status of a Perforce workspace, from the output of `changes -m1
/// <depot>#have`, that of `opened` (empty when it failed), and the server, client
/// and depot path of its configuration: the changelist is the second word of the
/// first output (`unknown` without one), the depot path stands as the branch, opened
/// files are changes; there are no untracked files and no counts.
pub fn p4_status_result(changes_output: &str, opened_output: &str, server: &str, client: &str, depot_path: &str) -> (r: StatusResult)
    ensures
        r.current_revision@ == (if words(changes_output@).len() >= 2 { words(changes_output@)[1] } else { "unknown"@ }),
        opt_text(r.current_branch) == Some(depot_path@),
        r.has_changes == (opened_output@.len() > 0),
        !r.has_untracked,
        r.ahead_count is None && r.behind_count is None,
        pairs_view(r.extra_info@) == seq![
            ("scm_type"@, "p4"@),
            ("server"@, server@),
            ("client"@, client@),
            ("depot_path"@, depot_path@),
        ],
        keys_distinct(pairs_view(r.extra_info@)),
{
    let current_revision = P4Scm::changelist_from_output(changes_output);
    let mut extra_info: Vec<(String, String)> = Vec::new();
    extra_info.push(pair("scm_type", "p4"));
    extra_info.push(pair("server", server));
    extra_info.push(pair("client", client));
    extra_info.push(pair("depot_path", depot_path));
    assert(pairs_view(extra_info@) =~= seq![
        ("scm_type"@, "p4"@),
        ("server"@, server@),
        ("client"@, client@),
        ("depot_path"@, depot_path@),
    ]);
    proof {
        reveal_strlit("scm_type");
        reveal_strlit("server");
        reveal_strlit("client");
        reveal_strlit("depot_path");
        assert("scm_type"@[1] != "server"@[1]);
        assert("scm_type"@[0] != "client"@[0] && "scm_type"@[0] != "depot_path"@[0]);
        assert("server"@[0] != "client"@[0] && "server"@[0] != "depot_path"@[0]);
        assert("client"@[0] != "depot_path"@[0]);
    }
    StatusResult {
        current_revision,
        current_branch: Some(owned(depot_path)),
        has_changes: opened_output.unicode_len() > 0,
        has_untracked: false,
        ahead_count: None,
        behind_count: None,
        extra_info,
    }
}

/// The active bookmark in the output of `hg bookmarks`: the second word of the
/// first line holding ` * `.
pub open spec fn active_bookmark_spec(output: Seq<char>) -> Option<Seq<char>> {
    let ls = lines_spec(output);
    if exists|i: int| 0 <= i < ls.len() && contains(#[trigger] ls[i], " * "@) {
        let i = choose|i: int| 0 <= i < ls.len() && contains(#[trigger] ls[i], " * "@)
            && forall|j: int| 0 <= j < i ==> !contains(#[trigger] ls[j], " * "@);
        if words(ls[i]).len() >= 2 { Some(words(ls[i])[1]) } else { None }
    } else {
        None
    }
}

/// The active bookmark in the output of `hg bookmarks`, if any.
pub fn active_bookmark(output: &str) -> (r: Option<String>)
    ensures
        opt_text(r) == active_bookmark_spec(output@),
{
    let ls = lines_of(output);
    let ghost lv = lines_spec(output@);
    let mut i: usize = 0;
    while i < ls.len()
        invariant
            i <= ls@.len(),
            ls@.map_values(|l: String| l@) == lv,
            lv == lines_spec(output@),
            forall|j: int| 0 <= j < i ==> !contains(#[trigger] lv[j], " * "@),
        decreases ls.len() - i,
    {
        assert(ls@[i as int]@ == lv[i as int]);
        if str_contains(ls[i].as_str(), " * ") {
            proof {
                let c = choose|c: int| 0 <= c < lv.len() && contains(#[trigger] lv[c], " * "@)
                    && forall|j: int| 0 <= j < c ==> !contains(#[trigger] lv[j], " * "@);
                if c < i {
                    assert(!contains(lv[c], " * "@));
                }
                if i < c {
                    assert(contains(lv[i as int], " * "@));
                }
                assert(c == i);
            }
            let ws = split_whitespace(ls[i].as_str());
            if ws.len() >= 2 {
                return Some(ws[1].clone());
            } else {
                return None;
            }
        }
        i = i + 1;
    }
    None
}

/// The phase in the output of `hg phase .`: the trimmed text after the first `:`
/// up to the next one.
pub open spec fn phase_spec(output: Seq<char>) -> Option<Seq<char>> {
    let parts = split_spec(output, ':');
    if parts.len() >= 2 { Some(trim(parts[1])) } else { None }
}

/// The phase in the output of `hg phase .`, if any.
pub fn phase_of(output: &str) -> (r: Option<String>)
    ensures
        opt_text(r) == phase_spec(output@),
{
    let v = chars_of(output);
    let parts = split_chars(&v, ':');
    if parts.len() >= 2 {
        assert(parts@[1]@ == split_spec(output@, ':')[1]);
        let s = chars_to_string(&parts[1]);
        let piece = str_trim(s.as_str());
        Some(piece)
    } else {
        None
    }
}

/// The number of changesets in an output of `outgoing` or `incoming` run with the
/// template `x`: its number of characters.
pub fn changeset_count(output: &str) -> (r: usize)
    ensures
        r == output@.len(),
{
    output.unicode_len()
}

/// The details of a Mercurial status: the kind, the branch, the active bookmark,
/// the phase and the summary, each when known.
fn hg_extra_info(
    branch: &Option<String>,
    summary_output: &Option<String>,
    bookmarks_output: &Option<String>,
    phase_output: &Option<String>,
) -> (r: Vec<(String, String)>)
    ensures
        pairs_view(r@) == seq![("scm_type"@, "hg"@)] + opt_pair("branch"@, opt_text(*branch))
            + opt_pair("active_bookmark"@, match *bookmarks_output {
                Some(b) => active_bookmark_spec(b@),
                None => None,
            })
            + opt_pair("phase"@, match *phase_output {
                Some(p) => phase_spec(p@),
                None => None,
            })
            + opt_pair("summary"@, opt_text(*summary_output)),
        keys_distinct(pairs_view(r@)),
{
    let mut extra_info: Vec<(String, String)> = Vec::new();
    extra_info.push(pair("scm_type", "hg"));
    let ghost e0 = pairs_view(extra_info@);
    match branch {
        Some(b) => extra_info.push(pair("branch", b.as_str())),
        None => {},
    }
    let ghost e1 = pairs_view(extra_info@);
    assert(e1 =~= e0 + opt_pair("branch"@, opt_text(*branch)));
    let bookmark = match bookmarks_output {
        Some(b) => active_bookmark(b.as_str()),
        None => None,
    };
    match &bookmark {
        Some(b) => extra_info.push(pair("active_bookmark", b.as_str())),
        None => {},
    }
    let ghost e2 = pairs_view(extra_info@);
    assert(e2 =~= e1 + opt_pair("active_bookmark"@, opt_text(bookmark)));
    let phase = match phase_output {
        Some(p) => phase_of(p.as_str()),
        None => None,
    };
    match &phase {
        Some(p) => extra_info.push(pair("phase", p.as_str())),
        None => {},
    }
    let ghost e3 = pairs_view(extra_info@);
    assert(e3 =~= e2 + opt_pair("phase"@, opt_text(phase)));
    match summary_output {
        Some(s) => extra_info.push(pair("summary", s.as_str())),
        None => {},
    }
    assert(pairs_view(extra_info@) =~= e3 + opt_pair("summary"@, opt_text(*summary_output)));
    proof {
        reveal_strlit("scm_type");
        reveal_strlit("branch");
        reveal_strlit("active_bookmark");
        reveal_strlit("phase");
        reveal_strlit("summary");
        let k0 = set!["scm_type"@];
        assert("branch"@[0] != "scm_type"@[0]);
        lemma_add_opt_pair(e0, k0, "branch"@, opt_text(*branch));
        let k1 = k0.insert("branch"@);
        assert("active_bookmark"@[0] != "scm_type"@[0] && "active_bookmark"@[0] != "branch"@[0]);
        lemma_add_opt_pair(e1, k1, "active_bookmark"@, opt_text(bookmark));
        let k2 = k1.insert("active_bookmark"@);
        assert("phase"@[0] != "scm_type"@[0] && "phase"@[0] != "branch"@[0] && "phase"@[0] != "active_bookmark"@[0]);
        lemma_add_opt_pair(e2, k2, "phase"@, opt_text(phase));
        let k3 = k2.insert("phase"@);
        assert("summary"@[1] != "scm_type"@[1] && "summary"@[0] != "branch"@[0]
            && "summary"@[0] != "active_bookmark"@[0] && "summary"@[0] != "phase"@[0]);
        lemma_add_opt_pair(e3, k3, "summary"@, opt_text(*summary_output));
    }
    extra_info
}

/// The status of a Mercurial working copy, from the outputs of `identify --id`,
/// `branch` (none when it failed), `status`, `summary`, `bookmarks` and `phase .`
/// (each none when it failed) and the counts of outgoing and incoming changesets:
/// the revision without trailing `+`, a change for a line starting with `M`, `A`,
/// `R` or `!`, an untracked file for a line starting with `?`.
pub fn hg_status_result(
    identify_output: &str,
    branch_output: Option<String>,
    status_output: &str,
    summary_output: Option<String>,
    bookmarks_output: Option<String>,
    phase_output: Option<String>,
    ahead_count: Option<usize>,
    behind_count: Option<usize>,
) -> (r: StatusResult)
    ensures
        r.current_revision@ == crate::text::strip_trailing(identify_output@, '+'),
        opt_text(r.current_branch) == nonempty_text(branch_output),
        r.has_changes == exists|i: int| 0 <= i < lines_spec(status_output@).len() && hg_change_line(#[trigger] lines_spec(status_output@)[i]),
        r.has_untracked == exists|i: int| 0 <= i < lines_spec(status_output@).len() && untracked_line(#[trigger] lines_spec(status_output@)[i]),
        r.ahead_count == ahead_count && r.behind_count == behind_count,
        pairs_view(r.extra_info@) == seq![("scm_type"@, "hg"@)] + opt_pair("branch"@, nonempty_text(branch_output))
            + opt_pair("active_bookmark"@, match bookmarks_output {
                Some(b) => active_bookmark_spec(b@),
                None => None,
            })
            + opt_pair("phase"@, match phase_output {
                Some(p) => phase_spec(p@),
                None => None,
            })
            + opt_pair("summary"@, opt_text(summary_output)),
        keys_distinct(pairs_view(r.extra_info@)),
{
    let current_revision = HgScm::revision_from_identify(identify_output);
    let current_branch = nonempty(branch_output);
    let has_changes = HgScm::has_local_changes(status_output);
    let has_untracked = HgScm::has_untracked_files(status_output);
    let extra_info = hg_extra_info(&current_branch, &summary_output, &bookmarks_output, &phase_output);
    StatusResult { current_revision, current_branch, has_changes, has_untracked, ahead_count, behind_count, extra_info }
}

/// The counts of changesets ahead of and behind the default path of a Mercurial
/// repository: none without a default path or a branch; each count is the length
/// of the output of its command, none when that command failed.
pub fn hg_ahead_behind(
    has_default_path: bool,
    branch: Option<String>,
    outgoing_output: Option<String>,
    incoming_output: Option<String>,
) -> (r: (Option<usize>, Option<usize>))
    ensures
        !has_default_path || branch is None ==> r == (None::<usize>, None::<usize>),
        has_default_path && branch is Some ==> {
            &&& (match outgoing_output {
                Some(o) => r.0 == Some(o@.len() as usize),
                None => r.0 is None,
            })
            &&& (match incoming_output {
                Some(i) => r.1 == Some(i@.len() as usize),
                None => r.1 is None,
            })
        },
{
    if !has_default_path {
        return (None, None);
    }
    match branch {
        None => (None, None),
        Some(_) => {
            let a = match &outgoing_output {
                Some(o) => Some(changeset_count(o.as_str())),
                None => None,
            };
            let b = match &incoming_output {
                Some(i) => Some(changeset_count(i.as_str())),
                None => None,
            };
            (a, b)
        },
    }
}

} // verus!
