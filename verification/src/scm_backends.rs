//! The command-line SCM back ends (Git, Subversion, Perforce, Mercurial): which commands
//! each operation runs, in what order, how failures are reported, and how their output
//! is read. Running the commands is left to the caller.
use crate::env_map::EnvMap;
use crate::scm_interface::{scm_error_text, CloneOptions, ScmError, SyncOptions};
use crate::scm_type::ScmType;
use crate::text::{
    cat2, cat3, cat4, chars_of, contains, first_occurrence_from, find_from, join_space, join_space_exec, lines_of,
    lines_spec, owned, str_contains, str_trim, strip_all_prefix, strip_all_prefix_exec, strip_trailing,
    strip_trailing_exec, substring, trim, words, split_whitespace, occurs_at,
};
use vstd::prelude::*;

verus! {

/// The views of a sequence of strings.
pub open spec fn strs(s: Seq<String>) -> Seq<Seq<char>> {
    s.map_values(|x: String| x@)
}

/// A flag followed by its value, when there is a value.
pub open spec fn opt_flag(flag: Seq<char>, o: Option<String>) -> Seq<Seq<char>> {
    match o {
        Some(v) => seq![flag, v@],
        None => Seq::empty(),
    }
}

/// Append `s`.
fn push_text(v: &mut Vec<String>, s: &str)
    ensures
        strs(final(v)@) == strs(old(v)@).push(s@),
{
    v.push(owned(s));
    assert(strs(v@) =~= strs(old(v)@).push(s@));
}

/// Append a flag and its value, when there is a value.
fn push_opt_flag(v: &mut Vec<String>, flag: &str, o: &Option<String>)
    ensures
        strs(final(v)@) == strs(old(v)@) + opt_flag(flag@, *o),
{
    match o {
        Some(x) => {
            push_text(v, flag);
            push_text(v, x.as_str());
            assert(strs(v@) =~= strs(old(v)@) + opt_flag(flag@, *o));
        },
        None => {
            assert(strs(v@) =~= strs(old(v)@) + opt_flag(flag@, *o));
        },
    }
}

/// Append every string of `extra`.
fn push_all(v: &mut Vec<String>, extra: &Vec<String>)
    ensures
        strs(final(v)@) == strs(old(v)@) + strs(extra@),
{
    let mut i: usize = 0;
    while i < extra.len()
        invariant
            i <= extra@.len(),
            strs(v@) == strs(old(v)@) + strs(extra@.subrange(0, i as int)),
        decreases extra.len() - i,
    {
        let ghost before = strs(v@);
        push_text(v, extra[i].as_str());
        assert(strs(extra@.subrange(0, i + 1)) =~= strs(extra@.subrange(0, i as int)).push(extra@[i as int]@));
        i = i + 1;
    }
    assert(extra@.subrange(0, extra@.len() as int) =~= extra@);
}

/// One command of an operation: its arguments, and the words that open the message of
/// the operation's error when it fails.
#[derive(Debug, Clone)]
pub struct ScmStep {
    pub args: Vec<String>,
    pub failure_context: String,
}

/// The view of a step.
pub open spec fn step_view(s: ScmStep) -> (Seq<Seq<char>>, Seq<char>) {
    (strs(s.args@), s.failure_context@)
}

/// The views of a sequence of steps.
pub open spec fn steps_view(s: Seq<ScmStep>) -> Seq<(Seq<Seq<char>>, Seq<char>)> {
    s.map_values(|x: ScmStep| step_view(x))
}

/// A step of the given arguments and failure context.
fn step(args: Vec<String>, context: &str) -> (r: ScmStep)
    ensures
        step_view(r) == (strs(args@), context@),
{
    ScmStep { args, failure_context: owned(context) }
}

/// The two texts as a vector.
fn args2(a: &str, b: &str) -> (r: Vec<String>)
    ensures
        strs(r@) == seq![a@, b@],
{
    let mut r: Vec<String> = Vec::new();
    push_text(&mut r, a);
    push_text(&mut r, b);
    assert(strs(r@) =~= seq![a@, b@]);
    r
}

/// The three texts as a vector.
fn args3(a: &str, b: &str, c: &str) -> (r: Vec<String>)
    ensures
        strs(r@) == seq![a@, b@, c@],
{
    let mut r: Vec<String> = Vec::new();
    push_text(&mut r, a);
    push_text(&mut r, b);
    push_text(&mut r, c);
    assert(strs(r@) =~= seq![a@, b@, c@]);
    r
}

/// Append a step.
fn push_step(steps: &mut Vec<ScmStep>, args: Vec<String>, context: &str)
    ensures
        steps_view(final(steps)@) == steps_view(old(steps)@).push((strs(args@), context@)),
{
    let ghost a = strs(args@);
    steps.push(step(args, context));
    assert(steps_view(steps@) =~= steps_view(old(steps)@).push((a, context@)));
}

/// The error of a command that exited unsuccessfully: the command is the executable
/// and the arguments, separated by spaces.
pub fn command_failure(executable: &str, args: &Vec<String>, exit_code: i32, stderr: &str) -> (r: ScmError)
    ensures
        r matches ScmError::CommandFailed { command, exit_code: c, stderr: e }
            && command@ == executable@ + " "@ + join_space(strs(args@)) && c == exit_code && e@ == stderr@,
{
    let joined = join_space_exec(args);
    let command = cat4(executable, " ", joined.as_str(), "");
    proof {
        reveal_strlit("");
        assert(command@ =~= executable@ + " "@ + join_space(strs(args@)));
    }
    ScmError::CommandFailed { command, exit_code, stderr: owned(stderr) }
}

/// The error of an update whose step failed: `<context>: <error>`.
pub fn sync_step_failure(step: &ScmStep, error: &ScmError) -> (r: ScmError)
    ensures
        r matches ScmError::SyncFailed { message } && message@ == step.failure_context@ + ": "@ + scm_error_text(*error),
{
    let e = error.to_string();
    ScmError::SyncFailed { message: cat3(step.failure_context.as_str(), ": ", e.as_str()) }
}

/// The arguments of one word.
fn args1(a: &str) -> (r: Vec<String>)
    ensures
        strs(r@) == seq![a@],
{
    let mut r: Vec<String> = Vec::new();
    push_text(&mut r, a);
    assert(strs(r@) =~= seq![a@]);
    r
}

/// The outcome of checking that `executable` is available, from how its probe ran:
/// `Err` with the message when it could not be started (an I/O error), else whether it
/// exited successfully; an unsuccessful exit means the executable is not found.
pub fn availability_outcome(executable: &str, probe: Result<bool, String>) -> (r: Result<(), ScmError>)
    ensures
        match probe {
            Err(m) => r == Err::<(), ScmError>(ScmError::IoError { message: m }),
            Ok(true) => r is Ok,
            Ok(false) => r matches Err(ScmError::ExecutableNotFound { executable: e }) && e@ == executable@,
        },
{
    match probe {
        Err(m) => Err(ScmError::IoError { message: m }),
        Ok(true) => Ok(()),
        Ok(false) => Err(ScmError::executable_not_found(executable)),
    }
}

/// The error of a clone whose command failed: `<what> failed: <stderr>`.
pub fn clone_command_failure(what: &str, stderr: &str) -> (r: ScmError)
    ensures
        r matches ScmError::CloneFailed { message } && message@ == what@ + " failed: "@ + stderr@,
{
    ScmError::CloneFailed { message: cat3(what, " failed: ", stderr) }
}

/// The Git back end.
#[derive(Debug, Clone)]
pub struct GitScm {
    git_executable: String,
}

impl GitScm {
    /// The executable, as a sequence of characters.
    pub closed spec fn executable_text(self) -> Seq<char> {
        self.git_executable@
    }

    /// A back end running `git`.
    pub fn new() -> (r: Self)
        ensures
            r.executable_text() == "git"@,
    {
        GitScm { git_executable: owned("git") }
    }

    /// A back end running the given executable.
    pub fn with_executable(executable: &str) -> (r: Self)
        ensures
            r.executable_text() == executable@,
    {
        GitScm { git_executable: owned(executable) }
    }

    /// The executable.
    pub fn executable(&self) -> (r: &str)
        ensures
            r@ == self.executable_text(),
    {
        self.git_executable.as_str()
    }

    /// The kind of repository handled.
    pub fn scm_type(&self) -> (r: ScmType)
        ensures
            r == ScmType::Git,
    {
        ScmType::Git
    }

    /// The arguments of a clone: shallow depth, branch, URL, destination, then the
    /// extra options.
    pub fn clone_args(url: &str, dest: &str, options: &CloneOptions) -> (r: Vec<String>)
        ensures
            strs(r@) == seq!["clone"@] + (if options.shallow { seq!["--depth"@, "1"@] } else { Seq::empty() })
                + opt_flag("--branch"@, options.branch) + seq![url@, dest@] + strs(options.extra_options@),
    {
        let mut a: Vec<String> = Vec::new();
        push_text(&mut a, "clone");
        if options.shallow {
            push_text(&mut a, "--depth");
            push_text(&mut a, "1");
        }
        let ghost mid = strs(a@);
        push_opt_flag(&mut a, "--branch", &options.branch);
        push_text(&mut a, url);
        push_text(&mut a, dest);
        push_all(&mut a, &options.extra_options);
        proof {
            assert(strs(a@) =~= seq!["clone"@] + (if options.shallow { seq!["--depth"@, "1"@] } else { Seq::empty() })
                + opt_flag("--branch"@, options.branch) + seq![url@, dest@] + strs(options.extra_options@));
        }
        a
    }

    /// The step that checks out a requested revision after a clone.
    pub fn clone_revision_step(options: &CloneOptions) -> (r: Option<ScmStep>)
        ensures
            match options.revision {
                Some(rev) => r matches Some(s) && step_view(s) == (seq!["checkout"@, rev@], "Failed to checkout revision"@),
                None => r is None,
            },
    {
        match &options.revision {
            Some(rev) => {
                let args = args2("checkout", rev.as_str());
                Some(step(args, "Failed to checkout revision"))
            },
            None => None,
        }
    }

    /// The steps of an update: fetch; when forced, a hard reset and a clean; then a
    /// checkout of the revision, or of the branch followed by a fast-forward pull, or
    /// only the pull.
    pub fn sync_steps(options: &SyncOptions) -> (r: Vec<ScmStep>)
        ensures
            steps_view(r@) == seq![(seq!["fetch"@, "origin"@], "Fetch failed"@)]
                + (if options.force {
                    seq![(seq!["reset"@, "--hard"@], "Reset failed"@), (seq!["clean"@, "-fd"@], "Clean failed"@)]
                } else {
                    Seq::empty()
                })
                + match options.revision {
                    Some(rev) => seq![(seq!["checkout"@, rev@], "Checkout failed"@)],
                    None => match options.branch {
                        Some(b) => seq![(seq!["checkout"@, b@], "Branch checkout failed"@), (seq!["pull"@, "--ff-only"@], "Pull failed"@)],
                        None => seq![(seq!["pull"@, "--ff-only"@], "Pull failed"@)],
                    },
                },
    {
        let mut steps: Vec<ScmStep> = Vec::new();
        push_step(&mut steps, args2("fetch", "origin"), "Fetch failed");
        if options.force {
            push_step(&mut steps, args2("reset", "--hard"), "Reset failed");
            push_step(&mut steps, args2("clean", "-fd"), "Clean failed");
        }
        let ghost head = steps_view(steps@);
        match &options.revision {
            Some(rev) => {
                push_step(&mut steps, args2("checkout", rev.as_str()), "Checkout failed");
            },
            None => match &options.branch {
                Some(b) => {
                    push_step(&mut steps, args2("checkout", b.as_str()), "Branch checkout failed");
                    push_step(&mut steps, args2("pull", "--ff-only"), "Pull failed");
                },
                None => {
                    push_step(&mut steps, args2("pull", "--ff-only"), "Pull failed");
                },
            },
        }
        proof {
            assert(head =~= seq![(seq!["fetch"@, "origin"@], "Fetch failed"@)]
                + (if options.force {
                    seq![(seq!["reset"@, "--hard"@], "Reset failed"@), (seq!["clean"@, "-fd"@], "Clean failed"@)]
                } else {
                    Seq::empty()
                }));
            assert(steps_view(steps@) =~= head + match options.revision {
                    Some(rev) => seq![(seq!["checkout"@, rev@], "Checkout failed"@)],
                    None => match options.branch {
                        Some(b) => seq![(seq!["checkout"@, b@], "Branch checkout failed"@), (seq!["pull"@, "--ff-only"@], "Pull failed"@)],
                        None => seq![(seq!["pull"@, "--ff-only"@], "Pull failed"@)],
                    },
                });
        }
        steps
    }

    /// The remote-tracking reference of a branch: `origin/<branch>`.
    pub fn upstream_ref(branch: &str) -> (r: String)
        ensures
            r@ == "origin/"@ + branch@,
    {
        cat2("origin/", branch)
    }

    /// The revision ranges counting commits ahead of and behind the upstream:
    /// `<upstream>..HEAD` and `HEAD..<upstream>`.
    pub fn ahead_behind_ranges(upstream: &str) -> (r: (String, String))
        ensures
            r.0@ == upstream@ + "..HEAD"@,
            r.1@ == "HEAD.."@ + upstream@,
    {
        (cat2(upstream, "..HEAD"), cat2("HEAD..", upstream))
    }
}

/// The Subversion back end.
#[derive(Debug, Clone)]
pub struct SvnScm {
    svn_executable: String,
}

/// The authentication arguments of Subversion: user name, password, and always
/// `--non-interactive`.
pub open spec fn svn_auth(username: Option<String>, password: Option<String>) -> Seq<Seq<char>> {
    opt_flag("--username"@, username) + opt_flag("--password"@, password) + seq!["--non-interactive"@]
}

/// A status line reports a local change: it is not blank and does not start with `?`.
pub open spec fn svn_change_line(l: Seq<char>) -> bool {
    trim(l).len() > 0 && l[0] != '?'
}

/// A status line reports an untracked file: it starts with `?`.
pub open spec fn untracked_line(l: Seq<char>) -> bool {
    l.len() > 0 && l[0] == '?'
}

/// The branch-like part of a Subversion URL: `trunk`; or `branches/<name>` or
/// `tags/<name>` from the first segment after `/branches/` or `/tags/`.
pub open spec fn svn_branch(url: Seq<char>) -> Option<Seq<char>> {
    if contains(url, "/trunk"@) {
        Some("trunk"@)
    } else if exists|i: int| first_occurrence_from(url, "/branches/"@, 0, i) {
        let i = choose|i: int| first_occurrence_from(url, "/branches/"@, 0, i);
        Some("branches/"@ + first_segment(url.subrange(i + 10, url.len() as int)))
    } else if exists|i: int| first_occurrence_from(url, "/tags/"@, 0, i) {
        let i = choose|i: int| first_occurrence_from(url, "/tags/"@, 0, i);
        Some("tags/"@ + first_segment(url.subrange(i + 6, url.len() as int)))
    } else {
        None
    }
}

/// The text before the first `/` (all of it when there is none).
pub open spec fn first_segment(s: Seq<char>) -> Seq<char> {
    if exists|k: int| 0 <= k < s.len() && s[k] == '/' {
        let k = choose|k: int| 0 <= k < s.len() && s[k] == '/' && forall|j: int| 0 <= j < k ==> s[j] != '/';
        s.subrange(0, k)
    } else {
        s
    }
}

/// The text before the first `/`.
pub fn first_segment_exec(s: &str) -> (r: String)
    ensures
        r@ == first_segment(s@),
{
    let v = chars_of(s);
    let mut k: usize = 0;
    while k < v.len() && v[k] != '/'
        invariant
            k <= v@.len(),
            v@ == s@,
            forall|j: int| 0 <= j < k ==> v@[j] != '/',
        decreases v.len() - k,
    {
        k = k + 1;
    }
    proof {
        if k < v@.len() {
            let c = choose|c: int| 0 <= c < s@.len() && s@[c] == '/' && forall|j: int| 0 <= j < c ==> s@[j] != '/';
            if c < k {
                assert(v@[c] != '/');
            }
            if k < c {
                assert(s@[k as int] != '/');
            }
        } else {
            if exists|c: int| 0 <= c < s@.len() && s@[c] == '/' {
                let c = choose|c: int| 0 <= c < s@.len() && s@[c] == '/';
                assert(v@[c] != '/');
            }
            assert(s@.subrange(0, k as int) =~= s@);
        }
    }
    substring(s, 0, k)
}

impl SvnScm {
    /// The executable, as a sequence of characters.
    pub closed spec fn executable_text(self) -> Seq<char> {
        self.svn_executable@
    }

    /// A back end running `svn`.
    pub fn new() -> (r: Self)
        ensures
            r.executable_text() == "svn"@,
    {
        SvnScm { svn_executable: owned("svn") }
    }

    /// A back end running the given executable.
    pub fn with_executable(executable: &str) -> (r: Self)
        ensures
            r.executable_text() == executable@,
    {
        SvnScm { svn_executable: owned(executable) }
    }

    /// The executable.
    pub fn executable(&self) -> (r: &str)
        ensures
            r@ == self.executable_text(),
    {
        self.svn_executable.as_str()
    }

    /// The kind of repository handled.
    pub fn scm_type(&self) -> (r: ScmType)
        ensures
            r == ScmType::Svn,
    {
        ScmType::Svn
    }

    /// The authentication arguments (see `svn_auth`).
    pub fn build_auth_args(username: &Option<String>, password: &Option<String>) -> (r: Vec<String>)
        ensures
            strs(r@) == svn_auth(*username, *password),
    {
        let mut a: Vec<String> = Vec::new();
        push_opt_flag(&mut a, "--username", username);
        push_opt_flag(&mut a, "--password", password);
        push_text(&mut a, "--non-interactive");
        assert(strs(a@) =~= svn_auth(*username, *password));
        a
    }

    /// The arguments of a checkout: authentication, revision, extra options, URL,
    /// destination.
    pub fn checkout_args(url: &str, dest: &str, options: &CloneOptions) -> (r: Vec<String>)
        ensures
            strs(r@) == seq!["checkout"@] + svn_auth(options.username, options.password)
                + opt_flag("--revision"@, options.revision) + strs(options.extra_options@) + seq![url@, dest@],
    {
        let mut a: Vec<String> = Vec::new();
        push_text(&mut a, "checkout");
        let auth = Self::build_auth_args(&options.username, &options.password);
        push_all(&mut a, &auth);
        push_opt_flag(&mut a, "--revision", &options.revision);
        push_all(&mut a, &options.extra_options);
        push_text(&mut a, url);
        push_text(&mut a, dest);
        proof {
            assert(strs(a@) =~= seq!["checkout"@] + svn_auth(options.username, options.password)
                + opt_flag("--revision"@, options.revision) + strs(options.extra_options@) + seq![url@, dest@]);
        }
        a
    }

    /// The arguments of an update: authentication, revision, extra options.
    pub fn update_args(options: &SyncOptions) -> (r: Vec<String>)
        ensures
            strs(r@) == seq!["update"@] + svn_auth(options.username, options.password)
                + opt_flag("--revision"@, options.revision) + strs(options.extra_options@),
    {
        let mut a: Vec<String> = Vec::new();
        push_text(&mut a, "update");
        let auth = Self::build_auth_args(&options.username, &options.password);
        push_all(&mut a, &auth);
        push_opt_flag(&mut a, "--revision", &options.revision);
        push_all(&mut a, &options.extra_options);
        proof {
            assert(strs(a@) =~= seq!["update"@] + svn_auth(options.username, options.password)
                + opt_flag("--revision"@, options.revision) + strs(options.extra_options@));
        }
        a
    }

    /// The step that reverts local changes before a forced update.
    pub fn revert_step() -> (r: ScmStep)
        ensures
            step_view(r) == (seq!["revert"@, "--recursive"@, "."@], "Revert failed"@),
    {
        step(args3("revert", "--recursive", "."), "Revert failed")
    }

    /// The branch-like part of a URL (see `svn_branch`).
    pub fn branch_from_url(url: &str) -> (r: Option<String>)
        ensures
            match r {
                Some(b) => svn_branch(url@) == Some(b@),
                None => svn_branch(url@) is None,
            },
    {
        if str_contains(url, "/trunk") {
            return Some(owned("trunk"));
        }
        let v = chars_of(url);
        let n = v.len();
        let br = chars_of("/branches/");
        proof {
            reveal_strlit("/branches/");
            reveal_strlit("/tags/");
        }
        match find_from(&v, &br, 0) {
            Some(i) => {
                assert(i + 10 <= n);
                let after = substring(url, i + 10, n);
                let seg = first_segment_exec(after.as_str());
                proof {
                    let j = choose|j: int| first_occurrence_from(url@, "/branches/"@, 0, j);
                    if j < i {
                        assert(!occurs_at(url@, "/branches/"@, j));
                    }
                    if i < j {
                        assert(!occurs_at(url@, "/branches/"@, i as int));
                    }
                }
                return Some(cat2("branches/", seg.as_str()));
            },
            None => {},
        }
        let tg = chars_of("/tags/");
        match find_from(&v, &tg, 0) {
            Some(i) => {
                assert(i + 6 <= n);
                let after = substring(url, i + 6, n);
                let seg = first_segment_exec(after.as_str());
                proof {
                    let j = choose|j: int| first_occurrence_from(url@, "/tags/"@, 0, j);
                    if j < i {
                        assert(!occurs_at(url@, "/tags/"@, j));
                    }
                    if i < j {
                        assert(!occurs_at(url@, "/tags/"@, i as int));
                    }
                }
                Some(cat2("tags/", seg.as_str()))
            },
            None => None,
        }
    }

    /// Whether a status output reports local changes (see `svn_change_line`).
    pub fn has_local_changes(status_output: &str) -> (r: bool)
        ensures
            r == exists|i: int| 0 <= i < lines_spec(status_output@).len() && svn_change_line(#[trigger] lines_spec(status_output@)[i]),
    {
        let ls = lines_of(status_output);
        let ghost lv = lines_spec(status_output@);
        let mut i: usize = 0;
        while i < ls.len()
            invariant
                i <= ls@.len(),
                ls@.map_values(|l: String| l@) == lv,
                lv == lines_spec(status_output@),
                forall|j: int| 0 <= j < i ==> !svn_change_line(#[trigger] lv[j]),
            decreases ls.len() - i,
        {
            assert(ls@[i as int]@ == lv[i as int]);
            let t = str_trim(ls[i].as_str());
            let cs = chars_of(ls[i].as_str());
            if t.as_str().unicode_len() > 0 && cs[0] != '?' {
                return true;
            }
            i = i + 1;
        }
        false
    }

    /// Whether a status output reports untracked files (see `untracked_line`).
    pub fn has_untracked_files(status_output: &str) -> (r: bool)
        ensures
            r == exists|i: int| 0 <= i < lines_spec(status_output@).len() && untracked_line(#[trigger] lines_spec(status_output@)[i]),
    {
        first_char_lines_any(status_output, '?')
    }
}

/// The Perforce back end.
#[derive(Debug, Clone)]
pub struct P4Scm {
    p4_executable: String,
}

/// A Perforce URL without its `perforce://` and `p4://` prefixes (each stripped as
/// often as it repeats).
pub open spec fn p4_url_body(url: Seq<char>) -> Seq<char> {
    strip_all_prefix(strip_all_prefix(url, "perforce://"@), "p4://"@)
}

/// The server and depot path of a Perforce URL: the text before and from the first
/// `//` of its body; a body without `//` is an invalid URL.
pub open spec fn parse_p4_url_spec(url: Seq<char>) -> Result<(Seq<char>, Seq<char>), Seq<char>> {
    let u = p4_url_body(url);
    if exists|i: int| first_occurrence_from(u, "//"@, 0, i) {
        let i = choose|i: int| first_occurrence_from(u, "//"@, 0, i);
        Ok((u.subrange(0, i), u.subrange(i, u.len() as int)))
    } else {
        Err(u)
    }
}

/// The environment of a Perforce command: server, and the user, password and client
/// when given.
pub open spec fn p4_env_spec(server: Seq<char>, username: Option<String>, password: Option<String>, client: Option<Seq<char>>) -> Map<Seq<char>, Seq<char>> {
    let m = Map::<Seq<char>, Seq<char>>::empty().insert("P4PORT"@, server);
    let m = match username {
        Some(u) => m.insert("P4USER"@, u@),
        None => m,
    };
    let m = match password {
        Some(p) => m.insert("P4PASSWD"@, p@),
        None => m,
    };
    match client {
        Some(c) => m.insert("P4CLIENT"@, c),
        None => m,
    }
}

/// The settings of a Perforce configuration file: each line holding `=` sets the text
/// before its first `=` to the text after it; later lines win.
pub open spec fn p4_config_spec(lines: Seq<Seq<char>>) -> Map<Seq<char>, Seq<char>>
    decreases lines.len(),
{
    if lines.len() == 0 {
        Map::empty()
    } else {
        let prev = p4_config_spec(lines.drop_last());
        let l = lines.last();
        if exists|k: int| 0 <= k < l.len() && l[k] == '=' {
            let k = choose|k: int| 0 <= k < l.len() && l[k] == '=' && forall|j: int| 0 <= j < k ==> l[j] != '=';
            prev.insert(l.subrange(0, k), l.subrange(k + 1, l.len() as int))
        } else {
            prev
        }
    }
}

/// Split a line at its first `=`.
fn split_once_eq(line: &str) -> (r: Option<(String, String)>)
    ensures
        match r {
            Some((k, v)) => exists|i: int| 0 <= i < line@.len() && line@[i] == '='
                && (forall|j: int| 0 <= j < i ==> line@[j] != '=')
                && k@ == line@.subrange(0, i) && v@ == line@.subrange(i + 1, line@.len() as int),
            None => forall|i: int| 0 <= i < line@.len() ==> line@[i] != '=',
        },
{
    let v = chars_of(line);
    let mut k: usize = 0;
    while k < v.len() && v[k] != '='
        invariant
            k <= v@.len(),
            v@ == line@,
            forall|j: int| 0 <= j < k ==> v@[j] != '=',
        decreases v.len() - k,
    {
        k = k + 1;
    }
    if k < v.len() {
        let n = v.len();
        Some((substring(line, 0, k), substring(line, k + 1, n)))
    } else {
        None
    }
}

impl P4Scm {
    /// The executable, as a sequence of characters.
    pub closed spec fn executable_text(self) -> Seq<char> {
        self.p4_executable@
    }

    /// A back end running `p4`.
    pub fn new() -> (r: Self)
        ensures
            r.executable_text() == "p4"@,
    {
        P4Scm { p4_executable: owned("p4") }
    }

    /// A back end running the given executable.
    pub fn with_executable(executable: &str) -> (r: Self)
        ensures
            r.executable_text() == executable@,
    {
        P4Scm { p4_executable: owned(executable) }
    }

    /// The executable.
    pub fn executable(&self) -> (r: &str)
        ensures
            r@ == self.executable_text(),
    {
        self.p4_executable.as_str()
    }

    /// The kind of repository handled.
    pub fn scm_type(&self) -> (r: ScmType)
        ensures
            r == ScmType::P4,
    {
        ScmType::P4
    }

    /// The server and depot path of a URL (see `parse_p4_url_spec`).
    pub fn parse_p4_url(url: &str) -> (r: Result<(String, String), ScmError>)
        ensures
            match r {
                Ok((server, depot)) => parse_p4_url_spec(url@) == Ok::<(Seq<char>, Seq<char>), Seq<char>>((server@, depot@)),
                Err(e) => (e matches ScmError::InvalidUrl { url: u } && parse_p4_url_spec(url@) == Err::<(Seq<char>, Seq<char>), Seq<char>>(u@)),
            },
    {
        let a = strip_all_prefix_exec(url, "perforce://");
        let b = strip_all_prefix_exec(a.as_str(), "p4://");
        let u = b.as_str();
        let v = chars_of(u);
        let sep = chars_of("//");
        proof {
            reveal_strlit("//");
        }
        match find_from(&v, &sep, 0) {
            Some(i) => {
                let n = v.len();
                proof {
                    let j = choose|j: int| first_occurrence_from(u@, "//"@, 0, j);
                    if j < i {
                        assert(!occurs_at(u@, "//"@, j));
                    }
                    if i < j {
                        assert(!occurs_at(u@, "//"@, i as int));
                    }
                }
                Ok((substring(u, 0, i), substring(u, i, n)))
            },
            None => Err(ScmError::InvalidUrl { url: owned(u) }),
        }
    }

    /// The environment of a command (see `p4_env_spec`).
    pub fn build_p4_env(server: &str, username: &Option<String>, password: &Option<String>, client: Option<&str>) -> (r: EnvMap)
        ensures
            r@ == p4_env_spec(server@, *username, *password, match client {
                Some(c) => Some(c@),
                None => None,
            }),
    {
        let mut env = EnvMap::new();
        env.insert(owned("P4PORT"), owned(server));
        if let Some(u) = username {
            env.insert(owned("P4USER"), u.clone());
        }
        if let Some(p) = password {
            env.insert(owned("P4PASSWD"), p.clone());
        }
        if let Some(c) = client {
            env.insert(owned("P4CLIENT"), owned(c));
        }
        env
    }

    /// The name of the client workspace of a clone: `wmgr-<name>-<process id>`, the name
    /// being the destination's last component (`workspace` when it has none).
    pub fn client_name(dest_file_name: Option<&str>, process_id: u32) -> (r: String)
        ensures
            r@ == "wmgr-"@ + (match dest_file_name {
                Some(n) => n@,
                None => "workspace"@,
            }) + "-"@ + crate::text::dec_digits(process_id as nat),
    {
        let name = match dest_file_name {
            Some(n) => n,
            None => "workspace",
        };
        let id = crate::text::u64_to_string(process_id as u64);
        cat4("wmgr-", name, "-", id.as_str())
    }

    /// The specification of a client workspace mapping the depot path under the root.
    pub fn client_spec(client_name: &str, root: &str, depot_path: &str) -> (r: String)
        ensures
            r@ == "Client: "@ + client_name@ + "\nRoot: "@ + root@ + "\nView:\n\t"@ + depot_path@ + "/... //"@
                + client_name@ + "/...\n"@,
    {
        let mut r = cat4("Client: ", client_name, "\nRoot: ", root);
        r.append("\nView:\n\t");
        r.append(depot_path);
        r.append("/... //");
        r.append(client_name);
        r.append("/...\n");
        r
    }

    /// The path to synchronise: the depot path, at the revision when one is given.
    pub fn sync_path(depot_path: &str, revision: &Option<String>) -> (r: String)
        ensures
            r@ == match revision {
                Some(rev) => depot_path@ + "@"@ + rev@,
                None => depot_path@,
            },
    {
        match revision {
            Some(rev) => cat3(depot_path, "@", rev.as_str()),
            None => owned(depot_path),
        }
    }

    /// The text of the configuration stored in a clone.
    pub fn config_text(server: &str, client: &str, username: &Option<String>, depot_path: &str) -> (r: String)
        ensures
            r@ == "P4PORT="@ + server@ + "\nP4CLIENT="@ + client@ + "\nP4USER="@ + (match username {
                Some(u) => u@,
                None => ""@,
            }) + "\nDEPOT_PATH="@ + depot_path@ + "\n"@,
    {
        let user = match username {
            Some(u) => u.as_str(),
            None => "",
        };
        let mut r = cat4("P4PORT=", server, "\nP4CLIENT=", client);
        r.append("\nP4USER=");
        r.append(user);
        r.append("\nDEPOT_PATH=");
        r.append(depot_path);
        r.append("\n");
        r
    }

    /// The settings of a configuration file (see `p4_config_spec`).
    pub fn parse_config(content: &str) -> (r: EnvMap)
        ensures
            r@ == p4_config_spec(lines_spec(content@)),
    {
        let ls = lines_of(content);
        let ghost lv = lines_spec(content@);
        let mut m = EnvMap::new();
        let mut i: usize = 0;
        assert(lv.subrange(0, 0) =~= Seq::<Seq<char>>::empty());
        while i < ls.len()
            invariant
                i <= ls@.len(),
                ls@.map_values(|l: String| l@) == lv,
                m@ == p4_config_spec(lv.subrange(0, i as int)),
            decreases ls.len() - i,
        {
            proof {
                assert(lv.subrange(0, i + 1).drop_last() =~= lv.subrange(0, i as int));
                assert(lv.subrange(0, i + 1).last() == ls@[i as int]@);
            }
            match split_once_eq(ls[i].as_str()) {
                Some((k, v)) => {
                    proof {
                        let l = ls@[i as int]@;
                        let c = choose|c: int| 0 <= c < l.len() && l[c] == '=' && forall|j: int| 0 <= j < c ==> l[j] != '=';
                        let w = choose|w: int| 0 <= w < l.len() && l[w] == '=' && (forall|j: int| 0 <= j < w ==> l[j] != '=')
                            && k@ == l.subrange(0, w) && v@ == l.subrange(w + 1, l.len() as int);
                        if c < w {
                            assert(l[c] != '=');
                        }
                        if w < c {
                            assert(l[w] != '=');
                        }
                    }
                    m.insert(k, v);
                },
                None => {},
            }
            i = i + 1;
        }
        assert(lv.subrange(0, lv.len() as int) =~= lv);
        m
    }

    /// The server, client and depot path of a configuration, or the error for the
    /// first that is missing.
    pub fn config_settings(config: &EnvMap) -> (r: Result<(String, String, String), ScmError>)
        ensures
            match r {
                Ok((s, c, d)) => config@.contains_key("P4PORT"@) && config@.contains_key("P4CLIENT"@)
                    && config@.contains_key("DEPOT_PATH"@) && s@ == config@["P4PORT"@]
                    && c@ == config@["P4CLIENT"@] && d@ == config@["DEPOT_PATH"@],
                Err(e) => (e matches ScmError::Internal { message } && if !config@.contains_key("P4PORT"@) {
                    message@ == "P4PORT not found in config"@
                } else if !config@.contains_key("P4CLIENT"@) {
                    message@ == "P4CLIENT not found in config"@
                } else {
                    !config@.contains_key("DEPOT_PATH"@) && message@ == "DEPOT_PATH not found in config"@
                }),
            },
    {
        let server = match config.get("P4PORT") {
            Some(s) => s.clone(),
            None => {
                return Err(ScmError::Internal { message: owned("P4PORT not found in config") });
            },
        };
        let client = match config.get("P4CLIENT") {
            Some(c) => c.clone(),
            None => {
                return Err(ScmError::Internal { message: owned("P4CLIENT not found in config") });
            },
        };
        let depot = match config.get("DEPOT_PATH") {
            Some(d) => d.clone(),
            None => {
                return Err(ScmError::Internal { message: owned("DEPOT_PATH not found in config") });
            },
        };
        Ok((server, client, depot))
    }

    /// The changelist number in the output of `p4 changes`: its second word, or
    /// `unknown`.
    pub fn changelist_from_output(output: &str) -> (r: String)
        ensures
            r@ == if words(output@).len() >= 2 { words(output@)[1] } else { "unknown"@ },
    {
        let ws = split_whitespace(output);
        if ws.len() >= 2 {
            ws[1].clone()
        } else {
            owned("unknown")
        }
    }
}

/// The Mercurial back end.
#[derive(Debug, Clone)]
pub struct HgScm {
    hg_executable: String,
}

/// The authentication arguments of Mercurial: a `--config` of the user name and one of
/// the password, when given.
pub open spec fn hg_auth(username: Option<String>, password: Option<String>) -> Seq<Seq<char>> {
    (match username {
        Some(u) => seq!["--config"@, "auth.x.username="@ + u@],
        None => Seq::empty(),
    }) + (match password {
        Some(p) => seq!["--config"@, "auth.x.password="@ + p@],
        None => Seq::empty(),
    })
}

/// The target of an update: the revision, else the branch.
pub open spec fn hg_update_target(revision: Option<String>, branch: Option<String>) -> Seq<Seq<char>> {
    match revision {
        Some(r) => seq!["--rev"@, r@],
        None => match branch {
            Some(b) => seq!["--rev"@, b@],
            None => Seq::empty(),
        },
    }
}

/// A status line reports a change: it starts with `M`, `A`, `R` or `!`.
pub open spec fn hg_change_line(l: Seq<char>) -> bool {
    l.len() > 0 && (l[0] == 'M' || l[0] == 'A' || l[0] == 'R' || l[0] == '!')
}

impl HgScm {
    /// The executable, as a sequence of characters.
    pub closed spec fn executable_text(self) -> Seq<char> {
        self.hg_executable@
    }

    /// A back end running `hg`.
    pub fn new() -> (r: Self)
        ensures
            r.executable_text() == "hg"@,
    {
        HgScm { hg_executable: owned("hg") }
    }

    /// A back end running the given executable.
    pub fn with_executable(executable: &str) -> (r: Self)
        ensures
            r.executable_text() == executable@,
    {
        HgScm { hg_executable: owned(executable) }
    }

    /// The executable.
    pub fn executable(&self) -> (r: &str)
        ensures
            r@ == self.executable_text(),
    {
        self.hg_executable.as_str()
    }

    /// The kind of repository handled.
    pub fn scm_type(&self) -> (r: ScmType)
        ensures
            r == ScmType::Hg,
    {
        ScmType::Hg
    }

    /// The authentication arguments (see `hg_auth`).
    pub fn build_auth_args(username: &Option<String>, password: &Option<String>) -> (r: Vec<String>)
        ensures
            strs(r@) == hg_auth(*username, *password),
    {
        let mut a: Vec<String> = Vec::new();
        if let Some(u) = username {
            push_text(&mut a, "--config");
            let c = cat2("auth.x.username=", u.as_str());
            push_text(&mut a, c.as_str());
        }
        if let Some(p) = password {
            push_text(&mut a, "--config");
            let c = cat2("auth.x.password=", p.as_str());
            push_text(&mut a, c.as_str());
        }
        assert(strs(a@) =~= hg_auth(*username, *password));
        a
    }

    /// The arguments of a clone: authentication, branch, revision, extra options, URL,
    /// destination.
    pub fn clone_args(url: &str, dest: &str, options: &CloneOptions) -> (r: Vec<String>)
        ensures
            strs(r@) == seq!["clone"@] + hg_auth(options.username, options.password)
                + opt_flag("--branch"@, options.branch) + opt_flag("--rev"@, options.revision)
                + strs(options.extra_options@) + seq![url@, dest@],
    {
        let mut a: Vec<String> = Vec::new();
        push_text(&mut a, "clone");
        let auth = Self::build_auth_args(&options.username, &options.password);
        push_all(&mut a, &auth);
        push_opt_flag(&mut a, "--branch", &options.branch);
        push_opt_flag(&mut a, "--rev", &options.revision);
        push_all(&mut a, &options.extra_options);
        push_text(&mut a, url);
        push_text(&mut a, dest);
        proof {
            assert(strs(a@) =~= seq!["clone"@] + hg_auth(options.username, options.password)
                + opt_flag("--branch"@, options.branch) + opt_flag("--rev"@, options.revision)
                + strs(options.extra_options@) + seq![url@, dest@]);
        }
        a
    }

    /// The arguments of the pull of an update: authentication, branch, revision, extra
    /// options.
    pub fn pull_args(options: &SyncOptions) -> (r: Vec<String>)
        ensures
            strs(r@) == seq!["pull"@] + hg_auth(options.username, options.password)
                + opt_flag("--branch"@, options.branch) + opt_flag("--rev"@, options.revision)
                + strs(options.extra_options@),
    {
        let mut a: Vec<String> = Vec::new();
        push_text(&mut a, "pull");
        let auth = Self::build_auth_args(&options.username, &options.password);
        push_all(&mut a, &auth);
        push_opt_flag(&mut a, "--branch", &options.branch);
        push_opt_flag(&mut a, "--rev", &options.revision);
        push_all(&mut a, &options.extra_options);
        proof {
            assert(strs(a@) =~= seq!["pull"@] + hg_auth(options.username, options.password)
                + opt_flag("--branch"@, options.branch) + opt_flag("--rev"@, options.revision)
                + strs(options.extra_options@));
        }
        a
    }

    /// The update step after the pull: a clean update when forced, else a plain one,
    /// to the revision or else the branch.
    pub fn update_step(options: &SyncOptions) -> (r: ScmStep)
        ensures
            step_view(r) == if options.force {
                (seq!["update"@, "--clean"@] + hg_update_target(options.revision, options.branch), "Force update failed"@)
            } else {
                (seq!["update"@] + hg_update_target(options.revision, options.branch), "Update failed"@)
            },
    {
        let mut a: Vec<String> = Vec::new();
        push_text(&mut a, "update");
        if options.force {
            push_text(&mut a, "--clean");
        }
        let ghost head = strs(a@);
        match &options.revision {
            Some(rev) => {
                push_text(&mut a, "--rev");
                push_text(&mut a, rev.as_str());
            },
            None => match &options.branch {
                Some(b) => {
                    push_text(&mut a, "--rev");
                    push_text(&mut a, b.as_str());
                },
                None => {},
            },
        }
        assert(strs(a@) =~= head + hg_update_target(options.revision, options.branch));
        if options.force {
            assert(head =~= seq!["update"@, "--clean"@]);
            step(a, "Force update failed")
        } else {
            assert(head =~= seq!["update"@]);
            step(a, "Update failed")
        }
    }

    /// The revision in the output of `hg identify --id`, without the trailing `+` marks
    /// of uncommitted changes.
    pub fn revision_from_identify(output: &str) -> (r: String)
        ensures
            r@ == strip_trailing(output@, '+'),
    {
        strip_trailing_exec(output, '+')
    }

    /// Whether a status output reports changes (see `hg_change_line`).
    pub fn has_local_changes(status_output: &str) -> (r: bool)
        ensures
            r == exists|i: int| 0 <= i < lines_spec(status_output@).len() && hg_change_line(#[trigger] lines_spec(status_output@)[i]),
    {
        let ls = lines_of(status_output);
        let ghost lv = lines_spec(status_output@);
        let mut i: usize = 0;
        while i < ls.len()
            invariant
                i <= ls@.len(),
                ls@.map_values(|l: String| l@) == lv,
                lv == lines_spec(status_output@),
                forall|j: int| 0 <= j < i ==> !hg_change_line(#[trigger] lv[j]),
            decreases ls.len() - i,
        {
            assert(ls@[i as int]@ == lv[i as int]);
            let cs = chars_of(ls[i].as_str());
            if cs.len() > 0 && (cs[0] == 'M' || cs[0] == 'A' || cs[0] == 'R' || cs[0] == '!') {
                return true;
            }
            i = i + 1;
        }
        false
    }

    /// Whether a status output reports untracked files (a line starting with `?`).
    pub fn has_untracked_files(status_output: &str) -> (r: bool)
        ensures
            r == exists|i: int| 0 <= i < lines_spec(status_output@).len() && untracked_line(#[trigger] lines_spec(status_output@)[i]),
    {
        first_char_lines_any(status_output, '?')
    }
}

/// Whether some line of the text starts with `c`.
fn first_char_lines_any(text: &str, c: char) -> (r: bool)
    ensures
        r == exists|i: int| 0 <= i < lines_spec(text@).len() && (#[trigger] lines_spec(text@)[i]).len() > 0 && lines_spec(text@)[i][0] == c,
{
    let ls = lines_of(text);
    let ghost lv = lines_spec(text@);
    let mut i: usize = 0;
    while i < ls.len()
        invariant
            i <= ls@.len(),
            ls@.map_values(|l: String| l@) == lv,
            lv == lines_spec(text@),
            forall|j: int| 0 <= j < i ==> !((#[trigger] lv[j]).len() > 0 && lv[j][0] == c),
        decreases ls.len() - i,
    {
        assert(ls@[i as int]@ == lv[i as int]);
        let cs = chars_of(ls[i].as_str());
        if cs.len() > 0 && cs[0] == c {
            return true;
        }
        i = i + 1;
    }
    false
}

impl GitScm {
    /// The arguments of the probe that checks the executable is available: `--version`.
    pub fn availability_args() -> (r: Vec<String>)
        ensures
            strs(r@) == seq!["--version"@],
    {
        args1("--version")
    }
}

impl SvnScm {
    /// The arguments of the probe that checks the executable is available: `--version`.
    pub fn availability_args() -> (r: Vec<String>)
        ensures
            strs(r@) == seq!["--version"@],
    {
        args1("--version")
    }
}

impl HgScm {
    /// The arguments of the probe that checks the executable is available: `--version`.
    pub fn availability_args() -> (r: Vec<String>)
        ensures
            strs(r@) == seq!["--version"@],
    {
        args1("--version")
    }
}

impl P4Scm {
    /// The arguments of the probe that checks the executable is available: `info`.
    pub fn availability_args() -> (r: Vec<String>)
        ensures
            strs(r@) == seq!["info"@],
    {
        args1("info")
    }
}

} // verus!
