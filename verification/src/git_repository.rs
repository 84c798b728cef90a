//! The decisions around a local Git repository: how a target name is looked up
//! among references, when a reset target is a commit id, when a fast-forward is
//! possible, how the status entries that Git reports become a status summary,
//! and how far a branch is ahead of its upstream.
use crate::git_url::{error_message, GitUrlError};
use crate::text::{cat2, owned, str_eq, substring};
use vstd::prelude::*;
use vstd::string::StringSliceAdditionalSpecFns;

verus! {

broadcast use vstd::seq_lib::group_seq_properties;

/// Errors of the operations on a local Git repository.
#[derive(Debug)]
pub enum GitRepositoryError {
    RepositoryNotFound(String),
    InvalidRepositoryPath(String),
    CloneFailed(String),
    FetchFailed(String),
    CheckoutFailed(String),
    ResetFailed(String),
    MergeFailed(String),
    BranchNotFound(String),
    RemoteNotFound(String),
    GitOperationFailed(String),
    AuthenticationFailed(String),
    WorkingDirectoryDirty,
    GitUrlError(GitUrlError),
    /// An error that Git itself reported, by its message
    Git2Error(String),
    /// An error of the file system, by its message
    IoError(String),
}

/// The `Display` text of an error.
pub open spec fn git_repository_error_text(e: GitRepositoryError) -> Seq<char> {
    match e {
        GitRepositoryError::RepositoryNotFound(p) => "Repository not found at path: "@ + p@,
        GitRepositoryError::InvalidRepositoryPath(p) => "Invalid repository path: "@ + p@,
        GitRepositoryError::CloneFailed(m) => "Git clone failed: "@ + m@,
        GitRepositoryError::FetchFailed(m) => "Git fetch failed: "@ + m@,
        GitRepositoryError::CheckoutFailed(m) => "Git checkout failed: "@ + m@,
        GitRepositoryError::ResetFailed(m) => "Git reset failed: "@ + m@,
        GitRepositoryError::MergeFailed(m) => "Git merge failed: "@ + m@,
        GitRepositoryError::BranchNotFound(b) => "Branch not found: "@ + b@,
        GitRepositoryError::RemoteNotFound(r) => "Remote not found: "@ + r@,
        GitRepositoryError::GitOperationFailed(m) => "Git operation failed: "@ + m@,
        GitRepositoryError::AuthenticationFailed(m) => "Authentication failed: "@ + m@,
        GitRepositoryError::WorkingDirectoryDirty => "Working directory has uncommitted changes"@,
        GitRepositoryError::GitUrlError(u) => "Git URL error: "@ + error_message(u),
        GitRepositoryError::Git2Error(m) => "Git2 error: "@ + m@,
        GitRepositoryError::IoError(m) => "IO error: "@ + m@,
    }
}

impl GitRepositoryError {
    /// The message of the error (its `Display` text).
    pub fn to_string(&self) -> (r: String)
        ensures
            r@ == git_repository_error_text(*self),
    {
        match self {
            GitRepositoryError::RepositoryNotFound(p) => cat2("Repository not found at path: ", p.as_str()),
            GitRepositoryError::InvalidRepositoryPath(p) => cat2("Invalid repository path: ", p.as_str()),
            GitRepositoryError::CloneFailed(m) => cat2("Git clone failed: ", m.as_str()),
            GitRepositoryError::FetchFailed(m) => cat2("Git fetch failed: ", m.as_str()),
            GitRepositoryError::CheckoutFailed(m) => cat2("Git checkout failed: ", m.as_str()),
            GitRepositoryError::ResetFailed(m) => cat2("Git reset failed: ", m.as_str()),
            GitRepositoryError::MergeFailed(m) => cat2("Git merge failed: ", m.as_str()),
            GitRepositoryError::BranchNotFound(b) => cat2("Branch not found: ", b.as_str()),
            GitRepositoryError::RemoteNotFound(r) => cat2("Remote not found: ", r.as_str()),
            GitRepositoryError::GitOperationFailed(m) => cat2("Git operation failed: ", m.as_str()),
            GitRepositoryError::AuthenticationFailed(m) => cat2("Authentication failed: ", m.as_str()),
            GitRepositoryError::WorkingDirectoryDirty => owned("Working directory has uncommitted changes"),
            GitRepositoryError::GitUrlError(u) => {
                let m = u.to_string();
                cat2("Git URL error: ", m.as_str())
            },
            GitRepositoryError::Git2Error(m) => cat2("Git2 error: ", m.as_str()),
            GitRepositoryError::IoError(m) => cat2("IO error: ", m.as_str()),
        }
    }
}

/// Status information of a local repository.
#[derive(Debug, Clone)]
pub struct RepositoryStatus {
    /// Current branch name
    pub current_branch: Option<String>,
    /// Current commit id
    pub current_commit: String,
    /// Whether the working directory is clean
    pub is_clean: bool,
    /// Commits ahead of the upstream
    pub ahead: usize,
    /// Commits behind the upstream
    pub behind: usize,
    /// Modified files
    pub modified_files: Vec<String>,
    /// Untracked files
    pub untracked_files: Vec<String>,
    /// Staged files
    pub staged_files: Vec<String>,
}

/// Settings of a clone. `F` is the type of the progress callback.
#[derive(Debug, Clone)]
pub struct CloneConfig<F> {
    /// Branch to check out
    pub branch: Option<String>,
    /// Whether to clone shallowly
    pub shallow: bool,
    /// Depth of a shallow clone
    pub depth: Option<i32>,
    /// Whether to clone submodules too
    pub recursive: bool,
    /// Progress callback
    pub progress_callback: Option<F>,
}

impl<F> Default for CloneConfig<F> {
    fn default() -> (r: Self)
        ensures
            r.branch is None,
            !r.shallow,
            r.depth is None,
            !r.recursive,
            r.progress_callback is None,
    {
        CloneConfig { branch: None, shallow: false, depth: None, recursive: false, progress_callback: None }
    }
}

/// Settings of a fetch. `F` is the type of the progress callback.
#[derive(Debug, Clone)]
pub struct FetchConfig<F> {
    /// Remote to fetch from
    pub remote_name: String,
    /// References to fetch (all when `None`)
    pub refs: Option<Vec<String>>,
    /// Progress callback
    pub progress_callback: Option<F>,
}

impl<F> Default for FetchConfig<F> {
    fn default() -> (r: Self)
        ensures
            r.remote_name@ == "origin"@,
            r.refs is None,
            r.progress_callback is None,
    {
        FetchConfig { remote_name: owned("origin"), refs: None, progress_callback: None }
    }
}

/// Git reset modes.
#[derive(Debug, Clone, Copy, PartialEq, Eq, Structural)]
pub enum ResetMode {
    /// Moves HEAD only
    Soft,
    /// Moves HEAD and resets the index
    Mixed,
    /// Moves HEAD, resets the index and the working directory
    Hard,
}

/// Kinds of branches.
#[derive(Debug, Clone, Copy, PartialEq, Eq, Structural)]
pub enum GitBranchType {
    /// Local branches
    Local,
    /// Remote-tracking branches
    Remote,
}

/// The references under which a target name is looked up, in order: the name
/// itself, the local branch of that name, the branch of that name on `origin`.
pub open spec fn reference_candidates_spec(target: Seq<char>) -> Seq<Seq<char>> {
    seq![target, "refs/heads/"@ + target, "refs/remotes/origin/"@ + target]
}

/// The references under which `checkout`, `create_branch` and `reset` look a
/// target name up, in the order in which they try them.
pub fn reference_candidates(target: &str) -> (r: Vec<String>)
    ensures
        r.deep_view() == reference_candidates_spec(target@),
{
    let v = vec![owned(target), local_branch_reference(target), upstream_reference(target)];
    assert(v.deep_view() =~= reference_candidates_spec(target@));
    v
}

/// The reference of the local branch `branch`.
pub fn local_branch_reference(branch: &str) -> (r: String)
    ensures
        r@ == "refs/heads/"@ + branch@,
{
    cat2("refs/heads/", branch)
}

/// The reference of the branch `branch` on the remote `origin`.
pub fn upstream_reference(branch: &str) -> (r: String)
    ensures
        r@ == "refs/remotes/origin/"@ + branch@,
{
    cat2("refs/remotes/origin/", branch)
}

/// Whether a reset target is taken as a commit id: it is one when its text
/// is 40 bytes long, and a reference name otherwise.
pub fn is_commit_id(target: &str) -> (r: bool)
    ensures
        r == (target.spec_bytes().len() == 40),
{
    target.as_bytes().len() == 40
}

/// The name shown for the current branch: the short name of HEAD when it has
/// one, and for a detached HEAD `detached@` and the first 8 characters of the
/// commit id.
pub fn current_branch_name(shorthand: Option<String>, commit_id: &str) -> (r: String)
    requires
        shorthand is None ==> commit_id@.len() >= 8,
    ensures
        r@ == match shorthand {
            Some(s) => s@,
            None => "detached@"@ + commit_id@.subrange(0, 8),
        },
{
    match shorthand {
        Some(s) => s,
        None => {
            let short = substring(commit_id, 0, 8);
            cat2("detached@", short.as_str())
        },
    }
}

/// The ahead/behind counts of a branch against its upstream, from the commit
/// ids of the two: (0, 0) when either is missing or both are the same, and
/// (1, 0) when they differ.
pub open spec fn ahead_behind_spec(local: Option<Seq<char>>, remote: Option<Seq<char>>) -> (int, int) {
    match (local, remote) {
        (Some(l), Some(r)) => if l == r { (0, 0) } else { (1, 0) },
        _ => (0, 0),
    }
}

/// The ahead/behind counts of a branch, from the commit ids of the local branch
/// and of its upstream (`None` where the reference could not be resolved).
pub fn calculate_ahead_behind(local: Option<&str>, remote: Option<&str>) -> (r: (usize, usize))
    ensures
        (r.0 as int, r.1 as int) == ahead_behind_spec(
            match local { Some(l) => Some(l@), None => None },
            match remote { Some(x) => Some(x@), None => None },
        ),
{
    match (local, remote) {
        (Some(l), Some(x)) => if str_eq(l, x) { (0, 0) } else { (1, 0) },
        _ => (0, 0),
    }
}

/// Whether HEAD can be fast-forwarded to its upstream: only when the merge base
/// of the two is HEAD itself; otherwise the merge fails.
pub fn check_fast_forward(merge_base: &str, head: &str) -> (r: Result<(), GitRepositoryError>)
    ensures
        r is Ok <==> merge_base@ == head@,
        r is Err ==> (r->Err_0 matches GitRepositoryError::MergeFailed(m)
            && m@ == "Fast-forward merge not possible"@),
{
    if str_eq(merge_base, head) {
        Ok(())
    } else {
        Err(GitRepositoryError::MergeFailed(owned("Fast-forward merge not possible")))
    }
}

/// The status flags that Git reports for one path.
#[derive(Debug, Clone, Copy)]
pub struct StatusFlags {
    /// Modified in the working tree
    pub wt_modified: bool,
    /// New in the working tree (untracked)
    pub wt_new: bool,
    /// Modified in the index
    pub index_modified: bool,
    /// New in the index
    pub index_new: bool,
    /// Deleted in the index
    pub index_deleted: bool,
}

/// One status entry: a path (when it is valid text) and its flags.
#[derive(Debug, Clone)]
pub struct StatusEntry {
    /// The path of the entry
    pub path: Option<String>,
    /// Its flags
    pub flags: StatusFlags,
}

/// Whether an entry counts as staged.
pub open spec fn is_staged(f: StatusFlags) -> bool {
    f.index_modified || f.index_new || f.index_deleted
}

/// The paths, in order, of the entries with a path whose flags meet `pick`.
pub open spec fn paths_where(entries: Seq<StatusEntry>, pick: spec_fn(StatusFlags) -> bool) -> Seq<Seq<char>>
    decreases entries.len(),
{
    if entries.len() == 0 {
        Seq::empty()
    } else {
        let prev = paths_where(entries.drop_last(), pick);
        let e = entries.last();
        if e.path is Some && pick(e.flags) {
            prev.push(e.path->0@)
        } else {
            prev
        }
    }
}

/// The modified paths of a list of entries.
pub open spec fn modified_paths(entries: Seq<StatusEntry>) -> Seq<Seq<char>> {
    paths_where(entries, |f: StatusFlags| f.wt_modified)
}

/// The untracked paths of a list of entries.
pub open spec fn untracked_paths(entries: Seq<StatusEntry>) -> Seq<Seq<char>> {
    paths_where(entries, |f: StatusFlags| f.wt_new)
}

/// The staged paths of a list of entries.
pub open spec fn staged_paths(entries: Seq<StatusEntry>) -> Seq<Seq<char>> {
    paths_where(entries, |f: StatusFlags| is_staged(f))
}

/// A path is picked exactly when some entry has it and flags that `pick` accepts.
proof fn lemma_paths_where_members(entries: Seq<StatusEntry>, pick: spec_fn(StatusFlags) -> bool, p: Seq<char>)
    ensures
        paths_where(entries, pick).contains(p) <==> exists|i: int| 0 <= i < entries.len()
            && (#[trigger] entries[i]).path is Some && entries[i].path->0@ == p && pick(entries[i].flags),
        paths_where(entries, pick).len() <= entries.len(),
    decreases entries.len(),
{
    if entries.len() > 0 {
        let d = entries.drop_last();
        lemma_paths_where_members(d, pick, p);
        let prev = paths_where(d, pick);
        let e = entries.last();
        if paths_where(entries, pick).contains(p) {
            if e.path is Some && pick(e.flags) && e.path->0@ == p {
                assert(entries[entries.len() - 1] == e);
            } else {
                if e.path is Some && pick(e.flags) {
                    let q = choose|q: int| 0 <= q < prev.push(e.path->0@).len() && prev.push(e.path->0@)[q] == p;
                    assert(q < prev.len());
                    assert(prev[q] == p);
                }
                assert(prev.contains(p));
                let i = choose|i: int| 0 <= i < d.len() && (#[trigger] d[i]).path is Some && d[i].path->0@ == p && pick(d[i].flags);
                assert(entries[i] == d[i]);
            }
        }
        if exists|i: int| 0 <= i < entries.len() && (#[trigger] entries[i]).path is Some && entries[i].path->0@ == p && pick(entries[i].flags) {
            let i = choose|i: int| 0 <= i < entries.len() && (#[trigger] entries[i]).path is Some && entries[i].path->0@ == p && pick(entries[i].flags);
            if i == entries.len() - 1 {
                assert(paths_where(entries, pick) == prev.push(p));
                assert(prev.push(p)[prev.len() as int] == p);
            } else {
                assert(d[i] == entries[i]);
                assert(prev.contains(p));
                let q = choose|q: int| 0 <= q < prev.len() && prev[q] == p;
                if e.path is Some && pick(e.flags) {
                    assert(prev.push(e.path->0@)[q] == p);
                }
            }
        }
    }
}

/// The staged paths are exactly the paths of entries staged in the index (modified,
/// added or deleted there); the modified paths those of entries modified in the working
/// tree; the untracked paths those of entries new in the working tree.
pub proof fn law_status_paths(entries: Seq<StatusEntry>, p: Seq<char>)
    ensures
        staged_paths(entries).contains(p) <==> exists|i: int| 0 <= i < entries.len()
            && (#[trigger] entries[i]).path is Some && entries[i].path->0@ == p
            && (entries[i].flags.index_modified || entries[i].flags.index_new || entries[i].flags.index_deleted),
        modified_paths(entries).contains(p) <==> exists|i: int| 0 <= i < entries.len()
            && (#[trigger] entries[i]).path is Some && entries[i].path->0@ == p && entries[i].flags.wt_modified,
        untracked_paths(entries).contains(p) <==> exists|i: int| 0 <= i < entries.len()
            && (#[trigger] entries[i]).path is Some && entries[i].path->0@ == p && entries[i].flags.wt_new,
{
    lemma_paths_where_members(entries, |f: StatusFlags| is_staged(f), p);
    lemma_paths_where_members(entries, |f: StatusFlags| f.wt_modified, p);
    lemma_paths_where_members(entries, |f: StatusFlags| f.wt_new, p);
}

impl RepositoryStatus {
    /// The status of a repository from its current branch and commit, the
    /// status entries that Git reports for it, and its ahead/behind counts.
    /// It is clean when there is no entry at all.
    pub fn from_entries(
        current_branch: String,
        current_commit: String,
        entries: &Vec<StatusEntry>,
        ahead_behind: (usize, usize),
    ) -> (r: Self)
        ensures
            r.current_branch == Some(current_branch),
            r.current_commit == current_commit,
            r.is_clean == (entries@.len() == 0),
            r.ahead == ahead_behind.0,
            r.behind == ahead_behind.1,
            r.modified_files.deep_view() == modified_paths(entries@),
            r.untracked_files.deep_view() == untracked_paths(entries@),
            r.staged_files.deep_view() == staged_paths(entries@),
    {
        let mut modified: Vec<String> = Vec::new();
        let mut untracked: Vec<String> = Vec::new();
        let mut staged: Vec<String> = Vec::new();
        let mut i: usize = 0;
        while i < entries.len()
            invariant
                i <= entries@.len(),
                modified.deep_view() == modified_paths(entries@.take(i as int)),
                untracked.deep_view() == untracked_paths(entries@.take(i as int)),
                staged.deep_view() == staged_paths(entries@.take(i as int)),
            decreases entries.len() - i,
        {
            let e = &entries[i];
            assert(entries@.take(i + 1).drop_last() =~= entries@.take(i as int));
            assert(entries@.take(i + 1).last() == entries@[i as int]);
            match &e.path {
                Some(p) => {
                    if e.flags.wt_modified {
                        modified.push(p.clone());
                    }
                    if e.flags.wt_new {
                        untracked.push(p.clone());
                    }
                    if e.flags.index_modified || e.flags.index_new || e.flags.index_deleted {
                        staged.push(p.clone());
                    }
                },
                None => {},
            }
            proof {
                assert(modified.deep_view() =~= modified_paths(entries@.take(i + 1)));
                assert(untracked.deep_view() =~= untracked_paths(entries@.take(i + 1)));
                assert(staged.deep_view() =~= staged_paths(entries@.take(i + 1)));
            }
            i = i + 1;
        }
        assert(entries@.take(entries@.len() as int) =~= entries@);
        RepositoryStatus {
            current_branch: Some(current_branch),
            current_commit,
            is_clean: entries.len() == 0,
            ahead: ahead_behind.0,
            behind: ahead_behind.1,
            modified_files: modified,
            untracked_files: untracked,
            staged_files: staged,
        }
    }
}

} // verus!
