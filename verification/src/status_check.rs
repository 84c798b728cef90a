//! The state of every repository of a workspace: how one repository's state follows
//! from what Git reports, and the tally over the workspace.
use crate::foreach_command::{repos_of_groups, repos_view, target_repositories};
use crate::manifest::{Manifest, ManifestRepo};
use crate::text::{cat2, cat4, owned};
use crate::workspace::{Workspace, WorkspaceStatus};
use vstd::prelude::*;

verus! {

broadcast use vstd::seq_lib::group_seq_properties;

/// Errors of a status check.
#[derive(Debug)]
pub enum StatusCheckError {
    WorkspaceNotInitialized(String),
    GitStatusFailed { repo: String, error: String },
    RepositoryNotFound(String),
    GitOperationFailed(String),
    IoError(String),
    BranchNameError(String),
    GitRepositoryError(String),
}

/// The `Display` text of an error.
pub open spec fn status_error_text(e: StatusCheckError) -> Seq<char> {
    match e {
        StatusCheckError::WorkspaceNotInitialized(p) => "Workspace not initialized: "@ + p@,
        StatusCheckError::GitStatusFailed { repo, error } => "Git status check failed for repo '"@ + repo@ + "': "@ + error@,
        StatusCheckError::RepositoryNotFound(d) => "Repository not found: "@ + d@,
        StatusCheckError::GitOperationFailed(m) => "Git operation failed: "@ + m@,
        StatusCheckError::IoError(m) => "IO error: "@ + m@,
        StatusCheckError::BranchNameError(m) => "Branch name error: "@ + m@,
        StatusCheckError::GitRepositoryError(m) => "Git repository error: "@ + m@,
    }
}

impl StatusCheckError {
    /// The message of the error (its `Display` text).
    pub fn to_string(&self) -> (r: String)
        ensures
            r@ == status_error_text(*self),
    {
        match self {
            StatusCheckError::WorkspaceNotInitialized(p) => cat2("Workspace not initialized: ", p.as_str()),
            StatusCheckError::GitStatusFailed { repo, error } => cat4("Git status check failed for repo '", repo.as_str(), "': ", error.as_str()),
            StatusCheckError::RepositoryNotFound(d) => cat2("Repository not found: ", d.as_str()),
            StatusCheckError::GitOperationFailed(m) => cat2("Git operation failed: ", m.as_str()),
            StatusCheckError::IoError(m) => cat2("IO error: ", m.as_str()),
            StatusCheckError::BranchNameError(m) => cat2("Branch name error: ", m.as_str()),
            StatusCheckError::GitRepositoryError(m) => cat2("Git repository error: ", m.as_str()),
        }
    }
}

/// Settings of a status check.
#[derive(Debug, Clone)]
pub struct StatusCheckConfig {
    /// Only the repositories of these groups (all when `None`)
    pub groups: Option<Vec<String>>,
    /// Show branch information
    pub show_branch: bool,
    /// Compact display
    pub compact: bool,
    /// Verbose output
    pub verbose: bool,
}

impl Default for StatusCheckConfig {
    fn default() -> (r: Self)
        ensures
            r.groups is None && !r.show_branch && !r.compact && !r.verbose,
    {
        StatusCheckConfig { groups: None, show_branch: false, compact: false, verbose: false }
    }
}

/// The state of a repository.
#[derive(Debug, Clone, Copy, PartialEq, Eq, Structural)]
pub enum RepositoryState {
    Clean,
    Dirty,
    Missing,
    WrongBranch,
    OutOfSync,
    Error,
}

/// The status of one repository.
#[derive(Debug, Clone)]
pub struct RepositoryStatus {
    /// Destination of the repository
    pub dest: String,
    /// State
    pub state: RepositoryState,
    /// Current branch
    pub current_branch: Option<String>,
    /// Expected branch
    pub expected_branch: Option<String>,
    /// Untracked files
    pub untracked_files: usize,
    /// Modified files
    pub modified_files: usize,
    /// Staged files
    pub staged_files: usize,
    /// Commits ahead of the remote
    pub commits_ahead: usize,
    /// Commits behind the remote
    pub commits_behind: usize,
    /// Error message of the error state
    pub error_message: Option<String>,
}

/// The state after branch information is set: a repository on another branch than the
/// expected one is on the wrong branch, unless it is in error.
pub open spec fn state_after_branch(s: RepositoryState, current: Option<String>, expected: Option<String>) -> RepositoryState {
    match (current, expected) {
        (Some(c), Some(e)) => if c@ != e@ && s != RepositoryState::Error {
            RepositoryState::WrongBranch
        } else {
            s
        },
        _ => s,
    }
}

/// The state after file counts are set: changes make a repository dirty and their
/// absence makes it clean, unless it is in error or on the wrong branch (and a dirty
/// one stays dirty).
pub open spec fn state_after_files(s: RepositoryState, changed: int) -> RepositoryState {
    if changed > 0 && s != RepositoryState::Error && s != RepositoryState::WrongBranch {
        RepositoryState::Dirty
    } else if s != RepositoryState::Error && s != RepositoryState::WrongBranch && s != RepositoryState::Dirty {
        RepositoryState::Clean
    } else {
        s
    }
}

/// The state after remote differences are set: a clean repository with commits ahead
/// or behind is out of sync.
pub open spec fn state_after_remote(s: RepositoryState, ahead: int, behind: int) -> RepositoryState {
    if ahead + behind > 0 && s == RepositoryState::Clean {
        RepositoryState::OutOfSync
    } else {
        s
    }
}

/// Setting the remote differences: a clean repository with any commit ahead or any
/// commit behind becomes out of sync and stays clean only when both counts are zero;
/// a repository in any other state keeps it.
pub proof fn law_remote_diff_state(s: RepositoryState, ahead: nat, behind: nat)
    ensures
        s == RepositoryState::Clean && (ahead > 0 || behind > 0) ==> state_after_remote(s, ahead as int, behind as int) == RepositoryState::OutOfSync,
        s == RepositoryState::Clean && ahead == 0 && behind == 0 ==> state_after_remote(s, ahead as int, behind as int) == RepositoryState::Clean,
        s != RepositoryState::Clean ==> state_after_remote(s, ahead as int, behind as int) == s,
{
}

/// Setting the file counts: an error or a wrong branch stays; otherwise any untracked,
/// modified or staged file makes the repository dirty, and with none a dirty one stays
/// dirty and any other becomes clean.
pub proof fn law_file_changes_state(s: RepositoryState, untracked: nat, modified: nat, staged: nat)
    ensures
        s == RepositoryState::Error || s == RepositoryState::WrongBranch ==> state_after_files(s, (untracked + modified + staged) as int) == s,
        s != RepositoryState::Error && s != RepositoryState::WrongBranch && (untracked > 0 || modified > 0 || staged > 0)
            ==> state_after_files(s, (untracked + modified + staged) as int) == RepositoryState::Dirty,
        s != RepositoryState::Error && s != RepositoryState::WrongBranch && s != RepositoryState::Dirty
            && untracked == 0 && modified == 0 && staged == 0 ==> state_after_files(s, (untracked + modified + staged) as int) == RepositoryState::Clean,
{
}

/// Setting the branches: a repository not in error whose current branch differs from the
/// expected one is on the wrong branch; otherwise the state stays.
pub proof fn law_branch_state(s: RepositoryState, current: String, expected: String)
    ensures
        s != RepositoryState::Error && current@ != expected@ ==> state_after_branch(s, Some(current), Some(expected)) == RepositoryState::WrongBranch,
        current@ == expected@ ==> state_after_branch(s, Some(current), Some(expected)) == s,
        s == RepositoryState::Error ==> state_after_branch(s, Some(current), Some(expected)) == s,
{
}

/// The state of an existing repository whose status Git reported: on another branch
/// than the expected one it is on the wrong branch; else with any untracked, modified or
/// staged file it is dirty; else with any commit ahead or behind it is out of sync;
/// else it is clean.
pub proof fn law_reported_state(current: Option<String>, expected: String, untracked: nat, modified: nat, staged: nat, ahead: nat, behind: nat)
    ensures
        ({
            let s = state_after_remote(
                state_after_files(state_after_branch(RepositoryState::Missing, current, Some(expected)), (untracked + modified + staged) as int),
                ahead as int,
                behind as int,
            );
            &&& (current matches Some(c) && c@ != expected@) ==> s == RepositoryState::WrongBranch
            &&& !(current matches Some(c) && c@ != expected@) && (untracked > 0 || modified > 0 || staged > 0) ==> s == RepositoryState::Dirty
            &&& !(current matches Some(c) && c@ != expected@) && untracked == 0 && modified == 0 && staged == 0 && (ahead > 0 || behind > 0)
                ==> s == RepositoryState::OutOfSync
            &&& !(current matches Some(c) && c@ != expected@) && untracked == 0 && modified == 0 && staged == 0 && ahead == 0 && behind == 0
                ==> s == RepositoryState::Clean
        }),
{
}

impl RepositoryStatus {
    /// A missing repository with nothing known yet.
    pub fn new(dest: String) -> (r: Self)
        ensures
            r.dest == dest && r.state == RepositoryState::Missing,
            r.current_branch is None && r.expected_branch is None,
            r.untracked_files == 0 && r.modified_files == 0 && r.staged_files == 0,
            r.commits_ahead == 0 && r.commits_behind == 0 && r.error_message is None,
    {
        RepositoryStatus {
            dest,
            state: RepositoryState::Missing,
            current_branch: None,
            expected_branch: None,
            untracked_files: 0,
            modified_files: 0,
            staged_files: 0,
            commits_ahead: 0,
            commits_behind: 0,
            error_message: None,
        }
    }

    /// Mark as in error, with the message.
    pub fn with_error(self, error: String) -> (r: Self)
        ensures
            r == (RepositoryStatus { state: RepositoryState::Error, error_message: Some(error), ..self }),
    {
        RepositoryStatus { state: RepositoryState::Error, error_message: Some(error), ..self }
    }

    /// Set the current and expected branch (see `state_after_branch`).
    pub fn with_branch_info(self, current: Option<String>, expected: Option<String>) -> (r: Self)
        ensures
            r == (RepositoryStatus {
                current_branch: current,
                expected_branch: expected,
                state: state_after_branch(self.state, current, expected),
                ..self
            }),
    {
        let mut r = RepositoryStatus { current_branch: current, expected_branch: expected, ..self };
        let wrong = match (&r.current_branch, &r.expected_branch) {
            (Some(c), Some(e)) => *c != *e && r.state != RepositoryState::Error,
            _ => false,
        };
        if wrong {
            r.state = RepositoryState::WrongBranch;
        }
        r
    }

    /// Set the file counts (see `state_after_files`).
    pub fn with_file_changes(self, untracked: usize, modified: usize, staged: usize) -> (r: Self)
        requires
            untracked + modified + staged <= usize::MAX,
        ensures
            r == (RepositoryStatus {
                untracked_files: untracked,
                modified_files: modified,
                staged_files: staged,
                state: state_after_files(self.state, untracked + modified + staged),
                ..self
            }),
    {
        let mut r = RepositoryStatus { untracked_files: untracked, modified_files: modified, staged_files: staged, ..self };
        if (untracked + modified + staged) > 0 && r.state != RepositoryState::Error && r.state != RepositoryState::WrongBranch {
            r.state = RepositoryState::Dirty;
        } else if r.state != RepositoryState::Error && r.state != RepositoryState::WrongBranch && r.state != RepositoryState::Dirty {
            r.state = RepositoryState::Clean;
        }
        r
    }

    /// Set the commits ahead and behind (see `state_after_remote`).
    pub fn with_remote_diff(self, ahead: usize, behind: usize) -> (r: Self)
        requires
            ahead + behind <= usize::MAX,
        ensures
            r == (RepositoryStatus {
                commits_ahead: ahead,
                commits_behind: behind,
                state: state_after_remote(self.state, ahead as int, behind as int),
                ..self
            }),
            self.state == RepositoryState::Clean && (ahead > 0 || behind > 0) ==> r.state == RepositoryState::OutOfSync,
            self.state == RepositoryState::Clean && ahead == 0 && behind == 0 ==> r.state == RepositoryState::Clean,
            self.state != RepositoryState::Clean ==> r.state == self.state,
    {
        let mut r = RepositoryStatus { commits_ahead: ahead, commits_behind: behind, ..self };
        if (ahead + behind) > 0 && r.state == RepositoryState::Clean {
            r.state = RepositoryState::OutOfSync;
        }
        r
    }

    /// Whether the repository is anything but clean.
    pub fn has_issues(&self) -> (r: bool)
        ensures
            r == (self.state != RepositoryState::Clean),
    {
        self.state != RepositoryState::Clean
    }
}

/// The tally of a status check.
#[derive(Debug, Clone)]
pub struct StatusResult {
    /// Statuses, in the order they were added
    pub repositories: Vec<RepositoryStatus>,
    /// Clean repositories
    pub clean_count: usize,
    /// Dirty, wrong-branch and out-of-sync repositories
    pub dirty_count: usize,
    /// Missing repositories
    pub missing_count: usize,
    /// Repositories in error
    pub error_count: usize,
}

/// The number of statuses whose state satisfies `p`.
pub open spec fn count_state(rs: Seq<RepositoryStatus>, p: spec_fn(RepositoryState) -> bool) -> nat {
    rs.filter(|s: RepositoryStatus| p(s.state)).len()
}

/// A state counted as dirty: any but clean, missing and error.
pub open spec fn counts_as_dirty(s: RepositoryState) -> bool {
    s != RepositoryState::Clean && s != RepositoryState::Missing && s != RepositoryState::Error
}

/// The counters agree with the statuses, and every status is counted exactly once.
pub open spec fn status_tally_consistent(r: StatusResult) -> bool {
    &&& r.clean_count == count_state(r.repositories@, |s: RepositoryState| s == RepositoryState::Clean)
    &&& r.dirty_count == count_state(r.repositories@, |s: RepositoryState| counts_as_dirty(s))
    &&& r.missing_count == count_state(r.repositories@, |s: RepositoryState| s == RepositoryState::Missing)
    &&& r.error_count == count_state(r.repositories@, |s: RepositoryState| s == RepositoryState::Error)
}

/// Adding a status: the counter of its state grows by one, the others stay.
pub open spec fn status_tally_after_add(old: StatusResult, new: StatusResult, st: RepositoryStatus) -> bool {
    &&& new.repositories@ == old.repositories@.push(st)
    &&& new.clean_count == old.clean_count + (if st.state == RepositoryState::Clean { 1int } else { 0 })
    &&& new.dirty_count == old.dirty_count + (if counts_as_dirty(st.state) { 1int } else { 0 })
    &&& new.missing_count == old.missing_count + (if st.state == RepositoryState::Missing { 1int } else { 0 })
    &&& new.error_count == old.error_count + (if st.state == RepositoryState::Error { 1int } else { 0 })
}

/// Every addition keeps the counters consistent, and the four counters always add up
/// to the number of statuses.
pub proof fn law_status_tally(old: StatusResult, new: StatusResult, st: RepositoryStatus)
    requires
        status_tally_consistent(old),
        status_tally_after_add(old, new, st),
    ensures
        status_tally_consistent(new),
        new.clean_count + new.dirty_count + new.missing_count + new.error_count
            == old.clean_count + old.dirty_count + old.missing_count + old.error_count + 1,
{
    let rs = old.repositories@;
    rs.lemma_filter_push(st, |x: RepositoryStatus| (|s: RepositoryState| s == RepositoryState::Clean)(x.state));
    rs.lemma_filter_push(st, |x: RepositoryStatus| (|s: RepositoryState| counts_as_dirty(s))(x.state));
    rs.lemma_filter_push(st, |x: RepositoryStatus| (|s: RepositoryState| s == RepositoryState::Missing)(x.state));
    rs.lemma_filter_push(st, |x: RepositoryStatus| (|s: RepositoryState| s == RepositoryState::Error)(x.state));
}

impl StatusResult {
    /// An empty tally.
    pub fn new() -> (r: Self)
        ensures
            r.repositories@.len() == 0 && r.clean_count == 0 && r.dirty_count == 0,
            r.missing_count == 0 && r.error_count == 0,
            status_tally_consistent(r),
    {
        let r = StatusResult { repositories: Vec::new(), clean_count: 0, dirty_count: 0, missing_count: 0, error_count: 0 };
        proof {
            reveal_with_fuel(Seq::<RepositoryStatus>::filter, 1);
        }
        r
    }

    /// Add a status and count it.
    pub fn add_repository(&mut self, status: RepositoryStatus)
        requires
            old(self).clean_count < usize::MAX,
            old(self).dirty_count < usize::MAX,
            old(self).missing_count < usize::MAX,
            old(self).error_count < usize::MAX,
        ensures
            status_tally_after_add(*old(self), *final(self), status),
    {
        match status.state {
            RepositoryState::Clean => self.clean_count = self.clean_count + 1,
            RepositoryState::Missing => self.missing_count = self.missing_count + 1,
            RepositoryState::Error => self.error_count = self.error_count + 1,
            _ => self.dirty_count = self.dirty_count + 1,
        }
        self.repositories.push(status);
    }

    /// Whether any repository is dirty, missing or in error.
    pub fn has_issues(&self) -> (r: bool)
        ensures
            r == (self.dirty_count > 0 || self.missing_count > 0 || self.error_count > 0),
    {
        self.dirty_count > 0 || self.missing_count > 0 || self.error_count > 0
    }

    /// The number of statuses.
    pub fn total_count(&self) -> (r: usize)
        ensures
            r == self.repositories@.len(),
    {
        self.repositories.len()
    }
}

/// What Git reports of a repository.
#[derive(Debug, Clone)]
pub struct GitStatusInfo {
    pub current_branch: Option<String>,
    pub untracked_files: usize,
    pub modified_files: usize,
    pub staged_files: usize,
    pub commits_ahead: usize,
    pub commits_behind: usize,
}

/// Checking the state of every repository of a workspace.
pub struct StatusCheckUseCase {
    config: StatusCheckConfig,
}

impl StatusCheckUseCase {
    /// The settings of the check.
    pub closed spec fn settings(self) -> StatusCheckConfig {
        self.config
    }

    /// A check with the given settings.
    pub fn new(config: StatusCheckConfig) -> (r: Self)
        ensures
            r.settings() == config,
    {
        StatusCheckUseCase { config }
    }

    /// The settings of the check.
    pub fn config(&self) -> (r: &StatusCheckConfig)
        ensures
            *r == self.settings(),
    {
        &self.config
    }

    /// The workspace must be initialised.
    pub fn check_workspace_initialized(&self, workspace: &Workspace) -> (r: Result<(), StatusCheckError>)
        ensures
            match r {
                Ok(()) => workspace.status == WorkspaceStatus::Initialized,
                Err(e) => workspace.status != WorkspaceStatus::Initialized
                    && (e matches StatusCheckError::WorkspaceNotInitialized(p) && p@ == workspace.root_path@),
            },
    {
        if !workspace.is_initialized() {
            return Err(StatusCheckError::WorkspaceNotInitialized(workspace.root_path.clone()));
        }
        Ok(())
    }

    /// The repositories to check: those of the configured groups, or all of the
    /// manifest; an error when no manifest is loaded.
    pub fn determine_target_repositories(&self, workspace: &Workspace) -> (r: Result<Vec<ManifestRepo>, StatusCheckError>)
        ensures
            match r {
                Ok(v) => workspace.manifest matches Some(m) && repos_view(v@) == repos_view(match self.settings().groups {
                    Some(gs) => repos_of_groups(m, gs@),
                    None => m.repos@,
                }),
                Err(e) => workspace.manifest is None && (e matches StatusCheckError::GitOperationFailed(msg)
                    && msg@ == "Manifest not loaded"@),
            },
    {
        match &workspace.manifest {
            Some(m) => Ok(target_repositories(m, &self.config.groups)),
            None => Err(StatusCheckError::GitOperationFailed(owned("Manifest not loaded"))),
        }
    }

    /// The status of one repository from whether its directory exists and what Git
    /// reported: missing when absent; in error (with the error's text) when Git
    /// failed; else the branch (expected: the manifest branch, `main` by default), file
    /// and remote information applied in that order.
    pub fn repository_status(repo: &ManifestRepo, exists: bool, git: Result<GitStatusInfo, StatusCheckError>) -> (r: RepositoryStatus)
        requires
            git matches Ok(g) ==> g.untracked_files + g.modified_files + g.staged_files <= usize::MAX
                && g.commits_ahead + g.commits_behind <= usize::MAX,
        ensures
            r.dest == repo.dest,
            !exists ==> r.state == RepositoryState::Missing,
            exists ==> match git {
                Err(e) => r.state == RepositoryState::Error && (r.error_message matches Some(m) && m@ == status_error_text(e)),
                Ok(g) => {
                    &&& r.current_branch == g.current_branch
                    &&& (r.expected_branch matches Some(b) && b@ == match repo.branch {
                        Some(x) => x@,
                        None => "main"@,
                    })
                    &&& r.untracked_files == g.untracked_files && r.modified_files == g.modified_files
                    &&& r.staged_files == g.staged_files
                    &&& r.commits_ahead == g.commits_ahead && r.commits_behind == g.commits_behind
                    &&& r.state == state_after_remote(
                        state_after_files(
                            state_after_branch(RepositoryState::Missing, g.current_branch, r.expected_branch),
                            g.untracked_files + g.modified_files + g.staged_files,
                        ),
                        g.commits_ahead as int,
                        g.commits_behind as int,
                    )
                },
            },
    {
        let status = RepositoryStatus::new(repo.dest.clone());
        if !exists {
            return status;
        }
        match git {
            Ok(g) => {
                let expected = match &repo.branch {
                    Some(b) => b.clone(),
                    None => owned("main"),
                };
                status.with_branch_info(g.current_branch, Some(expected))
                    .with_file_changes(g.untracked_files, g.modified_files, g.staged_files)
                    .with_remote_diff(g.commits_ahead, g.commits_behind)
            },
            Err(e) => {
                let msg = e.to_string();
                status.with_error(msg)
            },
        }
    }
}

impl GitStatusInfo {
    /// What a status check reads from the status of a local repository: its branch,
    /// the numbers of untracked, modified and staged files, and its ahead/behind counts.
    pub fn from_repository_status(s: &crate::git_repository::RepositoryStatus) -> (r: GitStatusInfo)
        ensures
            r.current_branch == s.current_branch,
            r.untracked_files == s.untracked_files@.len(),
            r.modified_files == s.modified_files@.len(),
            r.staged_files == s.staged_files@.len(),
            r.commits_ahead == s.ahead,
            r.commits_behind == s.behind,
    {
        GitStatusInfo {
            current_branch: s.current_branch.clone(),
            untracked_files: s.untracked_files.len(),
            modified_files: s.modified_files.len(),
            staged_files: s.staged_files.len(),
            commits_ahead: s.ahead,
            commits_behind: s.behind,
        }
    }
}

} // verus!
