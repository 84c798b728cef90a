//! Synchronising the repositories of a workspace: settings, the tally of what was
//! cloned, updated or skipped, and the decisions and messages around each repository.
use crate::foreach_command::{repos_of_groups, repos_view, target_repositories};
use crate::git_url::{error_message, GitUrlError};
use crate::manifest::ManifestRepo;
use crate::scm_interface::{scm_error_text, ScmError};
use crate::scm_type::scm_name;
use crate::text::{cat2, cat4, cat5, owned};
use crate::util::Duplicate;
use crate::workspace::{Workspace, WorkspaceStatus};
use vstd::prelude::*;

verus! {

/// Errors of synchronisation.
#[derive(Debug)]
pub enum SyncRepositoriesError {
    WorkspaceNotInitialized(String),
    ManifestUpdateFailed(String),
    RepositoryCloneFailed(String),
    RemoteUpdateFailed { repo: String, error: String },
    BranchSyncFailed { repo: String, error: String },
    GitOperationFailed(String),
    ScmOperationFailed(ScmError),
    IoError(String),
    GitUrlError(GitUrlError),
    BranchNameError(String),
    FilePathError(String),
}

/// The `Display` text of an error.
pub open spec fn sync_error_text(e: SyncRepositoriesError) -> Seq<char> {
    match e {
        SyncRepositoriesError::WorkspaceNotInitialized(p) => "Workspace not initialized: "@ + p@,
        SyncRepositoriesError::ManifestUpdateFailed(m) => "Manifest update failed: "@ + m@,
        SyncRepositoriesError::RepositoryCloneFailed(m) => "Repository clone failed: "@ + m@,
        SyncRepositoriesError::RemoteUpdateFailed { repo, error } => "Remote update failed for repo '"@ + repo@ + "': "@ + error@,
        SyncRepositoriesError::BranchSyncFailed { repo, error } => "Branch sync failed for repo '"@ + repo@ + "': "@ + error@,
        SyncRepositoriesError::GitOperationFailed(m) => "Git operation failed: "@ + m@,
        SyncRepositoriesError::ScmOperationFailed(s) => "SCM operation failed: "@ + scm_error_text(s),
        SyncRepositoriesError::IoError(m) => "IO error: "@ + m@,
        SyncRepositoriesError::GitUrlError(g) => "Git URL error: "@ + error_message(g),
        SyncRepositoriesError::BranchNameError(m) => "Branch name error: "@ + m@,
        SyncRepositoriesError::FilePathError(m) => "File path error: "@ + m@,
    }
}

impl SyncRepositoriesError {
    /// The message of the error (its `Display` text).
    pub fn to_string(&self) -> (r: String)
        ensures
            r@ == sync_error_text(*self),
    {
        match self {
            SyncRepositoriesError::WorkspaceNotInitialized(p) => cat2("Workspace not initialized: ", p.as_str()),
            SyncRepositoriesError::ManifestUpdateFailed(m) => cat2("Manifest update failed: ", m.as_str()),
            SyncRepositoriesError::RepositoryCloneFailed(m) => cat2("Repository clone failed: ", m.as_str()),
            SyncRepositoriesError::RemoteUpdateFailed { repo, error } => cat4("Remote update failed for repo '", repo.as_str(), "': ", error.as_str()),
            SyncRepositoriesError::BranchSyncFailed { repo, error } => cat4("Branch sync failed for repo '", repo.as_str(), "': ", error.as_str()),
            SyncRepositoriesError::GitOperationFailed(m) => cat2("Git operation failed: ", m.as_str()),
            SyncRepositoriesError::ScmOperationFailed(s) => {
                let t = s.to_string();
                cat2("SCM operation failed: ", t.as_str())
            },
            SyncRepositoriesError::IoError(m) => cat2("IO error: ", m.as_str()),
            SyncRepositoriesError::GitUrlError(g) => {
                let t = g.to_string();
                cat2("Git URL error: ", t.as_str())
            },
            SyncRepositoriesError::BranchNameError(m) => cat2("Branch name error: ", m.as_str()),
            SyncRepositoriesError::FilePathError(m) => cat2("File path error: ", m.as_str()),
        }
    }
}

/// Settings of a synchronisation.
#[derive(Debug, Clone)]
pub struct SyncRepositoriesConfig {
    /// Only the repositories of these groups (all when `None`)
    pub groups: Option<Vec<String>>,
    /// Discard local changes
    pub force: bool,
    /// Do not switch to the expected branch
    pub no_correct_branch: bool,
    /// Largest number of parallel jobs (the number of CPUs when `None`)
    pub parallel_jobs: Option<usize>,
    /// Verbose output
    pub verbose: bool,
    /// Also synchronise workspaces found inside the repositories
    pub recursive: bool,
}

impl Default for SyncRepositoriesConfig {
    fn default() -> (r: Self)
        ensures
            r.groups is None && !r.force && !r.no_correct_branch && r.parallel_jobs is None,
            !r.verbose && r.recursive,
    {
        SyncRepositoriesConfig {
            groups: None,
            force: false,
            no_correct_branch: false,
            parallel_jobs: None,
            verbose: false,
            recursive: true,
        }
    }
}

impl SyncRepositoriesConfig {
    /// Restrict to the given groups.
    pub fn with_groups(self, groups: Vec<String>) -> (r: Self)
        ensures
            r == (SyncRepositoriesConfig { groups: Some(groups), ..self }),
    {
        SyncRepositoriesConfig { groups: Some(groups), ..self }
    }

    /// Set whether to discard local changes.
    pub fn with_force(self, force: bool) -> (r: Self)
        ensures
            r == (SyncRepositoriesConfig { force, ..self }),
    {
        SyncRepositoriesConfig { force, ..self }
    }

    /// Set whether to leave branches as they are.
    pub fn with_no_correct_branch(self, no_correct_branch: bool) -> (r: Self)
        ensures
            r == (SyncRepositoriesConfig { no_correct_branch, ..self }),
    {
        SyncRepositoriesConfig { no_correct_branch, ..self }
    }

    /// Set the number of parallel jobs.
    pub fn with_parallel_jobs(self, parallel_jobs: usize) -> (r: Self)
        ensures
            r == (SyncRepositoriesConfig { parallel_jobs: Some(parallel_jobs), ..self }),
    {
        SyncRepositoriesConfig { parallel_jobs: Some(parallel_jobs), ..self }
    }

    /// Set verbose output.
    pub fn with_verbose(self, verbose: bool) -> (r: Self)
        ensures
            r == (SyncRepositoriesConfig { verbose, ..self }),
    {
        SyncRepositoriesConfig { verbose, ..self }
    }

    /// Set whether to synchronise nested workspaces.
    pub fn with_recursive(self, recursive: bool) -> (r: Self)
        ensures
            r == (SyncRepositoriesConfig { recursive, ..self }),
    {
        SyncRepositoriesConfig { recursive, ..self }
    }
}

/// The tally of a synchronisation.
#[derive(Debug, Clone)]
pub struct SyncResult {
    /// Repositories synchronised without error
    pub synced_count: usize,
    /// Repositories cloned
    pub cloned_count: usize,
    /// Repositories updated
    pub updated_count: usize,
    /// Repositories skipped, by an error or by the settings
    pub skipped_count: usize,
    /// Error messages, in the order they occurred
    pub errors: Vec<String>,
}

impl SyncResult {
    /// An empty tally.
    pub fn new() -> (r: Self)
        ensures
            r.synced_count == 0 && r.cloned_count == 0 && r.updated_count == 0,
            r.skipped_count == 0 && r.errors@.len() == 0,
    {
        SyncResult { synced_count: 0, cloned_count: 0, updated_count: 0, skipped_count: 0, errors: Vec::new() }
    }

    /// Record an error message.
    pub fn add_error(&mut self, error: String)
        ensures
            final(self).errors@ == old(self).errors@.push(error),
            final(self).synced_count == old(self).synced_count,
            final(self).cloned_count == old(self).cloned_count,
            final(self).updated_count == old(self).updated_count,
            final(self).skipped_count == old(self).skipped_count,
    {
        self.errors.push(error);
    }

    /// Whether no error was recorded.
    pub fn is_success(&self) -> (r: bool)
        ensures
            r == (self.errors@.len() == 0),
    {
        self.errors.len() == 0
    }

    /// The number of repositories cloned, updated or skipped.
    pub fn total_count(&self) -> (r: usize)
        requires
            self.cloned_count + self.updated_count + self.skipped_count <= usize::MAX,
        ensures
            r == self.cloned_count + self.updated_count + self.skipped_count,
    {
        self.cloned_count + self.updated_count + self.skipped_count
    }
}

/// What happened to a repository.
#[derive(Debug, Clone, Copy, PartialEq, Eq, Structural)]
pub enum SyncOperation {
    Cloned,
    Updated,
    Skipped,
}

/// The counters after one repository's outcome: a success counts its operation and one
/// synchronised repository; a failure counts one skipped repository and records
/// `Failed to sync <dest>: <error>`.
pub open spec fn after_outcome(old: SyncResult, new: SyncResult, dest: Seq<char>, outcome: Result<SyncOperation, SyncRepositoriesError>) -> bool {
    match outcome {
        Ok(op) => {
            &&& new.synced_count == old.synced_count + 1
            &&& new.cloned_count == old.cloned_count + (if op == SyncOperation::Cloned { 1int } else { 0 })
            &&& new.updated_count == old.updated_count + (if op == SyncOperation::Updated { 1int } else { 0 })
            &&& new.skipped_count == old.skipped_count + (if op == SyncOperation::Skipped { 1int } else { 0 })
            &&& new.errors@ == old.errors@
        },
        Err(e) => {
            &&& new.synced_count == old.synced_count
            &&& new.cloned_count == old.cloned_count
            &&& new.updated_count == old.updated_count
            &&& new.skipped_count == old.skipped_count + 1
            &&& new.errors@.len() == old.errors@.len() + 1
            &&& new.errors@.subrange(0, old.errors@.len() as int) == old.errors@
            &&& new.errors@.last()@ == "Failed to sync "@ + dest + ": "@ + sync_error_text(e)
        },
    }
}

/// Every outcome adds exactly one repository to `total_count`, and an error adds one
/// message; counts never go down.
pub proof fn law_outcome_counts_once(old: SyncResult, new: SyncResult, dest: Seq<char>, outcome: Result<SyncOperation, SyncRepositoriesError>)
    requires
        after_outcome(old, new, dest, outcome),
    ensures
        new.cloned_count + new.updated_count + new.skipped_count
            == old.cloned_count + old.updated_count + old.skipped_count + 1,
        new.synced_count + new.errors@.len() == old.synced_count + old.errors@.len() + 1,
        new.synced_count >= old.synced_count,
{
}

/// Synchronising the repositories of a workspace.
pub struct SyncRepositoriesUseCase {
    config: SyncRepositoriesConfig,
}

impl SyncRepositoriesUseCase {
    /// The settings of the synchronisation.
    pub closed spec fn settings(self) -> SyncRepositoriesConfig {
        self.config
    }

    /// A synchronisation with the given settings.
    pub fn new(config: SyncRepositoriesConfig) -> (r: Self)
        ensures
            r.settings() == config,
    {
        SyncRepositoriesUseCase { config }
    }

    /// The settings of the synchronisation.
    pub fn config(&self) -> (r: &SyncRepositoriesConfig)
        ensures
            *r == self.settings(),
    {
        &self.config
    }

    /// The workspace must be initialised.
    pub fn check_workspace_initialized(&self, workspace: &Workspace) -> (r: Result<(), SyncRepositoriesError>)
        ensures
            match r {
                Ok(()) => workspace.status == WorkspaceStatus::Initialized,
                Err(e) => workspace.status != WorkspaceStatus::Initialized
                    && (e matches SyncRepositoriesError::WorkspaceNotInitialized(p) && p@ == workspace.root_path@),
            },
    {
        if !workspace.is_initialized() {
            return Err(SyncRepositoriesError::WorkspaceNotInitialized(workspace.root_path.clone()));
        }
        Ok(())
    }

    /// The repositories to synchronise: those of the configured groups, or all of the
    /// manifest; an error when no manifest is loaded.
    pub fn determine_target_repositories(&self, workspace: &Workspace) -> (r: Result<Vec<ManifestRepo>, SyncRepositoriesError>)
        ensures
            match r {
                Ok(v) => workspace.manifest matches Some(m) && repos_view(v@) == repos_view(match self.settings().groups {
                    Some(gs) => repos_of_groups(m, gs@),
                    None => m.repos@,
                }),
                Err(e) => workspace.manifest is None && (e matches SyncRepositoriesError::ManifestUpdateFailed(msg)
                    && msg@ == "Manifest not loaded"@),
            },
    {
        match &workspace.manifest {
            Some(m) => Ok(target_repositories(m, &self.config.groups)),
            None => Err(SyncRepositoriesError::ManifestUpdateFailed(owned("Manifest not loaded"))),
        }
    }

    /// What a repository needs: a clone when its directory is absent, else an update.
    pub fn planned_operation(exists: bool) -> (r: SyncOperation)
        ensures
            r == (if exists { SyncOperation::Updated } else { SyncOperation::Cloned }),
    {
        if exists {
            SyncOperation::Updated
        } else {
            SyncOperation::Cloned
        }
    }

    /// Count the outcome of one repository (see `after_outcome`).
    pub fn record_outcome(result: &mut SyncResult, dest: &str, outcome: Result<SyncOperation, SyncRepositoriesError>)
        requires
            old(result).synced_count < usize::MAX,
            old(result).cloned_count < usize::MAX,
            old(result).updated_count < usize::MAX,
            old(result).skipped_count < usize::MAX,
        ensures
            after_outcome(*old(result), *final(result), dest@, outcome),
    {
        match outcome {
            Ok(op) => {
                match op {
                    SyncOperation::Cloned => result.cloned_count = result.cloned_count + 1,
                    SyncOperation::Updated => result.updated_count = result.updated_count + 1,
                    SyncOperation::Skipped => result.skipped_count = result.skipped_count + 1,
                }
                result.synced_count = result.synced_count + 1;
            },
            Err(e) => {
                let t = e.to_string();
                let msg = cat4("Failed to sync ", dest, ": ", t.as_str());
                let ghost before = result.errors@;
                result.add_error(msg);
                assert(result.errors@.subrange(0, before.len() as int) =~= before);
                result.skipped_count = result.skipped_count + 1;
            },
        }
    }

    /// Add the tally of a nested workspace to `result`.
    pub fn merge_child_result(result: &mut SyncResult, child: SyncResult)
        requires
            old(result).synced_count + child.synced_count <= usize::MAX,
            old(result).cloned_count + child.cloned_count <= usize::MAX,
            old(result).updated_count + child.updated_count <= usize::MAX,
            old(result).skipped_count + child.skipped_count <= usize::MAX,
        ensures
            final(result).synced_count == old(result).synced_count + child.synced_count,
            final(result).cloned_count == old(result).cloned_count + child.cloned_count,
            final(result).updated_count == old(result).updated_count + child.updated_count,
            final(result).skipped_count == old(result).skipped_count + child.skipped_count,
            final(result).errors@ == old(result).errors@ + child.errors@,
    {
        result.synced_count = result.synced_count + child.synced_count;
        result.cloned_count = result.cloned_count + child.cloned_count;
        result.updated_count = result.updated_count + child.updated_count;
        result.skipped_count = result.skipped_count + child.skipped_count;
        let mut errors = child.errors;
        result.errors.append(&mut errors);
    }

    /// The settings of a nested workspace's synchronisation: the same, but not
    /// recursive again.
    pub fn child_config(&self) -> (r: SyncRepositoriesConfig)
        ensures
            r.groups.deep_view() == self.settings().groups.deep_view(),
            r == (SyncRepositoriesConfig { recursive: false, groups: r.groups, ..self.settings() }),
    {
        SyncRepositoriesConfig {
            groups: self.config.groups.duplicate(),
            force: self.config.force,
            no_correct_branch: self.config.no_correct_branch,
            parallel_jobs: self.config.parallel_jobs,
            verbose: self.config.verbose,
            recursive: false,
        }
    }

    /// The error of a failed clone: `Failed to clone <url> (<scm>): <error>`.
    pub fn clone_failure(repo: &ManifestRepo, error: &ScmError) -> (r: SyncRepositoriesError)
        ensures
            r matches SyncRepositoriesError::RepositoryCloneFailed(m)
                && m@ == "Failed to clone "@ + repo.url@ + " ("@ + scm_name(repo.scm) + "): "@ + scm_error_text(*error),
    {
        let scm = repo.scm.to_string();
        let e = error.to_string();
        let mut m = cat5("Failed to clone ", repo.url.as_str(), " (", scm.as_str(), "): ");
        m.append(e.as_str());
        SyncRepositoriesError::RepositoryCloneFailed(m)
    }

    /// The error of a failed update: `Failed to sync <scm> repository: <error>` for
    /// the repository's destination.
    pub fn update_failure(repo: &ManifestRepo, error: &ScmError) -> (r: SyncRepositoriesError)
        ensures
            r matches SyncRepositoriesError::RemoteUpdateFailed { repo: d, error: m }
                && d@ == repo.dest@ && m@ == "Failed to sync "@ + scm_name(repo.scm) + " repository: "@ + scm_error_text(*error),
    {
        let scm = repo.scm.to_string();
        let e = error.to_string();
        SyncRepositoriesError::RemoteUpdateFailed {
            repo: repo.dest.clone(),
            error: cat4("Failed to sync ", scm.as_str(), " repository: ", e.as_str()),
        }
    }

    /// The error for a directory that is no repository of the expected kind.
    pub fn not_a_repository(repo: &ManifestRepo, repo_path: &str) -> (r: SyncRepositoriesError)
        ensures
            r matches SyncRepositoriesError::GitOperationFailed(m)
                && m@ == "Path "@ + repo_path@ + " is not a valid "@ + scm_name(repo.scm) + " repository"@,
    {
        let scm = repo.scm.to_string();
        SyncRepositoriesError::GitOperationFailed(cat5("Path ", repo_path, " is not a valid ", scm.as_str(), " repository"))
    }

    /// The error for a workspace whose manifest file is absent.
    pub fn manifest_file_missing(manifest_file: &str) -> (r: SyncRepositoriesError)
        ensures
            r matches SyncRepositoriesError::ManifestUpdateFailed(m) && m@ == "Manifest file not found: "@ + manifest_file@,
    {
        SyncRepositoriesError::ManifestUpdateFailed(cat2("Manifest file not found: ", manifest_file))
    }

    /// The message recorded when a nested workspace fails.
    pub fn child_failure_message(child_root: &str, error: &SyncRepositoriesError) -> (r: String)
        ensures
            r@ == "Failed to sync child workspace "@ + child_root@ + ": "@ + sync_error_text(*error),
    {
        let e = error.to_string();
        cat4("Failed to sync child workspace ", child_root, ": ", e.as_str())
    }
}

} // verus!
