//! Options, results and errors shared by all SCM back ends.
use crate::scm_type::{scm_name, ScmType};
use crate::text::{cat2, cat4, i64_to_string, int_text, owned};
use vstd::prelude::*;

verus! {

/// Options for cloning repositories.
#[derive(Debug, Clone)]
pub struct CloneOptions {
    /// Branch to clone (Git only)
    pub branch: Option<String>,
    /// Perform shallow clone (Git only)
    pub shallow: bool,
    /// Shallow clone depth (Git only)
    pub depth: Option<u32>,
    /// Remote name (Git only)
    pub remote: Option<String>,
    /// Recurse submodules (Git only)
    pub recurse_submodules: bool,
    /// Specific revision to checkout
    pub revision: Option<String>,
    /// Username for authentication
    pub username: Option<String>,
    /// Password for authentication
    pub password: Option<String>,
    /// Client workspace (P4 only)
    pub client: Option<String>,
    /// Stream (P4 only)
    pub stream: Option<String>,
    /// Additional SCM-specific options
    pub extra_options: Vec<String>,
}

impl Default for CloneOptions {
    fn default() -> (r: Self)
        ensures
            r.branch is None && !r.shallow && r.depth is None && r.remote is None,
            !r.recurse_submodules && r.revision is None && r.username is None,
            r.password is None && r.client is None && r.stream is None,
            r.extra_options@.len() == 0,
    {
        CloneOptions {
            branch: None,
            shallow: false,
            depth: None,
            remote: None,
            recurse_submodules: false,
            revision: None,
            username: None,
            password: None,
            client: None,
            stream: None,
            extra_options: Vec::new(),
        }
    }
}

/// Options for synchronizing repositories.
#[derive(Debug, Clone)]
pub struct SyncOptions {
    /// Target branch (Git only)
    pub branch: Option<String>,
    /// Force update, discarding local changes
    pub force: bool,
    /// Target revision to update to
    pub revision: Option<String>,
    /// Username for authentication
    pub username: Option<String>,
    /// Password for authentication
    pub password: Option<String>,
    /// Client workspace (P4 only)
    pub client: Option<String>,
    /// Stream (P4 only)
    pub stream: Option<String>,
    /// Additional SCM-specific options
    pub extra_options: Vec<String>,
}

impl Default for SyncOptions {
    fn default() -> (r: Self)
        ensures
            r.branch is None && !r.force && r.revision is None && r.username is None,
            r.password is None && r.client is None && r.stream is None,
            r.extra_options@.len() == 0,
    {
        SyncOptions {
            branch: None,
            force: false,
            revision: None,
            username: None,
            password: None,
            client: None,
            stream: None,
            extra_options: Vec::new(),
        }
    }
}

/// Result of a status check.
#[derive(Debug, Clone)]
pub struct StatusResult {
    /// Current revision/commit identifier
    pub current_revision: String,
    /// Current branch (Git only)
    pub current_branch: Option<String>,
    /// Whether there are uncommitted changes
    pub has_changes: bool,
    /// Whether there are untracked files
    pub has_untracked: bool,
    /// Number of commits ahead of the remote (Git only)
    pub ahead_count: Option<usize>,
    /// Number of commits behind the remote (Git only)
    pub behind_count: Option<usize>,
    /// SCM-specific status information, as key/value pairs with distinct keys
    pub extra_info: Vec<(String, String)>,
}

/// Errors that can occur during SCM operations.
#[derive(Debug, Clone, PartialEq, Eq)]
pub enum ScmError {
    RepositoryNotFound { path: String },
    InvalidRepository { scm_type: ScmType, path: String },
    CloneFailed { message: String },
    SyncFailed { message: String },
    StatusFailed { message: String },
    AuthenticationFailed { url: String },
    NetworkError { message: String },
    ExecutableNotFound { executable: String },
    UnsupportedOperation { scm_type: ScmType, operation: String },
    PermissionDenied { message: String },
    InvalidUrl { url: String },
    IoError { message: String },
    CommandFailed { command: String, exit_code: i32, stderr: String },
    Internal { message: String },
}

impl ScmError {
    /// Create a clone failed error
    pub fn clone_failed(message: &str) -> (r: Self)
        ensures
            r matches ScmError::CloneFailed { message: m } && m@ == message@,
    {
        ScmError::CloneFailed { message: owned(message) }
    }

    /// Create a sync failed error
    pub fn sync_failed(message: &str) -> (r: Self)
        ensures
            r matches ScmError::SyncFailed { message: m } && m@ == message@,
    {
        ScmError::SyncFailed { message: owned(message) }
    }

    /// Create a status failed error
    pub fn status_failed(message: &str) -> (r: Self)
        ensures
            r matches ScmError::StatusFailed { message: m } && m@ == message@,
    {
        ScmError::StatusFailed { message: owned(message) }
    }

    /// Create a network error
    pub fn network_error(message: &str) -> (r: Self)
        ensures
            r matches ScmError::NetworkError { message: m } && m@ == message@,
    {
        ScmError::NetworkError { message: owned(message) }
    }

    /// Create an authentication failed error
    pub fn auth_failed(url: &str) -> (r: Self)
        ensures
            r matches ScmError::AuthenticationFailed { url: u } && u@ == url@,
    {
        ScmError::AuthenticationFailed { url: owned(url) }
    }

    /// Create an executable not found error
    pub fn executable_not_found(executable: &str) -> (r: Self)
        ensures
            r matches ScmError::ExecutableNotFound { executable: e } && e@ == executable@,
    {
        ScmError::ExecutableNotFound { executable: owned(executable) }
    }

    /// Create an unsupported operation error
    pub fn unsupported_operation(scm_type: ScmType, operation: &str) -> (r: Self)
        ensures
            r matches ScmError::UnsupportedOperation { scm_type: t, operation: o } && t
                == scm_type && o@ == operation@,
    {
        ScmError::UnsupportedOperation { scm_type, operation: owned(operation) }
    }

    /// Create a command failed error
    pub fn command_failed(command: &str, exit_code: i32, stderr: &str) -> (r: Self)
        ensures
            r matches ScmError::CommandFailed { command: c, exit_code: e, stderr: s } && c@
                == command@ && e == exit_code && s@ == stderr@,
    {
        ScmError::CommandFailed { command: owned(command), exit_code, stderr: owned(stderr) }
    }

    /// The message of the error (its `Display` text).
    pub fn to_string(&self) -> (r: String)
        ensures
            r@ == scm_error_text(*self),
    {
        match self {
            ScmError::RepositoryNotFound { path } => cat2("Repository not found at path: ", path.as_str()),
            ScmError::InvalidRepository { scm_type, path } => {
                let t = scm_type.to_string();
                cat4("Invalid repository format for ", t.as_str(), " at path: ", path.as_str())
            },
            ScmError::CloneFailed { message } => cat2("Clone operation failed: ", message.as_str()),
            ScmError::SyncFailed { message } => cat2("Sync operation failed: ", message.as_str()),
            ScmError::StatusFailed { message } => cat2("Status check failed: ", message.as_str()),
            ScmError::AuthenticationFailed { url } => cat2("Authentication failed for ", url.as_str()),
            ScmError::NetworkError { message } => cat2("Network error: ", message.as_str()),
            ScmError::ExecutableNotFound { executable } => cat2("SCM executable not found: ", executable.as_str()),
            ScmError::UnsupportedOperation { scm_type, operation } => {
                let t = scm_type.to_string();
                cat4("Unsupported operation for ", t.as_str(), ": ", operation.as_str())
            },
            ScmError::PermissionDenied { message } => cat2("Permission denied: ", message.as_str()),
            ScmError::InvalidUrl { url } => cat2("Invalid URL format: ", url.as_str()),
            ScmError::IoError { message } => cat2("IO error: ", message.as_str()),
            ScmError::CommandFailed { command, exit_code, stderr } => {
                let code = i64_to_string(*exit_code as i64);
                let mut r = cat4("Command execution failed: ", command.as_str(), ", exit code: ", code.as_str());
                r.append(", stderr: ");
                r.append(stderr.as_str());
                r
            },
            ScmError::Internal { message } => cat2("Internal error: ", message.as_str()),
        }
    }
}

/// The message of each error.
pub open spec fn scm_error_text(e: ScmError) -> Seq<char> {
    match e {
        ScmError::RepositoryNotFound { path } => "Repository not found at path: "@ + path@,
        ScmError::InvalidRepository { scm_type, path } => "Invalid repository format for "@ + scm_name(scm_type) + " at path: "@ + path@,
        ScmError::CloneFailed { message } => "Clone operation failed: "@ + message@,
        ScmError::SyncFailed { message } => "Sync operation failed: "@ + message@,
        ScmError::StatusFailed { message } => "Status check failed: "@ + message@,
        ScmError::AuthenticationFailed { url } => "Authentication failed for "@ + url@,
        ScmError::NetworkError { message } => "Network error: "@ + message@,
        ScmError::ExecutableNotFound { executable } => "SCM executable not found: "@ + executable@,
        ScmError::UnsupportedOperation { scm_type, operation } => "Unsupported operation for "@ + scm_name(scm_type) + ": "@ + operation@,
        ScmError::PermissionDenied { message } => "Permission denied: "@ + message@,
        ScmError::InvalidUrl { url } => "Invalid URL format: "@ + url@,
        ScmError::IoError { message } => "IO error: "@ + message@,
        ScmError::CommandFailed { command, exit_code, stderr } => "Command execution failed: "@ + command@ + ", exit code: "@
            + int_text(exit_code as int) + ", stderr: "@ + stderr@,
        ScmError::Internal { message } => "Internal error: "@ + message@,
    }
}

} // verus!
