//! The general error type of the library: one variant per kind of failure, with
//! the context each kind carries. An underlying error is kept as its message.
use crate::text::{cat2, cat4, dec_digits, owned, u64_to_string};
use vstd::prelude::*;

verus! {

/// An error with its context; `source` is the message of the underlying error.
#[derive(Debug, Clone, PartialEq, Eq)]
pub enum TsrcError {
    GitError { message: String, source: Option<String> },
    FileSystemError { message: String, path: Option<String>, source: Option<String> },
    ConfigError { message: String, source: Option<String> },
    ManifestError { message: String, file_path: Option<String>, source: Option<String> },
    WorkspaceError { message: String, workspace_path: Option<String> },
    RepositoryError { message: String, repository_name: Option<String>, source: Option<String> },
    CommandError { message: String, command: String, exit_code: Option<i32>, source: Option<String> },
    NetworkError { message: String, url: Option<String>, source: Option<String> },
    ValidationError { field: String, message: String, value: Option<String> },
    SerializationError { message: String, source: Option<String> },
    Cancelled,
    Timeout { timeout_secs: u64 },
    InternalError { message: String, source: Option<String> },
}

/// The `Display` text of an error.
pub open spec fn tsrc_error_text(e: TsrcError) -> Seq<char> {
    match e {
        TsrcError::GitError { message, .. } => "Git operation failed: "@ + message@,
        TsrcError::FileSystemError { message, .. } => "File system operation failed: "@ + message@,
        TsrcError::ConfigError { message, .. } => "Configuration error: "@ + message@,
        TsrcError::ManifestError { message, .. } => "Manifest validation error: "@ + message@,
        TsrcError::WorkspaceError { message, .. } => "Workspace error: "@ + message@,
        TsrcError::RepositoryError { message, .. } => "Repository operation failed: "@ + message@,
        TsrcError::CommandError { message, .. } => "Command execution failed: "@ + message@,
        TsrcError::NetworkError { message, .. } => "Network operation failed: "@ + message@,
        TsrcError::ValidationError { field, message, .. } => "Validation error: "@ + field@ + " - "@ + message@,
        TsrcError::SerializationError { message, .. } => "Serialization error: "@ + message@,
        TsrcError::Cancelled => "Operation cancelled"@,
        TsrcError::Timeout { timeout_secs } => "Operation timed out after "@ + dec_digits(timeout_secs as nat) + " seconds"@,
        TsrcError::InternalError { message, .. } => "Internal error: "@ + message@,
    }
}

impl TsrcError {
    /// The message of the error (its `Display` text).
    pub fn to_string(&self) -> (r: String)
        ensures
            r@ == tsrc_error_text(*self),
    {
        match self {
            TsrcError::GitError { message, .. } => cat2("Git operation failed: ", message.as_str()),
            TsrcError::FileSystemError { message, .. } => cat2("File system operation failed: ", message.as_str()),
            TsrcError::ConfigError { message, .. } => cat2("Configuration error: ", message.as_str()),
            TsrcError::ManifestError { message, .. } => cat2("Manifest validation error: ", message.as_str()),
            TsrcError::WorkspaceError { message, .. } => cat2("Workspace error: ", message.as_str()),
            TsrcError::RepositoryError { message, .. } => cat2("Repository operation failed: ", message.as_str()),
            TsrcError::CommandError { message, .. } => cat2("Command execution failed: ", message.as_str()),
            TsrcError::NetworkError { message, .. } => cat2("Network operation failed: ", message.as_str()),
            TsrcError::ValidationError { field, message, .. } => cat4("Validation error: ", field.as_str(), " - ", message.as_str()),
            TsrcError::SerializationError { message, .. } => cat2("Serialization error: ", message.as_str()),
            TsrcError::Cancelled => owned("Operation cancelled"),
            TsrcError::Timeout { timeout_secs } => {
                let n = u64_to_string(*timeout_secs);
                let mut r = cat2("Operation timed out after ", n.as_str());
                r.append(" seconds");
                r
            },
            TsrcError::InternalError { message, .. } => cat2("Internal error: ", message.as_str()),
        }
    }

    /// A Git error.
    pub fn git_error(message: &str) -> (r: Self)
        ensures
            r matches TsrcError::GitError { message: m, source: None } && m@ == message@,
    {
        TsrcError::GitError { message: owned(message), source: None }
    }

    /// A Git error caused by another error, given by its message.
    pub fn git_error_with_source(message: &str, source: String) -> (r: Self)
        ensures
            r == (TsrcError::GitError { message: r->GitError_message, source: Some(source) }),
            r->GitError_message@ == message@,
    {
        TsrcError::GitError { message: owned(message), source: Some(source) }
    }

    /// A file system error, with the path concerned if known.
    pub fn filesystem_error(message: &str, path: Option<String>) -> (r: Self)
        ensures
            r == (TsrcError::FileSystemError { message: r->FileSystemError_message, path, source: None }),
            r->FileSystemError_message@ == message@,
    {
        TsrcError::FileSystemError { message: owned(message), path, source: None }
    }

    /// A file system error caused by another error, given by its message.
    pub fn filesystem_error_with_source(message: &str, path: Option<String>, source: String) -> (r: Self)
        ensures
            r == (TsrcError::FileSystemError { message: r->FileSystemError_message, path, source: Some(source) }),
            r->FileSystemError_message@ == message@,
    {
        TsrcError::FileSystemError { message: owned(message), path, source: Some(source) }
    }

    /// A configuration error.
    pub fn config_error(message: &str) -> (r: Self)
        ensures
            r matches TsrcError::ConfigError { message: m, source: None } && m@ == message@,
    {
        TsrcError::ConfigError { message: owned(message), source: None }
    }

    /// A configuration error caused by another error, given by its message.
    pub fn config_error_with_source(message: &str, source: String) -> (r: Self)
        ensures
            r == (TsrcError::ConfigError { message: r->ConfigError_message, source: Some(source) }),
            r->ConfigError_message@ == message@,
    {
        TsrcError::ConfigError { message: owned(message), source: Some(source) }
    }

    /// A manifest error, with the file concerned if known.
    pub fn manifest_error(message: &str, file_path: Option<String>) -> (r: Self)
        ensures
            r == (TsrcError::ManifestError { message: r->ManifestError_message, file_path, source: None }),
            r->ManifestError_message@ == message@,
    {
        TsrcError::ManifestError { message: owned(message), file_path, source: None }
    }

    /// A manifest error caused by another error, given by its message.
    pub fn manifest_error_with_source(message: &str, file_path: Option<String>, source: String) -> (r: Self)
        ensures
            r == (TsrcError::ManifestError { message: r->ManifestError_message, file_path, source: Some(source) }),
            r->ManifestError_message@ == message@,
    {
        TsrcError::ManifestError { message: owned(message), file_path, source: Some(source) }
    }

    /// A workspace error, with the workspace concerned if known.
    pub fn workspace_error(message: &str, workspace_path: Option<String>) -> (r: Self)
        ensures
            r == (TsrcError::WorkspaceError { message: r->WorkspaceError_message, workspace_path }),
            r->WorkspaceError_message@ == message@,
    {
        TsrcError::WorkspaceError { message: owned(message), workspace_path }
    }

    /// A repository error, with the repository concerned if known.
    pub fn repository_error(message: &str, repository_name: Option<String>) -> (r: Self)
        ensures
            r == (TsrcError::RepositoryError { message: r->RepositoryError_message, repository_name, source: None }),
            r->RepositoryError_message@ == message@,
    {
        TsrcError::RepositoryError { message: owned(message), repository_name, source: None }
    }

    /// A repository error caused by another error, given by its message.
    pub fn repository_error_with_source(message: &str, repository_name: Option<String>, source: String) -> (r: Self)
        ensures
            r == (TsrcError::RepositoryError { message: r->RepositoryError_message, repository_name, source: Some(source) }),
            r->RepositoryError_message@ == message@,
    {
        TsrcError::RepositoryError { message: owned(message), repository_name, source: Some(source) }
    }

    /// A command error: the command and its exit code if it ran.
    pub fn command_error(message: &str, command: &str, exit_code: Option<i32>) -> (r: Self)
        ensures
            r matches TsrcError::CommandError { message: m, command: c, exit_code: x, source: None }
                && m@ == message@ && c@ == command@ && x == exit_code,
    {
        TsrcError::CommandError { message: owned(message), command: owned(command), exit_code, source: None }
    }

    /// A command error caused by another error, given by its message.
    pub fn command_error_with_source(message: &str, command: &str, exit_code: Option<i32>, source: String) -> (r: Self)
        ensures
            r matches TsrcError::CommandError { message: m, command: c, exit_code: x, source: s }
                && m@ == message@ && c@ == command@ && x == exit_code && s == Some(source),
    {
        TsrcError::CommandError { message: owned(message), command: owned(command), exit_code, source: Some(source) }
    }

    /// A network error, with the URL concerned if known.
    pub fn network_error(message: &str, url: Option<String>) -> (r: Self)
        ensures
            r == (TsrcError::NetworkError { message: r->NetworkError_message, url, source: None }),
            r->NetworkError_message@ == message@,
    {
        TsrcError::NetworkError { message: owned(message), url, source: None }
    }

    /// A network error caused by another error, given by its message.
    pub fn network_error_with_source(message: &str, url: Option<String>, source: String) -> (r: Self)
        ensures
            r == (TsrcError::NetworkError { message: r->NetworkError_message, url, source: Some(source) }),
            r->NetworkError_message@ == message@,
    {
        TsrcError::NetworkError { message: owned(message), url, source: Some(source) }
    }

    /// A validation error of a field, with the offending value if known.
    pub fn validation_error(field: &str, message: &str, value: Option<String>) -> (r: Self)
        ensures
            r == (TsrcError::ValidationError { field: r->ValidationError_field, message: r->ValidationError_message, value }),
            r->ValidationError_field@ == field@,
            r->ValidationError_message@ == message@,
    {
        TsrcError::ValidationError { field: owned(field), message: owned(message), value }
    }

    /// A serialization error.
    pub fn serialization_error(message: &str) -> (r: Self)
        ensures
            r matches TsrcError::SerializationError { message: m, source: None } && m@ == message@,
    {
        TsrcError::SerializationError { message: owned(message), source: None }
    }

    /// A serialization error caused by another error, given by its message.
    pub fn serialization_error_with_source(message: &str, source: String) -> (r: Self)
        ensures
            r == (TsrcError::SerializationError { message: r->SerializationError_message, source: Some(source) }),
            r->SerializationError_message@ == message@,
    {
        TsrcError::SerializationError { message: owned(message), source: Some(source) }
    }

    /// A time-out after the given number of seconds.
    pub fn timeout(timeout_secs: u64) -> (r: Self)
        ensures
            r == (TsrcError::Timeout { timeout_secs }),
    {
        TsrcError::Timeout { timeout_secs }
    }

    /// An internal error.
    pub fn internal_error(message: &str) -> (r: Self)
        ensures
            r matches TsrcError::InternalError { message: m, source: None } && m@ == message@,
    {
        TsrcError::InternalError { message: owned(message), source: None }
    }

    /// An internal error caused by another error, given by its message.
    pub fn internal_error_with_source(message: &str, source: String) -> (r: Self)
        ensures
            r == (TsrcError::InternalError { message: r->InternalError_message, source: Some(source) }),
            r->InternalError_message@ == message@,
    {
        TsrcError::InternalError { message: owned(message), source: Some(source) }
    }
}

/// The outside error types that convert into a `TsrcError`.
#[verifier::external_type_specification]
#[verifier::external_body]
pub struct ExIoError(std::io::Error);

#[verifier::external_type_specification]
#[verifier::external_body]
pub struct ExGit2Error(git2::Error);

#[verifier::external_type_specification]
#[verifier::external_body]
pub struct ExYamlError(serde_yaml::Error);

#[verifier::external_type_specification]
#[verifier::external_body]
pub struct ExJsonError(serde_json::Error);

#[verifier::external_type_specification]
#[verifier::external_body]
pub struct ExReqwestError(reqwest::Error);

#[verifier::external_type_specification]
#[verifier::external_body]
pub struct ExAnyhowError(anyhow::Error);

/// The message of an I/O error (`std::io::Error`'s `Display` text); what it
/// says is not stated.
#[verifier::external_body]
pub(crate) fn io_error_message(e: &std::io::Error) -> String {
    e.to_string()
}

/// The message of a `git2::Error` (its `Display` text); what it says is not stated.
#[verifier::external_body]
fn git2_error_message(e: &git2::Error) -> String {
    e.to_string()
}

/// The message of a `serde_yaml::Error` (its `Display` text); what it says is not stated.
#[verifier::external_body]
fn yaml_error_message(e: &serde_yaml::Error) -> String {
    e.to_string()
}

/// The message of a `serde_json::Error` (its `Display` text); what it says is not stated.
#[verifier::external_body]
fn json_error_message(e: &serde_json::Error) -> String {
    e.to_string()
}

/// The message of a `reqwest::Error` (its `Display` text); what it says is not stated.
#[verifier::external_body]
fn reqwest_error_message(e: &reqwest::Error) -> String {
    e.to_string()
}

/// The message of an `anyhow::Error` (its `Display` text); what it says is not stated.
#[verifier::external_body]
fn anyhow_error_message(e: &anyhow::Error) -> String {
    e.to_string()
}

/// A Git failure becomes a Git error with the message `Git operation failed`.
pub open spec fn from_git2_shape(r: TsrcError) -> bool {
    r matches TsrcError::GitError { message, source: Some(_) } && message@ == "Git operation failed"@
}

/// An I/O failure becomes a file system error without path, with the message
/// `File system operation failed`.
pub open spec fn from_io_shape(r: TsrcError) -> bool {
    r matches TsrcError::FileSystemError { message, path: None, source: Some(_) }
        && message@ == "File system operation failed"@
}

/// A YAML failure becomes a serialization error `YAML serialization failed`.
pub open spec fn from_yaml_shape(r: TsrcError) -> bool {
    r matches TsrcError::SerializationError { message, source: Some(_) } && message@ == "YAML serialization failed"@
}

/// A JSON failure becomes a serialization error `JSON serialization failed`.
pub open spec fn from_json_shape(r: TsrcError) -> bool {
    r matches TsrcError::SerializationError { message, source: Some(_) } && message@ == "JSON serialization failed"@
}

/// An HTTP failure becomes a network error without URL, `Network request failed`.
pub open spec fn from_reqwest_shape(r: TsrcError) -> bool {
    r matches TsrcError::NetworkError { message, url: None, source: Some(_) } && message@ == "Network request failed"@
}

/// Any other failure becomes an internal error whose message is `Anyhow error: `
/// and the failure's message, without source.
pub open spec fn from_anyhow_shape(r: TsrcError) -> bool {
    r matches TsrcError::InternalError { message, source: None }
        && message@.len() >= 14 && message@.subrange(0, 14) == "Anyhow error: "@
}

impl From<std::io::Error> for TsrcError {
    fn from(error: std::io::Error) -> (r: TsrcError)
        ensures
            from_io_shape(r),
    {
        let m = io_error_message(&error);
        TsrcError::filesystem_error_with_source("File system operation failed", None, m)
    }
}

impl vstd::std_specs::convert::FromSpecImpl<std::io::Error> for TsrcError {
    open spec fn obeys_from_spec() -> bool {
        false
    }

    open spec fn from_spec(error: std::io::Error) -> TsrcError {
        choose|r: TsrcError| from_io_shape(r)
    }
}

impl From<git2::Error> for TsrcError {
    fn from(error: git2::Error) -> (r: TsrcError)
        ensures
            from_git2_shape(r),
    {
        let m = git2_error_message(&error);
        TsrcError::git_error_with_source("Git operation failed", m)
    }
}

impl vstd::std_specs::convert::FromSpecImpl<git2::Error> for TsrcError {
    open spec fn obeys_from_spec() -> bool {
        false
    }

    open spec fn from_spec(error: git2::Error) -> TsrcError {
        choose|r: TsrcError| from_git2_shape(r)
    }
}

impl From<serde_yaml::Error> for TsrcError {
    fn from(error: serde_yaml::Error) -> (r: TsrcError)
        ensures
            from_yaml_shape(r),
    {
        let m = yaml_error_message(&error);
        TsrcError::serialization_error_with_source("YAML serialization failed", m)
    }
}

impl vstd::std_specs::convert::FromSpecImpl<serde_yaml::Error> for TsrcError {
    open spec fn obeys_from_spec() -> bool {
        false
    }

    open spec fn from_spec(error: serde_yaml::Error) -> TsrcError {
        choose|r: TsrcError| from_yaml_shape(r)
    }
}

impl From<serde_json::Error> for TsrcError {
    fn from(error: serde_json::Error) -> (r: TsrcError)
        ensures
            from_json_shape(r),
    {
        let m = json_error_message(&error);
        TsrcError::serialization_error_with_source("JSON serialization failed", m)
    }
}

impl vstd::std_specs::convert::FromSpecImpl<serde_json::Error> for TsrcError {
    open spec fn obeys_from_spec() -> bool {
        false
    }

    open spec fn from_spec(error: serde_json::Error) -> TsrcError {
        choose|r: TsrcError| from_json_shape(r)
    }
}

impl From<reqwest::Error> for TsrcError {
    fn from(error: reqwest::Error) -> (r: TsrcError)
        ensures
            from_reqwest_shape(r),
    {
        let m = reqwest_error_message(&error);
        TsrcError::network_error_with_source("Network request failed", None, m)
    }
}

impl vstd::std_specs::convert::FromSpecImpl<reqwest::Error> for TsrcError {
    open spec fn obeys_from_spec() -> bool {
        false
    }

    open spec fn from_spec(error: reqwest::Error) -> TsrcError {
        choose|r: TsrcError| from_reqwest_shape(r)
    }
}

impl From<anyhow::Error> for TsrcError {
    fn from(error: anyhow::Error) -> (r: TsrcError)
        ensures
            from_anyhow_shape(r),
    {
        let m = anyhow_error_message(&error);
        let message = cat2("Anyhow error: ", m.as_str());
        proof {
            reveal_strlit("Anyhow error: ");
            assert(message@.subrange(0, 14) =~= "Anyhow error: "@);
        }
        TsrcError::internal_error(message.as_str())
    }
}

impl vstd::std_specs::convert::FromSpecImpl<anyhow::Error> for TsrcError {
    open spec fn obeys_from_spec() -> bool {
        false
    }

    open spec fn from_spec(error: anyhow::Error) -> TsrcError {
        choose|r: TsrcError| from_anyhow_shape(r)
    }
}

} // verus!
