//! Manifest files on disk and the file copies and symbolic links a manifest asks for:
//! settings, the paths involved, their validation, and the bookkeeping of backups.
use crate::manifest::{FileCopy, FileSymlink, Manifest, ManifestRepo};
use crate::manifest_service::{filter_outcome, manifest_service_error_text, ManifestService, ManifestServiceError};
use crate::path::path_join;
use crate::text::{cat2, cat3, cat4, contains, owned, str_contains, str_eq, str_starts_with, starts_with};
use crate::workspace::{parent_path, parent_spec};
use vstd::prelude::*;

verus! {

broadcast use vstd::seq_lib::group_seq_properties;

/// Errors of manifest files and file operations.
#[derive(Debug)]
pub enum ManifestStoreError {
    ManifestFileNotFound(String),
    InvalidManifestPath(String),
    ReadFailed(String),
    WriteFailed(String),
    YamlParsingFailed(String),
    YamlSerializationFailed(String),
    ValidationFailed(String),
    FileOperationFailed(String),
    CopyOperationFailed { source_path: String, dest_path: String, reason: String },
    SymlinkOperationFailed { source_path: String, target_path: String, reason: String },
    DirectoryCreationFailed(String),
    BackupFailed(String),
    PathValidationFailed(String),
    ManifestServiceError(ManifestServiceError),
    IoError(String),
    YamlError(String),
}

/// The `Display` text of an error.
pub open spec fn store_error_text(e: ManifestStoreError) -> Seq<char> {
    match e {
        ManifestStoreError::ManifestFileNotFound(p) => "Manifest file not found at path: "@ + p@,
        ManifestStoreError::InvalidManifestPath(p) => "Invalid manifest file path: "@ + p@,
        ManifestStoreError::ReadFailed(m) => "Manifest file read failed: "@ + m@,
        ManifestStoreError::WriteFailed(m) => "Manifest file write failed: "@ + m@,
        ManifestStoreError::YamlParsingFailed(m) => "YAML parsing failed: "@ + m@,
        ManifestStoreError::YamlSerializationFailed(m) => "YAML serialization failed: "@ + m@,
        ManifestStoreError::ValidationFailed(m) => "Manifest validation failed: "@ + m@,
        ManifestStoreError::FileOperationFailed(m) => "File operation failed: "@ + m@,
        ManifestStoreError::CopyOperationFailed { source_path, dest_path, reason } => "Copy operation failed from "@
            + source_path@ + " to "@ + dest_path@ + ": "@ + reason@,
        ManifestStoreError::SymlinkOperationFailed { source_path, target_path, reason } => "Symlink operation failed from "@
            + source_path@ + " to "@ + target_path@ + ": "@ + reason@,
        ManifestStoreError::DirectoryCreationFailed(m) => "Directory creation failed: "@ + m@,
        ManifestStoreError::BackupFailed(m) => "Backup operation failed: "@ + m@,
        ManifestStoreError::PathValidationFailed(m) => "Path validation failed: "@ + m@,
        ManifestStoreError::ManifestServiceError(s) => "Manifest service error: "@ + manifest_service_error_text(s),
        ManifestStoreError::IoError(m) => "IO error: "@ + m@,
        ManifestStoreError::YamlError(m) => "YAML error: "@ + m@,
    }
}

/// `a`, `b`, `c`, `d`, `e` and `f`, one after the other.
fn cat6(a: &str, b: &str, c: &str, d: &str, e: &str, f: &str) -> (r: String)
    ensures
        r@ == a@ + b@ + c@ + d@ + e@ + f@,
{
    let mut r = cat3(a, b, c);
    r.append(d);
    r.append(e);
    r.append(f);
    r
}

impl ManifestStoreError {
    /// The message of the error (its `Display` text).
    pub fn to_string(&self) -> (r: String)
        ensures
            r@ == store_error_text(*self),
    {
        match self {
            ManifestStoreError::ManifestFileNotFound(p) => cat2("Manifest file not found at path: ", p.as_str()),
            ManifestStoreError::InvalidManifestPath(p) => cat2("Invalid manifest file path: ", p.as_str()),
            ManifestStoreError::ReadFailed(m) => cat2("Manifest file read failed: ", m.as_str()),
            ManifestStoreError::WriteFailed(m) => cat2("Manifest file write failed: ", m.as_str()),
            ManifestStoreError::YamlParsingFailed(m) => cat2("YAML parsing failed: ", m.as_str()),
            ManifestStoreError::YamlSerializationFailed(m) => cat2("YAML serialization failed: ", m.as_str()),
            ManifestStoreError::ValidationFailed(m) => cat2("Manifest validation failed: ", m.as_str()),
            ManifestStoreError::FileOperationFailed(m) => cat2("File operation failed: ", m.as_str()),
            ManifestStoreError::CopyOperationFailed { source_path, dest_path, reason } =>
                cat6("Copy operation failed from ", source_path.as_str(), " to ", dest_path.as_str(), ": ", reason.as_str()),
            ManifestStoreError::SymlinkOperationFailed { source_path, target_path, reason } =>
                cat6("Symlink operation failed from ", source_path.as_str(), " to ", target_path.as_str(), ": ", reason.as_str()),
            ManifestStoreError::DirectoryCreationFailed(m) => cat2("Directory creation failed: ", m.as_str()),
            ManifestStoreError::BackupFailed(m) => cat2("Backup operation failed: ", m.as_str()),
            ManifestStoreError::PathValidationFailed(m) => cat2("Path validation failed: ", m.as_str()),
            ManifestStoreError::ManifestServiceError(s) => {
                let t = s.to_string();
                cat2("Manifest service error: ", t.as_str())
            },
            ManifestStoreError::IoError(m) => cat2("IO error: ", m.as_str()),
            ManifestStoreError::YamlError(m) => cat2("YAML error: ", m.as_str()),
        }
    }
}

/// What is known of a manifest file.
#[derive(Debug, Clone)]
pub struct ManifestMetadata {
    /// Path of the file
    pub path: String,
    /// Last modification, in seconds since the Unix epoch (0 when unknown)
    pub last_modified: u64,
    /// Size in bytes
    pub size: u64,
    /// Whether the file exists
    pub exists: bool,
    /// Number of repositories of the manifest
    pub repo_count: usize,
    /// Number of groups of the manifest
    pub group_count: usize,
}

impl ManifestMetadata {
    /// Metadata of a file that does not exist.
    pub fn absent(path: &str) -> (r: Self)
        ensures
            r.path@ == path@ && r.last_modified == 0 && r.size == 0 && !r.exists,
            r.repo_count == 0 && r.group_count == 0,
    {
        ManifestMetadata { path: owned(path), last_modified: 0, size: 0, exists: false, repo_count: 0, group_count: 0 }
    }

    /// Record the number of repositories and groups of a manifest read from the file.
    pub fn with_manifest_counts(self, manifest: &Manifest) -> (r: Self)
        ensures
            r.repo_count == manifest.repos@.len(),
            r.group_count == (match manifest.groups {
                Some(g) => g@.len(),
                None => 0,
            }),
            r.path == self.path && r.last_modified == self.last_modified && r.size == self.size,
            r.exists == self.exists,
    {
        let group_count = match &manifest.groups {
            Some(g) => g.len(),
            None => 0,
        };
        ManifestMetadata { repo_count: manifest.repos.len(), group_count, ..self }
    }
}

/// Settings of file operations.
#[derive(Debug, Clone, Copy)]
pub struct FileOperationConfig {
    /// Back up files before changing them
    pub create_backup: bool,
    /// Overwrite existing files
    pub overwrite_existing: bool,
    /// Create missing parent directories
    pub create_parent_dirs: bool,
    /// Validate paths before operations
    pub validate_paths: bool,
    /// Number of backups to keep
    pub max_backups: usize,
}

impl Default for FileOperationConfig {
    fn default() -> (r: Self)
        ensures
            r.create_backup && !r.overwrite_existing && r.create_parent_dirs && r.validate_paths,
            r.max_backups == 5,
    {
        FileOperationConfig { create_backup: true, overwrite_existing: false, create_parent_dirs: true, validate_paths: true, max_backups: 5 }
    }
}

/// The outcome of one file operation.
#[derive(Debug, Clone)]
pub struct FileOperationResult {
    /// Source path
    pub source: String,
    /// Destination path
    pub destination: String,
    /// `copy` or `symlink`
    pub operation_type: String,
    /// Whether it succeeded
    pub success: bool,
    /// Error message of a failure
    pub error: Option<String>,
    /// Whether a backup was made
    pub backup_created: bool,
}

/// Settings of manifest processing on disk.
#[derive(Debug, Clone)]
pub struct ManifestProcessingOptions {
    /// Perform the file copies of a manifest
    pub process_copy_operations: bool,
    /// Create the symbolic links of a manifest
    pub process_symlink_operations: bool,
    /// Validate a manifest before using it
    pub validate_manifest: bool,
    /// Directory for relative paths
    pub base_directory: Option<String>,
    /// Settings of file operations
    pub file_operation_config: FileOperationConfig,
}

impl Default for ManifestProcessingOptions {
    fn default() -> (r: Self)
        ensures
            r.process_copy_operations && r.process_symlink_operations && r.validate_manifest,
            r.base_directory is None,
            r.file_operation_config.create_backup && !r.file_operation_config.overwrite_existing,
            r.file_operation_config.create_parent_dirs && r.file_operation_config.validate_paths,
            r.file_operation_config.max_backups == 5,
    {
        ManifestProcessingOptions {
            process_copy_operations: true,
            process_symlink_operations: true,
            validate_manifest: true,
            base_directory: None,
            file_operation_config: FileOperationConfig::default(),
        }
    }
}

/// Which check refuses a copy: `..` in the source, then in the destination, then equal
/// source and destination.
pub open spec fn copy_path_problem(source: Seq<char>, dest: Seq<char>) -> Option<Seq<char>> {
    if contains(source, ".."@) {
        Some("Source path contains path traversal: "@ + source)
    } else if contains(dest, ".."@) {
        Some("Destination path contains path traversal: "@ + dest)
    } else if source == dest {
        Some("Source and destination paths are the same"@)
    } else {
        None
    }
}

/// Which check refuses a symbolic link: `..` in the source, or an absolute target with
/// `..`.
pub open spec fn symlink_path_problem(source: Seq<char>, target: Seq<char>) -> Option<Seq<char>> {
    if contains(source, ".."@) {
        Some("Source path contains path traversal: "@ + source)
    } else if starts_with(target, "/"@) && contains(target, ".."@) {
        Some("Target path contains path traversal: "@ + target)
    } else {
        None
    }
}

/// The outcome of a check: `Ok`, or a path validation failure with the message.
pub open spec fn path_check(r: Result<(), ManifestStoreError>, problem: Option<Seq<char>>) -> bool {
    match r {
        Ok(()) => problem is None,
        Err(e) => problem matches Some(m) && (e matches ManifestStoreError::PathValidationFailed(x) && x@ == m),
    }
}

/// The directory relative paths of a manifest file start from: its parent, `.` when
/// it has none.
pub open spec fn base_dir_of(manifest_path: Seq<char>) -> Seq<char> {
    match parent_spec(manifest_path) {
        Some(p) => p,
        None => "."@,
    }
}

/// The first file operation of the manifest refused by the path checks: entries in
/// order, for each its copies then its links.
pub open spec fn file_operation_problem(repos: Seq<ManifestRepo>, base: Seq<char>) -> Option<Seq<char>>
    decreases repos.len(),
{
    if repos.len() == 0 {
        None
    } else {
        match file_operation_problem(repos.drop_last(), base) {
            Some(p) => Some(p),
            None => repo_operation_problem(repos.last(), base),
        }
    }
}

/// The first file operation of one entry refused by the path checks.
pub open spec fn repo_operation_problem(r: ManifestRepo, base: Seq<char>) -> Option<Seq<char>> {
    let cp = match r.copy {
        Some(cs) => copies_problem(cs@, r.dest@, base),
        None => None,
    };
    match cp {
        Some(p) => Some(p),
        None => match r.symlink {
            Some(ls) => links_problem(ls@, base),
            None => None,
        },
    }
}

/// The first copy refused, its source being `<base>/<dest>/<file>` and its destination
/// `<base>/<dest of the copy>`.
pub open spec fn copies_problem(cs: Seq<FileCopy>, repo_dest: Seq<char>, base: Seq<char>) -> Option<Seq<char>>
    decreases cs.len(),
{
    if cs.len() == 0 {
        None
    } else {
        match copies_problem(cs.drop_last(), repo_dest, base) {
            Some(p) => Some(p),
            None => copy_path_problem(path_join(path_join(base, repo_dest), cs.last().file@), path_join(base, cs.last().dest@)),
        }
    }
}

/// The first link refused, its source being `<base>/<source>`.
pub open spec fn links_problem(ls: Seq<FileSymlink>, base: Seq<char>) -> Option<Seq<char>>
    decreases ls.len(),
{
    if ls.len() == 0 {
        None
    } else {
        match links_problem(ls.drop_last(), base) {
            Some(p) => Some(p),
            None => symlink_path_problem(path_join(base, ls.last().source@), ls.last().target@),
        }
    }
}

/// Manifest files and the file operations of manifests.
pub struct ManifestStore {
    manifest_service: ManifestService,
    options: ManifestProcessingOptions,
}

impl ManifestStore {
    /// The processing settings.
    pub closed spec fn settings(self) -> ManifestProcessingOptions {
        self.options
    }

    /// The manifest service it works with.
    pub closed spec fn service(self) -> ManifestService {
        self.manifest_service
    }

    /// A store with the default service and settings.
    pub fn new() -> (r: Self)
        ensures
            r.settings().process_copy_operations && r.settings().process_symlink_operations,
            r.settings().validate_manifest && r.settings().base_directory is None,
            r.settings().file_operation_config.create_backup,
            !r.settings().file_operation_config.overwrite_existing,
            r.service().settings().max_depth == 10 && r.service().settings().enable_remote_fetch,
            r.service().settings().detect_circular_dependencies && r.service().settings().timeout_seconds == 30,
    {
        ManifestStore { manifest_service: ManifestService::default(), options: ManifestProcessingOptions::default() }
    }

    /// A store with the default service and the given settings.
    pub fn with_options(options: ManifestProcessingOptions) -> (r: Self)
        ensures
            r.settings() == options,
            r.service().settings().max_depth == 10 && r.service().settings().enable_remote_fetch,
            r.service().settings().detect_circular_dependencies && r.service().settings().timeout_seconds == 30,
    {
        ManifestStore { manifest_service: ManifestService::default(), options }
    }

    /// A store with the given service and settings.
    pub fn with_service_and_options(manifest_service: ManifestService, options: ManifestProcessingOptions) -> (r: Self)
        ensures
            r.settings() == options,
            r.service() == manifest_service,
    {
        ManifestStore { manifest_service, options }
    }

    /// The processing settings.
    pub fn options(&self) -> (r: &ManifestProcessingOptions)
        ensures
            *r == self.settings(),
    {
        &self.options
    }

    /// The manifest service.
    pub fn manifest_service(&self) -> (r: &ManifestService)
        ensures
            *r == self.service(),
    {
        &self.manifest_service
    }

    /// The manifest restricted to the named groups (see
    /// `ManifestService::filter_by_groups`), its error wrapped.
    pub fn filter_manifest_by_groups(&self, manifest: &Manifest, group_names: &[String]) -> (r: Result<Manifest, ManifestStoreError>)
        ensures
            match r {
                Ok(f) => filter_outcome(*manifest, group_names@, Ok(f)),
                Err(ManifestStoreError::ManifestServiceError(e)) => filter_outcome(*manifest, group_names@, Err(e)),
                Err(_) => false,
            },
    {
        match self.manifest_service.filter_by_groups(manifest, group_names) {
            Ok(m) => Ok(m),
            Err(e) => Err(ManifestStoreError::ManifestServiceError(e)),
        }
    }

    /// The names of the groups of a manifest, in order.
    pub fn list_manifest_groups(&self, manifest: &Manifest) -> (r: Vec<String>)
        ensures
            crate::manifest_service::texts_view(r@) == match manifest.groups {
                Some(gs) => gs@.map_values(|p: (String, crate::manifest::Group)| p.0@),
                None => Seq::empty(),
            },
    {
        self.manifest_service.list_groups(manifest)
    }

    /// Check the paths of a copy (see `copy_path_problem`).
    pub fn validate_copy_paths(&self, source_path: &str, dest_path: &str) -> (r: Result<(), ManifestStoreError>)
        ensures
            path_check(r, copy_path_problem(source_path@, dest_path@)),
    {
        if str_contains(source_path, "..") {
            return Err(ManifestStoreError::PathValidationFailed(cat2("Source path contains path traversal: ", source_path)));
        }
        if str_contains(dest_path, "..") {
            return Err(ManifestStoreError::PathValidationFailed(cat2("Destination path contains path traversal: ", dest_path)));
        }
        if str_eq(source_path, dest_path) {
            return Err(ManifestStoreError::PathValidationFailed(owned("Source and destination paths are the same")));
        }
        Ok(())
    }

    /// Check the paths of a symbolic link (see `symlink_path_problem`).
    pub fn validate_symlink_paths(&self, source_path: &str, target_path: &str) -> (r: Result<(), ManifestStoreError>)
        ensures
            path_check(r, symlink_path_problem(source_path@, target_path@)),
    {
        if str_contains(source_path, "..") {
            return Err(ManifestStoreError::PathValidationFailed(cat2("Source path contains path traversal: ", source_path)));
        }
        if str_starts_with(target_path, "/") && str_contains(target_path, "..") {
            return Err(ManifestStoreError::PathValidationFailed(cat2("Target path contains path traversal: ", target_path)));
        }
        Ok(())
    }

    /// Check the paths of every file operation of a manifest read from `manifest_path`
    /// (see `file_operation_problem`).
    pub fn validate_file_operations(&self, manifest: &Manifest, manifest_path: &str) -> (r: Result<(), ManifestStoreError>)
        ensures
            path_check(r, file_operation_problem(manifest.repos@, base_dir_of(manifest_path@))),
    {
        let base_dir = match parent_path(manifest_path) {
            Some(p) => p,
            None => owned("."),
        };
        let ghost base = base_dir@;
        let repos = &manifest.repos;
        let mut i: usize = 0;
        while i < repos.len()
            invariant
                i <= repos@.len(),
                repos@ == manifest.repos@,
                base == base_dir@,
                base == base_dir_of(manifest_path@),
                file_operation_problem(repos@.subrange(0, i as int), base) is None,
            decreases repos.len() - i,
        {
            proof {
                assert(repos@.subrange(0, i + 1).drop_last() =~= repos@.subrange(0, i as int));
                assert(repos@.subrange(0, i + 1).last() == repos@[i as int]);
            }
            match self.validate_repo_operations(&repos[i], base_dir.as_str()) {
                Err(e) => {
                    proof {
                        assert(repos@.subrange(0, repos@.len() as int) =~= repos@);
                        lemma_problem_prefix(repos@, (i + 1) as int, base);
                    }
                    return Err(e);
                },
                Ok(()) => {},
            }
            i = i + 1;
        }
        assert(repos@.subrange(0, repos@.len() as int) =~= repos@);
        Ok(())
    }

    /// Check the file operations of one entry (see `repo_operation_problem`).
    fn validate_repo_operations(&self, repo: &ManifestRepo, base_dir: &str) -> (r: Result<(), ManifestStoreError>)
        ensures
            path_check(r, repo_operation_problem(*repo, base_dir@)),
    {
        if let Some(copies) = &repo.copy {
            let mut k: usize = 0;
            while k < copies.len()
                invariant
                    k <= copies@.len(),
                    repo.copy == Some(*copies),
                    copies_problem(copies@.subrange(0, k as int), repo.dest@, base_dir@) is None,
                decreases copies.len() - k,
            {
                proof {
                    assert(copies@.subrange(0, k + 1).drop_last() =~= copies@.subrange(0, k as int));
                    assert(copies@.subrange(0, k + 1).last() == copies@[k as int]);
                }
                let repo_dir = crate::path::join(base_dir, repo.dest.as_str());
                let source = crate::path::join(repo_dir.as_str(), copies[k].file.as_str());
                let dest = crate::path::join(base_dir, copies[k].dest.as_str());
                match self.validate_copy_paths(source.as_str(), dest.as_str()) {
                    Err(e) => {
                        proof {
                            lemma_copies_prefix(copies@, (k + 1) as int, repo.dest@, base_dir@);
                            assert(copies@.subrange(0, copies@.len() as int) =~= copies@);
                        }
                        return Err(e);
                    },
                    Ok(()) => {},
                }
                k = k + 1;
            }
            assert(copies@.subrange(0, copies@.len() as int) =~= copies@);
        }
        if let Some(links) = &repo.symlink {
            let mut k: usize = 0;
            while k < links.len()
                invariant
                    k <= links@.len(),
                    repo.symlink == Some(*links),
                    match repo.copy {
                        Some(cs) => copies_problem(cs@, repo.dest@, base_dir@) is None,
                        None => true,
                    },
                    links_problem(links@.subrange(0, k as int), base_dir@) is None,
                decreases links.len() - k,
            {
                proof {
                    assert(links@.subrange(0, k + 1).drop_last() =~= links@.subrange(0, k as int));
                    assert(links@.subrange(0, k + 1).last() == links@[k as int]);
                }
                let source = crate::path::join(base_dir, links[k].source.as_str());
                match self.validate_symlink_paths(source.as_str(), links[k].target.as_str()) {
                    Err(e) => {
                        proof {
                            lemma_links_prefix(links@, (k + 1) as int, base_dir@);
                            assert(links@.subrange(0, links@.len() as int) =~= links@);
                        }
                        return Err(e);
                    },
                    Ok(()) => {},
                }
                k = k + 1;
            }
            assert(links@.subrange(0, links@.len() as int) =~= links@);
        }
        Ok(())
    }

    /// The paths of a copy under the workspace root: source `<root>/<dest>/<file>`,
    /// destination `<root>/<dest of the copy>`.
    pub fn copy_paths(copy_op: &FileCopy, repo: &ManifestRepo, workspace_root: &str) -> (r: (String, String))
        ensures
            r.0@ == path_join(path_join(workspace_root@, repo.dest@), copy_op.file@),
            r.1@ == path_join(workspace_root@, copy_op.dest@),
    {
        let repo_dir = crate::path::join(workspace_root, repo.dest.as_str());
        (crate::path::join(repo_dir.as_str(), copy_op.file.as_str()), crate::path::join(workspace_root, copy_op.dest.as_str()))
    }

    /// The paths of a link under the workspace root: the link `<root>/<source>` and its
    /// target as given.
    pub fn symlink_paths(symlink_op: &FileSymlink, workspace_root: &str) -> (r: (String, String))
        ensures
            r.0@ == path_join(workspace_root@, symlink_op.source@),
            r.1@ == symlink_op.target@,
    {
        (crate::path::join(workspace_root, symlink_op.source.as_str()), symlink_op.target.clone())
    }

    /// A pending operation result, not successful yet.
    pub fn pending_result(source: &str, destination: &str, operation_type: &str) -> (r: FileOperationResult)
        ensures
            r.source@ == source@ && r.destination@ == destination@ && r.operation_type@ == operation_type@,
            !r.success && r.error is None && !r.backup_created,
    {
        FileOperationResult {
            source: owned(source),
            destination: owned(destination),
            operation_type: owned(operation_type),
            success: false,
            error: None,
            backup_created: false,
        }
    }

    /// Whether an existing file at the destination blocks the operation: it exists and
    /// overwriting is off.
    pub fn blocked_by_existing(&self, exists: bool) -> (r: bool)
        ensures
            r == (exists && !self.settings().file_operation_config.overwrite_existing),
    {
        exists && !self.options.file_operation_config.overwrite_existing
    }

    /// The name of a backup: `<file name>.bak_<timestamp>`.
    pub fn backup_file_name(file_name: &str, timestamp: &str) -> (r: String)
        ensures
            r@ == file_name@ + ".bak_"@ + timestamp@,
    {
        cat3(file_name, ".bak_", timestamp)
    }

    /// Whether a directory entry is a backup of the file: its name starts with
    /// `<file name>.bak_`.
    pub fn is_backup_of(entry_name: &str, file_name: &str) -> (r: bool)
        ensures
            r == starts_with(entry_name@, file_name@ + ".bak_"@),
    {
        let prefix = cat2(file_name, ".bak_");
        str_starts_with(entry_name, prefix.as_str())
    }

    /// The backups to delete from a list sorted newest first: all after the first
    /// `max_backups`.
    pub fn backups_to_remove(&self, backups_newest_first: &Vec<String>) -> (r: Vec<String>)
        ensures
            r@.len() == (if backups_newest_first@.len() > self.settings().file_operation_config.max_backups {
                backups_newest_first@.len() - self.settings().file_operation_config.max_backups
            } else {
                0
            }),
            forall|i: int| 0 <= i < r@.len() ==> (#[trigger] r@[i]) == backups_newest_first@[i + self.settings().file_operation_config.max_backups],
    {
        let keep = self.options.file_operation_config.max_backups;
        let mut out: Vec<String> = Vec::new();
        if backups_newest_first.len() > keep {
            let mut i = keep;
            while i < backups_newest_first.len()
                invariant
                    keep <= i <= backups_newest_first@.len(),
                    keep == self.settings().file_operation_config.max_backups,
                    out@.len() == i - keep,
                    forall|j: int| 0 <= j < out@.len() ==> (#[trigger] out@[j]) == backups_newest_first@[j + keep],
                decreases backups_newest_first.len() - i,
            {
                out.push(backups_newest_first[i].clone());
                i = i + 1;
            }
        }
        out
    }
}

/// A problem found in a prefix of the entries is the problem of the whole.
proof fn lemma_problem_prefix(repos: Seq<ManifestRepo>, k: int, base: Seq<char>)
    requires
        0 <= k <= repos.len(),
        file_operation_problem(repos.subrange(0, k), base) is Some,
    ensures
        file_operation_problem(repos, base) == file_operation_problem(repos.subrange(0, k), base),
    decreases repos.len() - k,
{
    if k < repos.len() {
        assert(repos.subrange(0, k + 1).drop_last() =~= repos.subrange(0, k));
        lemma_problem_prefix(repos, k + 1, base);
    } else {
        assert(repos.subrange(0, k) =~= repos);
    }
}

/// A problem found in a prefix of the copies is the problem of them all.
proof fn lemma_copies_prefix(cs: Seq<FileCopy>, k: int, d: Seq<char>, base: Seq<char>)
    requires
        0 <= k <= cs.len(),
        copies_problem(cs.subrange(0, k), d, base) is Some,
    ensures
        copies_problem(cs, d, base) == copies_problem(cs.subrange(0, k), d, base),
    decreases cs.len() - k,
{
    if k < cs.len() {
        assert(cs.subrange(0, k + 1).drop_last() =~= cs.subrange(0, k));
        lemma_copies_prefix(cs, k + 1, d, base);
    } else {
        assert(cs.subrange(0, k) =~= cs);
    }
}

/// A problem found in a prefix of the links is the problem of them all.
proof fn lemma_links_prefix(ls: Seq<FileSymlink>, k: int, base: Seq<char>)
    requires
        0 <= k <= ls.len(),
        links_problem(ls.subrange(0, k), base) is Some,
    ensures
        links_problem(ls, base) == links_problem(ls.subrange(0, k), base),
    decreases ls.len() - k,
{
    if k < ls.len() {
        assert(ls.subrange(0, k + 1).drop_last() =~= ls.subrange(0, k));
        lemma_links_prefix(ls, k + 1, base);
    } else {
        assert(ls.subrange(0, k) =~= ls);
    }
}

/// One step of a file operation.
#[derive(Debug, Clone, Copy, PartialEq, Eq, Structural)]
pub enum FileStep {
    /// Check the paths
    Validate,
    /// Back up the existing file at the destination
    Backup,
    /// Create the destination's parent directories
    CreateParents,
    /// Stop: the destination exists and may not be overwritten
    RefuseExisting,
    /// Remove the symbolic link already at the destination
    RemoveLink,
    /// Copy the file or create the link
    Perform,
}

/// The steps of a copy (`symlink` false) or a link, in order, from the settings and
/// what is at the destination: validation when enabled; a backup when enabled and
/// the destination exists; parent directories when enabled; then either a refusal,
/// when the destination exists and overwriting is off, or (for a link, after
/// removing a link already there) the operation itself.
pub open spec fn file_steps_spec(c: FileOperationConfig, symlink: bool, exists: bool, is_link: bool) -> Seq<FileStep> {
    (if c.validate_paths { seq![FileStep::Validate] } else { Seq::empty() })
        + (if c.create_backup && exists { seq![FileStep::Backup] } else { Seq::empty() })
        + (if c.create_parent_dirs { seq![FileStep::CreateParents] } else { Seq::empty() })
        + (if exists && !c.overwrite_existing {
            seq![FileStep::RefuseExisting]
        } else if symlink && is_link {
            seq![FileStep::RemoveLink, FileStep::Perform]
        } else {
            seq![FileStep::Perform]
        })
}

/// The error recorded when a step fails with the message `error`.
pub open spec fn step_error_spec(step: FileStep, symlink: bool, error: Seq<char>) -> Seq<char> {
    match step {
        FileStep::Backup => "Backup failed: "@ + error,
        FileStep::CreateParents => "Failed to create parent directory: "@ + error,
        FileStep::RefuseExisting => if symlink {
            "Source exists and overwrite is disabled"@
        } else {
            "Destination exists and overwrite is disabled"@
        },
        FileStep::RemoveLink => "Failed to remove existing symlink: "@ + error,
        _ => error,
    }
}

impl ManifestStore {
    /// The steps of a copy or a link (see `file_steps_spec`).
    pub fn file_steps(&self, symlink: bool, exists: bool, is_link: bool) -> (r: Vec<FileStep>)
        ensures
            r@ == file_steps_spec(self.settings().file_operation_config, symlink, exists, is_link),
    {
        let c = &self.options.file_operation_config;
        let mut steps: Vec<FileStep> = Vec::new();
        if c.validate_paths {
            steps.push(FileStep::Validate);
        }
        if c.create_backup && exists {
            steps.push(FileStep::Backup);
        }
        if c.create_parent_dirs {
            steps.push(FileStep::CreateParents);
        }
        if exists && !c.overwrite_existing {
            steps.push(FileStep::RefuseExisting);
        } else {
            if symlink && is_link {
                steps.push(FileStep::RemoveLink);
            }
            steps.push(FileStep::Perform);
        }
        assert(steps@ =~= file_steps_spec(self.settings().file_operation_config, symlink, exists, is_link));
        steps
    }

    /// Record the outcome of a step in the result of the operation: a failure (and a
    /// refusal) sets the error and ends the operation; a backup that succeeds is noted;
    /// the operation itself that succeeds marks the result successful. Returns whether
    /// the operation goes on.
    pub fn record_step(result: &mut FileOperationResult, step: FileStep, symlink: bool, outcome: Result<(), String>) -> (r: bool)
        ensures
            match (step, outcome) {
                (FileStep::RefuseExisting, _) => !r && (final(result).error matches Some(e)
                    && e@ == step_error_spec(step, symlink, Seq::empty())),
                (_, Err(e)) => !r && (final(result).error matches Some(m) && m@ == step_error_spec(step, symlink, e@)),
                (_, Ok(())) => r && final(result).error == old(result).error,
            },
            final(result).backup_created == (old(result).backup_created || (step == FileStep::Backup && outcome is Ok)),
            final(result).success == (old(result).success || (step == FileStep::Perform && outcome is Ok)),
            final(result).source == old(result).source,
            final(result).destination == old(result).destination,
            final(result).operation_type == old(result).operation_type,
    {
        match step {
            FileStep::RefuseExisting => {
                let m = if symlink {
                    owned("Source exists and overwrite is disabled")
                } else {
                    owned("Destination exists and overwrite is disabled")
                };
                result.error = Some(m);
                false
            },
            _ => match outcome {
                Err(e) => {
                    let m = match step {
                        FileStep::Backup => cat2("Backup failed: ", e.as_str()),
                        FileStep::CreateParents => cat2("Failed to create parent directory: ", e.as_str()),
                        FileStep::RemoveLink => cat2("Failed to remove existing symlink: ", e.as_str()),
                        _ => e,
                    };
                    result.error = Some(m);
                    false
                },
                Ok(()) => {
                    if step == FileStep::Backup {
                        result.backup_created = true;
                    }
                    if step == FileStep::Perform {
                        result.success = true;
                    }
                    true
                },
            },
        }
    }
}

} // verus!
