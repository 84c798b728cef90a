//! Choosing the back end for a kind of repository, and recognising a repository's kind
//! from the metadata directories it holds.
use crate::scm_backends::{GitScm, HgScm, P4Scm, SvnScm};
use crate::scm_interface::ScmError;
use crate::scm_type::ScmType;
use crate::text::owned;
use vstd::prelude::*;

verus! {

/// A command-line SCM back end.
#[derive(Debug, Clone)]
pub enum ScmBackend {
    Git(GitScm),
    Svn(SvnScm),
    P4(P4Scm),
    Hg(HgScm),
}

/// The executable a back end runs.
pub open spec fn backend_executable(b: ScmBackend) -> Seq<char> {
    match b {
        ScmBackend::Git(g) => g.executable_text(),
        ScmBackend::Svn(s) => s.executable_text(),
        ScmBackend::P4(p) => p.executable_text(),
        ScmBackend::Hg(h) => h.executable_text(),
    }
}

/// The kind of repository a back end handles.
pub open spec fn backend_type(b: ScmBackend) -> ScmType {
    match b {
        ScmBackend::Git(_) => ScmType::Git,
        ScmBackend::Svn(_) => ScmType::Svn,
        ScmBackend::P4(_) => ScmType::P4,
        ScmBackend::Hg(_) => ScmType::Hg,
    }
}

impl ScmBackend {
    /// The kind of repository handled.
    pub fn scm_type(&self) -> (r: ScmType)
        ensures
            r == backend_type(*self),
    {
        match self {
            ScmBackend::Git(g) => g.scm_type(),
            ScmBackend::Svn(s) => s.scm_type(),
            ScmBackend::P4(p) => p.scm_type(),
            ScmBackend::Hg(h) => h.scm_type(),
        }
    }

    /// The executable run.
    pub fn executable(&self) -> (r: &str)
        ensures
            r@ == backend_executable(*self),
    {
        match self {
            ScmBackend::Git(g) => g.executable(),
            ScmBackend::Svn(s) => s.executable(),
            ScmBackend::P4(p) => p.executable(),
            ScmBackend::Hg(h) => h.executable(),
        }
    }
}

/// Kinds of repository served through a command-line back end.
pub open spec fn has_backend(t: ScmType) -> bool {
    t == ScmType::Git || t == ScmType::Svn || t == ScmType::P4 || t == ScmType::Hg
}

/// The default executable of each back end.
pub open spec fn default_executable(t: ScmType) -> Seq<char> {
    match t {
        ScmType::Git => "git"@,
        ScmType::Svn => "svn"@,
        ScmType::P4 => "p4"@,
        _ => "hg"@,
    }
}

/// Why `create_scm` refuses a kind without back end.
pub open spec fn create_refusal(t: ScmType) -> Seq<char> {
    match t {
        ScmType::Http => "create_scm: HTTP downloads are handled directly, not via SCM interface"@,
        ScmType::Symlink => "create_scm: Symlinks are handled directly, not via SCM interface"@,
        ScmType::S3 => "create_scm: S3 downloads are handled directly, not via SCM interface"@,
        _ => "create_scm: Google Drive downloads are handled directly, not via SCM interface"@,
    }
}

/// Why `create_scm_with_executable` refuses a kind without back end.
pub open spec fn create_with_executable_refusal(t: ScmType) -> Seq<char> {
    match t {
        ScmType::Http => "create_scm_with_executable: HTTP downloads do not use an executable"@,
        ScmType::Symlink => "create_scm_with_executable: Symlinks do not use an executable"@,
        ScmType::S3 => "create_scm_with_executable: S3 is handled directly"@,
        _ => "create_scm_with_executable: Google Drive is handled directly"@,
    }
}

/// The kind of repository whose metadata directory is present, looked for in the order
/// `.git`, `.svn`, `.p4`, `.hg`.
pub open spec fn detected_type(has_git: bool, has_svn: bool, has_p4: bool, has_hg: bool) -> Option<ScmType> {
    if has_git {
        Some(ScmType::Git)
    } else if has_svn {
        Some(ScmType::Svn)
    } else if has_p4 {
        Some(ScmType::P4)
    } else if has_hg {
        Some(ScmType::Hg)
    } else {
        None
    }
}

/// Choosing SCM back ends.
pub struct ScmFactory;

impl ScmFactory {
    /// The back end of a kind, running its default executable; kinds fetched directly
    /// (HTTP, symbolic links, S3, Google Drive) have none.
    pub fn create_scm(scm_type: ScmType) -> (r: Result<ScmBackend, ScmError>)
        ensures
            match r {
                Ok(b) => has_backend(scm_type) && backend_type(b) == scm_type
                    && backend_executable(b) == default_executable(scm_type),
                Err(e) => !has_backend(scm_type) && (e matches ScmError::UnsupportedOperation { scm_type: t, operation }
                    && t == scm_type && operation@ == create_refusal(scm_type)),
            },
    {
        match scm_type {
            ScmType::Git => Ok(ScmBackend::Git(GitScm::new())),
            ScmType::Svn => Ok(ScmBackend::Svn(SvnScm::new())),
            ScmType::P4 => Ok(ScmBackend::P4(P4Scm::new())),
            ScmType::Hg => Ok(ScmBackend::Hg(HgScm::new())),
            ScmType::Http => Err(ScmError::UnsupportedOperation {
                scm_type: ScmType::Http,
                operation: owned("create_scm: HTTP downloads are handled directly, not via SCM interface"),
            }),
            ScmType::Symlink => Err(ScmError::UnsupportedOperation {
                scm_type: ScmType::Symlink,
                operation: owned("create_scm: Symlinks are handled directly, not via SCM interface"),
            }),
            ScmType::S3 => Err(ScmError::UnsupportedOperation {
                scm_type: ScmType::S3,
                operation: owned("create_scm: S3 downloads are handled directly, not via SCM interface"),
            }),
            ScmType::GDrive => Err(ScmError::UnsupportedOperation {
                scm_type: ScmType::GDrive,
                operation: owned("create_scm: Google Drive downloads are handled directly, not via SCM interface"),
            }),
        }
    }

    /// The back end of a kind, running the given executable; kinds fetched directly
    /// have none.
    pub fn create_scm_with_executable(scm_type: ScmType, executable_path: &str) -> (r: Result<ScmBackend, ScmError>)
        ensures
            match r {
                Ok(b) => has_backend(scm_type) && backend_type(b) == scm_type
                    && backend_executable(b) == executable_path@,
                Err(e) => !has_backend(scm_type) && (e matches ScmError::UnsupportedOperation { scm_type: t, operation }
                    && t == scm_type && operation@ == create_with_executable_refusal(scm_type)),
            },
    {
        match scm_type {
            ScmType::Git => Ok(ScmBackend::Git(GitScm::with_executable(executable_path))),
            ScmType::Svn => Ok(ScmBackend::Svn(SvnScm::with_executable(executable_path))),
            ScmType::P4 => Ok(ScmBackend::P4(P4Scm::with_executable(executable_path))),
            ScmType::Hg => Ok(ScmBackend::Hg(HgScm::with_executable(executable_path))),
            ScmType::Http => Err(ScmError::UnsupportedOperation {
                scm_type: ScmType::Http,
                operation: owned("create_scm_with_executable: HTTP downloads do not use an executable"),
            }),
            ScmType::Symlink => Err(ScmError::UnsupportedOperation {
                scm_type: ScmType::Symlink,
                operation: owned("create_scm_with_executable: Symlinks do not use an executable"),
            }),
            ScmType::S3 => Err(ScmError::UnsupportedOperation {
                scm_type: ScmType::S3,
                operation: owned("create_scm_with_executable: S3 is handled directly"),
            }),
            ScmType::GDrive => Err(ScmError::UnsupportedOperation {
                scm_type: ScmType::GDrive,
                operation: owned("create_scm_with_executable: Google Drive is handled directly"),
            }),
        }
    }

    /// The kind of a repository from which metadata directories it holds (see
    /// `detected_type`).
    pub fn detect_scm_type(has_git: bool, has_svn: bool, has_p4: bool, has_hg: bool) -> (r: Option<ScmType>)
        ensures
            r == detected_type(has_git, has_svn, has_p4, has_hg),
    {
        if has_git {
            Some(ScmType::Git)
        } else if has_svn {
            Some(ScmType::Svn)
        } else if has_p4 {
            Some(ScmType::P4)
        } else if has_hg {
            Some(ScmType::Hg)
        } else {
            None
        }
    }

    /// Kinds that need no availability check of an executable: HTTP and symbolic links.
    pub fn needs_no_executable(scm_type: ScmType) -> (r: bool)
        ensures
            r == (scm_type == ScmType::Http || scm_type == ScmType::Symlink),
    {
        scm_type == ScmType::Http || scm_type == ScmType::Symlink
    }
}

} // verus!
