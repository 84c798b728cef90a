//! Kinds of source-control and content systems a repository can come from.
use crate::text::{contains, lowercase_of, owned, starts_with, str_contains, str_eq, str_starts_with, to_lowercase, is_ascii_non_upper};
use vstd::prelude::*;

verus! {

/// A source control (or content transfer) system.
#[derive(Debug, Clone, Copy, PartialEq, Eq, Hash, Structural)]
pub enum ScmType {
    /// Git version control system
    Git,
    /// Subversion (SVN)
    Svn,
    /// Perforce (P4)
    P4,
    /// Mercurial
    Hg,
    /// Archive or file downloaded over HTTP(S)
    Http,
    /// Objects synchronised from an S3 bucket
    S3,
    /// Files synchronised from Google Drive through rclone
    GDrive,
    /// A symbolic link to a local directory
    Symlink,
}

/// Errors that can occur when working with SCM types.
#[derive(Debug, Clone, PartialEq, Eq)]
pub enum ScmTypeError {
    /// The specified SCM type is not supported
    UnsupportedScmType(String),
    /// The URL scheme is not valid for the SCM type
    InvalidUrlScheme { scm: ScmType, url: String },
    /// Operation not supported by this SCM type
    UnsupportedOperation { scm: ScmType, operation: String },
}

/// The canonical lowercase name of an SCM type.
pub open spec fn scm_name(t: ScmType) -> Seq<char> {
    match t {
        ScmType::Git => "git"@,
        ScmType::Svn => "svn"@,
        ScmType::P4 => "p4"@,
        ScmType::Hg => "hg"@,
        ScmType::Http => "http"@,
        ScmType::S3 => "s3"@,
        ScmType::GDrive => "gdrive"@,
        ScmType::Symlink => "symlink"@,
    }
}

/// The SCM type that a lowercase name denotes, if any.
pub open spec fn scm_of_lower_name(n: Seq<char>) -> Option<ScmType> {
    if n == "git"@ {
        Some(ScmType::Git)
    } else if n == "svn"@ || n == "subversion"@ {
        Some(ScmType::Svn)
    } else if n == "p4"@ || n == "perforce"@ {
        Some(ScmType::P4)
    } else if n == "hg"@ || n == "mercurial"@ {
        Some(ScmType::Hg)
    } else if n == "http"@ || n == "https"@ {
        Some(ScmType::Http)
    } else if n == "s3"@ {
        Some(ScmType::S3)
    } else if n == "gdrive"@ {
        Some(ScmType::GDrive)
    } else if n == "symlink"@ {
        Some(ScmType::Symlink)
    } else {
        None
    }
}

/// Text made of ASCII characters other than uppercase letters.
pub open spec fn is_plain_lower(s: Seq<char>) -> bool {
    forall|i: int| 0 <= i < s.len() ==> is_ascii_non_upper(#[trigger] s[i])
}

/// Whether a URL has a scheme appropriate for the SCM type. A Perforce address is
/// one of its schemes or a `server:port` form, which holds a `:` but no `://`.
pub open spec fn url_scheme_ok(t: ScmType, url: Seq<char>) -> bool {
    match t {
        ScmType::Git => {
            ||| starts_with(url, "https://"@)
            ||| starts_with(url, "http://"@)
            ||| starts_with(url, "git://"@)
            ||| starts_with(url, "ssh://"@)
            ||| starts_with(url, "git@"@)
            ||| starts_with(url, "file://"@)
        },
        ScmType::Svn => {
            ||| starts_with(url, "https://"@)
            ||| starts_with(url, "http://"@)
            ||| starts_with(url, "svn://"@)
            ||| starts_with(url, "svn+ssh://"@)
            ||| starts_with(url, "file://"@)
        },
        ScmType::P4 => {
            ||| starts_with(url, "perforce://"@)
            ||| starts_with(url, "p4://"@)
            ||| starts_with(url, "ssl:"@)
            ||| starts_with(url, "tcp:"@)
            ||| (contains(url, ":"@) && !contains(url, "://"@))
        },
        ScmType::Hg => {
            ||| starts_with(url, "https://"@)
            ||| starts_with(url, "http://"@)
            ||| starts_with(url, "ssh://"@)
            ||| starts_with(url, "file://"@)
        },
        ScmType::Http => starts_with(url, "https://"@) || starts_with(url, "http://"@),
        ScmType::S3 => starts_with(url, "s3://"@),
        ScmType::GDrive => contains(url, ":"@),
        ScmType::Symlink => url.len() > 0,
    }
}

impl Default for ScmType {
    fn default() -> (r: Self)
        ensures
            r == ScmType::Git,
    {
        ScmType::Git
    }
}

impl ScmType {
    /// Parse an SCM name, ignoring case.
    pub fn parse_name(s: &str) -> (r: Result<ScmType, ScmTypeError>)
        ensures
            match r {
                Ok(t) => scm_of_lower_name(lowercase_of(s@)) == Some(t),
                Err(e) => scm_of_lower_name(lowercase_of(s@)) is None && (e matches ScmTypeError::UnsupportedScmType(n) && n@ == s@),
            },
            is_plain_lower(s@) ==> lowercase_of(s@) == s@,
    {
        let lower = to_lowercase(s);
        let l = lower.as_str();
        if str_eq(l, "git") {
            Ok(ScmType::Git)
        } else if str_eq(l, "svn") || str_eq(l, "subversion") {
            Ok(ScmType::Svn)
        } else if str_eq(l, "p4") || str_eq(l, "perforce") {
            Ok(ScmType::P4)
        } else if str_eq(l, "hg") || str_eq(l, "mercurial") {
            Ok(ScmType::Hg)
        } else if str_eq(l, "http") || str_eq(l, "https") {
            Ok(ScmType::Http)
        } else if str_eq(l, "s3") {
            Ok(ScmType::S3)
        } else if str_eq(l, "gdrive") {
            Ok(ScmType::GDrive)
        } else if str_eq(l, "symlink") {
            Ok(ScmType::Symlink)
        } else {
            Err(ScmTypeError::UnsupportedScmType(owned(s)))
        }
    }

    /// The canonical lowercase name (the `Display` text).
    pub fn to_string(&self) -> (r: String)
        ensures
            r@ == scm_name(*self),
    {
        match self {
            ScmType::Git => owned("git"),
            ScmType::Svn => owned("svn"),
            ScmType::P4 => owned("p4"),
            ScmType::Hg => owned("hg"),
            ScmType::Http => owned("http"),
            ScmType::S3 => owned("s3"),
            ScmType::GDrive => owned("gdrive"),
            ScmType::Symlink => owned("symlink"),
        }
    }

    /// Check if this SCM type supports branches
    pub fn supports_branches(&self) -> (r: bool)
        ensures
            r == (*self == ScmType::Git || *self == ScmType::Hg),
    {
        match self {
            ScmType::Git => true,
            ScmType::Hg => true,
            _ => false,
        }
    }

    /// Check if this SCM type supports remotes
    pub fn supports_remotes(&self) -> (r: bool)
        ensures
            r == (*self == ScmType::Git || *self == ScmType::Hg),
    {
        match self {
            ScmType::Git => true,
            ScmType::Hg => true,
            _ => false,
        }
    }

    /// Check if this SCM type supports shallow clones
    pub fn supports_shallow_clone(&self) -> (r: bool)
        ensures
            r == (*self == ScmType::Git),
    {
        match self {
            ScmType::Git => true,
            _ => false,
        }
    }

    /// Get the typical file names of ignore files
    pub fn ignore_file_patterns(&self) -> (r: Vec<&'static str>)
        ensures
            r@.len() == (if *self == ScmType::Git || *self == ScmType::Svn || *self == ScmType::P4
                || *self == ScmType::Hg {
                1int
            } else {
                0int
            }),
            *self == ScmType::Git ==> r@[0]@ == ".gitignore"@,
            *self == ScmType::Svn ==> r@[0]@ == ".svnignore"@,
            *self == ScmType::P4 ==> r@[0]@ == ".p4ignore"@,
            *self == ScmType::Hg ==> r@[0]@ == ".hgignore"@,
    {
        let mut v: Vec<&'static str> = Vec::new();
        match self {
            ScmType::Git => v.push(".gitignore"),
            ScmType::Svn => v.push(".svnignore"),
            ScmType::P4 => v.push(".p4ignore"),
            ScmType::Hg => v.push(".hgignore"),
            _ => {},
        }
        v
    }

    /// Get the metadata directory name for this SCM (empty when there is none)
    pub fn metadata_dir(&self) -> (r: &'static str)
        ensures
            r@ == metadata_dir_spec(*self),
    {
        match self {
            ScmType::Git => ".git",
            ScmType::Svn => ".svn",
            ScmType::P4 => ".p4",
            ScmType::Hg => ".hg",
            _ => "",
        }
    }

    /// Get the standard executable name for this SCM (empty when there is none)
    pub fn executable_name(&self) -> (r: &'static str)
        ensures
            r@ == executable_name_spec(*self),
    {
        match self {
            ScmType::Git => "git",
            ScmType::Svn => "svn",
            ScmType::P4 => "p4",
            ScmType::Hg => "hg",
            ScmType::S3 => "aws",
            ScmType::GDrive => "rclone",
            _ => "",
        }
    }

    /// Check if the URL scheme is appropriate for this SCM type
    pub fn is_valid_url_scheme(&self, url: &str) -> (r: bool)
        ensures
            r == url_scheme_ok(*self, url@),
    {
        match self {
            ScmType::Git => {
                str_starts_with(url, "https://") || str_starts_with(url, "http://")
                    || str_starts_with(url, "git://") || str_starts_with(url, "ssh://")
                    || str_starts_with(url, "git@") || str_starts_with(url, "file://")
            },
            ScmType::Svn => {
                str_starts_with(url, "https://") || str_starts_with(url, "http://")
                    || str_starts_with(url, "svn://") || str_starts_with(url, "svn+ssh://")
                    || str_starts_with(url, "file://")
            },
            ScmType::P4 => {
                str_starts_with(url, "perforce://") || str_starts_with(url, "p4://")
                    || str_starts_with(url, "ssl:") || str_starts_with(url, "tcp:")
                    || (str_contains(url, ":") && !str_contains(url, "://"))
            },
            ScmType::Hg => {
                str_starts_with(url, "https://") || str_starts_with(url, "http://")
                    || str_starts_with(url, "ssh://") || str_starts_with(url, "file://")
            },
            ScmType::Http => str_starts_with(url, "https://") || str_starts_with(url, "http://"),
            ScmType::S3 => str_starts_with(url, "s3://"),
            ScmType::GDrive => str_contains(url, ":"),
            ScmType::Symlink => url.unicode_len() > 0,
        }
    }
}

/// The metadata directory name of each SCM type.
pub open spec fn metadata_dir_spec(t: ScmType) -> Seq<char> {
    match t {
        ScmType::Git => ".git"@,
        ScmType::Svn => ".svn"@,
        ScmType::P4 => ".p4"@,
        ScmType::Hg => ".hg"@,
        _ => ""@,
    }
}

/// The executable name of each SCM type.
pub open spec fn executable_name_spec(t: ScmType) -> Seq<char> {
    match t {
        ScmType::Git => "git"@,
        ScmType::Svn => "svn"@,
        ScmType::P4 => "p4"@,
        ScmType::Hg => "hg"@,
        ScmType::S3 => "aws"@,
        ScmType::GDrive => "rclone"@,
        _ => ""@,
    }
}

impl ScmTypeError {
    /// The human-readable message of the error (its `Display` text).
    pub fn to_string(&self) -> (r: String)
        ensures
            match self {
                ScmTypeError::UnsupportedScmType(n) => r@ == "Unsupported SCM type: '"@ + n@
                    + "'. Supported types are: git, svn, p4"@,
                ScmTypeError::InvalidUrlScheme { scm, url } => r@ == "Invalid URL scheme for "@
                    + scm_name(*scm) + ": '"@ + url@ + "'"@,
                ScmTypeError::UnsupportedOperation { scm, operation } => r@ == "Operation '"@
                    + operation@ + "' is not supported by "@ + scm_name(*scm),
            },
    {
        match self {
            ScmTypeError::UnsupportedScmType(n) => {
                let mut r = owned("Unsupported SCM type: '");
                r.append(n.as_str());
                r.append("'. Supported types are: git, svn, p4");
                r
            },
            ScmTypeError::InvalidUrlScheme { scm, url } => {
                let mut r = owned("Invalid URL scheme for ");
                let name = scm.to_string();
                r.append(name.as_str());
                r.append(": '");
                r.append(url.as_str());
                r.append("'");
                r
            },
            ScmTypeError::UnsupportedOperation { scm, operation } => {
                let mut r = owned("Operation '");
                r.append(operation.as_str());
                r.append("' is not supported by ");
                let name = scm.to_string();
                r.append(name.as_str());
                r
            },
        }
    }
}

impl core::str::FromStr for ScmType {
    type Err = ScmTypeError;

    fn from_str(s: &str) -> Result<ScmType, ScmTypeError> {
        ScmType::parse_name(s)
    }
}

/// Parsing the name of any SCM type gives that type back.
pub proof fn lemma_name_roundtrip(t: ScmType)
    ensures
        scm_of_lower_name(scm_name(t)) == Some(t),
{
    reveal_strlit("git");
    reveal_strlit("svn");
    reveal_strlit("subversion");
    reveal_strlit("p4");
    reveal_strlit("perforce");
    reveal_strlit("hg");
    reveal_strlit("mercurial");
    reveal_strlit("http");
    reveal_strlit("https");
    reveal_strlit("s3");
    reveal_strlit("gdrive");
    reveal_strlit("symlink");
    let n = scm_name(t);
    if n != "git"@ {
        assert(n.len() != 3 || n[0] != 'g' || n[1] != 'i' || n[2] != 't');
    }
    match t {
        ScmType::Git => {
            assert(n =~= "git"@);
        },
        ScmType::Svn => {
            assert(n[0] == 's' && n[1] == 'v');
            assert(n =~= "svn"@);
        },
        ScmType::P4 => {
            assert(n[0] == 'p' && n.len() == 2);
            assert(n =~= "p4"@);
        },
        ScmType::Hg => {
            assert(n[0] == 'h' && n.len() == 2);
            assert(n =~= "hg"@);
        },
        ScmType::Http => {
            assert(n[0] == 'h' && n.len() == 4);
            assert(n =~= "http"@);
        },
        ScmType::S3 => {
            assert(n[0] == 's' && n.len() == 2);
            assert(n =~= "s3"@);
        },
        ScmType::GDrive => {
            assert(n[0] == 'g' && n.len() == 6);
            assert(n =~= "gdrive"@);
        },
        ScmType::Symlink => {
            assert(n[0] == 's' && n.len() == 7);
            assert(n =~= "symlink"@);
        },
    }
}

} // verus!
