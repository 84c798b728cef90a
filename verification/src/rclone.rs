//! Google Drive access through rclone: where its configuration lives, how remotes are
//! recognised and set up, and when authorisation can be interactive.
use crate::path::path_join;
use crate::text::{cat2, cat3, lines_of, lines_spec, owned, str_eq, str_trim, trim};
use vstd::prelude::*;

verus! {

/// Errors of rclone use.
#[derive(Debug)]
pub enum RcloneError {
    NotInstalled,
    AuthRequired(String),
    CommandFailed(String),
    IoError(String),
}

/// The `Display` text of an error.
pub open spec fn rclone_error_text(e: RcloneError) -> Seq<char> {
    match e {
        RcloneError::NotInstalled => "rclone is not installed. Install it from https://rclone.org/install/"@,
        RcloneError::AuthRequired(r) => "Google Drive authentication required for remote '"@ + r@ + "'"@,
        RcloneError::CommandFailed(m) => "rclone command failed: "@ + m@,
        RcloneError::IoError(m) => "rclone I/O error: "@ + m@,
    }
}

impl RcloneError {
    /// The message of the error (its `Display` text).
    pub fn to_string(&self) -> (r: String)
        ensures
            r@ == rclone_error_text(*self),
    {
        match self {
            RcloneError::NotInstalled => owned("rclone is not installed. Install it from https://rclone.org/install/"),
            RcloneError::AuthRequired(r) => cat3("Google Drive authentication required for remote '", r.as_str(), "'"),
            RcloneError::CommandFailed(m) => cat2("rclone command failed: ", m.as_str()),
            RcloneError::IoError(m) => cat2("rclone I/O error: ", m.as_str()),
        }
    }
}

/// What to do for a remote before copying from it.
#[derive(Debug, Clone, Copy, PartialEq, Eq, Structural)]
pub enum RemoteAction {
    /// The remote exists and is authorised
    Ready,
    /// The remote exists but its authorisation has to be renewed
    Reauthorize,
    /// The remote has to be created, then authorised
    CreateAndAuthorize,
}

/// The rclone configuration under `HOME` (`.config/wmgr/rclone.conf`), or
/// `/tmp/wmgr-rclone.conf` without `HOME`.
pub open spec fn default_config_path_spec(home: Option<Seq<char>>) -> Seq<char> {
    match home {
        Some(h) => path_join(h, ".config/wmgr/rclone.conf"@),
        None => "/tmp/wmgr-rclone.conf"@,
    }
}

/// Running rclone with one configuration file.
pub struct RcloneManager {
    config_path: String,
}

impl RcloneManager {
    /// The configuration file, as a sequence of characters.
    pub closed spec fn config_text(self) -> Seq<char> {
        self.config_path@
    }

    /// A manager using the default configuration file for the given `HOME`.
    pub fn new(home: Option<&str>) -> (r: Self)
        ensures
            r.config_text() == default_config_path_spec(match home {
                Some(h) => Some(h@),
                None => None,
            }),
    {
        RcloneManager { config_path: Self::default_config_path(home) }
    }

    /// A manager using the given configuration file.
    pub fn with_config_path(config_path: &str) -> (r: Self)
        ensures
            r.config_text() == config_path@,
    {
        RcloneManager { config_path: owned(config_path) }
    }

    /// The default configuration file (see `default_config_path_spec`).
    pub fn default_config_path(home: Option<&str>) -> (r: String)
        ensures
            r@ == default_config_path_spec(match home {
                Some(h) => Some(h@),
                None => None,
            }),
    {
        match home {
            Some(h) => crate::path::join(h, ".config/wmgr/rclone.conf"),
            None => owned("/tmp/wmgr-rclone.conf"),
        }
    }

    /// The configuration file.
    pub fn config_path(&self) -> (r: &str)
        ensures
            r@ == self.config_text(),
    {
        self.config_path.as_str()
    }

    /// The name rclone lists a remote under: `<remote>:`.
    pub fn remote_target(remote_name: &str) -> (r: String)
        ensures
            r@ == remote_name@ + ":"@,
    {
        cat2(remote_name, ":")
    }

    /// Whether the output of `rclone listremotes` lists the remote: some line, trimmed,
    /// is `<remote>:`.
    pub fn remote_listed(listing: &str, remote_name: &str) -> (r: bool)
        ensures
            r == exists|i: int| 0 <= i < lines_spec(listing@).len()
                && trim(#[trigger] lines_spec(listing@)[i]) == remote_name@ + ":"@,
    {
        let target = Self::remote_target(remote_name);
        let ls = lines_of(listing);
        let ghost lv = lines_spec(listing@);
        let mut i: usize = 0;
        while i < ls.len()
            invariant
                i <= ls@.len(),
                ls@.map_values(|l: String| l@) == lv,
                lv == lines_spec(listing@),
                target@ == remote_name@ + ":"@,
                forall|j: int| 0 <= j < i ==> trim(#[trigger] lv[j]) != remote_name@ + ":"@,
            decreases ls.len() - i,
        {
            assert(ls@[i as int]@ == lv[i as int]);
            let t = str_trim(ls[i].as_str());
            if str_eq(t.as_str(), target.as_str()) {
                return true;
            }
            i = i + 1;
        }
        false
    }

    /// The configuration written for a new Google Drive remote.
    pub fn remote_config(remote_name: &str) -> (r: String)
        ensures
            r@ == "["@ + remote_name@ + "]\ntype = drive\n"@,
    {
        cat3("[", remote_name, "]\ntype = drive\n")
    }

    /// What to do for a remote from whether it exists and whether it is authorised
    /// (asked only when it exists).
    pub fn remote_action(exists: bool, authorized: bool) -> (r: RemoteAction)
        ensures
            r == (if !exists {
                RemoteAction::CreateAndAuthorize
            } else if authorized {
                RemoteAction::Ready
            } else {
                RemoteAction::Reauthorize
            }),
    {
        if !exists {
            RemoteAction::CreateAndAuthorize
        } else if authorized {
            RemoteAction::Ready
        } else {
            RemoteAction::Reauthorize
        }
    }

    /// Whether this is a CI run: `CI` or `GITHUB_ACTIONS` is set.
    pub fn is_ci(ci_set: bool, github_actions_set: bool) -> (r: bool)
        ensures
            r == (ci_set || github_actions_set),
    {
        ci_set || github_actions_set
    }

    /// Whether a local browser can be opened: not when `WMGR_HEADLESS` is set or over
    /// SSH; on Linux only with a display (X11 or Wayland); elsewhere always.
    pub fn has_local_browser(headless_set: bool, ssh_connection_set: bool, ssh_tty_set: bool, is_linux: bool, display_set: bool, wayland_display_set: bool) -> (r: bool)
        ensures
            r == (!headless_set && !ssh_connection_set && !ssh_tty_set
                && (!is_linux || display_set || wayland_display_set)),
    {
        if headless_set {
            return false;
        }
        if ssh_connection_set || ssh_tty_set {
            return false;
        }
        if is_linux {
            display_set || wayland_display_set
        } else {
            true
        }
    }

    /// The error for authorisation that cannot be interactive on CI.
    pub fn ci_auth_required(remote_name: &str) -> (r: RcloneError)
        ensures
            r matches RcloneError::AuthRequired(m)
                && m@ == remote_name@ + ". Set WMGR_GDRIVE_TOKEN or run 'wmgr sync' locally first."@,
    {
        RcloneError::AuthRequired(cat2(remote_name, ". Set WMGR_GDRIVE_TOKEN or run 'wmgr sync' locally first."))
    }
}

} // verus!
