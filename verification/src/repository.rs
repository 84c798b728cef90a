//! Repositories of a workspace and their remotes.
use crate::scm_type::ScmType;
use crate::text::{owned, str_eq};
use crate::util::Duplicate;
use vstd::prelude::*;

verus! {

impl DeepView for ScmType {
    type V = ScmType;

    open spec fn deep_view(&self) -> ScmType {
        *self
    }
}

impl Duplicate for ScmType {
    fn duplicate(&self) -> (r: Self) {
        *self
    }
}

/// A remote repository (a name and a URL).
#[derive(Debug, Clone, PartialEq, Eq)]
pub struct Remote {
    /// Remote name (for example `origin`)
    pub name: String,
    /// Remote URL
    pub url: String,
}

impl DeepView for Remote {
    type V = (Seq<char>, Seq<char>);

    open spec fn deep_view(&self) -> (Seq<char>, Seq<char>) {
        (self.name@, self.url@)
    }
}

impl Duplicate for Remote {
    fn duplicate(&self) -> (r: Self) {
        Remote { name: self.name.clone(), url: self.url.clone() }
    }
}

impl Remote {
    /// Create a remote.
    pub fn new(name: &str, url: &str) -> (r: Self)
        ensures
            r.name@ == name@,
            r.url@ == url@,
    {
        Remote { name: owned(name), url: owned(url) }
    }
}

/// A repository of the workspace.
#[derive(Debug, Clone)]
pub struct Repository {
    /// Path of the repository relative to the workspace root
    pub dest: String,
    /// Remotes of the repository
    pub remotes: Vec<Remote>,
    /// Target branch
    pub branch: Option<String>,
    /// Branch before synchronisation
    pub orig_branch: Option<String>,
    /// Whether to keep the current branch
    pub keep_branch: bool,
    /// Whether the branch is the default branch
    pub is_default_branch: bool,
    /// Pinned SHA1
    pub sha1: Option<String>,
    /// Full SHA1
    pub sha1_full: Option<String>,
    /// Tag
    pub tag: Option<String>,
    /// Whether to clone shallowly
    pub shallow: bool,
    /// Whether the repository is bare
    pub is_bare: bool,
    /// Source control system of the repository
    pub scm: ScmType,
}

/// The remotes' deep views.
pub open spec fn remotes_view(v: Seq<Remote>) -> Seq<(Seq<char>, Seq<char>)> {
    v.map_values(|r: Remote| r.deep_view())
}

impl DeepView for Repository {
    type V = (
        (Seq<char>, Seq<(Seq<char>, Seq<char>)>, Option<Seq<char>>, Option<Seq<char>>, bool, bool),
        (Option<Seq<char>>, Option<Seq<char>>, Option<Seq<char>>, bool, bool, ScmType),
    );

    open spec fn deep_view(&self) -> Self::V {
        (
            (
                self.dest@,
                self.remotes.deep_view(),
                self.branch.deep_view(),
                self.orig_branch.deep_view(),
                self.keep_branch,
                self.is_default_branch,
            ),
            (
                self.sha1.deep_view(),
                self.sha1_full.deep_view(),
                self.tag.deep_view(),
                self.shallow,
                self.is_bare,
                self.scm,
            ),
        )
    }
}

impl Duplicate for Repository {
    fn duplicate(&self) -> (r: Self) {
        Repository {
            dest: self.dest.clone(),
            remotes: self.remotes.duplicate(),
            branch: self.branch.duplicate(),
            orig_branch: self.orig_branch.duplicate(),
            keep_branch: self.keep_branch,
            is_default_branch: self.is_default_branch,
            sha1: self.sha1.duplicate(),
            sha1_full: self.sha1_full.duplicate(),
            tag: self.tag.duplicate(),
            shallow: self.shallow,
            is_bare: self.is_bare,
            scm: self.scm,
        }
    }
}

/// The index of the first remote named `name`, if any.
pub open spec fn first_remote_named(remotes: Seq<Remote>, name: Seq<char>, i: int) -> bool {
    &&& 0 <= i < remotes.len()
    &&& remotes[i].name@ == name
    &&& forall|j: int| 0 <= j < i ==> remotes[j].name@ != name
}

impl Repository {
    /// Create a Git repository with the given remotes and default settings.
    pub fn new(dest: &str, remotes: Vec<Remote>) -> (r: Self)
        ensures
            r.dest@ == dest@,
            r.remotes == remotes,
            r.branch is None,
            r.orig_branch is None,
            !r.keep_branch,
            !r.is_default_branch,
            r.sha1 is None,
            r.sha1_full is None,
            r.tag is None,
            !r.shallow,
            !r.is_bare,
            r.scm == ScmType::Git,
    {
        Repository::with_scm(dest, remotes, ScmType::Git)
    }

    /// Create a repository of the given SCM type with default settings.
    pub fn with_scm(dest: &str, remotes: Vec<Remote>, scm: ScmType) -> (r: Self)
        ensures
            r.dest@ == dest@,
            r.remotes == remotes,
            r.branch is None,
            r.orig_branch is None,
            !r.keep_branch,
            !r.is_default_branch,
            r.sha1 is None,
            r.sha1_full is None,
            r.tag is None,
            !r.shallow,
            !r.is_bare,
            r.scm == scm,
    {
        Repository {
            dest: owned(dest),
            remotes,
            branch: None,
            orig_branch: None,
            keep_branch: false,
            is_default_branch: false,
            sha1: None,
            sha1_full: None,
            tag: None,
            shallow: false,
            is_bare: false,
            scm,
        }
    }

    /// Set the branch.
    pub fn with_branch(self, branch: &str) -> (r: Self)
        ensures
            r.branch matches Some(b) && b@ == branch@,
            r == (Repository { branch: r.branch, ..self }),
    {
        Repository { branch: Some(owned(branch)), ..self }
    }

    /// Set the SHA1.
    pub fn with_sha1(self, sha1: &str) -> (r: Self)
        ensures
            r.sha1 matches Some(b) && b@ == sha1@,
            r == (Repository { sha1: r.sha1, ..self }),
    {
        Repository { sha1: Some(owned(sha1)), ..self }
    }

    /// Set the tag.
    pub fn with_tag(self, tag: &str) -> (r: Self)
        ensures
            r.tag matches Some(b) && b@ == tag@,
            r == (Repository { tag: r.tag, ..self }),
    {
        Repository { tag: Some(owned(tag)), ..self }
    }

    /// Set whether to clone shallowly.
    pub fn with_shallow(self, shallow: bool) -> (r: Self)
        ensures
            r == (Repository { shallow, ..self }),
    {
        Repository { shallow, ..self }
    }

    /// The URL to clone from: that of the first remote.
    pub fn clone_url(&self) -> (r: Option<&str>)
        ensures
            self.remotes@.len() == 0 ==> r is None,
            self.remotes@.len() > 0 ==> (r matches Some(u) && u@ == self.remotes@[0].url@),
    {
        if self.remotes.len() == 0 {
            None
        } else {
            Some(self.remotes[0].url.as_str())
        }
    }

    /// The first remote with the given name.
    pub fn get_remote(&self, name: &str) -> (r: Option<&Remote>)
        ensures
            match r {
                Some(rem) => exists|i: int|
                    first_remote_named(self.remotes@, name@, i) && *rem == self.remotes@[i],
                None => forall|j: int|
                    0 <= j < self.remotes@.len() ==> self.remotes@[j].name@ != name@,
            },
    {
        let mut i: usize = 0;
        while i < self.remotes.len()
            invariant
                i <= self.remotes@.len(),
                forall|j: int| 0 <= j < i ==> self.remotes@[j].name@ != name@,
            decreases self.remotes.len() - i,
        {
            if str_eq(self.remotes[i].name.as_str(), name) {
                assert(first_remote_named(self.remotes@, name@, i as int));
                return Some(&self.remotes[i]);
            }
            i = i + 1;
        }
        None
    }

    /// The remote named `origin`.
    pub fn get_origin(&self) -> (r: Option<&Remote>)
        ensures
            match r {
                Some(rem) => exists|i: int|
                    first_remote_named(self.remotes@, "origin"@, i) && *rem == self.remotes@[i],
                None => forall|j: int|
                    0 <= j < self.remotes@.len() ==> self.remotes@[j].name@ != "origin"@,
            },
    {
        self.get_remote("origin")
    }

    /// Whether the repository is pinned to a SHA1 or a tag.
    pub fn has_fixed_ref(&self) -> (r: bool)
        ensures
            r == (self.sha1 is Some || self.tag is Some),
    {
        self.sha1.is_some() || self.tag.is_some()
    }
}

} // verus!
