//! Manifests: the repositories of a workspace and their groups.
use crate::repository::{Remote, Repository};
use crate::scm_interface::{CloneOptions, SyncOptions};
use crate::scm_type::ScmType;
use crate::text::{owned, str_eq};
use crate::util::Duplicate;
use vstd::prelude::*;

verus! {

broadcast use vstd::seq::group_seq_axioms;

/// A group of repositories, named by their destinations.
#[derive(Debug, Clone, PartialEq, Eq)]
pub struct Group {
    /// Destinations (relative paths) of the repositories of the group
    pub repos: Vec<String>,
    /// Description of the group
    pub description: Option<String>,
}

impl DeepView for Group {
    type V = (Seq<Seq<char>>, Option<Seq<char>>);

    open spec fn deep_view(&self) -> Self::V {
        (self.repos.deep_view(), self.description.deep_view())
    }
}

impl Duplicate for Group {
    fn duplicate(&self) -> (r: Self) {
        Group { repos: self.repos.duplicate(), description: self.description.duplicate() }
    }
}

impl Group {
    /// Create a group of the given destinations.
    pub fn new(repos: Vec<String>) -> (r: Self)
        ensures
            r.repos == repos,
            r.description is None,
    {
        Group { repos, description: None }
    }

    /// Set the description.
    pub fn with_description(self, description: &str) -> (r: Self)
        ensures
            r.repos == self.repos,
            r.description matches Some(d) && d@ == description@,
    {
        Group { description: Some(owned(description)), ..self }
    }

    /// Whether the group names the destination `dest`.
    pub fn contains_dest(&self, dest: &str) -> (r: bool)
        ensures
            r == group_names_dest(*self, dest@),
    {
        let mut k: usize = 0;
        while k < self.repos.len()
            invariant
                k <= self.repos@.len(),
                forall|j: int| 0 <= j < k ==> self.repos@[j]@ != dest@,
            decreases self.repos.len() - k,
        {
            if str_eq(self.repos[k].as_str(), dest) {
                return true;
            }
            k = k + 1;
        }
        false
    }
}

/// The group names the destination `dest`.
pub open spec fn group_names_dest(g: Group, dest: Seq<char>) -> bool {
    exists|k: int| 0 <= k < g.repos@.len() && g.repos@[k]@ == dest
}

/// A file copy performed after synchronisation.
#[derive(Debug, Clone, PartialEq, Eq)]
pub struct FileCopy {
    /// Source file, relative to the repository
    pub file: String,
    /// Destination, relative to the workspace root
    pub dest: String,
}

impl DeepView for FileCopy {
    type V = FileCopy;

    open spec fn deep_view(&self) -> FileCopy {
        *self
    }
}

impl Duplicate for FileCopy {
    fn duplicate(&self) -> (r: Self) {
        FileCopy { file: self.file.clone(), dest: self.dest.clone() }
    }
}

/// A symbolic link created after synchronisation.
#[derive(Debug, Clone, PartialEq, Eq)]
pub struct FileSymlink {
    /// Link location, relative to the workspace root
    pub source: String,
    /// Link target, relative to the link
    pub target: String,
}

impl DeepView for FileSymlink {
    type V = FileSymlink;

    open spec fn deep_view(&self) -> FileSymlink {
        *self
    }
}

impl Duplicate for FileSymlink {
    fn duplicate(&self) -> (r: Self) {
        FileSymlink { source: self.source.clone(), target: self.target.clone() }
    }
}

/// SCM-specific options of a manifest entry.
#[derive(Debug, Clone, PartialEq, Eq)]
pub enum ScmOptions {
    /// Git options
    Git { remote: Option<String>, depth: Option<u32>, recurse_submodules: bool },
    /// Subversion options
    Svn { revision: Option<String>, username: Option<String>, password: Option<String> },
    /// Perforce options
    P4 {
        client: Option<String>,
        changelist: Option<String>,
        stream: Option<String>,
        username: Option<String>,
        password: Option<String>,
    },
}

impl DeepView for ScmOptions {
    type V = ScmOptions;

    open spec fn deep_view(&self) -> ScmOptions {
        *self
    }
}

impl Duplicate for ScmOptions {
    fn duplicate(&self) -> (r: Self) {
        match self {
            ScmOptions::Git { remote, depth, recurse_submodules } => ScmOptions::Git {
                remote: clone_opt(remote),
                depth: *depth,
                recurse_submodules: *recurse_submodules,
            },
            ScmOptions::Svn { revision, username, password } => ScmOptions::Svn {
                revision: clone_opt(revision),
                username: clone_opt(username),
                password: clone_opt(password),
            },
            ScmOptions::P4 { client, changelist, stream, username, password } => ScmOptions::P4 {
                client: clone_opt(client),
                changelist: clone_opt(changelist),
                stream: clone_opt(stream),
                username: clone_opt(username),
                password: clone_opt(password),
            },
        }
    }
}

impl Default for ScmOptions {
    fn default() -> (r: Self)
        ensures
            r == (ScmOptions::Git { remote: None, depth: None, recurse_submodules: false }),
    {
        ScmOptions::Git { remote: None, depth: None, recurse_submodules: false }
    }
}

/// An equal copy of an optional string.
pub fn clone_opt(o: &Option<String>) -> (r: Option<String>)
    ensures
        r == *o,
{
    match o {
        Some(s) => Some(s.clone()),
        None => None,
    }
}

/// The string an optional reference points to.
pub open spec fn deref_opt(o: Option<&String>) -> Option<String> {
    match o {
        Some(s) => Some(*s),
        None => None,
    }
}

/// A repository entry of a manifest.
#[derive(Debug, Clone)]
pub struct ManifestRepo {
    /// Repository URL
    pub url: String,
    /// Path relative to the workspace root
    pub dest: String,
    /// Branch
    pub branch: Option<String>,
    /// Pinned SHA1
    pub sha1: Option<String>,
    /// Tag
    pub tag: Option<String>,
    /// Additional remotes
    pub remotes: Option<Vec<Remote>>,
    /// Whether to clone shallowly
    pub shallow: bool,
    /// File copies
    pub copy: Option<Vec<FileCopy>>,
    /// Symbolic links
    pub symlink: Option<Vec<FileSymlink>>,
    /// Source control system
    pub scm: ScmType,
    /// SCM-specific options
    pub scm_options: Option<ScmOptions>,
    /// Revision, commit or changelist (all SCMs)
    pub revision: Option<String>,
    /// Authentication user name
    pub username: Option<String>,
    /// Authentication password
    pub password: Option<String>,
    /// Additional SCM-specific options
    pub extra_options: Option<Vec<String>>,
    /// Name of the credential profile
    pub profile: Option<String>,
}

impl DeepView for ManifestRepo {
    type V = (
        (Seq<char>, Seq<char>, Option<Seq<char>>, Option<Seq<char>>, Option<Seq<char>>),
        (Option<Seq<(Seq<char>, Seq<char>)>>, bool, Option<Seq<FileCopy>>, Option<Seq<FileSymlink>>, ScmType),
        (Option<ScmOptions>, Option<Seq<char>>, Option<Seq<char>>, Option<Seq<char>>, Option<Seq<Seq<char>>>, Option<Seq<char>>),
    );

    open spec fn deep_view(&self) -> Self::V {
        (
            (
                self.url@,
                self.dest@,
                self.branch.deep_view(),
                self.sha1.deep_view(),
                self.tag.deep_view(),
            ),
            (
                self.remotes.deep_view(),
                self.shallow,
                self.copy.deep_view(),
                self.symlink.deep_view(),
                self.scm,
            ),
            (
                self.scm_options,
                self.revision.deep_view(),
                self.username.deep_view(),
                self.password.deep_view(),
                self.extra_options.deep_view(),
                self.profile.deep_view(),
            ),
        )
    }
}

impl Duplicate for ManifestRepo {
    fn duplicate(&self) -> (r: Self) {
        ManifestRepo {
            url: self.url.clone(),
            dest: self.dest.clone(),
            branch: self.branch.duplicate(),
            sha1: self.sha1.duplicate(),
            tag: self.tag.duplicate(),
            remotes: self.remotes.duplicate(),
            shallow: self.shallow,
            copy: self.copy.duplicate(),
            symlink: self.symlink.duplicate(),
            scm: self.scm,
            scm_options: self.scm_options.duplicate(),
            revision: self.revision.duplicate(),
            username: self.username.duplicate(),
            password: self.password.duplicate(),
            extra_options: self.extra_options.duplicate(),
            profile: self.profile.duplicate(),
        }
    }
}

/// The revision that applies to a manifest entry: the SVN revision or P4 changelist of
/// its SCM options when set, else its common revision field.
pub open spec fn effective_revision(r: ManifestRepo) -> Option<String> {
    match r.scm_options {
        Some(ScmOptions::Svn { revision: Some(v), .. }) => Some(v),
        Some(ScmOptions::P4 { changelist: Some(c), .. }) => Some(c),
        _ => r.revision,
    }
}

/// The credentials that apply to a manifest entry: those of its SVN or P4 options
/// when present, else its common fields.
pub open spec fn effective_auth(r: ManifestRepo) -> (Option<String>, Option<String>) {
    match r.scm_options {
        Some(ScmOptions::Svn { username, password, .. }) => (username, password),
        Some(ScmOptions::P4 { username, password, .. }) => (username, password),
        _ => (r.username, r.password),
    }
}

/// The fields of a new manifest entry.
pub open spec fn fresh_repo(r: ManifestRepo, url: Seq<char>, dest: Seq<char>, scm: ScmType) -> bool {
    &&& r.url@ == url
    &&& r.dest@ == dest
    &&& r.branch is None && r.sha1 is None && r.tag is None && r.remotes is None
    &&& !r.shallow && r.copy is None && r.symlink is None && r.scm == scm
    &&& r.scm_options is None && r.revision is None && r.username is None
    &&& r.password is None && r.extra_options is None && r.profile is None
}

impl ManifestRepo {
    /// Create a Git entry.
    pub fn new(url: &str, dest: &str) -> (r: Self)
        ensures
            fresh_repo(r, url@, dest@, ScmType::Git),
    {
        ManifestRepo::with_scm(url, dest, ScmType::default())
    }

    /// Create an entry of the given SCM type.
    pub fn with_scm(url: &str, dest: &str, scm: ScmType) -> (r: Self)
        ensures
            fresh_repo(r, url@, dest@, scm),
    {
        ManifestRepo {
            url: owned(url),
            dest: owned(dest),
            branch: None,
            sha1: None,
            tag: None,
            remotes: None,
            shallow: false,
            copy: None,
            symlink: None,
            scm,
            scm_options: None,
            revision: None,
            username: None,
            password: None,
            extra_options: None,
            profile: None,
        }
    }

    /// Set the branch.
    pub fn with_branch(self, branch: &str) -> (r: Self)
        ensures
            r.branch matches Some(b) && b@ == branch@,
            r == (ManifestRepo { branch: r.branch, ..self }),
    {
        ManifestRepo { branch: Some(owned(branch)), ..self }
    }

    /// Set the revision.
    pub fn with_revision(self, revision: &str) -> (r: Self)
        ensures
            r.revision matches Some(b) && b@ == revision@,
            r == (ManifestRepo { revision: r.revision, ..self }),
    {
        ManifestRepo { revision: Some(owned(revision)), ..self }
    }

    /// Set the credentials.
    pub fn with_auth(self, username: &str, password: &str) -> (r: Self)
        ensures
            r.username matches Some(u) && u@ == username@,
            r.password matches Some(p) && p@ == password@,
            r == (ManifestRepo { username: r.username, password: r.password, ..self }),
    {
        ManifestRepo { username: Some(owned(username)), password: Some(owned(password)), ..self }
    }

    /// Set the SCM-specific options.
    pub fn with_scm_options(self, options: ScmOptions) -> (r: Self)
        ensures
            r == (ManifestRepo { scm_options: Some(options), ..self }),
    {
        ManifestRepo { scm_options: Some(options), ..self }
    }

    /// Set the additional options.
    pub fn with_extra_options(self, options: Vec<String>) -> (r: Self)
        ensures
            r == (ManifestRepo { extra_options: Some(options), ..self }),
    {
        ManifestRepo { extra_options: Some(options), ..self }
    }

    /// The Git options, when the entry is a Git one with Git options.
    pub fn get_git_options(&self) -> (r: Option<&ScmOptions>)
        ensures
            match r {
                Some(o) => self.scm == ScmType::Git && self.scm_options == Some(*o) && (*o matches ScmOptions::Git { .. }),
                None => !(self.scm == ScmType::Git && (self.scm_options matches Some(ScmOptions::Git { .. }))),
            },
    {
        match (&self.scm, &self.scm_options) {
            (ScmType::Git, Some(ScmOptions::Git { .. })) => self.scm_options.as_ref(),
            _ => None,
        }
    }

    /// The SVN options, when the entry is an SVN one with SVN options.
    pub fn get_svn_options(&self) -> (r: Option<&ScmOptions>)
        ensures
            match r {
                Some(o) => self.scm == ScmType::Svn && self.scm_options == Some(*o) && (*o matches ScmOptions::Svn { .. }),
                None => !(self.scm == ScmType::Svn && (self.scm_options matches Some(ScmOptions::Svn { .. }))),
            },
    {
        match (&self.scm, &self.scm_options) {
            (ScmType::Svn, Some(ScmOptions::Svn { .. })) => self.scm_options.as_ref(),
            _ => None,
        }
    }

    /// The P4 options, when the entry is a P4 one with P4 options.
    pub fn get_p4_options(&self) -> (r: Option<&ScmOptions>)
        ensures
            match r {
                Some(o) => self.scm == ScmType::P4 && self.scm_options == Some(*o) && (*o matches ScmOptions::P4 { .. }),
                None => !(self.scm == ScmType::P4 && (self.scm_options matches Some(ScmOptions::P4 { .. }))),
            },
    {
        match (&self.scm, &self.scm_options) {
            (ScmType::P4, Some(ScmOptions::P4 { .. })) => self.scm_options.as_ref(),
            _ => None,
        }
    }

    /// The revision that applies (see `effective_revision`).
    pub fn get_effective_revision(&self) -> (r: Option<&String>)
        ensures
            deref_opt(r) == effective_revision(*self),
    {
        match &self.scm_options {
            Some(ScmOptions::Svn { revision, .. }) if revision.is_some() => revision.as_ref(),
            Some(ScmOptions::P4 { changelist, .. }) if changelist.is_some() => changelist.as_ref(),
            _ => self.revision.as_ref(),
        }
    }

    /// The credentials that apply (see `effective_auth`).
    pub fn get_effective_auth(&self) -> (r: (Option<&String>, Option<&String>))
        ensures
            (deref_opt(r.0), deref_opt(r.1)) == effective_auth(*self),
    {
        match &self.scm_options {
            Some(ScmOptions::Svn { username, password, .. }) => (username.as_ref(), password.as_ref()),
            Some(ScmOptions::P4 { username, password, .. }) => (username.as_ref(), password.as_ref()),
            _ => (self.username.as_ref(), self.password.as_ref()),
        }
    }

    /// The options to clone this entry with.
    pub fn to_clone_options(&self) -> (r: CloneOptions)
        ensures
            r.branch == self.branch,
            r.shallow == self.shallow,
            r.revision == effective_revision(*self),
            (r.username, r.password) == effective_auth(*self),
            r.extra_options.deep_view() == (match self.extra_options {
                Some(v) => v.deep_view(),
                None => Seq::<Seq<char>>::empty(),
            }),
            match self.scm_options {
                Some(ScmOptions::Git { remote, depth, recurse_submodules }) => r.remote == remote
                    && r.depth == depth && r.recurse_submodules == recurse_submodules
                    && r.client is None && r.stream is None,
                Some(ScmOptions::P4 { client, stream, .. }) => r.client == client && r.stream
                    == stream && r.remote is None && r.depth is None && !r.recurse_submodules,
                _ => r.remote is None && r.depth is None && !r.recurse_submodules
                    && r.client is None && r.stream is None,
            },
    {
        let (username, password) = self.get_effective_auth();
        let extra = match &self.extra_options {
            Some(v) => v.duplicate(),
            None => Vec::new(),
        };
        let mut options = CloneOptions {
            branch: clone_opt(&self.branch),
            shallow: self.shallow,
            depth: None,
            remote: None,
            recurse_submodules: false,
            revision: clone_opt_ref(self.get_effective_revision()),
            username: clone_opt_ref(username),
            password: clone_opt_ref(password),
            client: None,
            stream: None,
            extra_options: extra,
        };
        match &self.scm_options {
            Some(ScmOptions::Git { remote, depth, recurse_submodules }) => {
                options.remote = clone_opt(remote);
                options.depth = *depth;
                options.recurse_submodules = *recurse_submodules;
            },
            Some(ScmOptions::P4 { client, stream, .. }) => {
                options.client = clone_opt(client);
                options.stream = clone_opt(stream);
            },
            _ => {},
        }
        options
    }

    /// The options to synchronise this entry with.
    pub fn to_sync_options(&self, force: bool) -> (r: SyncOptions)
        ensures
            r.branch == self.branch,
            r.force == force,
            r.revision == effective_revision(*self),
            (r.username, r.password) == effective_auth(*self),
            r.extra_options.deep_view() == (match self.extra_options {
                Some(v) => v.deep_view(),
                None => Seq::<Seq<char>>::empty(),
            }),
            match self.scm_options {
                Some(ScmOptions::P4 { client, stream, .. }) => r.client == client && r.stream == stream,
                _ => r.client is None && r.stream is None,
            },
    {
        let (username, password) = self.get_effective_auth();
        let extra = match &self.extra_options {
            Some(v) => v.duplicate(),
            None => Vec::new(),
        };
        let mut options = SyncOptions {
            branch: clone_opt(&self.branch),
            force,
            revision: clone_opt_ref(self.get_effective_revision()),
            username: clone_opt_ref(username),
            password: clone_opt_ref(password),
            client: None,
            stream: None,
            extra_options: extra,
        };
        match &self.scm_options {
            Some(ScmOptions::P4 { client, stream, .. }) => {
                options.client = clone_opt(client);
                options.stream = clone_opt(stream);
            },
            _ => {},
        }
        options
    }

    /// The repository this entry describes: an `origin` remote with the entry's URL
    /// followed by its additional remotes, with its destination, SCM, branch, SHA1,
    /// tag and shallowness.
    pub fn to_repository(&self) -> (r: Repository)
        ensures
            repository_of(*self, r),
    {
        let mut remotes: Vec<Remote> = Vec::new();
        remotes.push(Remote::new("origin", self.url.as_str()));
        let ghost first = remotes@[0];
        match &self.remotes {
            Some(additional) => {
                let mut i: usize = 0;
                while i < additional.len()
                    invariant
                        i <= additional@.len(),
                        remotes@.len() == i + 1,
                        remotes@[0] == first,
                        forall|j: int| 0 <= j < i ==> #[trigger] remotes@[j + 1].deep_view() == additional@[j].deep_view(),
                    decreases additional.len() - i,
                {
                    remotes.push(additional[i].duplicate());
                    i = i + 1;
                }
                assert(remotes.deep_view().drop_first() =~= additional.deep_view());
            },
            None => {
                assert(remotes.deep_view().drop_first() =~= Seq::<(Seq<char>, Seq<char>)>::empty());
            },
        }
        let mut repo = Repository::with_scm(self.dest.as_str(), remotes, self.scm);
        match &self.branch {
            Some(b) => {
                repo = repo.with_branch(b.as_str());
            },
            None => {},
        }
        match &self.sha1 {
            Some(s) => {
                repo = repo.with_sha1(s.as_str());
            },
            None => {},
        }
        match &self.tag {
            Some(t) => {
                repo = repo.with_tag(t.as_str());
            },
            None => {},
        }
        repo.with_shallow(self.shallow)
    }
}

/// `r` is the repository the entry `e` describes: an `origin` remote with the entry's
/// URL followed by its additional remotes, with its destination, SCM, branch, SHA1,
/// tag and shallowness, and none of the other settings.
pub open spec fn repository_of(e: ManifestRepo, r: Repository) -> bool {
    &&& r.dest@ == e.dest@
    &&& r.scm == e.scm
    &&& r.remotes@.len() >= 1
    &&& r.remotes@[0].name@ == "origin"@
    &&& r.remotes@[0].url@ == e.url@
    &&& r.remotes.deep_view().drop_first() == (match e.remotes {
        Some(v) => v.deep_view(),
        None => Seq::empty(),
    })
    &&& r.branch.deep_view() == e.branch.deep_view()
    &&& r.sha1.deep_view() == e.sha1.deep_view()
    &&& r.tag.deep_view() == e.tag.deep_view()
    &&& r.shallow == e.shallow
    &&& r.orig_branch is None && !r.keep_branch && !r.is_default_branch
    &&& r.sha1_full is None && !r.is_bare
}

/// An equal copy of the string an optional reference points to.
pub fn clone_opt_ref(o: Option<&String>) -> (r: Option<String>)
    ensures
        r == deref_opt(o),
{
    match o {
        Some(s) => Some(s.clone()),
        None => None,
    }
}

/// The structure of a manifest file.
#[derive(Debug, Clone)]
pub struct Manifest {
    /// Repository entries
    pub repos: Vec<ManifestRepo>,
    /// Groups, as (name, group) pairs with distinct names (as read from a manifest file;
    /// merging and filtering keep them distinct); a lookup takes the first pair with the name
    pub groups: Option<Vec<(String, Group)>>,
    /// Default branch
    pub default_branch: Option<String>,
    /// Default SCM type
    pub default_scm: Option<ScmType>,
}

impl DeepView for Manifest {
    type V = (
        Seq<<ManifestRepo as DeepView>::V>,
        Option<Seq<(Seq<char>, (Seq<Seq<char>>, Option<Seq<char>>))>>,
        Option<Seq<char>>,
        Option<ScmType>,
    );

    open spec fn deep_view(&self) -> Self::V {
        (
            self.repos.deep_view(),
            self.groups.deep_view(),
            self.default_branch.deep_view(),
            self.default_scm,
        )
    }
}

impl Duplicate for Manifest {
    fn duplicate(&self) -> (r: Self) {
        Manifest {
            repos: self.repos.duplicate(),
            groups: self.groups.duplicate(),
            default_branch: self.default_branch.duplicate(),
            default_scm: self.default_scm,
        }
    }
}

/// The first group named `name` among (name, group) pairs.
pub open spec fn group_named(groups: Seq<(String, Group)>, name: Seq<char>) -> Option<Group>
    decreases groups.len(),
{
    if groups.len() == 0 {
        None
    } else if groups[0].0@ == name {
        Some(groups[0].1)
    } else {
        group_named(groups.drop_first(), name)
    }
}

/// The group of a manifest named `name`, if the manifest has groups and one of that name.
pub open spec fn manifest_group(m: Manifest, name: Seq<char>) -> Option<Group> {
    match m.groups {
        Some(gs) => group_named(gs@, name),
        None => None,
    }
}

/// The entries of a manifest that belong to the group `name`, in manifest order.
pub open spec fn repos_in_group(m: Manifest, name: Seq<char>) -> Seq<ManifestRepo> {
    match manifest_group(m, name) {
        Some(g) => m.repos@.filter(|r: ManifestRepo| group_names_dest(g, r.dest@)),
        None => Seq::empty(),
    }
}

/// The values that a sequence of references points to.
pub open spec fn derefs<T>(s: Seq<&T>) -> Seq<T> {
    s.map_values(|x: &T| *x)
}

/// The first pair named `name`, looked up from index `i` on.
pub fn find_group<'a>(groups: &'a Vec<(String, Group)>, name: &str) -> (r: Option<&'a Group>)
    ensures
        match r {
            Some(g) => group_named(groups@, name@) == Some(*g),
            None => group_named(groups@, name@) is None,
        },
{
    let mut i: usize = 0;
    assert(groups@.subrange(0, groups@.len() as int) =~= groups@);
    while i < groups.len()
        invariant
            i <= groups@.len(),
            group_named(groups@, name@) == group_named(groups@.subrange(i as int, groups@.len() as int), name@),
        decreases groups.len() - i,
    {
        let ghost rest = groups@.subrange(i as int, groups@.len() as int);
        assert(rest[0] == groups@[i as int]);
        if str_eq(groups[i].0.as_str(), name) {
            return Some(&groups[i].1);
        }
        assert(rest.drop_first() =~= groups@.subrange(i + 1, groups@.len() as int));
        i = i + 1;
    }
    assert(groups@.subrange(i as int, groups@.len() as int).len() == 0);
    None
}

impl Manifest {
    /// Create a manifest of the given entries, without groups or defaults.
    pub fn new(repos: Vec<ManifestRepo>) -> (r: Self)
        ensures
            r.repos == repos,
            r.groups is None,
            r.default_branch is None,
            r.default_scm is None,
    {
        Manifest { repos, groups: None, default_branch: None, default_scm: None }
    }

    /// Set the groups.
    pub fn with_groups(self, groups: Vec<(String, Group)>) -> (r: Self)
        ensures
            r == (Manifest { groups: Some(groups), ..self }),
    {
        Manifest { groups: Some(groups), ..self }
    }

    /// Set the default branch.
    pub fn with_default_branch(self, branch: &str) -> (r: Self)
        ensures
            r.default_branch matches Some(b) && b@ == branch@,
            r == (Manifest { default_branch: r.default_branch, ..self }),
    {
        Manifest { default_branch: Some(owned(branch)), ..self }
    }

    /// Set the default SCM type.
    pub fn with_default_scm(self, scm: ScmType) -> (r: Self)
        ensures
            r == (Manifest { default_scm: Some(scm), ..self }),
    {
        Manifest { default_scm: Some(scm), ..self }
    }

    /// The group named `name`, if any.
    pub fn get_group(&self, name: &str) -> (r: Option<&Group>)
        ensures
            match r {
                Some(g) => manifest_group(*self, name@) == Some(*g),
                None => manifest_group(*self, name@) is None,
            },
    {
        match &self.groups {
            Some(gs) => find_group(gs, name),
            None => None,
        }
    }

    /// The entries that belong to the group `group_name`, in manifest order; empty when
    /// the manifest has no such group.
    pub fn get_repos_in_group(&self, group_name: &str) -> (r: Vec<&ManifestRepo>)
        ensures
            derefs(r@) == repos_in_group(*self, group_name@),
    {
        let mut out: Vec<&ManifestRepo> = Vec::new();
        match self.get_group(group_name) {
            Some(group) => {
                let ghost pred = |r: ManifestRepo| group_names_dest(*group, r.dest@);
                let mut i: usize = 0;
                while i < self.repos.len()
                    invariant
                        i <= self.repos@.len(),
                        pred == (|r: ManifestRepo| group_names_dest(*group, r.dest@)),
                        derefs(out@) == self.repos@.subrange(0, i as int).filter(pred),
                    decreases self.repos.len() - i,
                {
                    proof {
                        reveal_with_fuel(Seq::<ManifestRepo>::filter, 1);
                        assert(self.repos@.subrange(0, i + 1).drop_last() =~= self.repos@.subrange(0, i as int));
                    }
                    let ghost before = out@;
                    if group.contains_dest(self.repos[i].dest.as_str()) {
                        out.push(&self.repos[i]);
                        assert(derefs(out@) =~= derefs(before).push(self.repos@[i as int]));
                    }
                    i = i + 1;
                }
                assert(self.repos@.subrange(0, self.repos@.len() as int) =~= self.repos@);
            },
            None => {
                assert(derefs(out@) =~= Seq::<ManifestRepo>::empty());
            },
        }
        out
    }

    /// All entries as repositories.
    pub fn to_repositories(&self) -> (r: Vec<Repository>)
        ensures
            r@.len() == self.repos@.len(),
            forall|i: int| 0 <= i < r@.len() ==> repository_of(self.repos@[i], #[trigger] r@[i]),
    {
        let mut out: Vec<Repository> = Vec::new();
        let mut i: usize = 0;
        while i < self.repos.len()
            invariant
                i <= self.repos@.len(),
                out@.len() == i,
                forall|j: int| 0 <= j < i ==> repository_of(self.repos@[j], #[trigger] out@[j]),
            decreases self.repos.len() - i,
        {
            out.push(self.repos[i].to_repository());
            i = i + 1;
        }
        out
    }

    /// The first entry with the destination `dest`.
    pub fn find_repo_by_dest(&self, dest: &str) -> (r: Option<&ManifestRepo>)
        ensures
            match r {
                Some(m) => exists|i: int| 0 <= i < self.repos@.len() && self.repos@[i] == *m
                    && m.dest@ == dest@ && forall|j: int| 0 <= j < i ==> self.repos@[j].dest@ != dest@,
                None => forall|j: int| 0 <= j < self.repos@.len() ==> self.repos@[j].dest@ != dest@,
            },
    {
        let mut i: usize = 0;
        while i < self.repos.len()
            invariant
                i <= self.repos@.len(),
                forall|j: int| 0 <= j < i ==> self.repos@[j].dest@ != dest@,
            decreases self.repos.len() - i,
        {
            if str_eq(self.repos[i].dest.as_str(), dest) {
                return Some(&self.repos[i]);
            }
            i = i + 1;
        }
        None
    }
}

} // verus!
