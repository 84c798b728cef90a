//! The `wmgr.yaml` configuration: defaults, groups of repositories and flat repositories.
use crate::manifest::ManifestRepo;
use crate::scm_type::{scm_name, url_scheme_ok, ScmType};
use crate::text::{owned, str_eq};
use crate::util::Duplicate;
use vstd::prelude::*;

verus! {

broadcast use vstd::seq::group_seq_axioms;

/// Default settings of a configuration.
#[derive(Debug, Clone, PartialEq, Eq)]
pub struct Defaults {
    /// Default SCM type
    pub scm: ScmType,
    /// Default branch (Git)
    pub branch: Option<String>,
    /// Default remote name (Git)
    pub remote: Option<String>,
    /// Whether to clone shallowly by default (Git)
    pub shallow: bool,
}

impl Default for Defaults {
    fn default() -> (r: Self)
        ensures
            r == (Defaults { scm: ScmType::Git, branch: None, remote: None, shallow: false }),
    {
        Defaults { scm: ScmType::Git, branch: None, remote: None, shallow: false }
    }
}

/// Information on the workspace.
#[derive(Debug, Clone, PartialEq, Eq)]
pub struct WorkspaceInfo {
    /// Name
    pub name: Option<String>,
    /// Description
    pub description: Option<String>,
}

/// A named group of repositories.
#[derive(Debug, Clone)]
pub struct RepositoryGroup {
    /// Name
    pub name: String,
    /// Description
    pub description: Option<String>,
    /// Repositories of the group
    pub repositories: Vec<ManifestRepo>,
}

impl RepositoryGroup {
    /// Create a group.
    pub fn new(name: &str, repositories: Vec<ManifestRepo>) -> (r: Self)
        ensures
            r.name@ == name@,
            r.description is None,
            r.repositories == repositories,
    {
        RepositoryGroup { name: owned(name), description: None, repositories }
    }

    /// Set the description.
    pub fn with_description(self, description: &str) -> (r: Self)
        ensures
            r.description matches Some(d) && d@ == description@,
            r.name == self.name,
            r.repositories == self.repositories,
    {
        RepositoryGroup { description: Some(owned(description)), ..self }
    }
}

/// The structure of a `wmgr.yaml` configuration file.
#[derive(Debug, Clone)]
pub struct WorkspaceConfig {
    /// Default settings
    pub defaults: Option<Defaults>,
    /// Workspace information
    pub workspace: Option<WorkspaceInfo>,
    /// Groups of repositories
    pub groups: Option<Vec<RepositoryGroup>>,
    /// Flat list of repositories
    pub repositories: Option<Vec<ManifestRepo>>,
}

/// A repository entry after the defaults are applied: a `Git` entry takes the default SCM;
/// then a Git entry without branch takes the default branch, and a Git entry that is not
/// shallow becomes shallow when the defaults say so.
pub open spec fn with_defaults_applied(repo: ManifestRepo, defaults: Option<Defaults>) -> ManifestRepo {
    match defaults {
        None => repo,
        Some(d) => {
            let scm = if repo.scm == ScmType::Git { d.scm } else { repo.scm };
            let branch = if repo.branch is None && scm == ScmType::Git && d.branch is Some {
                d.branch
            } else {
                repo.branch
            };
            let shallow = if scm == ScmType::Git && !repo.shallow && d.shallow {
                true
            } else {
                repo.shallow
            };
            ManifestRepo { scm, branch, shallow, ..repo }
        },
    }
}

/// All repositories of the groups, in order, then the flat repositories.
pub open spec fn all_repos_spec(c: WorkspaceConfig) -> Seq<ManifestRepo> {
    let flat = match c.repositories {
        Some(rs) => rs@,
        None => Seq::empty(),
    };
    grouped_repos(c) + flat
}

/// The repositories of all groups, in order.
pub open spec fn grouped_repos(c: WorkspaceConfig) -> Seq<ManifestRepo> {
    match c.groups {
        Some(gs) => flatten_groups(gs@),
        None => Seq::empty(),
    }
}

/// The repositories of the groups, in order.
pub open spec fn flatten_groups(gs: Seq<RepositoryGroup>) -> Seq<ManifestRepo>
    decreases gs.len(),
{
    if gs.len() == 0 {
        Seq::empty()
    } else {
        flatten_groups(gs.drop_last()) + gs.last().repositories@
    }
}

/// The deep views of the repositories with the defaults applied.
pub open spec fn normalized_view(c: WorkspaceConfig, rs: Seq<ManifestRepo>) -> Seq<<ManifestRepo as DeepView>::V> {
    rs.map_values(|r: ManifestRepo| with_defaults_applied(r, c.defaults).deep_view())
}

/// The first group named `name`.
pub open spec fn group_by_name(gs: Seq<RepositoryGroup>, name: Seq<char>) -> Option<RepositoryGroup>
    decreases gs.len(),
{
    if gs.len() == 0 {
        None
    } else if gs[0].name@ == name {
        Some(gs[0])
    } else {
        group_by_name(gs.drop_first(), name)
    }
}

/// The error a single repository entry has, if any.
pub open spec fn repo_error(r: ManifestRepo) -> Option<Seq<char>> {
    if r.url@.len() == 0 {
        Some("Repository URL cannot be empty"@)
    } else if r.dest@.len() == 0 {
        Some("Repository destination cannot be empty"@)
    } else if !url_scheme_ok(r.scm, r.url@) {
        Some("URL '"@ + r.url@ + "' is not valid for SCM type '"@ + scm_name(r.scm) + "'"@)
    } else {
        None
    }
}

/// The first error among repository entries, in order.
pub open spec fn first_repo_error(rs: Seq<ManifestRepo>) -> Option<Seq<char>>
    decreases rs.len(),
{
    if rs.len() == 0 {
        None
    } else {
        match repo_error(rs[0]) {
            Some(e) => Some(e),
            None => first_repo_error(rs.drop_first()),
        }
    }
}

/// The first error among groups, in order: an empty group, or an invalid entry.
pub open spec fn first_group_error(gs: Seq<RepositoryGroup>) -> Option<Seq<char>>
    decreases gs.len(),
{
    if gs.len() == 0 {
        None
    } else if gs[0].repositories@.len() == 0 {
        Some("Group '"@ + gs[0].name@ + "' has no repositories"@)
    } else {
        match first_repo_error(gs[0].repositories@) {
            Some(e) => Some(e),
            None => first_group_error(gs.drop_first()),
        }
    }
}

/// The outcome of validating a configuration.
pub open spec fn validation_error(c: WorkspaceConfig) -> Option<Seq<char>> {
    if c.groups is None && c.repositories is None {
        Some("Either 'groups' or 'repositories' must be specified"@)
    } else {
        let ge = match c.groups {
            Some(gs) => first_group_error(gs@),
            None => None,
        };
        match ge {
            Some(e) => Some(e),
            None => match c.repositories {
                Some(rs) => first_repo_error(rs@),
                None => None,
            },
        }
    }
}

/// The error of one repository entry, if any.
pub fn validate_repository(repo: &ManifestRepo) -> (r: Result<(), String>)
    ensures
        match r {
            Ok(()) => repo_error(*repo) is None,
            Err(e) => repo_error(*repo) == Some(e@),
        },
{
    if repo.url.as_str().unicode_len() == 0 {
        return Err(owned("Repository URL cannot be empty"));
    }
    if repo.dest.as_str().unicode_len() == 0 {
        return Err(owned("Repository destination cannot be empty"));
    }
    if !repo.scm.is_valid_url_scheme(repo.url.as_str()) {
        let mut m = owned("URL '");
        m.append(repo.url.as_str());
        m.append("' is not valid for SCM type '");
        let name = repo.scm.to_string();
        m.append(name.as_str());
        m.append("'");
        return Err(m);
    }
    Ok(())
}

/// The first error among repository entries.
fn validate_repositories(rs: &Vec<ManifestRepo>) -> (r: Result<(), String>)
    ensures
        match r {
            Ok(()) => first_repo_error(rs@) is None,
            Err(e) => first_repo_error(rs@) == Some(e@),
        },
{
    let mut i: usize = 0;
    assert(rs@.subrange(0, rs@.len() as int) =~= rs@);
    while i < rs.len()
        invariant
            i <= rs@.len(),
            first_repo_error(rs@) == first_repo_error(rs@.subrange(i as int, rs@.len() as int)),
        decreases rs.len() - i,
    {
        let ghost rest = rs@.subrange(i as int, rs@.len() as int);
        assert(rest[0] == rs@[i as int]);
        match validate_repository(&rs[i]) {
            Err(e) => {
                return Err(e);
            },
            Ok(()) => {},
        }
        assert(rest.drop_first() =~= rs@.subrange(i + 1, rs@.len() as int));
        i = i + 1;
    }
    Ok(())
}

impl WorkspaceConfig {
    /// An empty configuration.
    pub fn new() -> (r: Self)
        ensures
            r.defaults is None && r.workspace is None && r.groups is None && r.repositories is None,
    {
        WorkspaceConfig { defaults: None, workspace: None, groups: None, repositories: None }
    }

    /// Set the defaults.
    pub fn with_defaults(self, defaults: Defaults) -> (r: Self)
        ensures
            r == (WorkspaceConfig { defaults: Some(defaults), ..self }),
    {
        WorkspaceConfig { defaults: Some(defaults), ..self }
    }

    /// Set the workspace information.
    pub fn with_workspace_info(self, workspace: WorkspaceInfo) -> (r: Self)
        ensures
            r == (WorkspaceConfig { workspace: Some(workspace), ..self }),
    {
        WorkspaceConfig { workspace: Some(workspace), ..self }
    }

    /// Set the groups.
    pub fn with_groups(self, groups: Vec<RepositoryGroup>) -> (r: Self)
        ensures
            r == (WorkspaceConfig { groups: Some(groups), ..self }),
    {
        WorkspaceConfig { groups: Some(groups), ..self }
    }

    /// Set the flat repositories.
    pub fn with_repositories(self, repositories: Vec<ManifestRepo>) -> (r: Self)
        ensures
            r == (WorkspaceConfig { repositories: Some(repositories), ..self }),
    {
        WorkspaceConfig { repositories: Some(repositories), ..self }
    }

    /// A repository entry with the defaults applied (see `with_defaults_applied`).
    pub fn apply_defaults_to_repo(&self, repo: &ManifestRepo, defaults: Option<&Defaults>) -> (r: ManifestRepo)
        ensures
            r.deep_view() == with_defaults_applied(*repo, match defaults {
                Some(d) => Some(*d),
                None => None,
            }).deep_view(),
    {
        let mut normalized = repo.duplicate();
        match defaults {
            Some(d) => {
                if normalized.scm == ScmType::Git {
                    normalized.scm = d.scm;
                }
                if normalized.branch.is_none() && normalized.scm == ScmType::Git {
                    match &d.branch {
                        Some(b) => {
                            normalized.branch = Some(b.clone());
                        },
                        None => {},
                    }
                }
                if normalized.scm == ScmType::Git && !normalized.shallow && d.shallow {
                    normalized.shallow = d.shallow;
                }
            },
            None => {},
        }
        normalized
    }

    /// Append the normalised copies of `rs` to `out`.
    fn push_normalized(&self, rs: &Vec<ManifestRepo>, out: &mut Vec<ManifestRepo>)
        ensures
            final(out).deep_view() == old(out).deep_view() + normalized_view(*self, rs@),
    {
        let ghost start = out.deep_view();
        let mut i: usize = 0;
        while i < rs.len()
            invariant
                i <= rs@.len(),
                out.deep_view() == start + normalized_view(*self, rs@.subrange(0, i as int)),
            decreases rs.len() - i,
        {
            let n = self.apply_defaults_to_repo(&rs[i], self.defaults.as_ref());
            let ghost before = out.deep_view();
            out.push(n);
            assert(out.deep_view() =~= before.push(n.deep_view()));
            assert(normalized_view(*self, rs@.subrange(0, i + 1)) =~= normalized_view(*self, rs@.subrange(0, i as int)).push(n.deep_view()));
            i = i + 1;
        }
        assert(rs@.subrange(0, rs@.len() as int) =~= rs@);
    }

    /// The repositories of the groups, in order, then the flat repositories, each with
    /// the defaults applied.
    pub fn normalize_repositories(&self) -> (r: Vec<ManifestRepo>)
        ensures
            r.deep_view() == normalized_view(*self, all_repos_spec(*self)),
    {
        let mut all: Vec<ManifestRepo> = Vec::new();
        let ghost gflat = grouped_repos(*self);
        match &self.groups {
            Some(groups) => {
                let mut g: usize = 0;
                while g < groups.len()
                    invariant
                        g <= groups@.len(),
                        all.deep_view() == normalized_view(*self, flatten_groups(groups@.subrange(0, g as int))),
                    decreases groups.len() - g,
                {
                    proof {
                        assert(groups@.subrange(0, g + 1).drop_last() =~= groups@.subrange(0, g as int));
                    }
                    self.push_normalized(&groups[g].repositories, &mut all);
                    proof {
                        let a = flatten_groups(groups@.subrange(0, g as int));
                        let b = groups@[g as int].repositories@;
                        assert(normalized_view(*self, a + b) =~= normalized_view(*self, a) + normalized_view(*self, b));
                    }
                    g = g + 1;
                }
                assert(groups@.subrange(0, groups@.len() as int) =~= groups@);
            },
            None => {
                assert(all.deep_view() =~= normalized_view(*self, Seq::empty()));
            },
        }
        match &self.repositories {
            Some(rs) => {
                self.push_normalized(rs, &mut all);
                assert(normalized_view(*self, gflat + rs@) =~= normalized_view(*self, gflat) + normalized_view(*self, rs@));
            },
            None => {
                assert(gflat + Seq::<ManifestRepo>::empty() =~= gflat);
            },
        }
        all
    }

    /// The repositories of the first group named `group_name`, with the defaults applied;
    /// empty when there is no such group.
    pub fn get_repositories_in_group(&self, group_name: &str) -> (r: Vec<ManifestRepo>)
        ensures
            r.deep_view() == match self.groups {
                Some(gs) => match group_by_name(gs@, group_name@) {
                    Some(g) => normalized_view(*self, g.repositories@),
                    None => Seq::empty(),
                },
                None => Seq::empty(),
            },
    {
        let mut out: Vec<ManifestRepo> = Vec::new();
        match &self.groups {
            Some(groups) => {
                let mut i: usize = 0;
                assert(groups@.subrange(0, groups@.len() as int) =~= groups@);
                while i < groups.len()
                    invariant
                        i <= groups@.len(),
                        self.groups == Some(*groups),
                        out@.len() == 0,
                        group_by_name(groups@, group_name@) == group_by_name(groups@.subrange(i as int, groups@.len() as int), group_name@),
                    decreases groups.len() - i,
                {
                    let ghost rest = groups@.subrange(i as int, groups@.len() as int);
                    assert(rest[0] == groups@[i as int]);
                    if str_eq(groups[i].name.as_str(), group_name) {
                        assert(out.deep_view() =~= Seq::empty());
                        self.push_normalized(&groups[i].repositories, &mut out);
                        assert(Seq::empty() + normalized_view(*self, groups@[i as int].repositories@) =~= normalized_view(*self, groups@[i as int].repositories@));
                        return out;
                    }
                    assert(rest.drop_first() =~= groups@.subrange(i + 1, groups@.len() as int));
                    i = i + 1;
                }
                assert(out.deep_view() =~= Seq::empty());
                out
            },
            None => {
                assert(out.deep_view() =~= Seq::empty());
                out
            },
        }
    }

    /// The names of all groups, in order.
    pub fn get_group_names(&self) -> (r: Vec<String>)
        ensures
            r@.len() == (match self.groups {
                Some(gs) => gs@.len(),
                None => 0,
            }),
            forall|i: int| 0 <= i < r@.len() ==> (#[trigger] r@[i]) == self.groups->0@[i].name,
    {
        let mut out: Vec<String> = Vec::new();
        match &self.groups {
            Some(groups) => {
                let mut i: usize = 0;
                while i < groups.len()
                    invariant
                        i <= groups@.len(),
                        self.groups == Some(*groups),
                        out@.len() == i,
                        forall|j: int| 0 <= j < i ==> (#[trigger] out@[j]) == groups@[j].name,
                    decreases groups.len() - i,
                {
                    out.push(groups[i].name.clone());
                    i = i + 1;
                }
            },
            None => {},
        }
        out
    }

    /// The first normalised repository with the destination `dest`.
    pub fn find_repository_by_dest(&self, dest: &str) -> (r: Option<ManifestRepo>)
        ensures
            match r {
                Some(m) => exists|i: int| 0 <= i < all_repos_spec(*self).len()
                    && m.deep_view() == normalized_view(*self, all_repos_spec(*self))[i]
                    && m.dest@ == dest@
                    && forall|j: int| 0 <= j < i ==> #[trigger] all_repos_spec(*self)[j].dest@ != dest@,
                None => forall|j: int| 0 <= j < all_repos_spec(*self).len() ==> #[trigger] all_repos_spec(*self)[j].dest@ != dest@,
            },
    {
        let all = self.normalize_repositories();
        let ghost spec_all = all_repos_spec(*self);
        let mut i: usize = 0;
        while i < all.len()
            invariant
                i <= all@.len(),
                all.deep_view() == normalized_view(*self, spec_all),
                spec_all == all_repos_spec(*self),
                forall|j: int| 0 <= j < i ==> #[trigger] spec_all[j].dest@ != dest@,
            decreases all.len() - i,
        {
            proof {
                assert(all.deep_view().len() == all@.len());
                assert(normalized_view(*self, spec_all).len() == spec_all.len());
                assert(all.deep_view()[i as int] == all@[i as int].deep_view());
                assert(normalized_view(*self, spec_all)[i as int] == with_defaults_applied(spec_all[i as int], self.defaults).deep_view());
                assert(with_defaults_applied(spec_all[i as int], self.defaults).dest == spec_all[i as int].dest);
            }
            if str_eq(all[i].dest.as_str(), dest) {
                return Some(all[i].duplicate());
            }
            i = i + 1;
        }
        proof {
            assert(all.deep_view().len() == spec_all.len());
        }
        None
    }

    /// Check the configuration: it names groups or repositories, no group is empty, and
    /// every entry has a URL, a destination and a URL suited to its SCM; the first problem
    /// found, groups first, is the error.
    pub fn validate(&self) -> (r: Result<(), String>)
        ensures
            match r {
                Ok(()) => validation_error(*self) is None,
                Err(e) => validation_error(*self) == Some(e@),
            },
    {
        if self.groups.is_none() && self.repositories.is_none() {
            return Err(owned("Either 'groups' or 'repositories' must be specified"));
        }
        match &self.groups {
            Some(groups) => {
                let mut i: usize = 0;
                assert(groups@.subrange(0, groups@.len() as int) =~= groups@);
                while i < groups.len()
                    invariant
                        i <= groups@.len(),
                        self.groups == Some(*groups),
                        first_group_error(groups@) == first_group_error(groups@.subrange(i as int, groups@.len() as int)),
                    decreases groups.len() - i,
                {
                    let ghost rest = groups@.subrange(i as int, groups@.len() as int);
                    assert(rest[0] == groups@[i as int]);
                    if groups[i].repositories.len() == 0 {
                        let mut m = owned("Group '");
                        m.append(groups[i].name.as_str());
                        m.append("' has no repositories");
                        return Err(m);
                    }
                    match validate_repositories(&groups[i].repositories) {
                        Err(e) => {
                            return Err(e);
                        },
                        Ok(()) => {},
                    }
                    assert(rest.drop_first() =~= groups@.subrange(i + 1, groups@.len() as int));
                    i = i + 1;
                }
            },
            None => {},
        }
        match &self.repositories {
            Some(rs) => validate_repositories(rs),
            None => Ok(()),
        }
    }
}

impl Default for WorkspaceConfig {
    fn default() -> (r: Self)
        ensures
            r.defaults is None && r.workspace is None && r.groups is None && r.repositories is None,
    {
        WorkspaceConfig::new()
    }
}

} // verus!
