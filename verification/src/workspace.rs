//! Workspaces: a root directory, its configuration, its manifest and its repositories.
use crate::manifest::{derefs, repos_in_group, Manifest, ManifestRepo};
use crate::path::{join, last_segment, before_last_segment, path_join, split_last_segment};
use crate::repository::Repository;
use crate::text::{owned, str_eq};
use vstd::prelude::*;

verus! {

broadcast use vstd::seq::group_seq_axioms;

/// The configuration of a workspace.
#[derive(Debug, Clone)]
pub struct WorkspaceConfig {
    /// URL of the manifest repository
    pub manifest_url: String,
    /// Branch of the manifest
    pub manifest_branch: String,
    /// Whether to clone shallowly
    pub shallow_clones: bool,
    /// Repository groups in use
    pub repo_groups: Vec<String>,
    /// Whether to clone every repository, ignoring groups
    pub clone_all_repos: bool,
    /// Single remote name, when set
    pub singular_remote: Option<String>,
}

/// The group list is exactly `["default"]`.
pub open spec fn only_default_group(groups: Seq<String>) -> bool {
    groups.len() == 1 && groups[0]@ == "default"@
}

impl WorkspaceConfig {
    /// Create a configuration using the `default` group.
    pub fn new(manifest_url: &str, manifest_branch: &str) -> (r: Self)
        ensures
            r.manifest_url@ == manifest_url@,
            r.manifest_branch@ == manifest_branch@,
            !r.shallow_clones && !r.clone_all_repos && r.singular_remote is None,
            only_default_group(r.repo_groups@),
    {
        let mut groups: Vec<String> = Vec::new();
        groups.push(owned("default"));
        WorkspaceConfig {
            manifest_url: owned(manifest_url),
            manifest_branch: owned(manifest_branch),
            shallow_clones: false,
            repo_groups: groups,
            clone_all_repos: false,
            singular_remote: None,
        }
    }

    /// The configuration of a workspace with a local manifest: no URL, branch `main`.
    pub fn default_local() -> (r: Self)
        ensures
            r.manifest_url@ == ""@,
            r.manifest_branch@ == "main"@,
            !r.shallow_clones && !r.clone_all_repos && r.singular_remote is None,
            only_default_group(r.repo_groups@),
    {
        WorkspaceConfig::new("", "main")
    }

    /// Set the groups in use.
    pub fn with_repo_groups(self, groups: Vec<String>) -> (r: Self)
        ensures
            r == (WorkspaceConfig { repo_groups: groups, ..self }),
    {
        WorkspaceConfig { repo_groups: groups, ..self }
    }

    /// Set shallow cloning.
    pub fn with_shallow_clones(self, shallow: bool) -> (r: Self)
        ensures
            r == (WorkspaceConfig { shallow_clones: shallow, ..self }),
    {
        WorkspaceConfig { shallow_clones: shallow, ..self }
    }

    /// Set cloning of all repositories.
    pub fn with_clone_all_repos(self, clone_all: bool) -> (r: Self)
        ensures
            r == (WorkspaceConfig { clone_all_repos: clone_all, ..self }),
    {
        WorkspaceConfig { clone_all_repos: clone_all, ..self }
    }

    /// Set the single remote.
    pub fn with_singular_remote(self, remote: &str) -> (r: Self)
        ensures
            r.singular_remote matches Some(s) && s@ == remote@,
            r == (WorkspaceConfig { singular_remote: r.singular_remote, ..self }),
    {
        WorkspaceConfig { singular_remote: Some(owned(remote)), ..self }
    }

    /// Whether only the `default` group is in use.
    pub fn is_using_default_group(&self) -> (r: bool)
        ensures
            r == only_default_group(self.repo_groups@),
    {
        self.repo_groups.len() == 1 && str_eq(self.repo_groups[0].as_str(), "default")
    }
}

/// The state of a workspace.
#[derive(Debug, Clone, Copy, PartialEq, Eq, Structural)]
pub enum WorkspaceStatus {
    /// Not initialised
    Uninitialized,
    /// Initialised
    Initialized,
    /// Corrupted
    Corrupted,
}

/// A workspace.
#[derive(Debug, Clone)]
pub struct Workspace {
    /// Root directory
    pub root_path: String,
    /// Configuration
    pub config: WorkspaceConfig,
    /// Current manifest
    pub manifest: Option<Manifest>,
    /// Repositories of the workspace
    pub repositories: Vec<Repository>,
    /// State
    pub status: WorkspaceStatus,
}

/// `i` is the index of the first repository with the destination `dest`.
pub open spec fn is_first_dest_index(s: Seq<Repository>, dest: Seq<char>, i: int) -> bool {
    0 <= i < s.len() && s[i].dest@ == dest && forall|j: int| 0 <= j < i ==> s[j].dest@ != dest
}

/// The outcome of one step of searching upwards for a workspace root.
#[derive(Debug, Clone)]
pub enum DiscoveryStep {
    /// The directory holding a manifest file
    Found(String),
    /// The directory to look at next
    Ascend(String),
    /// The top was reached without finding one
    NotFound,
}

/// Whether a repository with the destination `dest` occurs in `s`.
pub open spec fn has_dest(s: Seq<Repository>, dest: Seq<char>) -> bool {
    exists|k: int| 0 <= k < s.len() && s[k].dest@ == dest
}

proof fn lemma_has_dest_push(s: Seq<Repository>, d: Seq<char>)
    requires
        s.len() > 0,
    ensures
        has_dest(s, d) == (has_dest(s.drop_last(), d) || s.last().dest@ == d),
{
    if has_dest(s, d) && s.last().dest@ != d {
        let w = choose|w: int| 0 <= w < s.len() && s[w].dest@ == d;
        assert(s.drop_last()[w] == s[w]);
    }
    if has_dest(s.drop_last(), d) {
        let w = choose|w: int| 0 <= w < s.drop_last().len() && s.drop_last()[w].dest@ == d;
        assert(s[w] == s.drop_last()[w]);
    }
}

/// The first repository with the destination `dest`.
pub open spec fn first_with_dest(s: Seq<Repository>, dest: Seq<char>) -> Option<Repository>
    decreases s.len(),
{
    if s.len() == 0 {
        None
    } else if s[0].dest@ == dest {
        Some(s[0])
    } else {
        first_with_dest(s.drop_first(), dest)
    }
}

/// Repositories picked, in order, for a list of destinations: the first repository with
/// each destination, skipping destinations with no repository and repositories already picked.
pub open spec fn pick_by_dests(repos: Seq<Repository>, dests: Seq<Seq<char>>) -> Seq<Repository>
    decreases dests.len(),
{
    if dests.len() == 0 {
        Seq::empty()
    } else {
        let prev = pick_by_dests(repos, dests.drop_last());
        match first_with_dest(repos, dests.last()) {
            Some(r) => if has_dest(prev, r.dest@) {
                prev
            } else {
                prev.push(r)
            },
            None => prev,
        }
    }
}

/// The destinations of the entries of each named group, in group order then manifest order.
pub open spec fn group_dests(m: Manifest, groups: Seq<String>) -> Seq<Seq<char>>
    decreases groups.len(),
{
    if groups.len() == 0 {
        Seq::empty()
    } else {
        group_dests(m, groups.drop_last()) + repos_in_group(m, groups.last()@).map_values(
            |r: ManifestRepo| r.dest@,
        )
    }
}

/// The repositories a workspace works on, given its configuration and manifest.
pub open spec fn repos_for_groups(w: Workspace) -> Seq<Repository> {
    match w.manifest {
        Some(m) => if w.config.clone_all_repos || w.config.repo_groups@.len() == 0
            || only_default_group(w.config.repo_groups@) {
            w.repositories@
        } else {
            pick_by_dests(w.repositories@, group_dests(m, w.config.repo_groups@))
        },
        None => w.repositories@,
    }
}

/// The priority of a manifest file (lower is preferred), from its name and whether it lies
/// in a `.wmgr` directory.
pub open spec fn file_priority_spec(name: Seq<char>, in_wmgr: bool) -> u8 {
    if name == "wmgr.yml"@ {
        if in_wmgr { 5 } else { 1 }
    } else if name == "wmgr.yaml"@ {
        if in_wmgr { 6 } else { 2 }
    } else if name == "manifest.yml"@ {
        if in_wmgr { 7 } else { 3 }
    } else if name == "manifest.yaml"@ {
        if in_wmgr { 8 } else { 4 }
    } else {
        99
    }
}

/// The priority of a manifest file path: its last segment is the file name, and the
/// segment before it tells whether it lies in a `.wmgr` directory.
pub open spec fn path_priority(p: Seq<char>) -> u8 {
    file_priority_spec(last_segment(p), last_segment(before_last_segment(p)) == ".wmgr"@)
}

/// A file name that the manifest search accepts: `(wmgr|manifest).(yml|yaml)`.
pub open spec fn is_manifest_name(name: Seq<char>) -> bool {
    name == "wmgr.yml"@ || name == "wmgr.yaml"@ || name == "manifest.yml"@ || name
        == "manifest.yaml"@
}

/// The paths of a given priority, in their given order.
pub open spec fn with_priority(paths: Seq<String>, p: u8) -> Seq<String> {
    paths.filter(|s: String| path_priority(s@) == p)
}

/// The paths ordered by priority, keeping the given order among equal priorities.
pub open spec fn sorted_by_priority(paths: Seq<String>) -> Seq<String> {
    with_priority(paths, 1) + with_priority(paths, 2) + with_priority(paths, 3) + with_priority(
        paths,
        4,
    ) + with_priority(paths, 5) + with_priority(paths, 6) + with_priority(paths, 7)
        + with_priority(paths, 8) + with_priority(paths, 99)
}

/// Whether the file name is one the manifest search accepts.
pub fn is_manifest_file_name(name: &str) -> (r: bool)
    ensures
        r == is_manifest_name(name@),
{
    str_eq(name, "wmgr.yml") || str_eq(name, "wmgr.yaml") || str_eq(name, "manifest.yml")
        || str_eq(name, "manifest.yaml")
}

/// The priority of a manifest file from its name and directory.
pub fn file_priority(name: &str, in_wmgr: bool) -> (r: u8)
    ensures
        r == file_priority_spec(name@, in_wmgr),
{
    if str_eq(name, "wmgr.yml") {
        if in_wmgr { 5 } else { 1 }
    } else if str_eq(name, "wmgr.yaml") {
        if in_wmgr { 6 } else { 2 }
    } else if str_eq(name, "manifest.yml") {
        if in_wmgr { 7 } else { 3 }
    } else if str_eq(name, "manifest.yaml") {
        if in_wmgr { 8 } else { 4 }
    } else {
        99
    }
}

/// The paths of the given priority, in order.
fn collect_priority(paths: &Vec<String>, p: u8, out: &mut Vec<String>)
    ensures
        final(out)@ == old(out)@ + with_priority(paths@, p),
{
    let ghost pred = |s: String| path_priority(s@) == p;
    let ghost start = out@;
    let mut i: usize = 0;
    while i < paths.len()
        invariant
            i <= paths@.len(),
            pred == (|s: String| path_priority(s@) == p),
            out@ == start + paths@.subrange(0, i as int).filter(pred),
        decreases paths.len() - i,
    {
        proof {
            reveal_with_fuel(Seq::<String>::filter, 1);
            assert(paths@.subrange(0, i + 1).drop_last() =~= paths@.subrange(0, i as int));
        }
        let ghost before = out@;
        if Workspace::get_file_priority(paths[i].as_str()) == p {
            out.push(paths[i].clone());
            assert(out@ =~= before.push(paths@[i as int]));
        }
        i = i + 1;
    }
    assert(paths@.subrange(0, paths@.len() as int) =~= paths@);
}

/// Order manifest file paths by priority; among equal priorities the given order stays.
pub fn sort_manifest_files(paths: &Vec<String>) -> (r: Vec<String>)
    ensures
        r@ == sorted_by_priority(paths@),
{
    let mut out: Vec<String> = Vec::new();
    collect_priority(paths, 1, &mut out);
    collect_priority(paths, 2, &mut out);
    collect_priority(paths, 3, &mut out);
    collect_priority(paths, 4, &mut out);
    collect_priority(paths, 5, &mut out);
    collect_priority(paths, 6, &mut out);
    collect_priority(paths, 7, &mut out);
    collect_priority(paths, 8, &mut out);
    collect_priority(paths, 99, &mut out);
    assert(out@ =~= sorted_by_priority(paths@));
    out
}

impl Workspace {
    /// Create an uninitialised workspace without manifest or repositories.
    pub fn new(root_path: &str, config: WorkspaceConfig) -> (r: Self)
        ensures
            r.root_path@ == root_path@,
            r.config == config,
            r.manifest is None,
            r.repositories@.len() == 0,
            r.status == WorkspaceStatus::Uninitialized,
    {
        Workspace {
            root_path: owned(root_path),
            config,
            manifest: None,
            repositories: Vec::new(),
            status: WorkspaceStatus::Uninitialized,
        }
    }

    /// Set the manifest.
    pub fn with_manifest(self, manifest: Manifest) -> (r: Self)
        ensures
            r == (Workspace { manifest: Some(manifest), ..self }),
    {
        Workspace { manifest: Some(manifest), ..self }
    }

    /// Set the repositories.
    pub fn with_repositories(self, repositories: Vec<Repository>) -> (r: Self)
        ensures
            r == (Workspace { repositories, ..self }),
    {
        Workspace { repositories, ..self }
    }

    /// Set the state.
    pub fn with_status(self, status: WorkspaceStatus) -> (r: Self)
        ensures
            r == (Workspace { status, ..self }),
    {
        Workspace { status, ..self }
    }

    /// The `.tsrc` directory.
    pub fn tsrc_dir(&self) -> (r: String)
        ensures
            r@ == path_join(self.root_path@, ".tsrc"@),
    {
        join(self.root_path.as_str(), ".tsrc")
    }

    /// The configuration file `.tsrc/config.yml`.
    pub fn config_path(&self) -> (r: String)
        ensures
            r@ == path_join(path_join(self.root_path@, ".tsrc"@), "config.yml"@),
    {
        let d = self.tsrc_dir();
        join(d.as_str(), "config.yml")
    }

    /// The manifest directory (the `.tsrc` directory).
    pub fn manifest_dir(&self) -> (r: String)
        ensures
            r@ == path_join(self.root_path@, ".tsrc"@),
    {
        self.tsrc_dir()
    }

    /// The directories searched for manifest files: the root and its `.wmgr` directory.
    pub fn manifest_search_dirs(&self) -> (r: Vec<String>)
        ensures
            r@.len() == 2,
            r@[0]@ == self.root_path@,
            r@[1]@ == path_join(self.root_path@, ".wmgr"@),
    {
        let mut v: Vec<String> = Vec::new();
        v.push(self.root_path.clone());
        v.push(join(self.root_path.as_str(), ".wmgr"));
        v
    }

    /// The manifest file to use: the first of the found manifest files ordered by
    /// priority, else `wmgr.yml` in the root.
    pub fn manifest_file_path(&self, found: &Vec<String>) -> (r: String)
        ensures
            sorted_by_priority(found@).len() > 0 ==> r == sorted_by_priority(found@)[0],
            sorted_by_priority(found@).len() == 0 ==> r@ == path_join(self.root_path@, "wmgr.yml"@),
    {
        let sorted = sort_manifest_files(found);
        if sorted.len() > 0 {
            sorted[0].clone()
        } else {
            join(self.root_path.as_str(), "wmgr.yml")
        }
    }

    /// The priority of a manifest file path (lower is preferred).
    pub fn get_file_priority(path: &str) -> (r: u8)
        ensures
            r == path_priority(path@),
    {
        let (parent, name) = split_last_segment(path);
        let (_, parent_name) = split_last_segment(parent.as_str());
        file_priority(name.as_str(), str_eq(parent_name.as_str(), ".wmgr"))
    }

    /// The legacy manifest file `.tsrc/manifest.yml`.
    pub fn legacy_manifest_file_path(&self) -> (r: String)
        ensures
            r@ == path_join(path_join(self.root_path@, ".tsrc"@), "manifest.yml"@),
    {
        let d = self.tsrc_dir();
        join(d.as_str(), "manifest.yml")
    }

    /// The directory of the repository with the destination `dest`.
    pub fn repo_path(&self, dest: &str) -> (r: String)
        ensures
            r@ == path_join(self.root_path@, dest@),
    {
        join(self.root_path.as_str(), dest)
    }

    /// Whether the workspace is initialised.
    pub fn is_initialized(&self) -> (r: bool)
        ensures
            r == (self.status == WorkspaceStatus::Initialized),
    {
        self.status == WorkspaceStatus::Initialized
    }

    /// Whether the workspace is corrupted.
    pub fn is_corrupted(&self) -> (r: bool)
        ensures
            r == (self.status == WorkspaceStatus::Corrupted),
    {
        self.status == WorkspaceStatus::Corrupted
    }

    /// The index of the first repository with the destination `dest`.
    fn find_index(&self, dest: &str) -> (r: Option<usize>)
        ensures
            match r {
                Some(i) => i < self.repositories@.len() && first_with_dest(self.repositories@, dest@)
                    == Some(self.repositories@[i as int]),
                None => first_with_dest(self.repositories@, dest@) is None,
            },
    {
        let mut i: usize = 0;
        let ghost all = self.repositories@;
        assert(all.subrange(0, all.len() as int) =~= all);
        while i < self.repositories.len()
            invariant
                i <= all.len(),
                all == self.repositories@,
                first_with_dest(all, dest@) == first_with_dest(all.subrange(i as int, all.len() as int), dest@),
            decreases self.repositories.len() - i,
        {
            let ghost rest = all.subrange(i as int, all.len() as int);
            assert(rest[0] == all[i as int]);
            if str_eq(self.repositories[i].dest.as_str(), dest) {
                return Some(i);
            }
            assert(rest.drop_first() =~= all.subrange(i + 1, all.len() as int));
            i = i + 1;
        }
        None
    }

    /// The first repository with the destination `dest`.
    pub fn find_repository(&self, dest: &str) -> (r: Option<&Repository>)
        ensures
            match r {
                Some(x) => first_with_dest(self.repositories@, dest@) == Some(*x),
                None => first_with_dest(self.repositories@, dest@) is None,
            },
    {
        match self.find_index(dest) {
            Some(i) => Some(&self.repositories[i]),
            None => None,
        }
    }

    /// The first repository with the destination `dest`, to be changed in place; the
    /// other repositories and the rest of the workspace stay as they are.
    pub fn find_repository_mut(&mut self, dest: &str) -> (r: Option<&mut Repository>)
        ensures
            match r {
                Some(x) => exists|i: int| is_first_dest_index(old(self).repositories@, dest@, i)
                    && *x == old(self).repositories@[i]
                    && final(self).repositories@ == old(self).repositories@.update(i, *final(x))
                    && final(self).root_path == old(self).root_path && final(self).config == old(self).config
                    && final(self).manifest == old(self).manifest && final(self).status == old(self).status,
                None => (forall|i: int| 0 <= i < old(self).repositories@.len() ==> (#[trigger] old(self).repositories@[i]).dest@ != dest@)
                    && *final(self) == *old(self),
            },
    {
        let mut i: usize = 0;
        while i < self.repositories.len()
            invariant
                i <= self.repositories@.len(),
                *self == *old(self),
                forall|j: int| 0 <= j < i ==> (#[trigger] self.repositories@[j]).dest@ != dest@,
            decreases self.repositories.len() - i,
        {
            if str_eq(self.repositories[i].dest.as_str(), dest) {
                assert(is_first_dest_index(old(self).repositories@, dest@, i as int));
                return Some(&mut self.repositories[i]);
            }
            i = i + 1;
        }
        None
    }

    /// One step of finding the root of the workspace that holds `current`: found when
    /// `current` holds a manifest file, else the search goes on in the parent directory,
    /// and ends without result at the top.
    pub fn discover_workspace_root(current: &str, manifest_found: bool) -> (r: DiscoveryStep)
        ensures
            manifest_found ==> (r matches DiscoveryStep::Found(p) && p@ == current@),
            !manifest_found ==> match parent_spec(current@) {
                Some(q) => r matches DiscoveryStep::Ascend(p) && p@ == q,
                None => r is NotFound,
            },
    {
        if manifest_found {
            return DiscoveryStep::Found(owned(current));
        }
        match parent_path(current) {
            Some(p) => DiscoveryStep::Ascend(p),
            None => DiscoveryStep::NotFound,
        }
    }

    /// All repositories.
    fn all_repos(&self) -> (r: Vec<&Repository>)
        ensures
            derefs(r@) == self.repositories@,
    {
        let mut out: Vec<&Repository> = Vec::new();
        let mut i: usize = 0;
        while i < self.repositories.len()
            invariant
                i <= self.repositories@.len(),
                out@.len() == i,
                forall|j: int| 0 <= j < i ==> *out@[j] == self.repositories@[j],
            decreases self.repositories.len() - i,
        {
            out.push(&self.repositories[i]);
            i = i + 1;
        }
        assert(derefs(out@) =~= self.repositories@);
        out
    }

    /// The repositories the workspace works on: all of them without a manifest, with
    /// `clone_all_repos`, or with no groups or only the `default` group; otherwise, for
    /// each configured group in order and each of its entries in manifest order, the first
    /// repository with the entry's destination, each destination taken once.
    pub fn filter_repos_by_groups(&self) -> (r: Vec<&Repository>)
        ensures
            derefs(r@) == repos_for_groups(*self),
    {
        match &self.manifest {
            None => self.all_repos(),
            Some(manifest) => {
                if self.config.clone_all_repos || self.config.repo_groups.len() == 0
                    || self.config.is_using_default_group() {
                    return self.all_repos();
                }
                let mut filtered: Vec<&Repository> = Vec::new();
                let groups = &self.config.repo_groups;
                let mut g: usize = 0;
                while g < groups.len()
                    invariant
                        g <= groups@.len(),
                        *groups == self.config.repo_groups,
                        self.manifest == Some(*manifest),
                        derefs(filtered@) == pick_by_dests(self.repositories@, group_dests(*manifest, groups@.subrange(0, g as int))),
                    decreases groups.len() - g,
                {
                    let group_repos = manifest.get_repos_in_group(groups[g].as_str());
                    let ghost base = group_dests(*manifest, groups@.subrange(0, g as int));
                    let ghost gd = repos_in_group(*manifest, groups@[g as int]@).map_values(|r: ManifestRepo| r.dest@);
                    proof {
                        assert(groups@.subrange(0, g + 1).drop_last() =~= groups@.subrange(0, g as int));
                        assert(group_dests(*manifest, groups@.subrange(0, g + 1)) == base + gd);
                        assert(base + gd.subrange(0, 0) =~= base);
                    }
                    let mut j: usize = 0;
                    while j < group_repos.len()
                        invariant
                            g < groups@.len(),
                            j <= group_repos@.len(),
                            derefs(group_repos@) == repos_in_group(*manifest, groups@[g as int]@),
                            gd == repos_in_group(*manifest, groups@[g as int]@).map_values(|r: ManifestRepo| r.dest@),
                            derefs(filtered@) == pick_by_dests(self.repositories@, base + gd.subrange(0, j as int)),
                        decreases group_repos.len() - j,
                    {
                        let mr = group_repos[j];
                        let ghost before = filtered@;
                        proof {
                            assert((base + gd.subrange(0, j + 1)).drop_last() =~= base + gd.subrange(0, j as int));
                            assert((base + gd.subrange(0, j + 1)).last() == mr.dest@);
                        }
                        match self.find_index(mr.dest.as_str()) {
                            Some(k) => {
                                let repo = &self.repositories[k];
                                let mut present = false;
                                let mut q: usize = 0;
                                while q < filtered.len()
                                    invariant
                                        q <= filtered@.len(),
                                        present == has_dest(derefs(filtered@).subrange(0, q as int), repo.dest@),
                                    decreases filtered.len() - q,
                                {
                                    proof {
                                        let s = derefs(filtered@).subrange(0, q as int + 1);
                                        assert(s.drop_last() =~= derefs(filtered@).subrange(0, q as int));
                                        assert(s.last() == *filtered@[q as int]);
                                        lemma_has_dest_push(s, repo.dest@);
                                    }
                                    if str_eq(filtered[q].dest.as_str(), repo.dest.as_str()) {
                                        present = true;
                                    }
                                    q = q + 1;
                                }
                                assert(derefs(filtered@).subrange(0, filtered@.len() as int) =~= derefs(filtered@));
                                if !present {
                                    filtered.push(repo);
                                    assert(derefs(filtered@) =~= derefs(before).push(*repo));
                                }
                            },
                            None => {},
                        }
                        j = j + 1;
                    }
                    proof {
                        assert(gd.subrange(0, group_repos@.len() as int) =~= gd);
                    }
                    g = g + 1;
                }
                assert(groups@.subrange(0, groups@.len() as int) =~= groups@);
                filtered
            },
        }
    }
}

/// The parent directory of a path, as `Path::parent` gives it for '/'-separated paths
/// without trailing or repeated separators: `None` for `/` and the empty path, the root
/// for a path directly under it, the part before the last '/' otherwise, and the empty
/// path for a relative single segment.
pub open spec fn parent_spec(p: Seq<char>) -> Option<Seq<char>> {
    if p.len() == 0 || p == "/"@ {
        None
    } else if before_last_segment(p).len() == 0 && p.len() > 0 && p[0] == '/' {
        Some("/"@)
    } else {
        Some(before_last_segment(p))
    }
}

/// The parent directory of a path (see `parent_spec`).
pub fn parent_path(p: &str) -> (r: Option<String>)
    ensures
        match r {
            Some(s) => parent_spec(p@) == Some(s@),
            None => parent_spec(p@) is None,
        },
{
    if p.unicode_len() == 0 || str_eq(p, "/") {
        return None;
    }
    let (before, _) = split_last_segment(p);
    if before.unicode_len() == 0 && p.get_char(0) == '/' {
        Some(owned("/"))
    } else {
        Some(before)
    }
}

} // verus!
