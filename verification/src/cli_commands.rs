//! The decisions of the command-line commands: what `init` writes where, the
//! settings that `sync` and `audit` hand on, and which repositories a new
//! manifest adds, changes or removes, and what `apply-manifest` does about it.
use crate::manifest::{Manifest, ManifestRepo};
use crate::path::{join, path_join};
use crate::repository::Remote;
use crate::security_audit::SecurityAuditConfig;
use crate::sync_repositories::SyncRepositoriesConfig;
use crate::text::{cat2, cat3, owned, str_eq};
use crate::workspace::{only_default_group, WorkspaceConfig};
use crate::util::Duplicate;
use vstd::prelude::*;

verus! {

broadcast use vstd::seq_lib::group_seq_properties;

/// Two optional texts are equal.
pub fn opt_text_eq(a: &Option<String>, b: &Option<String>) -> (r: bool)
    ensures
        r == (a.deep_view() == b.deep_view()),
{
    match (a, b) {
        (Some(x), Some(y)) => str_eq(x.as_str(), y.as_str()),
        (None, None) => true,
        _ => false,
    }
}

/// Two optional lists of remotes are equal, remote by remote.
pub fn remotes_eq(a: &Option<Vec<Remote>>, b: &Option<Vec<Remote>>) -> (r: bool)
    ensures
        r == (a.deep_view() == b.deep_view()),
{
    match (a, b) {
        (Some(x), Some(y)) => {
            if x.len() != y.len() {
                assert(x.deep_view().len() != y.deep_view().len());
                return false;
            }
            let mut i: usize = 0;
            while i < x.len()
                invariant
                    i <= x@.len(),
                    x@.len() == y@.len(),
                    a.deep_view() == Some(x.deep_view()),
                    b.deep_view() == Some(y.deep_view()),
                    forall|j: int| 0 <= j < i ==> #[trigger] x@[j].deep_view() == y@[j].deep_view(),
                decreases x.len() - i,
            {
                if !str_eq(x[i].name.as_str(), y[i].name.as_str()) || !str_eq(x[i].url.as_str(), y[i].url.as_str()) {
                    assert(x.deep_view()[i as int] == x@[i as int].deep_view());
                    assert(y.deep_view()[i as int] == y@[i as int].deep_view());
                    assert(x.deep_view() != y.deep_view());
                    return false;
                }
                i = i + 1;
            }
            assert(x.deep_view() =~= y.deep_view());
            true
        },
        (None, None) => true,
        _ => false,
    }
}

/// Two entries of the same destination differ in URL, branch, SHA1, tag or remotes.
pub open spec fn repo_differs_spec(current: ManifestRepo, new: ManifestRepo) -> bool {
    ||| current.url@ != new.url@
    ||| current.branch.deep_view() != new.branch.deep_view()
    ||| current.sha1.deep_view() != new.sha1.deep_view()
    ||| current.tag.deep_view() != new.tag.deep_view()
    ||| current.remotes.deep_view() != new.remotes.deep_view()
}

/// The first entry with destination `dest`.
pub open spec fn first_with_dest(s: Seq<ManifestRepo>, dest: Seq<char>) -> Option<ManifestRepo>
    decreases s.len(),
{
    if s.len() == 0 {
        None
    } else if s[0].dest@ == dest {
        Some(s[0])
    } else {
        first_with_dest(s.drop_first(), dest)
    }
}

/// The first entry with a destination is the one at the first index that has it,
/// and there is none when no index has it.
pub proof fn lemma_first_with_dest(s: Seq<ManifestRepo>, dest: Seq<char>, i: int)
    requires
        0 <= i <= s.len(),
        forall|j: int| 0 <= j < i ==> s[j].dest@ != dest,
        i < s.len() ==> s[i].dest@ == dest,
    ensures
        first_with_dest(s, dest) == (if i < s.len() { Some(s[i]) } else { None::<ManifestRepo> }),
    decreases s.len(),
{
    if s.len() > 0 && i > 0 {
        lemma_first_with_dest(s.drop_first(), dest, i - 1);
    }
}

/// The entries of `new`, in order, whose destination `current` does not have.
pub open spec fn added_repos(current: Seq<ManifestRepo>, new: Seq<ManifestRepo>) -> Seq<ManifestRepo>
    decreases new.len(),
{
    if new.len() == 0 {
        Seq::empty()
    } else {
        let prev = added_repos(current, new.drop_last());
        if first_with_dest(current, new.last().dest@) is None {
            prev.push(new.last())
        } else {
            prev
        }
    }
}

/// The entries of `new`, in order, whose destination `current` has with another
/// URL, branch, SHA1, tag or remotes: (destination, current entry, new entry).
pub open spec fn modified_repos(current: Seq<ManifestRepo>, new: Seq<ManifestRepo>) -> Seq<(Seq<char>, ManifestRepo, ManifestRepo)>
    decreases new.len(),
{
    if new.len() == 0 {
        Seq::empty()
    } else {
        let prev = modified_repos(current, new.drop_last());
        let n = new.last();
        match first_with_dest(current, n.dest@) {
            Some(c) => if repo_differs_spec(c, n) {
                prev.push((n.dest@, c, n))
            } else {
                prev
            },
            None => prev,
        }
    }
}

/// The deep views of a sequence of entries.
pub open spec fn repos_deep(s: Seq<ManifestRepo>) -> Seq<<ManifestRepo as DeepView>::V> {
    s.map_values(|r: ManifestRepo| r.deep_view())
}

/// A repository whose entry changes.
#[derive(Debug, Clone)]
pub struct ChangeDetail {
    /// Its destination
    pub dest: String,
    /// The current entry
    pub old_repo: Option<ManifestRepo>,
    /// The new entry
    pub new_repo: ManifestRepo,
}

impl DeepView for ChangeDetail {
    type V = (Seq<char>, Option<<ManifestRepo as DeepView>::V>, <ManifestRepo as DeepView>::V);

    open spec fn deep_view(&self) -> Self::V {
        (self.dest@, self.old_repo.deep_view(), self.new_repo.deep_view())
    }
}

/// The deep view of a change (destination, current entry, new entry).
pub open spec fn change_deep(c: (Seq<char>, ManifestRepo, ManifestRepo)) -> <ChangeDetail as DeepView>::V {
    (c.0, Some(c.1.deep_view()), c.2.deep_view())
}

/// The changes that a new manifest brings.
#[derive(Debug, Clone)]
pub struct ManifestChanges {
    /// Entries to add
    pub added: Vec<ManifestRepo>,
    /// Entries that change
    pub modified: Vec<ChangeDetail>,
    /// Entries to remove
    pub removed: Vec<ManifestRepo>,
}

impl ManifestChanges {
    /// There is nothing to add, change or remove.
    pub open spec fn empty_spec(&self) -> bool {
        self.added@.len() == 0 && self.modified@.len() == 0 && self.removed@.len() == 0
    }

    /// There is nothing to add, change or remove.
    pub fn is_empty(&self) -> (r: bool)
        ensures
            r == self.empty_spec(),
    {
        self.added.len() == 0 && self.modified.len() == 0 && self.removed.len() == 0
    }
}

/// What `apply-manifest` does once the changes are known.
#[derive(Debug, Clone, Copy, PartialEq, Eq, Structural)]
pub enum ApplyStep {
    /// There is nothing to apply
    NoChanges,
    /// The changes are only shown
    DryRun,
    /// The changes are refused without `--force`
    ForceRequired,
    /// The new manifest is written
    Apply,
}

/// The `apply-manifest` command.
#[derive(Debug, Clone)]
pub struct ApplyManifestCommand {
    /// Path of the new manifest
    pub manifest_file: String,
    /// Apply without confirmation
    pub force: bool,
    /// Only show what would change
    pub dry_run: bool,
    /// Verbose output
    pub verbose: bool,
}

impl ApplyManifestCommand {
    /// A command with the given settings.
    pub fn new(manifest_file: String, force: bool, dry_run: bool, verbose: bool) -> (r: Self)
        ensures
            r == (ApplyManifestCommand { manifest_file, force, dry_run, verbose }),
    {
        ApplyManifestCommand { manifest_file, force, dry_run, verbose }
    }

    /// Whether two entries of the same destination differ in URL, branch, SHA1, tag or remotes.
    pub fn repo_differs(&self, current: &ManifestRepo, new: &ManifestRepo) -> (r: bool)
        ensures
            r == repo_differs_spec(*current, *new),
    {
        !str_eq(current.url.as_str(), new.url.as_str())
            || !opt_text_eq(&current.branch, &new.branch)
            || !opt_text_eq(&current.sha1, &new.sha1)
            || !opt_text_eq(&current.tag, &new.tag)
            || !remotes_eq(&current.remotes, &new.remotes)
    }

    /// The changes from the current manifest (none when the workspace has none)
    /// to a new one, matching entries by destination: every entry of the new
    /// manifest is added when no current entry has its destination; it is
    /// modified when the first current entry with its destination differs from
    /// it; a current entry is removed when no new entry has its destination.
    pub fn analyze_manifest_changes(&self, current: Option<&Manifest>, new: &Manifest) -> (r: ManifestChanges)
        ensures
            match current {
                Some(c) => {
                    &&& r.added.deep_view() == repos_deep(added_repos(c.repos@, new.repos@))
                    &&& r.modified.deep_view() == modified_repos(c.repos@, new.repos@).map_values(
                        |x: (Seq<char>, ManifestRepo, ManifestRepo)| change_deep(x),
                    )
                    &&& r.removed.deep_view() == repos_deep(added_repos(new.repos@, c.repos@))
                },
                None => {
                    &&& r.added.deep_view() == repos_deep(new.repos@)
                    &&& r.modified@.len() == 0
                    &&& r.removed@.len() == 0
                },
            },
    {
        match current {
            None => {
                let added = new.repos.duplicate();
                assert(added.deep_view() =~= repos_deep(new.repos@));
                ManifestChanges { added, modified: Vec::new(), removed: Vec::new() }
            },
            Some(c) => {
                let added = new_entries(&c.repos, &new.repos);
                let removed = new_entries(&new.repos, &c.repos);
                let modified = self.changed_entries(c, new);
                ManifestChanges { added, modified, removed }
            },
        }
    }

    /// The entries of `new` whose destination the current manifest has with
    /// other contents.
    fn changed_entries(&self, current: &Manifest, new: &Manifest) -> (r: Vec<ChangeDetail>)
        ensures
            r.deep_view() == modified_repos(current.repos@, new.repos@).map_values(
                |x: (Seq<char>, ManifestRepo, ManifestRepo)| change_deep(x),
            ),
    {
        let ghost f = |x: (Seq<char>, ManifestRepo, ManifestRepo)| change_deep(x);
        let mut out: Vec<ChangeDetail> = Vec::new();
        let mut i: usize = 0;
        while i < new.repos.len()
            invariant
                i <= new.repos@.len(),
                f == (|x: (Seq<char>, ManifestRepo, ManifestRepo)| change_deep(x)),
                out.deep_view() == modified_repos(current.repos@, new.repos@.take(i as int)).map_values(f),
            decreases new.repos.len() - i,
        {
            let n = &new.repos[i];
            let ghost prefix = new.repos@.take(i + 1);
            assert(prefix.drop_last() =~= new.repos@.take(i as int));
            assert(prefix.last() == new.repos@[i as int]);
            let found = find_dest(&current.repos, n.dest.as_str());
            match found {
                Some(k) => {
                    let c = &current.repos[k];
                    if self.repo_differs(c, n) {
                        let d = ChangeDetail { dest: n.dest.clone(), old_repo: Some(c.duplicate()), new_repo: n.duplicate() };
                        let ghost before = out.deep_view();
                        out.push(d);
                        proof {
                            assert(out.deep_view() =~= before.push(d.deep_view()));
                            assert(out.deep_view() =~= modified_repos(current.repos@, prefix).map_values(f));
                        }
                    } else {
                        assert(out.deep_view() =~= modified_repos(current.repos@, prefix).map_values(f));
                    }
                },
                None => {
                    assert(out.deep_view() =~= modified_repos(current.repos@, prefix).map_values(f));
                },
            }
            i = i + 1;
        }
        assert(new.repos@.take(new.repos@.len() as int) =~= new.repos@);
        out
    }

    /// What to do with the changes: nothing when there are none, only show them
    /// in a dry run, refuse them without `--force`, else apply them.
    pub fn next_step(&self, changes: &ManifestChanges) -> (r: ApplyStep)
        ensures
            r == (if changes.empty_spec() {
                ApplyStep::NoChanges
            } else if self.dry_run {
                ApplyStep::DryRun
            } else if !self.force {
                ApplyStep::ForceRequired
            } else {
                ApplyStep::Apply
            }),
    {
        if changes.is_empty() {
            ApplyStep::NoChanges
        } else if self.dry_run {
            ApplyStep::DryRun
        } else if !self.force {
            ApplyStep::ForceRequired
        } else {
            ApplyStep::Apply
        }
    }

    /// The message of a refusal for want of `--force`.
    pub fn force_required_message() -> (r: String)
        ensures
            r@ == "Manifest changes detected. Use --force to apply changes or --dry-run to preview"@,
    {
        owned("Manifest changes detected. Use --force to apply changes or --dry-run to preview")
    }

    /// The message when the new manifest file does not exist.
    pub fn missing_manifest_message(&self) -> (r: String)
        ensures
            r@ == "Manifest file not found: "@ + self.manifest_file@,
    {
        cat2("Manifest file not found: ", self.manifest_file.as_str())
    }
}

/// The index of the first entry with destination `dest`.
fn find_dest(v: &Vec<ManifestRepo>, dest: &str) -> (r: Option<usize>)
    ensures
        match r {
            Some(k) => k < v@.len() && first_with_dest(v@, dest@) == Some(v@[k as int]),
            None => first_with_dest(v@, dest@) is None,
        },
{
    let mut i: usize = 0;
    while i < v.len()
        invariant
            i <= v@.len(),
            forall|j: int| 0 <= j < i ==> v@[j].dest@ != dest@,
        decreases v.len() - i,
    {
        if str_eq(v[i].dest.as_str(), dest) {
            proof { lemma_first_with_dest(v@, dest@, i as int); }
            return Some(i);
        }
        i = i + 1;
    }
    proof { lemma_first_with_dest(v@, dest@, v@.len() as int); }
    None
}

/// The entries of `new`, in order, whose destination `current` does not have.
fn new_entries(current: &Vec<ManifestRepo>, new: &Vec<ManifestRepo>) -> (r: Vec<ManifestRepo>)
    ensures
        r.deep_view() == repos_deep(added_repos(current@, new@)),
{
    let mut out: Vec<ManifestRepo> = Vec::new();
    let mut i: usize = 0;
    while i < new.len()
        invariant
            i <= new@.len(),
            out.deep_view() == repos_deep(added_repos(current@, new@.take(i as int))),
        decreases new.len() - i,
    {
        let n = &new[i];
        let ghost prefix = new@.take(i + 1);
        assert(prefix.drop_last() =~= new@.take(i as int));
        assert(prefix.last() == new@[i as int]);
        let ghost before = out.deep_view();
        if find_dest(current, n.dest.as_str()).is_none() {
            out.push(n.duplicate());
            assert(out.deep_view() =~= before.push(n.deep_view()));
        }
        assert(out.deep_view() =~= repos_deep(added_repos(current@, prefix)));
        i = i + 1;
    }
    assert(new@.take(new@.len() as int) =~= new@);
    out
}

/// No two entries share a destination.
pub open spec fn unique_dests(s: Seq<ManifestRepo>) -> bool {
    forall|i: int, j: int| 0 <= i < j < s.len() ==> s[i].dest@ != s[j].dest@
}

proof fn lemma_same_prefix(s: Seq<ManifestRepo>, n: int)
    requires
        unique_dests(s),
        0 <= n <= s.len(),
    ensures
        added_repos(s, s.take(n)).len() == 0,
        modified_repos(s, s.take(n)).len() == 0,
    decreases n,
{
    if n > 0 {
        lemma_same_prefix(s, n - 1);
        assert(s.take(n).drop_last() =~= s.take(n - 1));
        assert(s.take(n).last() == s[n - 1]);
        lemma_first_with_dest(s, s[n - 1].dest@, n - 1);
    }
}

/// A manifest set against itself brings nothing to add, change or remove, when
/// no two of its entries share a destination (as every manifest that passes
/// validation).
pub proof fn law_same_manifest_no_changes(m: Manifest)
    requires
        unique_dests(m.repos@),
    ensures
        added_repos(m.repos@, m.repos@).len() == 0,
        modified_repos(m.repos@, m.repos@).len() == 0,
{
    lemma_same_prefix(m.repos@, m.repos@.len() as int);
    assert(m.repos@.take(m.repos@.len() as int) =~= m.repos@);
}

/// The group filter of a command line: none when no group is named.
pub fn groups_filter(groups: &Vec<String>) -> (r: Option<Vec<String>>)
    ensures
        r.deep_view() == (if groups@.len() == 0 { None } else { Some(groups.deep_view()) }),
{
    if groups.len() == 0 {
        None
    } else {
        Some(groups.duplicate())
    }
}

/// The error text when the workspace at `path` has no manifest.
pub fn not_initialized_message(path: &str) -> (r: String)
    ensures
        r@ == "Workspace not initialized at: "@ + path@ + "\nManifest file not found"@,
{
    cat3("Workspace not initialized at: ", path, "\nManifest file not found")
}

/// The error text when no workspace is found above `dir`.
pub fn no_workspace_message(dir: &str) -> (r: String)
    ensures
        r@ == "No wmgr workspace found. Searched upward from "@ + dir@
            + " for wmgr.yml, wmgr.yaml, manifest.yml, or manifest.yaml files."@,
{
    cat3(
        "No wmgr workspace found. Searched upward from ",
        dir,
        " for wmgr.yml, wmgr.yaml, manifest.yml, or manifest.yaml files.",
    )
}

/// The error text when the workspace directory has no manifest file.
pub fn manifest_not_found_message() -> (r: String)
    ensures
        r@ == "Manifest file not found. Tried wmgr.yml, wmgr.yaml, manifest.yml, manifest.yaml in current directory and .wmgr/ subdirectory"@,
{
    owned("Manifest file not found. Tried wmgr.yml, wmgr.yaml, manifest.yml, manifest.yaml in current directory and .wmgr/ subdirectory")
}

/// The configuration of a workspace read from the manifest at `manifest_path`:
/// its URL is `file://` and the path, its branch the manifest's default branch
/// or `main`.
pub fn manifest_workspace_config(manifest_path: &str, default_branch: &Option<String>) -> (r: WorkspaceConfig)
    ensures
        r.manifest_url@ == "file://"@ + manifest_path@,
        r.manifest_branch@ == (match default_branch {
            Some(b) => b@,
            None => "main"@,
        }),
        !r.shallow_clones && !r.clone_all_repos && r.singular_remote is None,
        only_default_group(r.repo_groups@),
{
    let url = cat2("file://", manifest_path);
    match default_branch {
        Some(b) => WorkspaceConfig::new(url.as_str(), b.as_str()),
        None => WorkspaceConfig::new(url.as_str(), "main"),
    }
}

/// The `init` command.
#[derive(Debug, Clone)]
pub struct InitCommand {
    /// Directory of the new file (the current directory when `None`)
    pub path: Option<String>,
    /// Overwrite an existing file
    pub force: bool,
    /// Name the file `manifest.yaml` in place of `wmgr.yaml`
    pub use_manifest_name: bool,
}

/// The name of the file that `init` writes.
pub open spec fn init_file_name(use_manifest_name: bool) -> Seq<char> {
    if use_manifest_name { "manifest.yaml"@ } else { "wmgr.yaml"@ }
}

impl InitCommand {
    /// A command with the given settings.
    pub fn new(path: Option<String>, force: bool, use_manifest_name: bool) -> (r: Self)
        ensures
            r == (InitCommand { path, force, use_manifest_name }),
    {
        InitCommand { path, force, use_manifest_name }
    }

    /// The name of the file to write.
    pub fn file_name(&self) -> (r: &'static str)
        ensures
            r@ == init_file_name(self.use_manifest_name),
    {
        if self.use_manifest_name { "manifest.yaml" } else { "wmgr.yaml" }
    }

    /// The file to write: the file name under the chosen directory, or under
    /// `current_dir` when none was chosen.
    pub fn target_file(&self, current_dir: &str) -> (r: String)
        ensures
            r@ == path_join(
                match self.path {
                    Some(p) => p@,
                    None => current_dir@,
                },
                init_file_name(self.use_manifest_name),
            ),
    {
        let name = self.file_name();
        match &self.path {
            Some(p) => join(p.as_str(), name),
            None => join(current_dir, name),
        }
    }

    /// Whether the file may be written: not when it exists already and
    /// overwriting was not asked for.
    pub fn check_target(&self, target_file: &str, exists: bool) -> (r: Result<(), String>)
        ensures
            r is Err <==> exists && !self.force,
            r is Err ==> r->Err_0@ == "File "@ + target_file@ + " already exists. Use --force to overwrite."@,
    {
        if exists && !self.force {
            Err(cat3("File ", target_file, " already exists. Use --force to overwrite."))
        } else {
            Ok(())
        }
    }
}

/// The `sync` command.
#[derive(Debug, Clone)]
pub struct SyncCommand {
    /// Groups to synchronise (all when empty)
    pub groups: Vec<String>,
    /// Discard local changes
    pub force: bool,
    /// Do not switch branches
    pub no_correct_branch: bool,
    /// Number of parallel jobs
    pub jobs: Option<usize>,
    /// Verbose output
    pub verbose: bool,
    /// Do not synchronise child workspaces
    pub no_recursive: bool,
}

impl SyncCommand {
    /// A command with the given settings.
    pub fn new(
        groups: Vec<String>,
        force: bool,
        no_correct_branch: bool,
        jobs: Option<usize>,
        verbose: bool,
        no_recursive: bool,
    ) -> (r: Self)
        ensures
            r == (SyncCommand { groups, force, no_correct_branch, jobs, verbose, no_recursive }),
    {
        SyncCommand { groups, force, no_correct_branch, jobs, verbose, no_recursive }
    }

    /// The settings of the synchronisation that the command runs.
    pub fn config(&self) -> (r: SyncRepositoriesConfig)
        ensures
            r.groups.deep_view() == (if self.groups@.len() == 0 { None } else { Some(self.groups.deep_view()) }),
            r.force == self.force,
            r.no_correct_branch == self.no_correct_branch,
            r.parallel_jobs == self.jobs,
            r.verbose == self.verbose,
            r.recursive == !self.no_recursive,
    {
        SyncRepositoriesConfig {
            groups: groups_filter(&self.groups),
            force: self.force,
            no_correct_branch: self.no_correct_branch,
            parallel_jobs: self.jobs,
            verbose: self.verbose,
            recursive: !self.no_recursive,
        }
    }
}

/// The arguments of the `audit` command.
#[derive(Debug, Clone)]
pub struct AuditArgs {
    /// Groups to audit
    pub groups: Option<Vec<String>>,
    /// Audit in parallel
    pub parallel: bool,
    /// Largest number of parallel audits
    pub max_parallel: Option<usize>,
    /// Do not fail on vulnerabilities
    pub continue_on_vulnerabilities: bool,
    /// Verbose output
    pub verbose: bool,
    /// Workspace directory (the current directory when `None`)
    pub workspace_dir: Option<String>,
}

impl AuditArgs {
    /// The settings of the audit: the named groups (an empty list when none
    /// was named), parallelism as given, failure on critical or high
    /// vulnerabilities unless asked to go on.
    pub fn to_config(&self) -> (r: SecurityAuditConfig)
        ensures
            r.groups.deep_view() == Some(match self.groups {
                Some(g) => g.deep_view(),
                None => Seq::<Seq<char>>::empty(),
            }),
            r.parallel == self.parallel,
            r.max_parallel == self.max_parallel,
            r.fail_on_vulnerabilities == !self.continue_on_vulnerabilities,
            r.verbose == self.verbose,
    {
        let groups = match &self.groups {
            Some(g) => g.duplicate(),
            None => Vec::new(),
        };
        proof {
            if self.groups is None {
                assert(groups.deep_view() =~= Seq::<Seq<char>>::empty());
            }
        }
        SecurityAuditConfig::new()
            .with_groups(groups)
            .with_parallel(self.parallel, self.max_parallel)
            .with_fail_on_vulnerabilities(!self.continue_on_vulnerabilities)
            .with_verbose(self.verbose)
    }

    /// Whether the command fails after the audit: when critical or high
    /// vulnerabilities were found and it was not asked to go on.
    pub fn fails_after(&self, has_critical_or_high: bool) -> (r: bool)
        ensures
            r == (has_critical_or_high && !self.continue_on_vulnerabilities),
    {
        has_critical_or_high && !self.continue_on_vulnerabilities
    }
}

/// How messages are shown.
#[derive(Debug, Clone, Copy)]
pub struct DisplayHelper {
    /// Whether the output is coloured
    pub colored: bool,
}

impl DisplayHelper {
    /// A display with or without colours.
    pub fn new(colored: bool) -> (r: Self)
        ensures
            r.colored == colored,
    {
        DisplayHelper { colored }
    }
}

/// The `audit` command.
#[derive(Debug, Clone, Copy)]
pub struct AuditCommand {
    /// Its display
    pub display: DisplayHelper,
}

impl AuditCommand {
    /// A command with coloured output.
    pub fn new() -> (r: Self)
        ensures
            r.display.colored,
    {
        AuditCommand { display: DisplayHelper::new(true) }
    }
}

impl Default for AuditCommand {
    fn default() -> (r: Self)
        ensures
            r.display.colored,
    {
        AuditCommand::new()
    }
}

} // verus!
