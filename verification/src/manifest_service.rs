//! Processing manifests: validation, filtering by group, merging included manifests,
//! and the checks and messages of nested ("deep") manifests.
use crate::git_url::{describe, error_message, git_url_spec, ErrDesc, GitUrl, GitUrlError};
use crate::manifest::{derefs, group_names_dest, manifest_group, repos_in_group, Group, Manifest, ManifestRepo};
use crate::path::path_join;
use crate::text::{cat2, cat3, cat4, dec_digits, join_space, owned, starts_with, str_eq, str_starts_with, u64_to_string};
use crate::util::Duplicate;
use crate::workspace::{parent_path, parent_spec};
use vstd::prelude::*;

verus! {

broadcast use vstd::seq_lib::group_seq_properties;

/// Errors of manifest processing.
#[derive(Debug)]
pub enum ManifestServiceError {
    ParseError(String),
    ValidationError(String),
    YamlError(String),
    IoError(String),
    HttpError(String),
    GitUrlError(GitUrlError),
    GroupNotFound(String),
    CircularDependency(String),
    DepthLimitExceeded { max: usize, current: usize },
    RemoteManifestFetchFailed { url: String, reason: String },
    JsonError(String),
}

/// The `Display` text of an error.
pub open spec fn manifest_service_error_text(e: ManifestServiceError) -> Seq<char> {
    match e {
        ManifestServiceError::ParseError(m) => "Failed to parse manifest: "@ + m@,
        ManifestServiceError::ValidationError(m) => "Manifest validation failed: "@ + m@,
        ManifestServiceError::YamlError(m) => "Invalid YAML format: "@ + m@,
        ManifestServiceError::IoError(m) => "IO error: "@ + m@,
        ManifestServiceError::HttpError(m) => "HTTP request failed: "@ + m@,
        ManifestServiceError::GitUrlError(g) => "Invalid Git URL: "@ + error_message(g),
        ManifestServiceError::GroupNotFound(n) => "Group '"@ + n@ + "' not found in manifest"@,
        ManifestServiceError::CircularDependency(m) => "Circular dependency detected in manifest chain: "@ + m@,
        ManifestServiceError::DepthLimitExceeded { max, current } => "Deep manifest depth limit exceeded (max: "@
            + dec_digits(max as nat) + ", current: "@ + dec_digits(current as nat) + ")"@,
        ManifestServiceError::RemoteManifestFetchFailed { url, reason } => "Failed to fetch remote manifest from "@ + url@ + ": "@ + reason@,
        ManifestServiceError::JsonError(m) => "JSON serialization error: "@ + m@,
    }
}

impl ManifestServiceError {
    /// The message of the error (its `Display` text).
    pub fn to_string(&self) -> (r: String)
        ensures
            r@ == manifest_service_error_text(*self),
    {
        match self {
            ManifestServiceError::ParseError(m) => cat2("Failed to parse manifest: ", m.as_str()),
            ManifestServiceError::ValidationError(m) => cat2("Manifest validation failed: ", m.as_str()),
            ManifestServiceError::YamlError(m) => cat2("Invalid YAML format: ", m.as_str()),
            ManifestServiceError::IoError(m) => cat2("IO error: ", m.as_str()),
            ManifestServiceError::HttpError(m) => cat2("HTTP request failed: ", m.as_str()),
            ManifestServiceError::GitUrlError(g) => {
                let t = g.to_string();
                cat2("Invalid Git URL: ", t.as_str())
            },
            ManifestServiceError::GroupNotFound(n) => cat3("Group '", n.as_str(), "' not found in manifest"),
            ManifestServiceError::CircularDependency(m) => cat2("Circular dependency detected in manifest chain: ", m.as_str()),
            ManifestServiceError::DepthLimitExceeded { max, current } => {
                let a = u64_to_string(*max as u64);
                let b = u64_to_string(*current as u64);
                let mut r = cat4("Deep manifest depth limit exceeded (max: ", a.as_str(), ", current: ", b.as_str());
                r.append(")");
                r
            },
            ManifestServiceError::RemoteManifestFetchFailed { url, reason } => cat4("Failed to fetch remote manifest from ", url.as_str(), ": ", reason.as_str()),
            ManifestServiceError::JsonError(m) => cat2("JSON serialization error: ", m.as_str()),
        }
    }
}

/// Settings of nested manifest processing.
#[derive(Debug, Clone, Copy)]
pub struct ManifestProcessingOptions {
    /// Deepest nesting of included manifests
    pub max_depth: usize,
    /// Whether included manifests may be fetched
    pub enable_remote_fetch: bool,
    /// Whether inclusion cycles are detected
    pub detect_circular_dependencies: bool,
    /// Time limit of a fetch, in seconds
    pub timeout_seconds: u64,
}

impl Default for ManifestProcessingOptions {
    fn default() -> (r: Self)
        ensures
            r.max_depth == 10 && r.enable_remote_fetch && r.detect_circular_dependencies,
            r.timeout_seconds == 30,
    {
        ManifestProcessingOptions { max_depth: 10, enable_remote_fetch: true, detect_circular_dependencies: true, timeout_seconds: 30 }
    }
}

/// A manifest included by another.
#[derive(Debug, Clone)]
pub struct ManifestInclude {
    /// Where the manifest is
    pub url: String,
    /// Branch or revision of it
    pub revision: Option<String>,
    /// Only these groups of it
    pub groups: Option<Vec<String>>,
    /// Priority (higher wins)
    pub priority: i32,
}

/// A feature announced for removal.
#[derive(Debug, Clone)]
pub struct DeprecationWarning {
    pub feature: String,
    pub message: String,
    pub removal_version: Option<String>,
}

/// Settings for later versions of the manifest format.
#[derive(Debug, Clone)]
pub struct FutureManifestConfig {
    pub min_version: Option<String>,
    pub deprecated: Option<Vec<DeprecationWarning>>,
}

/// A manifest with the manifests it includes and its forward-looking settings.
#[derive(Debug, Clone)]
pub struct ExtendedManifest {
    pub manifest: Manifest,
    pub includes: Option<Vec<ManifestInclude>>,
    pub future: Option<FutureManifestConfig>,
}

/// The result of processing a manifest.
#[derive(Debug, Clone)]
pub struct ProcessedManifest {
    /// The manifest with its inclusions merged
    pub manifest: Manifest,
    /// Warnings met on the way
    pub warnings: Vec<String>,
    /// What was included
    pub includes: Vec<IncludeInfo>,
}

/// What one inclusion contributed.
#[derive(Debug, Clone)]
pub struct IncludeInfo {
    /// Where the included manifest was
    pub url: String,
    /// Revision used
    pub revision: String,
    /// Number of repositories taken from it
    pub repo_count: usize,
}

/// The warning of a deprecated feature.
pub open spec fn deprecation_text(d: DeprecationWarning) -> Seq<char> {
    match d.removal_version {
        Some(v) => "DEPRECATED: "@ + d.feature@ + " (will be removed in "@ + v@ + "): "@ + d.message@,
        None => "DEPRECATED: "@ + d.feature@ + ": "@ + d.message@,
    }
}

/// The warnings of forward-looking settings: the minimum version, then each
/// deprecation in order.
pub open spec fn future_warnings(c: FutureManifestConfig) -> Seq<Seq<char>> {
    (match c.min_version {
        Some(v) => seq!["Minimum version requirement: "@ + v@],
        None => Seq::empty(),
    }) + (match c.deprecated {
        Some(ds) => ds@.map_values(|d: DeprecationWarning| deprecation_text(d)),
        None => Seq::empty(),
    })
}

/// The location of an included manifest: URLs (`http://`, `https://`, `git@`) as they
/// are; other locations relative to the directory of the including manifest when it
/// has one.
pub open spec fn resolved_include(url: Seq<char>, base: Option<Seq<char>>) -> Seq<char> {
    if starts_with(url, "http://"@) || starts_with(url, "https://"@) || starts_with(url, "git@"@) {
        url
    } else {
        match base {
            Some(b) => match parent_spec(b) {
                Some(p) => path_join(p, url),
                None => url,
            },
            None => url,
        }
    }
}

/// The views of a list of texts.
pub open spec fn texts_view(s: Seq<String>) -> Seq<Seq<char>> {
    s.map_values(|x: String| x@)
}

/// Processing manifests.
pub struct ManifestService {
    options: ManifestProcessingOptions,
}

impl ManifestService {
    /// The processing settings.
    pub closed spec fn settings(self) -> ManifestProcessingOptions {
        self.options
    }

    /// A service with the given settings.
    pub fn new(options: ManifestProcessingOptions) -> (r: Self)
        ensures
            r.settings() == options,
    {
        ManifestService { options }
    }

    /// A service with the default settings.
    pub fn default() -> (r: Self)
        ensures
            r.settings().max_depth == 10 && r.settings().enable_remote_fetch,
            r.settings().detect_circular_dependencies && r.settings().timeout_seconds == 30,
    {
        Self::new(ManifestProcessingOptions::default())
    }

    /// The processing settings.
    pub fn options(&self) -> (r: ManifestProcessingOptions)
        ensures
            r == self.settings(),
    {
        self.options
    }

    /// The names of the groups, in manifest order.
    pub fn list_groups(&self, manifest: &Manifest) -> (r: Vec<String>)
        ensures
            texts_view(r@) == match manifest.groups {
                Some(gs) => gs@.map_values(|p: (String, Group)| p.0@),
                None => Seq::empty(),
            },
    {
        let mut out: Vec<String> = Vec::new();
        match &manifest.groups {
            Some(gs) => {
                let mut i: usize = 0;
                while i < gs.len()
                    invariant
                        i <= gs@.len(),
                        texts_view(out@) == gs@.subrange(0, i as int).map_values(|p: (String, Group)| p.0@),
                    decreases gs.len() - i,
                {
                    let ghost before = texts_view(out@);
                    out.push(gs[i].0.clone());
                    assert(texts_view(out@) =~= before.push(gs@[i as int].0@));
                    assert(gs@.subrange(0, i + 1).map_values(|p: (String, Group)| p.0@)
                        =~= gs@.subrange(0, i as int).map_values(|p: (String, Group)| p.0@).push(gs@[i as int].0@));
                    i = i + 1;
                }
                assert(gs@.subrange(0, gs@.len() as int) =~= gs@);
            },
            None => {
                assert(texts_view(out@) =~= Seq::<Seq<char>>::empty());
            },
        }
        out
    }

    /// A group and its repositories, in manifest order.
    pub fn get_group_info<'a>(&self, manifest: &'a Manifest, group_name: &str) -> (r: Option<(&'a Group, Vec<&'a ManifestRepo>)>)
        ensures
            match r {
                Some((g, rs)) => manifest_group(*manifest, group_name@) == Some(*g)
                    && derefs(rs@) == repos_in_group(*manifest, group_name@),
                None => manifest_group(*manifest, group_name@) is None,
            },
    {
        match manifest.get_group(group_name) {
            Some(g) => {
                let repos = manifest.get_repos_in_group(group_name);
                Some((g, repos))
            },
            None => None,
        }
    }

    /// The warnings of forward-looking settings (see `future_warnings`).
    pub fn process_future_config(&self, future_config: &FutureManifestConfig) -> (r: Vec<String>)
        ensures
            texts_view(r@) == future_warnings(*future_config),
    {
        let mut warnings: Vec<String> = Vec::new();
        if let Some(v) = &future_config.min_version {
            warnings.push(cat2("Minimum version requirement: ", v.as_str()));
        }
        let ghost head = texts_view(warnings@);
        if let Some(ds) = &future_config.deprecated {
            let mut i: usize = 0;
            while i < ds.len()
                invariant
                    i <= ds@.len(),
                    texts_view(warnings@) == head + ds@.subrange(0, i as int).map_values(|d: DeprecationWarning| deprecation_text(d)),
                decreases ds.len() - i,
            {
                let d = &ds[i];
                let w = match &d.removal_version {
                    Some(v) => {
                        let mut w = cat4("DEPRECATED: ", d.feature.as_str(), " (will be removed in ", v.as_str());
                        w.append("): ");
                        w.append(d.message.as_str());
                        w
                    },
                    None => cat4("DEPRECATED: ", d.feature.as_str(), ": ", d.message.as_str()),
                };
                let ghost before = texts_view(warnings@);
                warnings.push(w);
                assert(texts_view(warnings@) =~= before.push(deprecation_text(ds@[i as int])));
                assert(ds@.subrange(0, i + 1).map_values(|d: DeprecationWarning| deprecation_text(d))
                    =~= ds@.subrange(0, i as int).map_values(|d: DeprecationWarning| deprecation_text(d)).push(deprecation_text(ds@[i as int])));
                i = i + 1;
            }
            assert(ds@.subrange(0, ds@.len() as int) =~= ds@);
        }
        assert(texts_view(warnings@) =~= future_warnings(*future_config));
        warnings
    }

    /// The location of an included manifest (see `resolved_include`).
    pub fn resolve_include_url(&self, url: &str, base_path: Option<&str>) -> (r: Result<String, ManifestServiceError>)
        ensures
            r matches Ok(s) && s@ == resolved_include(url@, match base_path {
                Some(b) => Some(b@),
                None => None,
            }),
    {
        if str_starts_with(url, "http://") || str_starts_with(url, "https://") || str_starts_with(url, "git@") {
            return Ok(owned(url));
        }
        if let Some(base) = base_path {
            if let Some(parent) = parent_path(base) {
                return Ok(crate::path::join(parent.as_str(), url));
            }
        }
        Ok(owned(url))
    }

    /// Nesting deeper than the limit is refused.
    pub fn check_depth(&self, depth: usize) -> (r: Result<(), ManifestServiceError>)
        ensures
            match r {
                Ok(()) => depth <= self.settings().max_depth,
                Err(e) => depth > self.settings().max_depth && (e matches ManifestServiceError::DepthLimitExceeded { max, current }
                    && max == self.settings().max_depth && current == depth),
            },
    {
        if depth > self.options.max_depth {
            return Err(ManifestServiceError::DepthLimitExceeded { max: self.options.max_depth, current: depth });
        }
        Ok(())
    }

    /// Including a manifest already on the chain of inclusions is a cycle, when cycles
    /// are detected: the error shows the chain and the manifest.
    pub fn check_circular(&self, visited: &Vec<String>, include_url: &str) -> (r: Result<(), ManifestServiceError>)
        ensures
            match r {
                Ok(()) => !(self.settings().detect_circular_dependencies
                    && exists|i: int| 0 <= i < visited@.len() && (#[trigger] visited@[i])@ == include_url@),
                Err(e) => self.settings().detect_circular_dependencies
                    && (exists|i: int| 0 <= i < visited@.len() && (#[trigger] visited@[i])@ == include_url@)
                    && (e matches ManifestServiceError::CircularDependency(m)
                        && m@ == "Circular dependency detected: "@ + join_arrows(texts_view(visited@)) + " -> "@ + include_url@),
            },
    {
        if !self.options.detect_circular_dependencies {
            return Ok(());
        }
        let mut i: usize = 0;
        let mut found = false;
        while i < visited.len()
            invariant
                i <= visited@.len(),
                found ==> exists|k: int| 0 <= k < visited@.len() && (#[trigger] visited@[k])@ == include_url@,
                !found ==> forall|k: int| 0 <= k < i ==> (#[trigger] visited@[k])@ != include_url@,
            decreases visited.len() - i,
        {
            if str_eq(visited[i].as_str(), include_url) {
                found = true;
            }
            i = i + 1;
        }
        if found {
            let chain = join_arrows_exec(visited);
            return Err(ManifestServiceError::CircularDependency(cat4("Circular dependency detected: ", chain.as_str(), " -> ", include_url)));
        }
        Ok(())
    }

    /// What an inclusion contributed: its location, its revision (`HEAD` by default),
    /// and the number of repositories taken.
    pub fn include_info(inclusion: &ManifestInclude, include_url: &str, repo_count: usize) -> (r: IncludeInfo)
        ensures
            r.url@ == include_url@ && r.repo_count == repo_count,
            r.revision@ == match inclusion.revision {
                Some(v) => v@,
                None => "HEAD"@,
            },
    {
        IncludeInfo {
            url: owned(include_url),
            revision: match &inclusion.revision {
                Some(v) => v.clone(),
                None => owned("HEAD"),
            },
            repo_count,
        }
    }

    /// The error when fetching is disabled.
    pub fn fetch_disabled(url: &str) -> (r: ManifestServiceError)
        ensures
            r matches ManifestServiceError::RemoteManifestFetchFailed { url: u, reason }
                && u@ == url@ && reason@ == "Remote fetch is disabled"@,
    {
        ManifestServiceError::RemoteManifestFetchFailed { url: owned(url), reason: owned("Remote fetch is disabled") }
    }
}


/// What makes a manifest invalid.
pub enum ManifestProblem {
    /// A destination used by an earlier entry
    DuplicateDest(Seq<char>),
    /// An entry whose URL is refused, with the description of the refusal
    BadUrl(ErrDesc),
    /// A group naming a destination no entry has
    MissingGroupRepo(Seq<char>, Seq<char>),
}

/// Some entry among the first `k` has the destination `d`.
pub open spec fn dest_among(repos: Seq<ManifestRepo>, k: int, d: Seq<char>) -> bool {
    exists|j: int| 0 <= j < k && (#[trigger] repos[j]).dest@ == d
}

/// The first problem of the entries from index `k` on, checked entry by entry: a
/// destination repeated from an earlier entry, else a refused URL.
pub open spec fn repo_problem_from(repos: Seq<ManifestRepo>, k: int) -> Option<ManifestProblem>
    decreases repos.len() - k,
{
    if k < 0 || k >= repos.len() {
        None
    } else if dest_among(repos, k, repos[k].dest@) {
        Some(ManifestProblem::DuplicateDest(repos[k].dest@))
    } else {
        match git_url_spec(repos[k].url@) {
            Err(e) => Some(ManifestProblem::BadUrl(e)),
            Ok(_) => repo_problem_from(repos, k + 1),
        }
    }
}

/// The first destination of a group, from index `k` on, that no entry has.
pub open spec fn missing_dest_from(g: Group, repos: Seq<ManifestRepo>, k: int) -> Option<Seq<char>>
    decreases g.repos@.len() - k,
{
    if k < 0 || k >= g.repos@.len() {
        None
    } else if !dest_among(repos, repos.len() as int, g.repos@[k]@) {
        Some(g.repos@[k]@)
    } else {
        missing_dest_from(g, repos, k + 1)
    }
}

/// The first group, from index `k` on, naming a destination no entry has.
pub open spec fn group_problem_from(groups: Seq<(String, Group)>, repos: Seq<ManifestRepo>, k: int) -> Option<ManifestProblem>
    decreases groups.len() - k,
{
    if k < 0 || k >= groups.len() {
        None
    } else {
        match missing_dest_from(groups[k].1, repos, 0) {
            Some(d) => Some(ManifestProblem::MissingGroupRepo(groups[k].0@, d)),
            None => group_problem_from(groups, repos, k + 1),
        }
    }
}

/// The first problem of a manifest: its entries in order, then its groups in order.
pub open spec fn manifest_problem(m: Manifest) -> Option<ManifestProblem> {
    match repo_problem_from(m.repos@, 0) {
        Some(p) => Some(p),
        None => match m.groups {
            Some(gs) => group_problem_from(gs@, m.repos@, 0),
            None => None,
        },
    }
}

/// The error reporting a problem.
pub open spec fn problem_error(p: ManifestProblem, e: ManifestServiceError) -> bool {
    match p {
        ManifestProblem::DuplicateDest(d) => e matches ManifestServiceError::ValidationError(m)
            && m@ == "Duplicate destination path: "@ + d,
        ManifestProblem::BadUrl(desc) => e matches ManifestServiceError::GitUrlError(g) && describe(g) == desc,
        ManifestProblem::MissingGroupRepo(name, d) => e matches ManifestServiceError::ValidationError(m)
            && m@ == "Group '"@ + name + "' references non-existent repository: "@ + d,
    }
}

/// Whether some entry has the destination `d`.
fn has_dest_exec(repos: &Vec<ManifestRepo>, d: &str) -> (r: bool)
    ensures
        r == dest_among(repos@, repos@.len() as int, d@),
{
    let mut j: usize = 0;
    while j < repos.len()
        invariant
            j <= repos@.len(),
            forall|k: int| 0 <= k < j ==> (#[trigger] repos@[k]).dest@ != d@,
        decreases repos.len() - j,
    {
        if str_eq(repos[j].dest.as_str(), d) {
            return true;
        }
        j = j + 1;
    }
    false
}

impl ManifestService {
    /// Check a manifest (see `manifest_problem`): destinations are unique, URLs are
    /// accepted, and groups name existing entries.
    pub fn validate_manifest(&self, manifest: &Manifest) -> (r: Result<(), ManifestServiceError>)
        ensures
            match r {
                Ok(()) => manifest_problem(*manifest) is None,
                Err(e) => manifest_problem(*manifest) matches Some(p) && problem_error(p, e),
            },
    {
        let repos = &manifest.repos;
        let mut i: usize = 0;
        while i < repos.len()
            invariant
                i <= repos@.len(),
                repos@ == manifest.repos@,
                repo_problem_from(repos@, 0) == repo_problem_from(repos@, i as int),
            decreases repos.len() - i,
        {
            let mut j: usize = 0;
            let mut dup = false;
            while j < i && !dup
                invariant
                    j <= i < repos@.len(),
                    dup ==> dest_among(repos@, i as int, repos@[i as int].dest@),
                    !dup ==> forall|k: int| 0 <= k < j ==> (#[trigger] repos@[k]).dest@ != repos@[i as int].dest@,
                decreases (i - j) * 2 + (if dup { 0int } else { 1int }),
            {
                if str_eq(repos[j].dest.as_str(), repos[i].dest.as_str()) {
                    dup = true;
                } else {
                    j = j + 1;
                }
            }
            if dup {
                let m = cat2("Duplicate destination path: ", repos[i].dest.as_str());
                return Err(ManifestServiceError::ValidationError(m));
            }
            match GitUrl::new(repos[i].url.as_str()) {
                Err(e) => {
                    return Err(ManifestServiceError::GitUrlError(e));
                },
                Ok(_) => {},
            }
            i = i + 1;
        }
        if let Some(groups) = &manifest.groups {
            let mut g: usize = 0;
            while g < groups.len()
                invariant
                    g <= groups@.len(),
                    repos@ == manifest.repos@,
                    manifest.groups == Some(*groups),
                    repo_problem_from(repos@, 0) is None,
                    group_problem_from(groups@, repos@, 0) == group_problem_from(groups@, repos@, g as int),
                decreases groups.len() - g,
            {
                let group = &groups[g].1;
                let mut k: usize = 0;
                while k < group.repos.len()
                    invariant
                        k <= group.repos@.len(),
                        g < groups@.len(),
                        *group == groups@[g as int].1,
                        repos@ == manifest.repos@,
                        manifest.groups == Some(*groups),
                        repo_problem_from(repos@, 0) is None,
                        group_problem_from(groups@, repos@, 0) == group_problem_from(groups@, repos@, g as int),
                        missing_dest_from(*group, repos@, 0) == missing_dest_from(*group, repos@, k as int),
                    decreases group.repos.len() - k,
                {
                    if !has_dest_exec(repos, group.repos[k].as_str()) {
                        let m = cat4("Group '", groups[g].0.as_str(), "' references non-existent repository: ", group.repos[k].as_str());
                        return Err(ManifestServiceError::ValidationError(m));
                    }
                    k = k + 1;
                }
                g = g + 1;
            }
        }
        Ok(())
    }
}


/// The entries of a merge: those of the base, then each included entry whose
/// destination is not taken yet, in order.
pub open spec fn merged_repos(base: Seq<ManifestRepo>, extra: Seq<ManifestRepo>) -> Seq<ManifestRepo>
    decreases extra.len(),
{
    if extra.len() == 0 {
        base
    } else {
        let m = merged_repos(base, extra.drop_last());
        if dest_among(m, m.len() as int, extra.last().dest@) {
            m
        } else {
            m.push(extra.last())
        }
    }
}

/// The view of a named group.
pub type GroupEntryView = (Seq<char>, (Seq<Seq<char>>, Option<Seq<char>>));

/// The destinations of `existing` followed by those of `added` it lacks, in order, each
/// taken once.
pub open spec fn add_missing(existing: Seq<Seq<char>>, added: Seq<Seq<char>>) -> Seq<Seq<char>>
    decreases added.len(),
{
    if added.len() == 0 {
        existing
    } else {
        let m = add_missing(existing, added.drop_last());
        if m.contains(added.last()) {
            m
        } else {
            m.push(added.last())
        }
    }
}

/// `i` is the index of the first group named `name`.
pub open spec fn first_group_index(gs: Seq<GroupEntryView>, name: Seq<char>, i: int) -> bool {
    0 <= i < gs.len() && gs[i].0 == name && forall|j: int| 0 <= j < i ==> gs[j].0 != name
}

/// The groups of a merge: each included group adds its missing destinations to the
/// first base group of its name (keeping that group's description), or is appended.
pub open spec fn merged_groups(base: Seq<GroupEntryView>, extra: Seq<GroupEntryView>) -> Seq<GroupEntryView>
    decreases extra.len(),
{
    if extra.len() == 0 {
        base
    } else {
        let m = merged_groups(base, extra.drop_last());
        let (name, g) = extra.last();
        if exists|i: int| first_group_index(m, name, i) {
            let i = choose|i: int| first_group_index(m, name, i);
            m.update(i, (m[i].0, (add_missing(m[i].1.0, g.0), m[i].1.1)))
        } else {
            m.push((name, g))
        }
    }
}

/// Whether the texts include one equal to `d`.
fn texts_contain(v: &Vec<String>, d: &str) -> (r: bool)
    ensures
        r == texts_view(v@).contains(d@),
{
    let mut j: usize = 0;
    while j < v.len()
        invariant
            j <= v@.len(),
            forall|k: int| 0 <= k < j ==> (#[trigger] v@[k])@ != d@,
        decreases v.len() - j,
    {
        if str_eq(v[j].as_str(), d) {
            assert(texts_view(v@)[j as int] == d@);
            return true;
        }
        j = j + 1;
    }
    proof {
        if texts_view(v@).contains(d@) {
            let k = choose|k: int| 0 <= k < texts_view(v@).len() && texts_view(v@)[k] == d@;
            assert(v@[k]@ == d@);
        }
    }
    false
}

/// `existing` with the destinations of `added` it lacks (see `add_missing`).
fn add_missing_exec(existing: &Vec<String>, added: &Vec<String>) -> (r: Vec<String>)
    ensures
        texts_view(r@) == add_missing(texts_view(existing@), texts_view(added@)),
{
    let mut out = existing.duplicate();
    proof {
        lemma_texts_deep(out, *existing);
    }
    let ghost ex = texts_view(existing@);
    let ghost ad = texts_view(added@);
    let mut i: usize = 0;
    assert(ad.subrange(0, 0) =~= Seq::<Seq<char>>::empty());
    while i < added.len()
        invariant
            i <= added@.len(),
            ad == texts_view(added@),
            texts_view(out@) == add_missing(ex, ad.subrange(0, i as int)),
        decreases added.len() - i,
    {
        assert(ad.subrange(0, i + 1).drop_last() =~= ad.subrange(0, i as int));
        assert(ad.subrange(0, i + 1).last() == added@[i as int]@);
        if !texts_contain(&out, added[i].as_str()) {
            let ghost before = texts_view(out@);
            out.push(added[i].clone());
            assert(texts_view(out@) =~= before.push(added@[i as int]@));
        }
        i = i + 1;
    }
    assert(ad.subrange(0, ad.len() as int) =~= ad);
    out
}

/// The view of a group: its destinations and description.
pub open spec fn group_view(g: Group) -> (Seq<Seq<char>>, Option<Seq<char>>) {
    (texts_view(g.repos@), match g.description {
        Some(d) => Some(d@),
        None => None,
    })
}

/// The views of named groups.
pub open spec fn groups_view(gs: Seq<(String, Group)>) -> Seq<GroupEntryView> {
    gs.map_values(|p: (String, Group)| (p.0@, group_view(p.1)))
}

/// Vectors of texts with equal deep views have equal views.
proof fn lemma_texts_deep(a: Vec<String>, b: Vec<String>)
    requires
        a.deep_view() == b.deep_view(),
    ensures
        texts_view(a@) == texts_view(b@),
{
    assert(a.deep_view().len() == b.deep_view().len());
    assert(a.deep_view().len() == a@.len());
    assert(b.deep_view().len() == b@.len());
    assert forall|k: int| 0 <= k < a@.len() implies texts_view(a@)[k] == texts_view(b@)[k] by {
        assert(a.deep_view()[k] == b.deep_view()[k]);
        assert(a.deep_view()[k] == a@[k].deep_view());
        assert(b.deep_view()[k] == b@[k].deep_view());
    }
    assert(texts_view(a@) =~= texts_view(b@));
}

/// Groups with equal deep views have equal views.
proof fn lemma_group_deep(a: Group, b: Group)
    requires
        a.deep_view() == b.deep_view(),
    ensures
        group_view(a) == group_view(b),
{
    lemma_texts_deep(a.repos, b.repos);
}

impl ManifestService {
    /// Merge an included manifest into a base manifest (see `merged_repos` and
    /// `merged_groups`); the base's default branch wins when it has one. The priority
    /// is accepted but plays no part yet.
    pub fn merge_manifests(&self, base: Manifest, included: Manifest, priority: i32) -> (r: Result<Manifest, ManifestServiceError>)
        ensures
            r matches Ok(m) && m.repos@ == merged_repos(base.repos@, included.repos@)
                && (match included.groups {
                    Some(ig) => m.groups matches Some(mg) && groups_view(mg@) == merged_groups(match base.groups {
                        Some(bg) => groups_view(bg@),
                        None => Seq::empty(),
                    }, groups_view(ig@)),
                    None => m.groups == base.groups,
                })
                && m.default_branch == (match base.default_branch {
                    Some(b) => Some(b),
                    None => included.default_branch,
                })
                && m.default_scm == base.default_scm,
            r matches Ok(m) && (included.groups matches Some(ig) ==> (m.groups matches Some(mg) && {
                let bg = optional_groups_view(base.groups);
                &&& keeps_base_groups(bg, groups_view(mg@))
                &&& lists_included_destinations(groups_view(mg@), groups_view(ig@))
                &&& base_groups_take_included(bg, groups_view(mg@), groups_view(ig@))
            })),
    {
        proof {
            if included.groups is Some {
                law_merged_groups_keep_and_add(optional_groups_view(base.groups), groups_view(included.groups->0@));
            }
        }
        let Manifest { repos: base_repos, groups: base_groups, default_branch: base_branch, default_scm } = base;
        let Manifest { repos: extra_repos, groups: extra_groups, default_branch: extra_branch, default_scm: _ } = included;
        let mut repos = base_repos;
        let ghost b = repos@;
        let ghost ex = extra_repos@;
        let mut rest = extra_repos;
        let mut n: usize = 0;
        let total = rest.len();
        assert(ex.subrange(0, 0) =~= Seq::<ManifestRepo>::empty());
        while rest.len() > 0
            invariant
                total == ex.len(),
                n + rest@.len() == ex.len(),
                rest@ == ex.subrange(n as int, ex.len() as int),
                repos@ == merged_repos(b, ex.subrange(0, n as int)),
            decreases rest.len(),
        {
            assert(rest@[0] == ex[n as int]);
            let repo = rest.remove(0);
            assert(rest@ =~= ex.subrange(n + 1, ex.len() as int));
            assert(ex.subrange(0, n + 1).drop_last() =~= ex.subrange(0, n as int));
            assert(ex.subrange(0, n + 1).last() == repo);
            if !has_dest_exec(&repos, repo.dest.as_str()) {
                repos.push(repo);
            }
            n = n + 1;
        }
        assert(ex.subrange(0, ex.len() as int) =~= ex);
        let groups = match extra_groups {
            Some(eg) => {
                let mut merged = match base_groups {
                    Some(bg) => bg,
                    None => Vec::new(),
                };
                let ghost start = groups_view(merged@);
                assert(start =~= (match base.groups {
                    Some(bg) => groups_view(bg@),
                    None => Seq::empty(),
                }));
                let ghost egv = groups_view(eg@);
                let mut k: usize = 0;
                assert(egv.subrange(0, 0) =~= Seq::<GroupEntryView>::empty());
                while k < eg.len()
                    invariant
                        k <= eg@.len(),
                        egv == groups_view(eg@),
                        groups_view(merged@) == merged_groups(start, egv.subrange(0, k as int)),
                    decreases eg.len() - k,
                {
                    assert(egv.subrange(0, k + 1).drop_last() =~= egv.subrange(0, k as int));
                    assert(egv.subrange(0, k + 1).last() == egv[k as int]);
                    let ghost mv = groups_view(merged@);
                    let name = &eg[k].0;
                    let mut i: usize = 0;
                    let mut found = false;
                    while i < merged.len() && !found
                        invariant
                            i <= merged@.len(),
                            mv == groups_view(merged@),
                            found ==> i < merged@.len() && first_group_index(mv, name@, i as int),
                            !found ==> forall|j: int| 0 <= j < i ==> mv[j].0 != name@,
                        decreases (merged@.len() - i) * 2 + (if found { 0int } else { 1int }),
                    {
                        if str_eq(merged[i].0.as_str(), name.as_str()) {
                            found = true;
                        } else {
                            i = i + 1;
                        }
                    }
                    if found {
                        let new_repos = add_missing_exec(&merged[i].1.repos, &eg[k].1.repos);
                        let description = merged[i].1.description.duplicate();
                        let entry = (merged[i].0.clone(), Group { repos: new_repos, description });
                        assert(group_view(entry.1) == (add_missing(mv[i as int].1.0, egv[k as int].1.0), mv[i as int].1.1));
                        proof {
                            let c = choose|c: int| first_group_index(mv, name@, c);
                            if c < i {
                                assert(mv[c].0 != name@);
                            }
                            if i < c {
                                assert(mv[i as int].0 != name@);
                            }
                        }
                        merged.set(i, entry);
                        assert(groups_view(merged@) =~= mv.update(i as int, (mv[i as int].0, (add_missing(mv[i as int].1.0, egv[k as int].1.0), mv[i as int].1.1))));
                    } else {
                        proof {
                            if exists|c: int| first_group_index(mv, name@, c) {
                                let c = choose|c: int| first_group_index(mv, name@, c);
                                assert(mv[c].0 == name@);
                            }
                        }
                        let g2 = eg[k].1.duplicate();
                        proof {
                            lemma_group_deep(g2, eg@[k as int].1);
                        }
                        merged.push((eg[k].0.clone(), g2));
                        assert(groups_view(merged@) =~= mv.push(egv[k as int]));
                    }
                    k = k + 1;
                }
                assert(egv.subrange(0, egv.len() as int) =~= egv);
                Some(merged)
            },
            None => base_groups,
        };
        let default_branch = match base_branch {
            Some(b) => Some(b),
            None => extra_branch,
        };
        Ok(Manifest { repos, groups, default_branch, default_scm })
    }
}


/// The destinations of entries.
pub open spec fn dests(s: Seq<ManifestRepo>) -> Seq<Seq<char>> {
    s.map_values(|r: ManifestRepo| r.dest@)
}

/// `acc` followed by the entries of `rs` whose destination is not taken yet, in order.
pub open spec fn add_unique_repos(acc: Seq<ManifestRepo>, rs: Seq<ManifestRepo>) -> Seq<ManifestRepo>
    decreases rs.len(),
{
    if rs.len() == 0 {
        acc
    } else {
        let m = add_unique_repos(acc, rs.drop_last());
        if dests(m).contains(rs.last().dest@) {
            m
        } else {
            m.push(rs.last())
        }
    }
}

/// What filtering a manifest by group names gives: the manifest as it is for no
/// names; else the error for the first name whose group has no entries, or the
/// collected entries, their groups, the default branch and no default SCM type.
pub open spec fn filter_outcome(manifest: Manifest, names: Seq<String>, r: Result<Manifest, ManifestServiceError>) -> bool {
    &&& (names.len() == 0 ==> (r matches Ok(f) && f.deep_view() == manifest.deep_view()))
    &&& (names.len() > 0 ==> match r {
        Err(e) => exists|i: int| first_empty_group(manifest, names, i)
            && (e matches ManifestServiceError::GroupNotFound(n) && n@ == names[i]@),
        Ok(f) => {
            let kept = collected_repos(manifest, names);
            let fg = filtered_groups(manifest, names, dests(kept));
            &&& forall|i: int| 0 <= i < names.len() ==> repos_in_group(manifest, (#[trigger] names[i])@).len() > 0
            &&& crate::foreach_command::repos_view(f.repos@) == crate::foreach_command::repos_view(kept)
            &&& dests(f.repos@) == dests(kept)
            &&& (if fg.len() > 0 { f.groups matches Some(g) && groups_view(g@) == fg } else { f.groups is None })
            &&& f.default_branch.deep_view() == manifest.default_branch.deep_view()
            &&& f.default_scm is None
        },
    })
}

/// The entries of the named groups, group after group in the order given, each
/// destination taken once.
pub open spec fn collected_repos(m: Manifest, names: Seq<String>) -> Seq<ManifestRepo>
    decreases names.len(),
{
    if names.len() == 0 {
        Seq::empty()
    } else {
        add_unique_repos(collected_repos(m, names.drop_last()), repos_in_group(m, names.last()@))
    }
}

/// Set the group `name` to `g`: replace the first group of that name, or append.
pub open spec fn put_group(gs: Seq<GroupEntryView>, name: Seq<char>, g: (Seq<Seq<char>>, Option<Seq<char>>)) -> Seq<GroupEntryView> {
    if exists|i: int| first_group_index(gs, name, i) {
        let i = choose|i: int| first_group_index(gs, name, i);
        gs.update(i, (name, g))
    } else {
        gs.push((name, g))
    }
}

/// The destinations of a group that are among `kept`, in order.
pub open spec fn kept_dests(g: Group, kept: Seq<Seq<char>>) -> Seq<Seq<char>> {
    texts_view(g.repos@).filter(|d: Seq<char>| kept.contains(d))
}

/// The groups of a filtered manifest: for each name given, in order, its group with
/// only the kept destinations, when some are kept.
pub open spec fn filtered_groups(m: Manifest, names: Seq<String>, kept: Seq<Seq<char>>) -> Seq<GroupEntryView>
    decreases names.len(),
{
    if names.len() == 0 {
        Seq::empty()
    } else {
        let acc = filtered_groups(m, names.drop_last(), kept);
        match manifest_group(m, names.last()@) {
            Some(g) => if kept_dests(g, kept).len() > 0 {
                put_group(acc, names.last()@, (kept_dests(g, kept), group_view(g).1))
            } else {
                acc
            },
            None => acc,
        }
    }
}

/// `i` is the first name given whose group has no entries in the manifest.
pub open spec fn first_empty_group(m: Manifest, names: Seq<String>, i: int) -> bool {
    0 <= i < names.len() && repos_in_group(m, names[i]@).len() == 0
        && forall|j: int| 0 <= j < i ==> repos_in_group(m, names[j]@).len() > 0
}

/// Whether some entry has the destination `d`.
fn dests_contain(repos: &Vec<ManifestRepo>, d: &str) -> (r: bool)
    ensures
        r == dests(repos@).contains(d@),
{
    let mut j: usize = 0;
    while j < repos.len()
        invariant
            j <= repos@.len(),
            forall|k: int| 0 <= k < j ==> (#[trigger] repos@[k]).dest@ != d@,
        decreases repos.len() - j,
    {
        if str_eq(repos[j].dest.as_str(), d) {
            assert(dests(repos@)[j as int] == d@);
            return true;
        }
        j = j + 1;
    }
    proof {
        if dests(repos@).contains(d@) {
            let k = choose|k: int| 0 <= k < dests(repos@).len() && dests(repos@)[k] == d@;
            assert(repos@[k].dest@ == d@);
        }
    }
    false
}

/// The index of the first group named `name`.
fn find_group_index(gs: &Vec<(String, Group)>, name: &str) -> (r: Option<usize>)
    ensures
        match r {
            Some(i) => first_group_index(groups_view(gs@), name@, i as int),
            None => !exists|i: int| first_group_index(groups_view(gs@), name@, i),
        },
{
    let ghost gv = groups_view(gs@);
    let mut i: usize = 0;
    while i < gs.len()
        invariant
            i <= gs@.len(),
            gv == groups_view(gs@),
            forall|j: int| 0 <= j < i ==> gv[j].0 != name@,
        decreases gs.len() - i,
    {
        if str_eq(gs[i].0.as_str(), name) {
            return Some(i);
        }
        i = i + 1;
    }
    proof {
        if exists|c: int| first_group_index(gv, name@, c) {
            let c = choose|c: int| first_group_index(gv, name@, c);
            assert(gv[c].0 == name@);
        }
    }
    None
}

impl ManifestService {
    /// The manifest restricted to the named groups: their entries (see
    /// `collected_repos`), their groups with only those entries (see
    /// `filtered_groups`), and the default branch; with no names, the manifest as it
    /// is. A name whose group has no entries is an error.
    pub fn filter_by_groups(&self, manifest: &Manifest, group_names: &[String]) -> (r: Result<Manifest, ManifestServiceError>)
        ensures
            group_names@.len() == 0 ==> (r matches Ok(f) && f.deep_view() == manifest.deep_view()),
            group_names@.len() > 0 ==> match r {
                Err(e) => exists|i: int| first_empty_group(*manifest, group_names@, i)
                    && (e matches ManifestServiceError::GroupNotFound(n) && n@ == group_names@[i]@),
                Ok(f) => {
                    let kept = collected_repos(*manifest, group_names@);
                    let fg = filtered_groups(*manifest, group_names@, dests(kept));
                    &&& forall|i: int| 0 <= i < group_names@.len() ==> repos_in_group(*manifest, (#[trigger] group_names@[i])@).len() > 0
                    &&& crate::foreach_command::repos_view(f.repos@) == crate::foreach_command::repos_view(kept)
                    &&& dests(f.repos@) == dests(kept)
                    &&& (if fg.len() > 0 { f.groups matches Some(g) && groups_view(g@) == fg } else { f.groups is None })
                    &&& f.default_branch.deep_view() == manifest.default_branch.deep_view()
                    &&& f.default_scm is None
                },
            },
            filter_outcome(*manifest, group_names@, r),
    {
        if group_names.len() == 0 {
            return Ok(manifest.duplicate());
        }
        let ghost names = group_names@;
        let mut out: Vec<ManifestRepo> = Vec::new();
        let mut n: usize = 0;
        assert(names.subrange(0, 0) =~= Seq::<String>::empty());
        while n < group_names.len()
            invariant
                n <= names.len(),
                names == group_names@,
                forall|j: int| 0 <= j < n ==> repos_in_group(*manifest, (#[trigger] names[j])@).len() > 0,
                crate::foreach_command::repos_view(out@) == crate::foreach_command::repos_view(collected_repos(*manifest, names.subrange(0, n as int))),
                dests(out@) == dests(collected_repos(*manifest, names.subrange(0, n as int))),
            decreases group_names.len() - n,
        {
            let rs = manifest.get_repos_in_group(group_names[n].as_str());
            if rs.len() == 0 {
                assert(first_empty_group(*manifest, names, n as int));
                return Err(ManifestServiceError::GroupNotFound(group_names[n].clone()));
            }
            proof {
                assert(names.subrange(0, n + 1).drop_last() =~= names.subrange(0, n as int));
                assert(names.subrange(0, n + 1).last() == names[n as int]);
            }
            let ghost acc0 = collected_repos(*manifest, names.subrange(0, n as int));
            let ghost rv = derefs(rs@);
            let mut k: usize = 0;
            assert(rv.subrange(0, 0) =~= Seq::<ManifestRepo>::empty());
            while k < rs.len()
                invariant
                    k <= rs@.len(),
                    rv == derefs(rs@),
                    crate::foreach_command::repos_view(out@) == crate::foreach_command::repos_view(add_unique_repos(acc0, rv.subrange(0, k as int))),
                    dests(out@) == dests(add_unique_repos(acc0, rv.subrange(0, k as int))),
                decreases rs.len() - k,
            {
                proof {
                    assert(rv.subrange(0, k + 1).drop_last() =~= rv.subrange(0, k as int));
                    assert(rv.subrange(0, k + 1).last() == *rs@[k as int]);
                }
                if !dests_contain(&out, rs[k].dest.as_str()) {
                    let c = rs[k].duplicate();
                    let ghost before = out@;
                    let ghost spec_before = add_unique_repos(acc0, rv.subrange(0, k as int));
                    out.push(c);
                    proof {
                        let x = *rs@[k as int];
                        assert(c.deep_view() == x.deep_view());
                        assert(c.dest@ == x.dest@);
                        assert(out@ == before.push(c));
                        assert(crate::foreach_command::repos_view(out@) =~= crate::foreach_command::repos_view(before).push(c.deep_view()));
                        assert(crate::foreach_command::repos_view(spec_before.push(x)) =~= crate::foreach_command::repos_view(spec_before).push(x.deep_view()));
                        assert(dests(out@) =~= dests(before).push(c.dest@));
                        assert(dests(spec_before.push(x)) =~= dests(spec_before).push(x.dest@));
                    }
                }
                k = k + 1;
            }
            assert(rv.subrange(0, rv.len() as int) =~= rv);
            n = n + 1;
        }
        assert(names.subrange(0, names.len() as int) =~= names);
        let ghost kept_spec = dests(collected_repos(*manifest, names));
        let mut kept: Vec<String> = Vec::new();
        let mut k: usize = 0;
        while k < out.len()
            invariant
                k <= out@.len(),
                texts_view(kept@) == dests(out@).subrange(0, k as int),
            decreases out.len() - k,
        {
            let ghost before = texts_view(kept@);
            let d = out[k].dest.clone();
            assert(d@ == dests(out@)[k as int]);
            kept.push(d);
            assert(texts_view(kept@) =~= before.push(dests(out@)[k as int]));
            assert(dests(out@).subrange(0, k + 1) =~= dests(out@).subrange(0, k as int).push(dests(out@)[k as int]));
            k = k + 1;
        }
        assert(dests(out@).subrange(0, out@.len() as int) =~= dests(out@));
        let mut fgroups: Vec<(String, Group)> = Vec::new();
        let mut n: usize = 0;
        assert(names.subrange(0, 0) =~= Seq::<String>::empty());
        while n < group_names.len()
            invariant
                n <= names.len(),
                names == group_names@,
                texts_view(kept@) == kept_spec,
                groups_view(fgroups@) == filtered_groups(*manifest, names.subrange(0, n as int), kept_spec),
            decreases group_names.len() - n,
        {
            proof {
                assert(names.subrange(0, n + 1).drop_last() =~= names.subrange(0, n as int));
                assert(names.subrange(0, n + 1).last() == names[n as int]);
            }
            let name = &group_names[n];
            match manifest.get_group(name.as_str()) {
                Some(g) => {
                    let ghost pred = |d: Seq<char>| kept_spec.contains(d);
                    let ghost gv = texts_view(g.repos@);
                    let mut fg: Vec<String> = Vec::new();
                    let mut j: usize = 0;
                    while j < g.repos.len()
                        invariant
                            j <= g.repos@.len(),
                            gv == texts_view(g.repos@),
                            texts_view(kept@) == kept_spec,
                            pred == (|d: Seq<char>| kept_spec.contains(d)),
                            texts_view(fg@) == gv.subrange(0, j as int).filter(pred),
                        decreases g.repos.len() - j,
                    {
                        proof {
                            assert(gv.subrange(0, j + 1) =~= gv.subrange(0, j as int).push(gv[j as int]));
                            gv.subrange(0, j as int).lemma_filter_push(gv[j as int], pred);
                        }
                        if texts_contain(&kept, g.repos[j].as_str()) {
                            let ghost before = texts_view(fg@);
                            fg.push(g.repos[j].clone());
                            assert(texts_view(fg@) =~= before.push(gv[j as int]));
                        }
                        j = j + 1;
                    }
                    assert(gv.subrange(0, gv.len() as int) =~= gv);
                    if fg.len() > 0 {
                        let description = g.description.duplicate();
                        let entry = (name.clone(), Group { repos: fg, description });
                        assert(group_view(entry.1) == (kept_dests(*g, kept_spec), group_view(*g).1));
                        let ghost before = groups_view(fgroups@);
                        match find_group_index(&fgroups, name.as_str()) {
                            Some(i) => {
                                fgroups.set(i, entry);
                                assert(groups_view(fgroups@) =~= before.update(i as int, (name@, group_view(entry.1))));
                            },
                            None => {
                                fgroups.push(entry);
                                assert(groups_view(fgroups@) =~= before.push((name@, group_view(entry.1))));
                            },
                        }
                    }
                },
                None => {},
            }
            n = n + 1;
        }
        assert(names.subrange(0, names.len() as int) =~= names);
        let groups = if fgroups.len() > 0 {
            Some(fgroups)
        } else {
            assert(groups_view(fgroups@) =~= Seq::<GroupEntryView>::empty());
            None
        };
        Ok(Manifest { repos: out, groups, default_branch: manifest.default_branch.duplicate(), default_scm: None })
    }
}


/// The destinations of the entries are pairwise distinct.
pub open spec fn dests_unique(s: Seq<ManifestRepo>) -> bool {
    forall|i: int, j: int| 0 <= i < s.len() && 0 <= j < s.len() && i != j ==> (#[trigger] s[i]).dest@ != (#[trigger] s[j]).dest@
}

/// Adding entries by destination keeps the entries already there, keeps destinations
/// distinct, and leaves every added destination present.
proof fn lemma_add_unique(acc: Seq<ManifestRepo>, rs: Seq<ManifestRepo>)
    requires
        dests_unique(acc),
    ensures
        dests_unique(add_unique_repos(acc, rs)),
        add_unique_repos(acc, rs).len() >= acc.len(),
        add_unique_repos(acc, rs).subrange(0, acc.len() as int) == acc,
        forall|k: int| 0 <= k < rs.len() ==> dests(add_unique_repos(acc, rs)).contains((#[trigger] rs[k]).dest@),
        forall|k: int| 0 <= k < add_unique_repos(acc, rs).len() ==> acc.contains(#[trigger] add_unique_repos(acc, rs)[k])
            || rs.contains(add_unique_repos(acc, rs)[k]),
    decreases rs.len(),
{
    if rs.len() == 0 {
        assert(acc.subrange(0, acc.len() as int) =~= acc);
    } else {
        let p = rs.drop_last();
        lemma_add_unique(acc, p);
        let m = add_unique_repos(acc, p);
        let x = rs.last();
        if dests(m).contains(x.dest@) {
        } else {
            let m2 = m.push(x);
            assert forall|i: int, j: int| 0 <= i < m2.len() && 0 <= j < m2.len() && i != j implies (#[trigger] m2[i]).dest@ != (#[trigger] m2[j]).dest@ by {
                if i == m.len() {
                    assert(dests(m)[j] == m[j].dest@);
                } else if j == m.len() {
                    assert(dests(m)[i] == m[i].dest@);
                }
            }
            assert(m2.subrange(0, acc.len() as int) =~= m.subrange(0, acc.len() as int));
            assert(dests(m2)[m.len() as int] == x.dest@);
        }
        assert forall|k: int| 0 <= k < rs.len() implies dests(add_unique_repos(acc, rs)).contains((#[trigger] rs[k]).dest@) by {
            let r = add_unique_repos(acc, rs);
            if k < p.len() {
                assert(p[k] == rs[k]);
                let w = choose|w: int| 0 <= w < dests(m).len() && dests(m)[w] == p[k].dest@;
                assert(dests(r)[w] == dests(m)[w]);
            } else {
                if dests(m).contains(x.dest@) {
                } else {
                    assert(dests(r)[m.len() as int] == x.dest@);
                }
            }
        }
        assert forall|k: int| 0 <= k < add_unique_repos(acc, rs).len() implies acc.contains(#[trigger] add_unique_repos(acc, rs)[k])
            || rs.contains(add_unique_repos(acc, rs)[k]) by {
            let r = add_unique_repos(acc, rs);
            if k < m.len() {
                assert(r[k] == m[k]);
                if p.contains(m[k]) {
                    let w = choose|w: int| 0 <= w < p.len() && p[w] == m[k];
                    assert(rs[w] == p[w]);
                }
            } else {
                assert(r[k] == x);
                assert(rs[rs.len() - 1] == x);
            }
        }
    }
}

/// No two groups share a name.
pub open spec fn group_names_unique(gs: Seq<GroupEntryView>) -> bool {
    forall|i: int, j: int| 0 <= i < gs.len() && 0 <= j < gs.len() && i != j ==> (#[trigger] gs[i]).0 != (#[trigger] gs[j]).0
}

/// A group named `name` at `k` means there is a first one.
proof fn lemma_first_group_exists(gs: Seq<GroupEntryView>, name: Seq<char>, k: int)
    requires
        0 <= k < gs.len(),
        gs[k].0 == name,
    ensures
        exists|i: int| first_group_index(gs, name, i),
    decreases k,
{
    if forall|j: int| 0 <= j < k ==> gs[j].0 != name {
        assert(first_group_index(gs, name, k));
    } else {
        let j = choose|j: int| 0 <= j < k && gs[j].0 == name;
        assert(0 <= j < k && gs[j].0 == name);
        lemma_first_group_exists(gs, name, j);
    }
}

/// Replacing the group named `name`, or appending it, keeps names distinct.
proof fn lemma_put_group_unique(gs: Seq<GroupEntryView>, name: Seq<char>, g: (Seq<Seq<char>>, Option<Seq<char>>))
    requires
        group_names_unique(gs),
    ensures
        group_names_unique(put_group(gs, name, g)),
{
    if !exists|i: int| first_group_index(gs, name, i) {
        assert forall|k: int| 0 <= k < gs.len() implies gs[k].0 != name by {
            if gs[k].0 == name {
                lemma_first_group_exists(gs, name, k);
            }
        }
        let r = gs.push((name, g));
        assert forall|i: int, j: int| 0 <= i < r.len() && 0 <= j < r.len() && i != j implies (#[trigger] r[i]).0 != (#[trigger] r[j]).0 by {
            if i < gs.len() && j < gs.len() {
                assert(r[i] == gs[i] && r[j] == gs[j]);
            } else if i < gs.len() {
                assert(r[i] == gs[i]);
            } else {
                assert(r[j] == gs[j]);
            }
        }
    }
}

/// Merging groups into groups with distinct names keeps the names distinct: an
/// included group whose name is present is merged into that group, any other is
/// appended.
pub proof fn law_merged_group_names_unique(base: Seq<GroupEntryView>, extra: Seq<GroupEntryView>)
    requires
        group_names_unique(base),
    ensures
        group_names_unique(merged_groups(base, extra)),
    decreases extra.len(),
{
    if extra.len() > 0 {
        law_merged_group_names_unique(base, extra.drop_last());
        let m = merged_groups(base, extra.drop_last());
        let (name, g) = extra.last();
        if exists|i: int| first_group_index(m, name, i) {
            let i = choose|i: int| first_group_index(m, name, i);
            assert(put_group(m, name, (add_missing(m[i].1.0, g.0), m[i].1.1))
                == m.update(i, (name, (add_missing(m[i].1.0, g.0), m[i].1.1))));
            lemma_put_group_unique(m, name, (add_missing(m[i].1.0, g.0), m[i].1.1));
            assert(m.update(i, (m[i].0, (add_missing(m[i].1.0, g.0), m[i].1.1)))
                =~= m.update(i, (name, (add_missing(m[i].1.0, g.0), m[i].1.1))));
        } else {
            lemma_put_group_unique(m, name, g);
        }
    }
}

/// The views of optional named groups (none for `None`).
pub open spec fn optional_groups_view(gs: Option<Vec<(String, Group)>>) -> Seq<GroupEntryView> {
    match gs {
        Some(v) => groups_view(v@),
        None => Seq::empty(),
    }
}

/// `a` begins with `p`.
pub open spec fn begins_with(a: Seq<Seq<char>>, p: Seq<Seq<char>>) -> bool {
    p.len() <= a.len() && a.subrange(0, p.len() as int) == p
}

/// The merged groups `m` keep every base group at its place, with its name and
/// description, and with the base group's destinations first.
pub open spec fn keeps_base_groups(base: Seq<GroupEntryView>, m: Seq<GroupEntryView>) -> bool {
    &&& m.len() >= base.len()
    &&& forall|j: int| 0 <= j < base.len() ==> (#[trigger] m[j]).0 == base[j].0 && m[j].1.1 == base[j].1.1
        && begins_with(m[j].1.0, base[j].1.0)
}

/// Every destination of every included group is listed by a merged group of its name.
pub open spec fn lists_included_destinations(m: Seq<GroupEntryView>, extra: Seq<GroupEntryView>) -> bool {
    forall|k: int, d: Seq<char>| 0 <= k < extra.len() && #[trigger] extra[k].1.0.contains(d)
        ==> exists|i: int| 0 <= i < m.len() && (#[trigger] m[i]).0 == extra[k].0 && m[i].1.0.contains(d)
}

/// An included group whose name is already in the base adds all its destinations to the
/// (first) base group of that name.
pub open spec fn base_groups_take_included(base: Seq<GroupEntryView>, m: Seq<GroupEntryView>, extra: Seq<GroupEntryView>) -> bool {
    forall|j: int, k: int, d: Seq<char>|
        #![trigger first_group_index(base, extra[k].0, j), extra[k].1.0.contains(d)]
        0 <= k < extra.len() && first_group_index(base, extra[k].0, j) && extra[k].1.0.contains(d)
            ==> m[j].1.0.contains(d)
}

/// Adding the missing destinations keeps the existing ones first and lists every
/// added one.
proof fn lemma_add_missing(existing: Seq<Seq<char>>, added: Seq<Seq<char>>)
    ensures
        begins_with(add_missing(existing, added), existing),
        forall|d: Seq<char>| added.contains(d) ==> #[trigger] add_missing(existing, added).contains(d),
    decreases added.len(),
{
    if added.len() > 0 {
        let p = added.drop_last();
        lemma_add_missing(existing, p);
        let m = add_missing(existing, p);
        assert(m.push(added.last()).subrange(0, existing.len() as int) =~= m.subrange(0, existing.len() as int));
        assert forall|d: Seq<char>| added.contains(d) implies #[trigger] add_missing(existing, added).contains(d) by {
            let i = choose|i: int| 0 <= i < added.len() && added[i] == d;
            if i < added.len() - 1 {
                assert(p[i] == d);
                assert(p.contains(d));
                assert(m.contains(d));
                if !m.contains(added.last()) {
                    let q = choose|q: int| 0 <= q < m.len() && m[q] == d;
                    assert(m.push(added.last())[q] == d);
                }
            } else {
                if !m.contains(added.last()) {
                    assert(m.push(added.last())[m.len() as int] == d);
                }
            }
        }
    } else {
        assert(existing.subrange(0, existing.len() as int) =~= existing);
    }
}

/// A destination of `a` is one of `b` when `b` begins with `a`.
proof fn lemma_begins_contains(a: Seq<Seq<char>>, b: Seq<Seq<char>>, d: Seq<char>)
    requires
        begins_with(b, a),
        a.contains(d),
    ensures
        b.contains(d),
{
    let i = choose|i: int| 0 <= i < a.len() && a[i] == d;
    assert(b.subrange(0, a.len() as int)[i] == b[i]);
}

/// Beginning with is transitive.
proof fn lemma_begins_trans(a: Seq<Seq<char>>, b: Seq<Seq<char>>, c: Seq<Seq<char>>)
    requires
        begins_with(b, a),
        begins_with(c, b),
    ensures
        begins_with(c, a),
{
    assert forall|i: int| 0 <= i < a.len() implies c.subrange(0, a.len() as int)[i] == a[i] by {
        assert(c.subrange(0, b.len() as int)[i] == b[i]);
        assert(b.subrange(0, a.len() as int)[i] == a[i]);
    }
    assert(c.subrange(0, a.len() as int) =~= a);
}

/// Merging groups keeps each base group in place, with its name, description and
/// destinations first; every destination of every included group is listed by a merged
/// group of that name; and an included group whose name is in the base adds all its
/// destinations to the first base group of that name.
pub proof fn law_merged_groups_keep_and_add(base: Seq<GroupEntryView>, extra: Seq<GroupEntryView>)
    ensures
        keeps_base_groups(base, merged_groups(base, extra)),
        lists_included_destinations(merged_groups(base, extra), extra),
        base_groups_take_included(base, merged_groups(base, extra), extra),
    decreases extra.len(),
{
    let m = merged_groups(base, extra);
    if extra.len() == 0 {
        assert forall|j: int| 0 <= j < base.len() implies (#[trigger] m[j]).0 == base[j].0 && m[j].1.1 == base[j].1.1
            && begins_with(m[j].1.0, base[j].1.0) by {
            assert(m[j].1.0.subrange(0, base[j].1.0.len() as int) =~= base[j].1.0);
        }
    } else {
        let p = extra.drop_last();
        law_merged_groups_keep_and_add(base, p);
        let m0 = merged_groups(base, p);
        let (n, g) = extra.last();
        assert forall|k: int| 0 <= k < p.len() implies #[trigger] extra[k] == p[k] by {}
        if exists|i: int| first_group_index(m0, n, i) {
            let i = choose|i: int| first_group_index(m0, n, i);
            let nd = add_missing(m0[i].1.0, g.0);
            lemma_add_missing(m0[i].1.0, g.0);
            assert(m == m0.update(i, (m0[i].0, (nd, m0[i].1.1))));
            assert forall|j: int| 0 <= j < base.len() implies (#[trigger] m[j]).0 == base[j].0 && m[j].1.1 == base[j].1.1
                && begins_with(m[j].1.0, base[j].1.0) by {
                assert(m0[j].0 == base[j].0);
                if j == i {
                    lemma_begins_trans(base[j].1.0, m0[j].1.0, nd);
                }
            }
            assert forall|k: int, d: Seq<char>| 0 <= k < extra.len() && #[trigger] extra[k].1.0.contains(d)
                implies exists|q: int| 0 <= q < m.len() && (#[trigger] m[q]).0 == extra[k].0 && m[q].1.0.contains(d) by {
                if k < p.len() {
                    assert(p[k].1.0.contains(d));
                    let q = choose|q: int| 0 <= q < m0.len() && (#[trigger] m0[q]).0 == p[k].0 && m0[q].1.0.contains(d);
                    if q == i {
                        lemma_begins_contains(m0[i].1.0, nd, d);
                    }
                    assert(m[q].0 == extra[k].0 && m[q].1.0.contains(d));
                } else {
                    assert(extra[k] == extra.last());
                    assert(m[i].0 == extra[k].0 && m[i].1.0.contains(d));
                }
            }
            assert forall|j: int, k: int, d: Seq<char>|
                #![trigger first_group_index(base, extra[k].0, j), extra[k].1.0.contains(d)]
                0 <= k < extra.len() && first_group_index(base, extra[k].0, j) && extra[k].1.0.contains(d)
                implies m[j].1.0.contains(d) by {
                if k < p.len() {
                    assert(p[k].1.0.contains(d));
                    assert(first_group_index(base, p[k].0, j));
                    assert(m0[j].1.0.contains(d));
                    if j == i {
                        lemma_begins_contains(m0[i].1.0, nd, d);
                    }
                } else {
                    assert(extra[k] == extra.last());
                    assert forall|l: int| 0 <= l < j implies m0[l].0 != n by {
                        assert(m0[l].0 == base[l].0);
                    }
                    assert(m0[j].0 == base[j].0);
                    assert(first_group_index(m0, n, j));
                    if i < j {
                        assert(m0[i].0 != n);
                    }
                    if j < i {
                        assert(m0[j].0 != n);
                    }
                    assert(i == j);
                }
            }
        } else {
            assert(m == m0.push((n, g)));
            assert forall|j: int| 0 <= j < base.len() implies (#[trigger] m[j]).0 == base[j].0 && m[j].1.1 == base[j].1.1
                && begins_with(m[j].1.0, base[j].1.0) by {
                assert(m[j] == m0[j]);
            }
            assert forall|k: int, d: Seq<char>| 0 <= k < extra.len() && #[trigger] extra[k].1.0.contains(d)
                implies exists|q: int| 0 <= q < m.len() && (#[trigger] m[q]).0 == extra[k].0 && m[q].1.0.contains(d) by {
                if k < p.len() {
                    assert(p[k].1.0.contains(d));
                    let q = choose|q: int| 0 <= q < m0.len() && (#[trigger] m0[q]).0 == p[k].0 && m0[q].1.0.contains(d);
                    assert(m[q] == m0[q]);
                } else {
                    assert(extra[k] == extra.last());
                    assert(m[m0.len() as int] == (n, g));
                }
            }
            assert forall|j: int, k: int, d: Seq<char>|
                #![trigger first_group_index(base, extra[k].0, j), extra[k].1.0.contains(d)]
                0 <= k < extra.len() && first_group_index(base, extra[k].0, j) && extra[k].1.0.contains(d)
                implies m[j].1.0.contains(d) by {
                if k < p.len() {
                    assert(p[k].1.0.contains(d));
                    assert(first_group_index(base, p[k].0, j));
                    assert(m[j] == m0[j]);
                } else {
                    assert(extra[k] == extra.last());
                    assert forall|l: int| 0 <= l < j implies m0[l].0 != n by {
                        assert(m0[l].0 == base[l].0);
                    }
                    assert(m0[j].0 == base[j].0);
                    assert(first_group_index(m0, n, j));
                }
            }
        }
    }
}

/// The groups of a manifest filtered by group names have distinct names.
pub proof fn law_filtered_group_names_unique(m: Manifest, names: Seq<String>, kept: Seq<Seq<char>>)
    ensures
        group_names_unique(filtered_groups(m, names, kept)),
    decreases names.len(),
{
    if names.len() > 0 {
        law_filtered_group_names_unique(m, names.drop_last(), kept);
        let acc = filtered_groups(m, names.drop_last(), kept);
        match manifest_group(m, names.last()@) {
            Some(g) => {
                if kept_dests(g, kept).len() > 0 {
                    lemma_put_group_unique(acc, names.last()@, (kept_dests(g, kept), group_view(g).1));
                }
            },
            None => {},
        }
    }
}

/// Merging keeps the base's entries first and in order; when the base's destinations
/// are distinct, so are the merged ones; and every included destination is present.
pub proof fn law_merge_keeps_base(base: Seq<ManifestRepo>, extra: Seq<ManifestRepo>)
    requires
        dests_unique(base),
    ensures
        merged_repos(base, extra).subrange(0, base.len() as int) == base,
        dests_unique(merged_repos(base, extra)),
        forall|k: int| 0 <= k < extra.len() ==> dests(merged_repos(base, extra)).contains((#[trigger] extra[k]).dest@),
{
    lemma_merged_is_add_unique(base, extra);
    lemma_add_unique(base, extra);
}

/// Merging entries is adding them by destination.
proof fn lemma_merged_is_add_unique(base: Seq<ManifestRepo>, extra: Seq<ManifestRepo>)
    ensures
        merged_repos(base, extra) == add_unique_repos(base, extra),
    decreases extra.len(),
{
    if extra.len() > 0 {
        lemma_merged_is_add_unique(base, extra.drop_last());
        let m = merged_repos(base, extra.drop_last());
        let d = extra.last().dest@;
        if dest_among(m, m.len() as int, d) {
            let j = choose|j: int| 0 <= j < m.len() && (#[trigger] m[j]).dest@ == d;
            assert(dests(m)[j] == d);
        }
        if dests(m).contains(d) {
            let j = choose|j: int| 0 <= j < dests(m).len() && dests(m)[j] == d;
            assert(m[j].dest@ == d);
        }
    }
}

/// Filtering by groups keeps each destination once, keeps only entries of the named
/// groups, and keeps every entry of every named group (by destination).
pub proof fn law_filter_collects_groups(m: Manifest, names: Seq<String>)
    ensures
        dests_unique(collected_repos(m, names)),
        forall|k: int| 0 <= k < collected_repos(m, names).len() ==> exists|i: int| 0 <= i < names.len()
            && repos_in_group(m, names[i]@).contains(#[trigger] collected_repos(m, names)[k]),
        forall|i: int, k: int| 0 <= i < names.len() && 0 <= k < repos_in_group(m, names[i]@).len()
            ==> dests(collected_repos(m, names)).contains((#[trigger] repos_in_group(m, names[i]@)[k]).dest@),
    decreases names.len(),
{
    if names.len() > 0 {
        let p = names.drop_last();
        law_filter_collects_groups(m, p);
        let acc = collected_repos(m, p);
        let rs = repos_in_group(m, names.last()@);
        lemma_add_unique(acc, rs);
        let c = collected_repos(m, names);
        assert forall|k: int| 0 <= k < c.len() implies exists|i: int| 0 <= i < names.len()
            && repos_in_group(m, names[i]@).contains(#[trigger] c[k]) by {
            if acc.contains(c[k]) {
                let w = choose|w: int| 0 <= w < acc.len() && acc[w] == c[k];
                let i = choose|i: int| 0 <= i < p.len() && repos_in_group(m, p[i]@).contains(#[trigger] acc[w]);
                assert(names[i] == p[i]);
            } else {
                assert(names[names.len() - 1] == names.last());
            }
        }
        assert forall|i: int, k: int| 0 <= i < names.len() && 0 <= k < repos_in_group(m, names[i]@).len()
            implies dests(c).contains((#[trigger] repos_in_group(m, names[i]@)[k]).dest@) by {
            if i < p.len() {
                assert(names[i] == p[i]);
                let x = repos_in_group(m, p[i]@)[k];
                assert(dests(acc).contains(x.dest@));
                let w = choose|w: int| 0 <= w < dests(acc).len() && dests(acc)[w] == x.dest@;
                assert(c.subrange(0, acc.len() as int) == acc);
                assert(dests(c)[w] == c[w].dest@);
                assert(c[w] == c.subrange(0, acc.len() as int)[w]);
            } else {
                assert(names[i] == names.last());
            }
        }
    }
}

/// The texts joined with ` -> ` between each two.
pub open spec fn join_arrows(parts: Seq<Seq<char>>) -> Seq<char>
    decreases parts.len(),
{
    if parts.len() == 0 {
        Seq::empty()
    } else if parts.len() == 1 {
        parts[0]
    } else {
        join_arrows(parts.drop_last()) + " -> "@ + parts.last()
    }
}

/// The texts joined with ` -> ` between each two.
pub fn join_arrows_exec(parts: &Vec<String>) -> (r: String)
    ensures
        r@ == join_arrows(texts_view(parts@)),
{
    let ghost vs = texts_view(parts@);
    let mut r = String::new();
    let mut i: usize = 0;
    while i < parts.len()
        invariant
            i <= parts@.len(),
            vs == texts_view(parts@),
            r@ == join_arrows(vs.subrange(0, i as int)),
        decreases parts.len() - i,
    {
        assert(vs.subrange(0, i + 1).drop_last() =~= vs.subrange(0, i as int));
        if i > 0 {
            r.append(" -> ");
        }
        r.append(parts[i].as_str());
        proof {
            if i == 0 {
                assert(r@ =~= vs.subrange(0, 1)[0]);
            }
        }
        i = i + 1;
    }
    assert(vs.subrange(0, parts@.len() as int) =~= vs);
    r
}

} // verus!
