//! Auditing the dependencies of the Rust projects of a workspace: settings, the result
//! per repository, the tally over the workspace, and the decisions around each audit.
use crate::foreach_command::{repos_of_groups, repos_view, target_repositories};
use crate::manifest::{derefs, ManifestRepo};
use crate::security_service::{any_warning, security_error_text, AuditResult, SecurityError, SecurityService};
use crate::sys::{limit_spec, parallel_limit};
use crate::text::{cat2, owned};
use crate::workspace::{Workspace, WorkspaceStatus};
use crate::util::Duplicate;
use vstd::prelude::*;

verus! {

broadcast use vstd::seq_lib::group_seq_properties;

/// Errors of a security audit.
#[derive(Debug)]
pub enum SecurityAuditError {
    WorkspaceNotInitialized(String),
    SecurityServiceError(SecurityError),
    RepositoryNotFound(String),
    IoError(String),
    NoRustProjectsFound,
}

/// The `Display` text of an error.
pub open spec fn audit_error_text(e: SecurityAuditError) -> Seq<char> {
    match e {
        SecurityAuditError::WorkspaceNotInitialized(p) => "Workspace not initialized: "@ + p@,
        SecurityAuditError::SecurityServiceError(s) => "Security service error: "@ + security_error_text(s),
        SecurityAuditError::RepositoryNotFound(d) => "Repository not found: "@ + d@,
        SecurityAuditError::IoError(m) => "IO error: "@ + m@,
        SecurityAuditError::NoRustProjectsFound => "No Rust projects found in workspace"@,
    }
}

impl SecurityAuditError {
    /// The message of the error (its `Display` text).
    pub fn to_string(&self) -> (r: String)
        ensures
            r@ == audit_error_text(*self),
    {
        match self {
            SecurityAuditError::WorkspaceNotInitialized(p) => cat2("Workspace not initialized: ", p.as_str()),
            SecurityAuditError::SecurityServiceError(s) => {
                let t = s.to_string();
                cat2("Security service error: ", t.as_str())
            },
            SecurityAuditError::RepositoryNotFound(d) => cat2("Repository not found: ", d.as_str()),
            SecurityAuditError::IoError(m) => cat2("IO error: ", m.as_str()),
            SecurityAuditError::NoRustProjectsFound => owned("No Rust projects found in workspace"),
        }
    }
}

/// Settings of an audit.
#[derive(Debug, Clone)]
pub struct SecurityAuditConfig {
    /// Only the repositories of these groups (all when `None`)
    pub groups: Option<Vec<String>>,
    /// Audit in parallel
    pub parallel: bool,
    /// Largest number of parallel audits (the number of CPUs when `None`)
    pub max_parallel: Option<usize>,
    /// Treat critical or high vulnerabilities as a failure
    pub fail_on_vulnerabilities: bool,
    /// Verbose output
    pub verbose: bool,
}

impl Default for SecurityAuditConfig {
    fn default() -> (r: Self)
        ensures
            r.groups is None && r.parallel && r.max_parallel is None,
            r.fail_on_vulnerabilities && !r.verbose,
    {
        SecurityAuditConfig { groups: None, parallel: true, max_parallel: None, fail_on_vulnerabilities: true, verbose: false }
    }
}

impl SecurityAuditConfig {
    /// The default settings.
    pub fn new() -> (r: Self)
        ensures
            r.groups is None && r.parallel && r.max_parallel is None,
            r.fail_on_vulnerabilities && !r.verbose,
    {
        Self::default()
    }

    /// Restrict to the given groups.
    pub fn with_groups(self, groups: Vec<String>) -> (r: Self)
        ensures
            r == (SecurityAuditConfig { groups: Some(groups), ..self }),
    {
        SecurityAuditConfig { groups: Some(groups), ..self }
    }

    /// Set parallel auditing and its limit.
    pub fn with_parallel(self, parallel: bool, max_parallel: Option<usize>) -> (r: Self)
        ensures
            r == (SecurityAuditConfig { parallel, max_parallel, ..self }),
    {
        SecurityAuditConfig { parallel, max_parallel, ..self }
    }

    /// Set whether critical or high vulnerabilities are a failure.
    pub fn with_fail_on_vulnerabilities(self, fail_on_vulnerabilities: bool) -> (r: Self)
        ensures
            r == (SecurityAuditConfig { fail_on_vulnerabilities, ..self }),
    {
        SecurityAuditConfig { fail_on_vulnerabilities, ..self }
    }

    /// Set verbose output.
    pub fn with_verbose(self, verbose: bool) -> (r: Self)
        ensures
            r == (SecurityAuditConfig { verbose, ..self }),
    {
        SecurityAuditConfig { verbose, ..self }
    }
}

/// The audit of one repository.
#[derive(Debug, Clone)]
pub struct RepoAuditResult {
    /// Destination of the repository
    pub dest: String,
    /// The audit, when it ran
    pub audit_result: Option<AuditResult>,
    /// Error message of a failed audit
    pub error: Option<String>,
    /// Whether the repository is a Rust project
    pub is_rust_project: bool,
}

/// The audit ran and reported no error.
pub open spec fn audit_succeeded(r: RepoAuditResult) -> bool {
    r.audit_result is Some && r.error is None
}

/// The audit reported some vulnerability.
pub open spec fn audit_vulnerable(r: RepoAuditResult) -> bool {
    match r.audit_result {
        Some(a) => any_warning(a.warning_count),
        None => false,
    }
}

/// The audit reported a critical or high vulnerability.
pub open spec fn audit_critical_or_high(r: RepoAuditResult) -> bool {
    match r.audit_result {
        Some(a) => a.warning_count.critical > 0 || a.warning_count.high > 0,
        None => false,
    }
}

/// A result counts as vulnerable exactly when its audit ran and reported at least one
/// vulnerability of any severity; it reports a critical or high one exactly when either
/// of those counts is positive; an audit succeeded exactly when it ran without error.
pub proof fn law_vulnerable_exactly_with_warnings(r: RepoAuditResult)
    ensures
        audit_vulnerable(r) <==> (r.audit_result matches Some(a) && a.warning_count.critical + a.warning_count.high
            + a.warning_count.medium + a.warning_count.low > 0),
        audit_critical_or_high(r) <==> (r.audit_result matches Some(a) && (a.warning_count.critical > 0 || a.warning_count.high > 0)),
        audit_critical_or_high(r) ==> audit_vulnerable(r),
        audit_succeeded(r) <==> (r.audit_result is Some && r.error is None),
{
}

impl RepoAuditResult {
    /// Whether the audit ran and reported no error.
    pub fn is_success(&self) -> (r: bool)
        ensures
            r == audit_succeeded(*self),
    {
        self.audit_result.is_some() && self.error.is_none()
    }

    /// Whether the audit reported some vulnerability.
    pub fn has_vulnerabilities(&self) -> (r: bool)
        ensures
            r == audit_vulnerable(*self),
            r == (self.audit_result matches Some(a) && a.warning_count.critical + a.warning_count.high
                + a.warning_count.medium + a.warning_count.low > 0),
    {
        match &self.audit_result {
            Some(a) => a.warning_count.any(),
            None => false,
        }
    }

    /// Whether the audit reported a critical or high vulnerability.
    pub fn has_critical_or_high_vulnerabilities(&self) -> (r: bool)
        ensures
            r == audit_critical_or_high(*self),
    {
        match &self.audit_result {
            Some(a) => a.warning_count.has_critical_or_high(),
            None => false,
        }
    }
}

/// The tally of an audit over a workspace.
#[derive(Debug, Clone)]
pub struct WorkspaceAuditResult {
    /// Results per repository, in the order they were added
    pub repo_results: Vec<RepoAuditResult>,
    /// Rust projects audited successfully
    pub audited_count: usize,
    /// Repositories that are no Rust project
    pub skipped_count: usize,
    /// Rust projects whose audit failed
    pub error_count: usize,
    /// Audited projects with some vulnerability
    pub vulnerable_count: usize,
    /// Whether the audits were parallel
    pub was_parallel: bool,
}

/// The number of results satisfying `p`.
pub open spec fn count_results(rs: Seq<RepoAuditResult>, p: spec_fn(RepoAuditResult) -> bool) -> nat {
    rs.filter(p).len()
}

/// The counters agree with the results.
pub open spec fn audit_tally_consistent(w: WorkspaceAuditResult) -> bool {
    &&& w.audited_count == count_results(w.repo_results@, |r: RepoAuditResult| r.is_rust_project && audit_succeeded(r))
    &&& w.error_count == count_results(w.repo_results@, |r: RepoAuditResult| r.is_rust_project && !audit_succeeded(r))
    &&& w.skipped_count == count_results(w.repo_results@, |r: RepoAuditResult| !r.is_rust_project)
    &&& w.vulnerable_count == count_results(w.repo_results@, |r: RepoAuditResult| r.is_rust_project && audit_succeeded(r) && audit_vulnerable(r))
}

/// Adding a result: a Rust project counts as audited (and as vulnerable when it
/// reported a vulnerability) or as an error; any other repository as skipped.
pub open spec fn audit_tally_after_add(old: WorkspaceAuditResult, new: WorkspaceAuditResult, r: RepoAuditResult) -> bool {
    &&& new.repo_results@ == old.repo_results@.push(r)
    &&& new.was_parallel == old.was_parallel
    &&& new.audited_count == old.audited_count + (if r.is_rust_project && audit_succeeded(r) { 1int } else { 0 })
    &&& new.error_count == old.error_count + (if r.is_rust_project && !audit_succeeded(r) { 1int } else { 0 })
    &&& new.skipped_count == old.skipped_count + (if !r.is_rust_project { 1int } else { 0 })
    &&& new.vulnerable_count == old.vulnerable_count + (if r.is_rust_project && audit_succeeded(r) && audit_vulnerable(r) { 1int } else { 0 })
}

/// Every addition keeps the counters consistent; audited, error and skipped counts add
/// up to the number of results, and vulnerable projects are among the audited ones.
pub proof fn law_audit_tally(old: WorkspaceAuditResult, new: WorkspaceAuditResult, r: RepoAuditResult)
    requires
        audit_tally_consistent(old),
        old.audited_count + old.error_count + old.skipped_count == old.repo_results@.len(),
        old.vulnerable_count <= old.audited_count,
        audit_tally_after_add(old, new, r),
    ensures
        audit_tally_consistent(new),
        new.audited_count + new.error_count + new.skipped_count == new.repo_results@.len(),
        new.vulnerable_count <= new.audited_count,
{
    let rs = old.repo_results@;
    rs.lemma_filter_push(r, |x: RepoAuditResult| x.is_rust_project && audit_succeeded(x));
    rs.lemma_filter_push(r, |x: RepoAuditResult| x.is_rust_project && !audit_succeeded(x));
    rs.lemma_filter_push(r, |x: RepoAuditResult| !x.is_rust_project);
    rs.lemma_filter_push(r, |x: RepoAuditResult| x.is_rust_project && audit_succeeded(x) && audit_vulnerable(x));
}

/// A run of additions: `states[0]` is an empty tally and each next state is the one
/// before with `added[i]` added.
pub open spec fn audit_run(states: Seq<WorkspaceAuditResult>, added: Seq<RepoAuditResult>) -> bool {
    &&& states.len() == added.len() + 1
    &&& states[0].repo_results@.len() == 0
    &&& states[0].audited_count == 0 && states[0].skipped_count == 0
    &&& states[0].error_count == 0 && states[0].vulnerable_count == 0
    &&& forall|i: int| 0 <= i < added.len() ==> audit_tally_after_add(#[trigger] states[i], states[i + 1], added[i])
}

/// After an empty tally and any sequence of additions, the tally holds exactly the
/// added results in order, its counters agree with them, audited, error and skipped
/// counts add up to the total, vulnerable projects are among the audited ones, and the
/// failed results (`failed_results`) are as many as the error count.
pub proof fn law_audit_tally_after_adds(states: Seq<WorkspaceAuditResult>, added: Seq<RepoAuditResult>)
    requires
        audit_run(states, added),
    ensures
        states.last().repo_results@ == added,
        audit_tally_consistent(states.last()),
        states.last().audited_count + states.last().error_count + states.last().skipped_count == added.len(),
        states.last().vulnerable_count <= states.last().audited_count,
        states.last().repo_results@.filter(|x: RepoAuditResult| !audit_succeeded(x) && x.is_rust_project).len()
            == states.last().error_count,
    decreases added.len(),
{
    let last = states.last();
    if added.len() == 0 {
        assert(states[0].repo_results@ =~= added);
        reveal_with_fuel(Seq::<RepoAuditResult>::filter, 1);
    } else {
        let n = added.len() - 1;
        let ps = states.drop_last();
        let pa = added.drop_last();
        assert forall|i: int| 0 <= i < pa.len() implies audit_tally_after_add(#[trigger] ps[i], ps[i + 1], pa[i]) by {
            assert(audit_tally_after_add(states[i], states[i + 1], added[i]));
        }
        law_audit_tally_after_adds(ps, pa);
        assert(ps.last() == states[n]);
        assert(audit_tally_after_add(states[n], states[n + 1], added[n]));
        law_audit_tally(states[n], states[n + 1], added[n]);
        assert(states[n + 1] == last);
        assert(last.repo_results@ =~= added);
    }
    let p1 = |r: RepoAuditResult| r.is_rust_project && !audit_succeeded(r);
    let p2 = |x: RepoAuditResult| !audit_succeeded(x) && x.is_rust_project;
    assert(p1 =~= p2);
}

impl WorkspaceAuditResult {
    /// An empty tally.
    pub fn new(was_parallel: bool) -> (r: Self)
        ensures
            r.repo_results@.len() == 0 && r.audited_count == 0 && r.skipped_count == 0,
            r.error_count == 0 && r.vulnerable_count == 0 && r.was_parallel == was_parallel,
            audit_tally_consistent(r),
    {
        let r = WorkspaceAuditResult {
            repo_results: Vec::new(),
            audited_count: 0,
            skipped_count: 0,
            error_count: 0,
            vulnerable_count: 0,
            was_parallel,
        };
        proof {
            reveal_with_fuel(Seq::<RepoAuditResult>::filter, 1);
        }
        r
    }

    /// Add a result and count it.
    pub fn add_result(&mut self, result: RepoAuditResult)
        requires
            old(self).audited_count < usize::MAX,
            old(self).skipped_count < usize::MAX,
            old(self).error_count < usize::MAX,
            old(self).vulnerable_count < usize::MAX,
        ensures
            audit_tally_after_add(*old(self), *final(self), result),
            final(self).vulnerable_count == old(self).vulnerable_count + (if result.is_rust_project && audit_succeeded(result)
                && (result.audit_result matches Some(a) && a.warning_count.critical + a.warning_count.high
                + a.warning_count.medium + a.warning_count.low > 0) { 1int } else { 0 }),
    {
        if result.is_rust_project {
            if result.is_success() {
                self.audited_count = self.audited_count + 1;
                if result.has_vulnerabilities() {
                    self.vulnerable_count = self.vulnerable_count + 1;
                }
            } else {
                self.error_count = self.error_count + 1;
            }
        } else {
            self.skipped_count = self.skipped_count + 1;
        }
        self.repo_results.push(result);
    }

    /// Whether no audit failed.
    pub fn is_success(&self) -> (r: bool)
        ensures
            r == (self.error_count == 0),
    {
        self.error_count == 0
    }

    /// Whether some audited project is vulnerable.
    pub fn has_vulnerabilities(&self) -> (r: bool)
        ensures
            r == (self.vulnerable_count > 0),
    {
        self.vulnerable_count > 0
    }

    /// Whether some result reports a critical or high vulnerability.
    pub fn has_critical_or_high_vulnerabilities(&self) -> (r: bool)
        ensures
            r == exists|i: int| 0 <= i < self.repo_results@.len() && audit_critical_or_high(#[trigger] self.repo_results@[i]),
    {
        let mut i: usize = 0;
        while i < self.repo_results.len()
            invariant
                i <= self.repo_results@.len(),
                forall|j: int| 0 <= j < i ==> !audit_critical_or_high(#[trigger] self.repo_results@[j]),
            decreases self.repo_results.len() - i,
        {
            if self.repo_results[i].has_critical_or_high_vulnerabilities() {
                return true;
            }
            i = i + 1;
        }
        false
    }

    /// The number of results.
    pub fn total_count(&self) -> (r: usize)
        ensures
            r == self.repo_results@.len(),
    {
        self.repo_results.len()
    }

    /// The Rust projects whose audit failed, in order.
    pub fn failed_results(&self) -> (r: Vec<&RepoAuditResult>)
        ensures
            derefs(r@) == self.repo_results@.filter(|x: RepoAuditResult| !audit_succeeded(x) && x.is_rust_project),
    {
        let ghost pred = |x: RepoAuditResult| !audit_succeeded(x) && x.is_rust_project;
        let mut out: Vec<&RepoAuditResult> = Vec::new();
        let mut i: usize = 0;
        while i < self.repo_results.len()
            invariant
                i <= self.repo_results@.len(),
                pred == (|x: RepoAuditResult| !audit_succeeded(x) && x.is_rust_project),
                derefs(out@) == self.repo_results@.subrange(0, i as int).filter(pred),
            decreases self.repo_results.len() - i,
        {
            proof {
                assert(self.repo_results@.subrange(0, i + 1) =~= self.repo_results@.subrange(0, i as int).push(self.repo_results@[i as int]));
                self.repo_results@.subrange(0, i as int).lemma_filter_push(self.repo_results@[i as int], pred);
            }
            let ghost before = out@;
            if !self.repo_results[i].is_success() && self.repo_results[i].is_rust_project {
                out.push(&self.repo_results[i]);
                assert(derefs(out@) =~= derefs(before).push(self.repo_results@[i as int]));
            }
            i = i + 1;
        }
        assert(self.repo_results@.subrange(0, self.repo_results@.len() as int) =~= self.repo_results@);
        out
    }

    /// The results reporting some vulnerability, in order.
    pub fn vulnerable_results(&self) -> (r: Vec<&RepoAuditResult>)
        ensures
            derefs(r@) == self.repo_results@.filter(|x: RepoAuditResult| audit_vulnerable(x)),
    {
        let ghost pred = |x: RepoAuditResult| audit_vulnerable(x);
        let mut out: Vec<&RepoAuditResult> = Vec::new();
        let mut i: usize = 0;
        while i < self.repo_results.len()
            invariant
                i <= self.repo_results@.len(),
                pred == (|x: RepoAuditResult| audit_vulnerable(x)),
                derefs(out@) == self.repo_results@.subrange(0, i as int).filter(pred),
            decreases self.repo_results.len() - i,
        {
            proof {
                assert(self.repo_results@.subrange(0, i + 1) =~= self.repo_results@.subrange(0, i as int).push(self.repo_results@[i as int]));
                self.repo_results@.subrange(0, i as int).lemma_filter_push(self.repo_results@[i as int], pred);
            }
            let ghost before = out@;
            if self.repo_results[i].has_vulnerabilities() {
                out.push(&self.repo_results[i]);
                assert(derefs(out@) =~= derefs(before).push(self.repo_results@[i as int]));
            }
            i = i + 1;
        }
        assert(self.repo_results@.subrange(0, self.repo_results@.len() as int) =~= self.repo_results@);
        out
    }
}

/// Auditing the dependencies of the Rust projects of a workspace.
pub struct SecurityAuditUseCase {
    config: SecurityAuditConfig,
    security_service: SecurityService,
}

impl SecurityAuditUseCase {
    /// The settings of the audit.
    pub closed spec fn settings(self) -> SecurityAuditConfig {
        self.config
    }

    /// The auditing service it works with.
    pub closed spec fn service(self) -> SecurityService {
        self.security_service
    }

    /// An audit with the given settings and the default service.
    pub fn new(config: SecurityAuditConfig) -> (r: Self)
        ensures
            r.settings() == config,
    {
        SecurityAuditUseCase { config, security_service: SecurityService::new() }
    }

    /// Use another auditing service.
    pub fn with_security_service(self, security_service: SecurityService) -> (r: Self)
        ensures
            r.settings() == self.settings(),
            r.service() == security_service,
    {
        SecurityAuditUseCase { security_service, ..self }
    }

    /// The settings of the audit.
    pub fn config(&self) -> (r: &SecurityAuditConfig)
        ensures
            *r == self.settings(),
    {
        &self.config
    }

    /// The auditing service.
    pub fn security_service(&self) -> (r: &SecurityService)
        ensures
            *r == self.service(),
    {
        &self.security_service
    }

    /// The workspace must be initialised.
    pub fn check_workspace_initialized(&self, workspace: &Workspace) -> (r: Result<(), SecurityAuditError>)
        ensures
            match r {
                Ok(()) => workspace.status == WorkspaceStatus::Initialized,
                Err(e) => workspace.status != WorkspaceStatus::Initialized
                    && (e matches SecurityAuditError::WorkspaceNotInitialized(p) && p@ == workspace.root_path@),
            },
    {
        if !workspace.is_initialized() {
            return Err(SecurityAuditError::WorkspaceNotInitialized(workspace.root_path.clone()));
        }
        Ok(())
    }

    /// The repositories to audit: those of the configured groups, or all of the
    /// manifest; an error when no manifest is loaded.
    pub fn determine_target_repositories(&self, workspace: &Workspace) -> (r: Result<Vec<ManifestRepo>, SecurityAuditError>)
        ensures
            match r {
                Ok(v) => workspace.manifest matches Some(m) && repos_view(v@) == repos_view(match self.settings().groups {
                    Some(gs) => repos_of_groups(m, gs@),
                    None => m.repos@,
                }),
                Err(e) => workspace.manifest is None && (e matches SecurityAuditError::WorkspaceNotInitialized(msg)
                    && msg@ == "Manifest not loaded"@),
            },
    {
        match &workspace.manifest {
            Some(m) => Ok(target_repositories(m, &self.config.groups)),
            None => Err(SecurityAuditError::WorkspaceNotInitialized(owned("Manifest not loaded"))),
        }
    }

    /// The result for one repository from whether its directory exists, whether it is
    /// a Rust project, and the outcome of the audit (consulted only for a present Rust
    /// project).
    pub fn repo_audit_result(repo: &ManifestRepo, exists: bool, is_rust_project: bool, audit: Option<Result<AuditResult, SecurityError>>) -> (r: RepoAuditResult)
        ensures
            r.dest == repo.dest,
            !exists ==> !r.is_rust_project && r.audit_result is None
                && (r.error matches Some(m) && m@ == "Repository directory does not exist"@),
            exists && !is_rust_project ==> !r.is_rust_project && r.audit_result is None && r.error is None,
            exists && is_rust_project ==> r.is_rust_project && match audit {
                Some(Ok(a)) => r.audit_result == Some(a) && r.error is None,
                Some(Err(e)) => r.audit_result is None && (r.error matches Some(m) && m@ == security_error_text(e)),
                None => r.audit_result is None && (r.error matches Some(m) && m@ == "Task execution failed"@),
            },
    {
        if !exists {
            return RepoAuditResult {
                dest: repo.dest.clone(),
                audit_result: None,
                error: Some(owned("Repository directory does not exist")),
                is_rust_project: false,
            };
        }
        if !is_rust_project {
            return RepoAuditResult { dest: repo.dest.clone(), audit_result: None, error: None, is_rust_project: false };
        }
        match audit {
            Some(Ok(a)) => RepoAuditResult { dest: repo.dest.clone(), audit_result: Some(a), error: None, is_rust_project: true },
            Some(Err(e)) => {
                let m = e.to_string();
                RepoAuditResult { dest: repo.dest.clone(), audit_result: None, error: Some(m), is_rust_project: true }
            },
            None => RepoAuditResult {
                dest: repo.dest.clone(),
                audit_result: None,
                error: Some(owned("Task execution failed")),
                is_rust_project: true,
            },
        }
    }

    /// The result recorded for a parallel task that did not complete.
    pub fn failed_task_result() -> (r: RepoAuditResult)
        ensures
            r.dest@ == "unknown"@ && r.audit_result is None && r.is_rust_project,
            r.error matches Some(m) && m@ == "Task execution failed"@,
    {
        RepoAuditResult {
            dest: owned("unknown"),
            audit_result: None,
            error: Some(owned("Task execution failed")),
            is_rust_project: true,
        }
    }

    /// The largest number of parallel audits: the configured limit, else the smaller of
    /// the number of repositories and the number of CPUs.
    pub fn effective_max_parallel(&self, repo_count: usize) -> (r: usize)
        ensures
            exists|cpus: int| cpus >= 1 && r == #[trigger] limit_spec(self.settings().max_parallel, repo_count as int, cpus),
            match self.settings().max_parallel {
                Some(m) => r == m,
                None => r <= repo_count && (repo_count >= 1 ==> r >= 1),
            },
    {
        parallel_limit(self.config.max_parallel, repo_count)
    }

    /// The audit needs at least one Rust project.
    pub fn require_rust_projects(rust_repo_count: usize) -> (r: Result<(), SecurityAuditError>)
        ensures
            match r {
                Ok(()) => rust_repo_count > 0,
                Err(e) => rust_repo_count == 0 && e is NoRustProjectsFound,
            },
    {
        if rust_repo_count == 0 {
            Err(SecurityAuditError::NoRustProjectsFound)
        } else {
            Ok(())
        }
    }
}

/// The entries whose flag is set, in order.
pub open spec fn flagged_repos(repos: Seq<ManifestRepo>, flags: Seq<bool>) -> Seq<ManifestRepo>
    decreases repos.len(),
{
    if repos.len() == 0 {
        Seq::empty()
    } else {
        let prev = flagged_repos(repos.drop_last(), flags);
        if flags[repos.len() - 1] {
            prev.push(repos.last())
        } else {
            prev
        }
    }
}

impl SecurityAuditUseCase {
    /// The repositories that are Rust projects, in order, from whether each holds a
    /// `Cargo.toml` (`is_rust[i]` for `repos[i]`).
    pub fn filter_rust_repositories(repos: &Vec<ManifestRepo>, is_rust: &Vec<bool>) -> (r: Vec<ManifestRepo>)
        requires
            is_rust@.len() == repos@.len(),
        ensures
            repos_view(r@) == repos_view(flagged_repos(repos@, is_rust@)),
    {
        let mut out: Vec<ManifestRepo> = Vec::new();
        let mut i: usize = 0;
        while i < repos.len()
            invariant
                i <= repos@.len(),
                is_rust@.len() == repos@.len(),
                repos_view(out@) == repos_view(flagged_repos(repos@.take(i as int), is_rust@)),
            decreases repos.len() - i,
        {
            let ghost prefix = repos@.take(i + 1);
            assert(prefix.drop_last() =~= repos@.take(i as int));
            assert(prefix.last() == repos@[i as int]);
            let ghost prev = flagged_repos(repos@.take(i as int), is_rust@);
            assert(flagged_repos(prefix, is_rust@) == (if is_rust@[i as int] { prev.push(repos@[i as int]) } else { prev }));
            if is_rust[i] {
                let ghost before = out@;
                out.push(repos[i].duplicate());
                assert(repos_view(out@) =~= repos_view(before).push(repos@[i as int].deep_view()));
                assert(repos_view(prev.push(repos@[i as int])) =~= repos_view(prev).push(repos@[i as int].deep_view()));
            }
            i = i + 1;
        }
        assert(repos@.take(repos@.len() as int) =~= repos@);
        out
    }
}

} // verus!
