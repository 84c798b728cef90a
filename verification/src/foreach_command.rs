//! Running one command in every repository of a workspace: configuration, per-repository
//! results, their tally, and the decisions taken around each run.
use crate::env_map::EnvMap;
use crate::manifest::{derefs, group_names_dest, manifest_group, repos_in_group, Manifest, ManifestRepo};
use crate::path::path_join;
use crate::sys::{limit_spec, parallel_limit};
use crate::text::{cat2, cat3, cat4, cat5, owned, str_is_blank, is_blank};
use crate::util::Duplicate;
use crate::workspace::{Workspace, WorkspaceStatus};
use vstd::prelude::*;

verus! {

broadcast use vstd::seq_lib::group_seq_properties;

/// Errors of running a command across repositories.
#[derive(Debug)]
pub enum ForeachCommandError {
    WorkspaceNotInitialized(String),
    CommandFailed { repo: String, error: String },
    RepositoryNotFound(String),
    InvalidCommand,
    EnvironmentVariableError { key: String, error: String },
    ParallelExecutionFailed(String),
    IoError(String),
    ProcessError(String),
}

/// The `Display` text of an error.
pub open spec fn foreach_error_text(e: ForeachCommandError) -> Seq<char> {
    match e {
        ForeachCommandError::WorkspaceNotInitialized(p) => "Workspace not initialized: "@ + p@,
        ForeachCommandError::CommandFailed { repo, error } => "Command execution failed for repo '"@ + repo@ + "': "@ + error@,
        ForeachCommandError::RepositoryNotFound(d) => "Repository not found: "@ + d@,
        ForeachCommandError::InvalidCommand => "Command is empty or invalid"@,
        ForeachCommandError::EnvironmentVariableError { key, error } => "Failed to set environment variable '"@ + key@ + "': "@ + error@,
        ForeachCommandError::ParallelExecutionFailed(m) => "Parallel execution failed: "@ + m@,
        ForeachCommandError::IoError(m) => "IO error: "@ + m@,
        ForeachCommandError::ProcessError(m) => "Process execution error: "@ + m@,
    }
}

impl ForeachCommandError {
    /// The message of the error (its `Display` text).
    pub fn to_string(&self) -> (r: String)
        ensures
            r@ == foreach_error_text(*self),
    {
        match self {
            ForeachCommandError::WorkspaceNotInitialized(p) => cat2("Workspace not initialized: ", p.as_str()),
            ForeachCommandError::CommandFailed { repo, error } => cat4("Command execution failed for repo '", repo.as_str(), "': ", error.as_str()),
            ForeachCommandError::RepositoryNotFound(d) => cat2("Repository not found: ", d.as_str()),
            ForeachCommandError::InvalidCommand => owned("Command is empty or invalid"),
            ForeachCommandError::EnvironmentVariableError { key, error } => cat4("Failed to set environment variable '", key.as_str(), "': ", error.as_str()),
            ForeachCommandError::ParallelExecutionFailed(m) => cat2("Parallel execution failed: ", m.as_str()),
            ForeachCommandError::IoError(m) => cat2("IO error: ", m.as_str()),
            ForeachCommandError::ProcessError(m) => cat2("Process execution error: ", m.as_str()),
        }
    }
}

/// Settings of a run.
#[derive(Debug, Clone)]
pub struct ForeachCommandConfig {
    /// The command to run
    pub command: String,
    /// Only the repositories of these groups (all when `None`)
    pub groups: Option<Vec<String>>,
    /// Run in parallel
    pub parallel: bool,
    /// Largest number of parallel runs (the number of CPUs when `None`)
    pub max_parallel: Option<usize>,
    /// Go on after a failure
    pub continue_on_error: bool,
    /// Verbose output
    pub verbose: bool,
    /// Additional environment variables
    pub environment_variables: EnvMap,
    /// Time limit of one run, in seconds
    pub timeout_seconds: Option<u64>,
    /// Run inside the repository directory
    pub change_dir: bool,
}

impl Default for ForeachCommandConfig {
    fn default() -> (r: Self)
        ensures
            r.command@.len() == 0,
            r.groups is None && !r.parallel && r.max_parallel is None,
            !r.continue_on_error && !r.verbose,
            r.environment_variables@ == Map::<Seq<char>, Seq<char>>::empty(),
            r.timeout_seconds is None && r.change_dir,
    {
        ForeachCommandConfig {
            command: String::new(),
            groups: None,
            parallel: false,
            max_parallel: None,
            continue_on_error: false,
            verbose: false,
            environment_variables: EnvMap::new(),
            timeout_seconds: None,
            change_dir: true,
        }
    }
}

impl ForeachCommandConfig {
    /// Default settings for `command`.
    pub fn new(command: &str) -> (r: Self)
        ensures
            r.command@ == command@,
            r.groups is None && !r.parallel && r.max_parallel is None,
            !r.continue_on_error && !r.verbose,
            r.environment_variables@ == Map::<Seq<char>, Seq<char>>::empty(),
            r.timeout_seconds is None && r.change_dir,
    {
        ForeachCommandConfig { command: owned(command), ..Default::default() }
    }

    /// Set parallel running and its limit.
    pub fn with_parallel(self, parallel: bool, max_parallel: Option<usize>) -> (r: Self)
        ensures
            r == (ForeachCommandConfig { parallel, max_parallel, ..self }),
    {
        ForeachCommandConfig { parallel, max_parallel, ..self }
    }

    /// Restrict the run to the given groups.
    pub fn with_groups(self, groups: Vec<String>) -> (r: Self)
        ensures
            r == (ForeachCommandConfig { groups: Some(groups), ..self }),
    {
        ForeachCommandConfig { groups: Some(groups), ..self }
    }

    /// Set whether to go on after a failure.
    pub fn with_continue_on_error(self, continue_on_error: bool) -> (r: Self)
        ensures
            r == (ForeachCommandConfig { continue_on_error, ..self }),
    {
        ForeachCommandConfig { continue_on_error, ..self }
    }

    /// Set verbose output.
    pub fn with_verbose(self, verbose: bool) -> (r: Self)
        ensures
            r == (ForeachCommandConfig { verbose, ..self }),
    {
        ForeachCommandConfig { verbose, ..self }
    }

    /// Add an environment variable (replacing an earlier value of the same name).
    pub fn with_environment_variable(self, key: &str, value: &str) -> (r: Self)
        ensures
            r.environment_variables@ == self.environment_variables@.insert(key@, value@),
            r.command == self.command && r.groups == self.groups && r.parallel == self.parallel,
            r.max_parallel == self.max_parallel && r.continue_on_error == self.continue_on_error,
            r.verbose == self.verbose && r.timeout_seconds == self.timeout_seconds,
            r.change_dir == self.change_dir,
    {
        let mut r = self;
        r.environment_variables.insert(owned(key), owned(value));
        r
    }

    /// Set the time limit.
    pub fn with_timeout(self, timeout_seconds: u64) -> (r: Self)
        ensures
            r == (ForeachCommandConfig { timeout_seconds: Some(timeout_seconds), ..self }),
    {
        ForeachCommandConfig { timeout_seconds: Some(timeout_seconds), ..self }
    }

    /// Set whether to run inside the repository directory.
    pub fn with_change_dir(self, change_dir: bool) -> (r: Self)
        ensures
            r == (ForeachCommandConfig { change_dir, ..self }),
    {
        ForeachCommandConfig { change_dir, ..self }
    }
}

/// The state of one run.
#[derive(Debug, Clone, Copy, PartialEq, Eq, Structural)]
pub enum CommandStatus {
    Success,
    Failed,
    Skipped,
    Timeout,
    Running,
}

/// The result of the command in one repository.
#[derive(Debug, Clone)]
pub struct CommandResult {
    /// Destination of the repository
    pub dest: String,
    /// State
    pub status: CommandStatus,
    /// Exit code
    pub exit_code: Option<i32>,
    /// Standard output
    pub stdout: String,
    /// Standard error
    pub stderr: String,
    /// Running time in milliseconds
    pub execution_time_ms: u64,
    /// Error message of a failure
    pub error_message: Option<String>,
}

/// A failed or timed-out run.
pub open spec fn is_failure_status(s: CommandStatus) -> bool {
    s == CommandStatus::Failed || s == CommandStatus::Timeout
}

impl CommandResult {
    /// A skipped result for `dest`, with nothing run yet.
    pub fn new(dest: String) -> (r: Self)
        ensures
            r.dest == dest && r.status == CommandStatus::Skipped && r.exit_code is None,
            r.stdout@.len() == 0 && r.stderr@.len() == 0 && r.execution_time_ms == 0,
            r.error_message is None,
    {
        CommandResult {
            dest,
            status: CommandStatus::Skipped,
            exit_code: None,
            stdout: String::new(),
            stderr: String::new(),
            execution_time_ms: 0,
            error_message: None,
        }
    }

    /// Mark as succeeded.
    pub fn with_success(self, exit_code: i32, stdout: String, stderr: String, execution_time: u64) -> (r: Self)
        ensures
            r == (CommandResult {
                status: CommandStatus::Success,
                exit_code: Some(exit_code),
                stdout,
                stderr,
                execution_time_ms: execution_time,
                ..self
            }),
    {
        CommandResult {
            status: CommandStatus::Success,
            exit_code: Some(exit_code),
            stdout,
            stderr,
            execution_time_ms: execution_time,
            ..self
        }
    }

    /// Mark as failed.
    pub fn with_failure(self, exit_code: Option<i32>, error: String, execution_time: u64) -> (r: Self)
        ensures
            r == (CommandResult {
                status: CommandStatus::Failed,
                exit_code,
                error_message: Some(error),
                execution_time_ms: execution_time,
                ..self
            }),
    {
        CommandResult {
            status: CommandStatus::Failed,
            exit_code,
            error_message: Some(error),
            execution_time_ms: execution_time,
            ..self
        }
    }

    /// Mark as timed out.
    pub fn with_timeout(self, execution_time: u64) -> (r: Self)
        ensures
            r.status == CommandStatus::Timeout && r.execution_time_ms == execution_time,
            r.error_message matches Some(m) && m@ == "Command timed out"@,
            r.dest == self.dest && r.exit_code == self.exit_code,
            r.stdout == self.stdout && r.stderr == self.stderr,
    {
        CommandResult {
            status: CommandStatus::Timeout,
            execution_time_ms: execution_time,
            error_message: Some(owned("Command timed out")),
            ..self
        }
    }

    /// Mark as skipped, with the reason.
    pub fn with_skip(self, reason: String) -> (r: Self)
        ensures
            r == (CommandResult { status: CommandStatus::Skipped, error_message: Some(reason), ..self }),
    {
        CommandResult { status: CommandStatus::Skipped, error_message: Some(reason), ..self }
    }

    /// Whether the run succeeded.
    pub fn is_success(&self) -> (r: bool)
        ensures
            r == (self.status == CommandStatus::Success),
    {
        self.status == CommandStatus::Success
    }

    /// Whether the run failed or timed out.
    pub fn is_failure(&self) -> (r: bool)
        ensures
            r == is_failure_status(self.status),
    {
        self.status == CommandStatus::Failed || self.status == CommandStatus::Timeout
    }
}

/// The tally of a run over many repositories.
#[derive(Debug, Clone)]
pub struct ForeachResult {
    /// Results per repository, in the order they were added
    pub results: Vec<CommandResult>,
    /// Number of successes
    pub success_count: usize,
    /// Number of failures and time-outs
    pub failure_count: usize,
    /// Number of skipped repositories
    pub skipped_count: usize,
    /// Total running time in milliseconds
    pub total_execution_time_ms: u64,
    /// Whether the runs were parallel
    pub was_parallel: bool,
}

/// The number of results whose state satisfies `p`.
pub open spec fn count_status(rs: Seq<CommandResult>, p: spec_fn(CommandStatus) -> bool) -> nat {
    rs.filter(|c: CommandResult| p(c.status)).len()
}

/// The sum of the running times of the results.
pub open spec fn total_time(rs: Seq<CommandResult>) -> int
    decreases rs.len(),
{
    if rs.len() == 0 {
        0
    } else {
        total_time(rs.drop_last()) + rs.last().execution_time_ms
    }
}

/// The counters agree with the results: successes, failures (including time-outs) and
/// skips are counted, running results are not, and a sequential run's total time is
/// the sum of the running times.
pub open spec fn tally_consistent(r: ForeachResult) -> bool {
    &&& r.success_count == count_status(r.results@, |s: CommandStatus| s == CommandStatus::Success)
    &&& r.failure_count == count_status(r.results@, |s: CommandStatus| is_failure_status(s))
    &&& r.skipped_count == count_status(r.results@, |s: CommandStatus| s == CommandStatus::Skipped)
    &&& !r.was_parallel ==> r.total_execution_time_ms == total_time(r.results@)
}

/// Adding a result to a tally: the counter of its state grows by one and the others
/// stay, and (for a sequential run) its time is added.
pub open spec fn tally_after_add(old: ForeachResult, new: ForeachResult, c: CommandResult) -> bool {
    &&& new.results@ == old.results@.push(c)
    &&& new.was_parallel == old.was_parallel
    &&& new.success_count == old.success_count + (if c.status == CommandStatus::Success { 1int } else { 0 })
    &&& new.failure_count == old.failure_count + (if is_failure_status(c.status) { 1int } else { 0 })
    &&& new.skipped_count == old.skipped_count + (if c.status == CommandStatus::Skipped { 1int } else { 0 })
    &&& new.total_execution_time_ms == old.total_execution_time_ms + (if old.was_parallel { 0 } else { c.execution_time_ms as int })
}

/// The counters of a tally are consistent after every addition: a consistent tally
/// stays consistent when a result is added as `add_result` adds it.
pub proof fn law_add_keeps_tally(old: ForeachResult, new: ForeachResult, c: CommandResult)
    requires
        tally_consistent(old),
        tally_after_add(old, new, c),
    ensures
        tally_consistent(new),
        new.results@.len() == old.results@.len() + 1,
{
    let rs = old.results@;
    assert(rs.push(c).drop_last() =~= rs);
    rs.lemma_filter_push(c, |x: CommandResult| (|s: CommandStatus| s == CommandStatus::Success)(x.status));
    rs.lemma_filter_push(c, |x: CommandResult| (|s: CommandStatus| is_failure_status(s))(x.status));
    rs.lemma_filter_push(c, |x: CommandResult| (|s: CommandStatus| s == CommandStatus::Skipped)(x.status));
}

impl ForeachResult {
    /// An empty tally.
    pub fn new(was_parallel: bool) -> (r: Self)
        ensures
            r.results@.len() == 0 && r.success_count == 0 && r.failure_count == 0,
            r.skipped_count == 0 && r.total_execution_time_ms == 0 && r.was_parallel == was_parallel,
            tally_consistent(r),
    {
        let r = ForeachResult {
            results: Vec::new(),
            success_count: 0,
            failure_count: 0,
            skipped_count: 0,
            total_execution_time_ms: 0,
            was_parallel,
        };
        proof {
            reveal_with_fuel(Seq::<CommandResult>::filter, 1);
        }
        r
    }

    /// Add a result and count it.
    pub fn add_result(&mut self, result: CommandResult)
        requires
            old(self).success_count < usize::MAX,
            old(self).failure_count < usize::MAX,
            old(self).skipped_count < usize::MAX,
            !old(self).was_parallel ==> old(self).total_execution_time_ms + result.execution_time_ms <= u64::MAX,
        ensures
            tally_after_add(*old(self), *final(self), result),
    {
        match result.status {
            CommandStatus::Success => self.success_count = self.success_count + 1,
            CommandStatus::Failed | CommandStatus::Timeout => self.failure_count = self.failure_count + 1,
            CommandStatus::Skipped => self.skipped_count = self.skipped_count + 1,
            CommandStatus::Running => {},
        }
        if !self.was_parallel {
            self.total_execution_time_ms = self.total_execution_time_ms + result.execution_time_ms;
        }
        self.results.push(result);
    }

    /// Whether nothing failed and something succeeded.
    pub fn is_success(&self) -> (r: bool)
        ensures
            r == (self.failure_count == 0 && self.success_count > 0),
    {
        self.failure_count == 0 && self.success_count > 0
    }

    /// The number of results.
    pub fn total_count(&self) -> (r: usize)
        ensures
            r == self.results@.len(),
    {
        self.results.len()
    }

    /// The failed and timed-out results, in order.
    pub fn failed_results(&self) -> (r: Vec<&CommandResult>)
        ensures
            derefs(r@) == self.results@.filter(|c: CommandResult| is_failure_status(c.status)),
    {
        let ghost pred = |c: CommandResult| is_failure_status(c.status);
        let mut out: Vec<&CommandResult> = Vec::new();
        let mut i: usize = 0;
        while i < self.results.len()
            invariant
                i <= self.results@.len(),
                pred == (|c: CommandResult| is_failure_status(c.status)),
                derefs(out@) == self.results@.subrange(0, i as int).filter(pred),
            decreases self.results.len() - i,
        {
            proof {
                assert(self.results@.subrange(0, i + 1) =~= self.results@.subrange(0, i as int).push(self.results@[i as int]));
                self.results@.subrange(0, i as int).lemma_filter_push(self.results@[i as int], pred);
            }
            let ghost before = out@;
            if self.results[i].is_failure() {
                out.push(&self.results[i]);
                assert(derefs(out@) =~= derefs(before).push(self.results@[i as int]));
            }
            i = i + 1;
        }
        assert(self.results@.subrange(0, self.results@.len() as int) =~= self.results@);
        out
    }
}


/// The repositories of the groups, group after group, in manifest order within each
/// group; a repository of several listed groups appears once per group.
pub open spec fn repos_of_groups(m: Manifest, groups: Seq<String>) -> Seq<ManifestRepo>
    decreases groups.len(),
{
    if groups.len() == 0 {
        Seq::empty()
    } else {
        repos_of_groups(m, groups.drop_last()) + repos_in_group(m, groups.last()@)
    }
}

/// The repositories selected for group names: every repository of every listed group is
/// selected, only repositories of listed groups are selected, and listing one more
/// group appends that group's repositories after the others.
pub proof fn law_selected_repos_of_groups(m: Manifest, groups: Seq<String>, more: String)
    ensures
        forall|i: int, j: int| 0 <= i < groups.len() && 0 <= j < repos_in_group(m, groups[i]@).len()
            ==> repos_of_groups(m, groups).contains(#[trigger] repos_in_group(m, groups[i]@)[j]),
        forall|x: ManifestRepo| #[trigger] repos_of_groups(m, groups).contains(x)
            ==> exists|i: int| 0 <= i < groups.len() && repos_in_group(m, (#[trigger] groups[i])@).contains(x),
        repos_of_groups(m, groups.push(more)) == repos_of_groups(m, groups) + repos_in_group(m, more@),
        groups.len() == 0 ==> repos_of_groups(m, groups).len() == 0,
    decreases groups.len(),
{
    assert(groups.push(more).drop_last() =~= groups);
    if groups.len() > 0 {
        let p = groups.drop_last();
        law_selected_repos_of_groups(m, p, groups.last());
        let prev = repos_of_groups(m, p);
        let last = repos_in_group(m, groups.last()@);
        assert(repos_of_groups(m, groups) == prev + last);
        assert forall|i: int, j: int| 0 <= i < groups.len() && 0 <= j < repos_in_group(m, groups[i]@).len()
            implies repos_of_groups(m, groups).contains(#[trigger] repos_in_group(m, groups[i]@)[j]) by {
            let x = repos_in_group(m, groups[i]@)[j];
            if i < p.len() {
                assert(p[i] == groups[i]);
                assert(prev.contains(x));
                let q = choose|q: int| 0 <= q < prev.len() && prev[q] == x;
                assert((prev + last)[q] == x);
            } else {
                assert(groups[i] == groups.last());
                assert((prev + last)[prev.len() + j] == x);
            }
        }
        assert forall|x: ManifestRepo| #[trigger] repos_of_groups(m, groups).contains(x)
            implies exists|i: int| 0 <= i < groups.len() && repos_in_group(m, (#[trigger] groups[i])@).contains(x) by {
            let q = choose|q: int| 0 <= q < (prev + last).len() && (prev + last)[q] == x;
            if q < prev.len() {
                assert(prev[q] == x);
                assert(prev.contains(x));
                let i = choose|i: int| 0 <= i < p.len() && repos_in_group(m, (#[trigger] p[i])@).contains(x);
                assert(p[i] == groups[i]);
            } else {
                assert(last[q - prev.len()] == x);
                assert(last.contains(x));
                assert(groups[groups.len() - 1] == groups.last());
            }
        }
    }
}

/// The repositories of a group are exactly the manifest's entries whose destination the
/// group names, in manifest order.
pub proof fn law_repos_in_group_members(m: Manifest, name: Seq<char>, x: ManifestRepo)
    ensures
        repos_in_group(m, name).contains(x) <==> (m.repos@.contains(x) && (manifest_group(m, name) matches Some(g)
            && exists|k: int| 0 <= k < g.repos@.len() && (#[trigger] g.repos@[k])@ == x.dest@)),
{
    match manifest_group(m, name) {
        Some(g) => {
            let f = |r: ManifestRepo| group_names_dest(g, r.dest@);
            m.repos@.filter_lemma(f);
            if m.repos@.contains(x) && f(x) {
                let q = choose|q: int| 0 <= q < m.repos@.len() && m.repos@[q] == x;
                assert(m.repos@.filter(f).contains(x));
            }
            if m.repos@.filter(f).contains(x) {
                lemma_filter_member(m.repos@, f, x);
                let q = choose|q: int| 0 <= q < m.repos@.filter(f).len() && m.repos@.filter(f)[q] == x;
                assert(f(m.repos@.filter(f)[q]));
            }
        },
        None => {},
    }
}

/// What a filter keeps comes from the filtered sequence.
proof fn lemma_filter_member(s: Seq<ManifestRepo>, f: spec_fn(ManifestRepo) -> bool, x: ManifestRepo)
    requires
        s.filter(f).contains(x),
    ensures
        s.contains(x),
    decreases s.len(),
{
    reveal_with_fuel(Seq::<ManifestRepo>::filter, 1);
    if s.len() > 0 {
        let sub = s.drop_last().filter(f);
        if f(s.last()) && x == s.last() {
            assert(s[s.len() - 1] == x);
        } else {
            if f(s.last()) {
                let q = choose|q: int| 0 <= q < s.filter(f).len() && s.filter(f)[q] == x;
                assert(s.filter(f) == sub.push(s.last()));
                assert(q < sub.len());
                assert(sub[q] == x);
            }
            assert(sub.contains(x));
            lemma_filter_member(s.drop_last(), f, x);
            let q = choose|q: int| 0 <= q < s.drop_last().len() && s.drop_last()[q] == x;
            assert(s[q] == x);
        }
    }
}

/// The deep views of a sequence of manifest entries.
pub open spec fn repos_view(s: Seq<ManifestRepo>) -> Seq<<ManifestRepo as DeepView>::V> {
    s.map_values(|r: ManifestRepo| r.deep_view())
}

/// The outcome of one repository run as the sequential and parallel drivers record it:
/// a result is added as it is; an error adds a failure result for the repository (with
/// the error's text) and stops the run unless errors are to be ignored.
pub open spec fn recorded_failure(dest: Seq<char>, e: ForeachCommandError, c: CommandResult) -> bool {
    &&& c.dest@ == dest
    &&& c.status == CommandStatus::Failed
    &&& c.exit_code is None
    &&& c.error_message matches Some(m) && m@ == foreach_error_text(e)
    &&& c.execution_time_ms == 0
    &&& c.stdout@.len() == 0 && c.stderr@.len() == 0
}

/// The repositories of a manifest to work on: those of the given groups (see
/// `repos_of_groups`), or all of them.
pub fn target_repositories(manifest: &Manifest, groups: &Option<Vec<String>>) -> (r: Vec<ManifestRepo>)
    ensures
        repos_view(r@) == repos_view(match groups {
            Some(gs) => repos_of_groups(*manifest, gs@),
            None => manifest.repos@,
        }),
{
    match groups {
        Some(gs) => {
            let mut out: Vec<ManifestRepo> = Vec::new();
            let mut g: usize = 0;
            while g < gs.len()
                invariant
                    g <= gs@.len(),
                    repos_view(out@) == repos_view(repos_of_groups(*manifest, gs@.subrange(0, g as int))),
                decreases gs.len() - g,
            {
                proof {
                    assert(gs@.subrange(0, g + 1).drop_last() =~= gs@.subrange(0, g as int));
                }
                let in_group = manifest.get_repos_in_group(gs[g].as_str());
                let ghost target = repos_view(repos_of_groups(*manifest, gs@.subrange(0, g + 1)));
                let mut k: usize = 0;
                let ghost base = out@;
                while k < in_group.len()
                    invariant
                        k <= in_group@.len(),
                        out@.len() == base.len() + k,
                        repos_view(out@.subrange(0, base.len() as int)) == repos_view(base),
                        forall|j: int| 0 <= j < k ==> (#[trigger] out@[base.len() + j]).deep_view() == in_group@[j].deep_view(),
                    decreases in_group.len() - k,
                {
                    let c = in_group[k].duplicate();
                    let ghost before = out@;
                    out.push(c);
                    assert(out@.subrange(0, base.len() as int) =~= before.subrange(0, base.len() as int));
                    k = k + 1;
                }
                proof {
                    let added = derefs(in_group@);
                    assert(repos_view(out@) =~= repos_view(base) + repos_view(added)) by {
                        assert forall|j: int| 0 <= j < out@.len() implies repos_view(out@)[j] == (repos_view(base) + repos_view(added))[j] by {
                            if j < base.len() {
                                assert(repos_view(out@.subrange(0, base.len() as int))[j] == repos_view(out@)[j]);
                            } else {
                                assert(out@[base.len() + (j - base.len())].deep_view() == in_group@[j - base.len()].deep_view());
                            }
                        }
                    }
                    assert(repos_view(repos_of_groups(*manifest, gs@.subrange(0, g + 1)))
                        =~= repos_view(repos_of_groups(*manifest, gs@.subrange(0, g as int))) + repos_view(added));
                }
                g = g + 1;
            }
            assert(gs@.subrange(0, gs@.len() as int) =~= gs@);
            out
        },
        None => {
            let v = manifest.repos.duplicate();
            proof {
                assert(repos_view(v@) =~= repos_view(manifest.repos@)) by {
                    assert(v.deep_view().len() == manifest.repos.deep_view().len());
                    assert forall|j: int| 0 <= j < v@.len() implies repos_view(v@)[j] == repos_view(manifest.repos@)[j] by {
                        assert(v.deep_view()[j] == manifest.repos.deep_view()[j]);
                        assert(v.deep_view()[j] == v@[j].deep_view());
                        assert(manifest.repos.deep_view()[j] == manifest.repos@[j].deep_view());
                    }
                }
            }
            v
        },
    }
}

/// Running a command in every repository of a workspace.
pub struct ForeachCommandUseCase {
    config: ForeachCommandConfig,
}

impl ForeachCommandUseCase {
    /// The settings of the run.
    pub closed spec fn settings(self) -> ForeachCommandConfig {
        self.config
    }

    /// A run with the given settings.
    pub fn new(config: ForeachCommandConfig) -> (r: Self)
        ensures
            r.settings() == config,
    {
        ForeachCommandUseCase { config }
    }

    /// The settings of the run.
    pub fn config(&self) -> (r: &ForeachCommandConfig)
        ensures
            *r == self.settings(),
    {
        &self.config
    }

    /// The command must hold something besides whitespace.
    pub fn validate_command(&self) -> (r: Result<(), ForeachCommandError>)
        ensures
            match r {
                Ok(()) => !is_blank(self.settings().command@),
                Err(e) => is_blank(self.settings().command@) && e is InvalidCommand,
            },
    {
        if str_is_blank(self.config.command.as_str()) {
            return Err(ForeachCommandError::InvalidCommand);
        }
        Ok(())
    }

    /// The workspace must be initialised.
    pub fn check_workspace_initialized(&self, workspace: &Workspace) -> (r: Result<(), ForeachCommandError>)
        ensures
            match r {
                Ok(()) => workspace.status == WorkspaceStatus::Initialized,
                Err(e) => workspace.status != WorkspaceStatus::Initialized
                    && (e matches ForeachCommandError::WorkspaceNotInitialized(p) && p@ == workspace.root_path@),
            },
    {
        if !workspace.is_initialized() {
            return Err(ForeachCommandError::WorkspaceNotInitialized(workspace.root_path.clone()));
        }
        Ok(())
    }

    /// The repositories to run in: those of the configured groups (see
    /// `repos_of_groups`), or all of the manifest; an error when no manifest is loaded.
    pub fn determine_target_repositories(&self, workspace: &Workspace) -> (r: Result<Vec<ManifestRepo>, ForeachCommandError>)
        ensures
            match r {
                Ok(v) => workspace.manifest matches Some(m) && repos_view(v@) == repos_view(match self.settings().groups {
                    Some(gs) => repos_of_groups(m, gs@),
                    None => m.repos@,
                }),
                Err(e) => workspace.manifest is None && (e matches ForeachCommandError::ProcessError(msg)
                    && msg@ == "Manifest not loaded"@),
            },
    {
        let manifest = match &workspace.manifest {
            Some(m) => m,
            None => {
                return Err(ForeachCommandError::ProcessError(owned("Manifest not loaded")));
            },
        };
        Ok(target_repositories(manifest, &self.config.groups))
    }

    /// The environment of every run: the configured variables, the workspace root, and
    /// (when a manifest is loaded) the manifest URL and branch.
    pub fn prepare_environment_variables(&self, workspace: &Workspace) -> (r: Result<EnvMap, ForeachCommandError>)
        ensures
            r matches Ok(m) && m@ == {
                let base = self.settings().environment_variables@.insert("TSRC_WORKSPACE_ROOT"@, workspace.root_path@);
                if workspace.manifest is Some {
                    base.insert("TSRC_MANIFEST_URL"@, workspace.config.manifest_url@)
                        .insert("TSRC_MANIFEST_BRANCH"@, workspace.config.manifest_branch@)
                } else {
                    base
                }
            },
    {
        let mut env_vars = self.config.environment_variables.clone();
        env_vars.insert(owned("TSRC_WORKSPACE_ROOT"), workspace.root_path.clone());
        if workspace.manifest.is_some() {
            env_vars.insert(owned("TSRC_MANIFEST_URL"), workspace.config.manifest_url.clone());
            env_vars.insert(owned("TSRC_MANIFEST_BRANCH"), workspace.config.manifest_branch.clone());
        }
        Ok(env_vars)
    }

    /// The environment of the run in one repository: the shared variables plus its
    /// destination, URL, directory and (when set) branch.
    pub fn repo_environment(env_vars: &EnvMap, repo: &ManifestRepo, repo_path: &str) -> (r: EnvMap)
        ensures
            r@ == {
                let base = env_vars@.insert("TSRC_REPO_DEST"@, repo.dest@).insert("TSRC_REPO_URL"@, repo.url@)
                    .insert("TSRC_REPO_PATH"@, repo_path@);
                match repo.branch {
                    Some(b) => base.insert("TSRC_REPO_BRANCH"@, b@),
                    None => base,
                }
            },
    {
        let mut e = env_vars.clone();
        e.insert(owned("TSRC_REPO_DEST"), repo.dest.clone());
        e.insert(owned("TSRC_REPO_URL"), repo.url.clone());
        e.insert(owned("TSRC_REPO_PATH"), owned(repo_path));
        if let Some(b) = &repo.branch {
            e.insert(owned("TSRC_REPO_BRANCH"), b.clone());
        }
        e
    }

    /// The directory to run in: the repository's when changing directory, else the
    /// workspace root.
    pub fn working_directory(&self, workspace: &Workspace, repo: &ManifestRepo) -> (r: String)
        ensures
            r@ == if self.settings().change_dir {
                path_join(workspace.root_path@, repo.dest@)
            } else {
                workspace.root_path@
            },
    {
        if self.config.change_dir {
            workspace.repo_path(repo.dest.as_str())
        } else {
            workspace.root_path.clone()
        }
    }

    /// The result for a repository whose directory does not exist.
    pub fn missing_repository_result(repo: &ManifestRepo) -> (r: CommandResult)
        ensures
            r.dest == repo.dest && r.status == CommandStatus::Skipped && r.exit_code is None,
            r.error_message matches Some(m) && m@ == "Repository directory does not exist"@,
            r.execution_time_ms == 0,
            r.stdout@.len() == 0 && r.stderr@.len() == 0,
    {
        CommandResult::new(repo.dest.clone()).with_skip(owned("Repository directory does not exist"))
    }

    /// The result of the command in a repository, as the placeholder runner computes
    /// it from the time elapsed so far: an invalid command is an error; a run at or
    /// past its time limit times out; otherwise a success with exit code 0 and the
    /// text `Mock output from '<command>' in <dest>`.
    pub fn perform_command_execution(&self, command: &str, repo_dest: &str, elapsed_ms: u64) -> (r: Result<CommandResult, ForeachCommandError>)
        ensures
            match r {
                Err(e) => is_blank(command@) && e is InvalidCommand,
                Ok(c) => !is_blank(command@) && c.dest@ == repo_dest@ && c.execution_time_ms == elapsed_ms
                    && if (self.settings().timeout_seconds matches Some(t) && elapsed_ms / 1000 >= t) {
                        &&& c.status == CommandStatus::Timeout
                        &&& c.exit_code is None
                        &&& c.stdout@.len() == 0 && c.stderr@.len() == 0
                        &&& (c.error_message matches Some(m) && m@ == "Command timed out"@)
                    } else {
                        &&& c.status == CommandStatus::Success && c.exit_code == Some(0i32)
                        &&& c.stdout@ == "Mock output from '"@ + command@ + "' in "@ + repo_dest@
                        &&& c.stderr@.len() == 0
                        &&& c.error_message is None
                    },
            },
    {
        if str_is_blank(command) {
            return Err(ForeachCommandError::InvalidCommand);
        }
        if let Some(timeout) = self.config.timeout_seconds {
            if elapsed_ms / 1000 >= timeout {
                return Ok(CommandResult::new(owned(repo_dest)).with_timeout(elapsed_ms));
            }
        }
        let out = cat4("Mock output from '", command, "' in ", repo_dest);
        Ok(CommandResult::new(owned(repo_dest)).with_success(0, out, String::new(), elapsed_ms))
    }

    /// The largest number of parallel runs: the configured limit, else the smaller of
    /// the number of repositories and the number of CPUs.
    pub fn effective_max_parallel(&self, repo_count: usize) -> (r: usize)
        ensures
            exists|cpus: int| cpus >= 1 && r == #[trigger] limit_spec(self.settings().max_parallel, repo_count as int, cpus),
            match self.settings().max_parallel {
                Some(m) => r == m,
                None => r <= repo_count && (repo_count >= 1 ==> r >= 1),
            },
    {
        parallel_limit(self.config.max_parallel, repo_count)
    }

    /// Record the outcome of the run in repository `dest`: a result is added; an error
    /// adds a failure result (see `recorded_failure`) and is handed back when the run
    /// is to stop there.
    pub fn record_outcome(&self, tally: &mut ForeachResult, dest: &str, outcome: Result<CommandResult, ForeachCommandError>) -> (r: Option<ForeachCommandError>)
        requires
            old(tally).success_count < usize::MAX,
            old(tally).failure_count < usize::MAX,
            old(tally).skipped_count < usize::MAX,
            match outcome {
                Ok(c) => !old(tally).was_parallel ==> old(tally).total_execution_time_ms + c.execution_time_ms <= u64::MAX,
                Err(_) => true,
            },
        ensures
            match outcome {
                Ok(c) => tally_after_add(*old(tally), *final(tally), c) && r is None,
                Err(e) => exists|c: CommandResult| recorded_failure(dest@, e, c) && tally_after_add(*old(tally), *final(tally), c)
                    && (if self.settings().continue_on_error { r is None } else { r == Some(e) }),
            },
    {
        match outcome {
            Ok(c) => {
                tally.add_result(c);
                None
            },
            Err(e) => {
                let msg = e.to_string();
                let failed = CommandResult::new(owned(dest)).with_failure(None, msg, 0);
                assert(recorded_failure(dest@, e, failed));
                tally.add_result(failed);
                if self.config.continue_on_error {
                    None
                } else {
                    Some(e)
                }
            },
        }
    }
}

/// The shared environment of a run (see `prepare_environment_variables`).
pub open spec fn run_environment(config: ForeachCommandConfig, workspace: Workspace) -> Map<Seq<char>, Seq<char>> {
    let base = config.environment_variables@.insert("TSRC_WORKSPACE_ROOT"@, workspace.root_path@);
    if workspace.manifest is Some {
        base.insert("TSRC_MANIFEST_URL"@, workspace.config.manifest_url@)
            .insert("TSRC_MANIFEST_BRANCH"@, workspace.config.manifest_branch@)
    } else {
        base
    }
}

impl ForeachCommandUseCase {
    /// Everything a run needs before the command runs anywhere: the command must not
    /// be blank, the workspace must be initialised and a manifest loaded, checked in
    /// that order; then the repositories to run in and their shared environment.
    pub fn prepare_run(&self, workspace: &Workspace) -> (r: Result<(Vec<ManifestRepo>, EnvMap), ForeachCommandError>)
        ensures
            match r {
                Ok((v, env)) => {
                    &&& !is_blank(self.settings().command@)
                    &&& workspace.status == WorkspaceStatus::Initialized
                    &&& workspace.manifest matches Some(m) && repos_view(v@) == repos_view(match self.settings().groups {
                        Some(gs) => repos_of_groups(m, gs@),
                        None => m.repos@,
                    })
                    &&& env@ == run_environment(self.settings(), *workspace)
                },
                Err(e) => if is_blank(self.settings().command@) {
                    e is InvalidCommand
                } else if workspace.status != WorkspaceStatus::Initialized {
                    e matches ForeachCommandError::WorkspaceNotInitialized(p) && p@ == workspace.root_path@
                } else {
                    workspace.manifest is None && (e matches ForeachCommandError::ProcessError(msg) && msg@ == "Manifest not loaded"@)
                },
            },
    {
        self.validate_command()?;
        self.check_workspace_initialized(workspace)?;
        let repos = self.determine_target_repositories(workspace)?;
        let env = match self.prepare_environment_variables(workspace) {
            Ok(m) => m,
            Err(e) => {
                return Err(e);
            },
        };
        Ok((repos, env))
    }
}

} // verus!
