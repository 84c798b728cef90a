//! Running external commands: settings of one run, its result, settings of parallel
//! runs, their tally, and how a command line becomes a program and its arguments.
use crate::env_map::EnvMap;
use crate::sys::available_cpus;
use crate::text::{cat2, cat4, i64_to_string, int_text, dec_digits, is_blank, owned, split_whitespace, str_is_blank, u64_to_string, words};
use vstd::prelude::*;

verus! {

broadcast use vstd::seq_lib::group_seq_properties;

/// Errors of running a command.
#[derive(Debug)]
pub enum CommandExecutorError {
    CommandFailed { exit_code: i32, stderr: String },
    Timeout { timeout_seconds: u64 },
    IoError(String),
    InvalidCommand(String),
    SpawnFailed(String),
    TerminationFailed(String),
}

/// The `Display` text of an error.
pub open spec fn executor_error_text(e: CommandExecutorError) -> Seq<char> {
    match e {
        CommandExecutorError::CommandFailed { exit_code, stderr } => "Command failed with exit code "@ + int_text(exit_code as int) + ": "@ + stderr@,
        CommandExecutorError::Timeout { timeout_seconds } => "Command timed out after "@ + dec_digits(timeout_seconds as nat) + " seconds"@,
        CommandExecutorError::IoError(m) => "IO error: "@ + m@,
        CommandExecutorError::InvalidCommand(m) => "Invalid command: "@ + m@,
        CommandExecutorError::SpawnFailed(m) => "Process spawn failed: "@ + m@,
        CommandExecutorError::TerminationFailed(m) => "Process termination failed: "@ + m@,
    }
}

impl CommandExecutorError {
    /// The message of the error (its `Display` text).
    pub fn to_string(&self) -> (r: String)
        ensures
            r@ == executor_error_text(*self),
    {
        match self {
            CommandExecutorError::CommandFailed { exit_code, stderr } => {
                let code = i64_to_string(*exit_code as i64);
                cat4("Command failed with exit code ", code.as_str(), ": ", stderr.as_str())
            },
            CommandExecutorError::Timeout { timeout_seconds } => {
                let t = u64_to_string(*timeout_seconds);
                let mut r = cat2("Command timed out after ", t.as_str());
                r.append(" seconds");
                r
            },
            CommandExecutorError::IoError(m) => cat2("IO error: ", m.as_str()),
            CommandExecutorError::InvalidCommand(m) => cat2("Invalid command: ", m.as_str()),
            CommandExecutorError::SpawnFailed(m) => cat2("Process spawn failed: ", m.as_str()),
            CommandExecutorError::TerminationFailed(m) => cat2("Process termination failed: ", m.as_str()),
        }
    }
}

/// Settings of one command run.
#[derive(Debug, Clone)]
pub struct ExecutionConfig {
    /// Directory to run in
    pub working_directory: Option<String>,
    /// Environment variables to set
    pub environment_variables: EnvMap,
    /// Time limit in seconds
    pub timeout_seconds: Option<u64>,
    /// Capture standard output
    pub capture_stdout: bool,
    /// Capture standard error
    pub capture_stderr: bool,
    /// Start from the parent's environment
    pub inherit_environment: bool,
    /// Run through the shell
    pub use_shell: bool,
}

impl Default for ExecutionConfig {
    fn default() -> (r: Self)
        ensures
            r.working_directory is None,
            r.environment_variables@ == Map::<Seq<char>, Seq<char>>::empty(),
            r.timeout_seconds is None && r.capture_stdout && r.capture_stderr,
            r.inherit_environment && !r.use_shell,
    {
        ExecutionConfig {
            working_directory: None,
            environment_variables: EnvMap::new(),
            timeout_seconds: None,
            capture_stdout: true,
            capture_stderr: true,
            inherit_environment: true,
            use_shell: false,
        }
    }
}

impl ExecutionConfig {
    /// The default settings.
    pub fn new() -> (r: Self)
        ensures
            r.working_directory is None,
            r.environment_variables@ == Map::<Seq<char>, Seq<char>>::empty(),
            r.timeout_seconds is None && r.capture_stdout && r.capture_stderr,
            r.inherit_environment && !r.use_shell,
    {
        Self::default()
    }

    /// Set the directory to run in.
    pub fn with_working_directory(self, dir: &str) -> (r: Self)
        ensures
            r.working_directory matches Some(d) && d@ == dir@,
            r == (ExecutionConfig { working_directory: r.working_directory, ..self }),
    {
        ExecutionConfig { working_directory: Some(owned(dir)), ..self }
    }

    /// Add an environment variable (replacing an earlier value of the same name).
    pub fn with_environment_variable(self, key: &str, value: &str) -> (r: Self)
        ensures
            r.environment_variables@ == self.environment_variables@.insert(key@, value@),
            r.working_directory == self.working_directory && r.timeout_seconds == self.timeout_seconds,
            r.capture_stdout == self.capture_stdout && r.capture_stderr == self.capture_stderr,
            r.inherit_environment == self.inherit_environment && r.use_shell == self.use_shell,
    {
        let mut r = self;
        r.environment_variables.insert(owned(key), owned(value));
        r
    }

    /// Add environment variables (their values replacing earlier ones).
    pub fn with_environment_variables(self, vars: EnvMap) -> (r: Self)
        ensures
            r.environment_variables@ == self.environment_variables@.union_prefer_right(vars@),
            r.working_directory == self.working_directory && r.timeout_seconds == self.timeout_seconds,
            r.capture_stdout == self.capture_stdout && r.capture_stderr == self.capture_stderr,
            r.inherit_environment == self.inherit_environment && r.use_shell == self.use_shell,
    {
        let mut r = self;
        r.environment_variables.extend(&vars);
        r
    }

    /// Set the time limit.
    pub fn with_timeout(self, timeout_seconds: u64) -> (r: Self)
        ensures
            r == (ExecutionConfig { timeout_seconds: Some(timeout_seconds), ..self }),
    {
        ExecutionConfig { timeout_seconds: Some(timeout_seconds), ..self }
    }

    /// Set which outputs are captured.
    pub fn with_output_capture(self, capture_stdout: bool, capture_stderr: bool) -> (r: Self)
        ensures
            r == (ExecutionConfig { capture_stdout, capture_stderr, ..self }),
    {
        ExecutionConfig { capture_stdout, capture_stderr, ..self }
    }

    /// Set whether the parent's environment is inherited.
    pub fn with_inherit_environment(self, inherit: bool) -> (r: Self)
        ensures
            r == (ExecutionConfig { inherit_environment: inherit, ..self }),
    {
        ExecutionConfig { inherit_environment: inherit, ..self }
    }

    /// Set whether the command runs through the shell.
    pub fn with_shell(self, use_shell: bool) -> (r: Self)
        ensures
            r == (ExecutionConfig { use_shell, ..self }),
    {
        ExecutionConfig { use_shell, ..self }
    }
}

/// The result of one command run.
#[derive(Debug, Clone)]
pub struct ExecutionResult {
    /// Exit code
    pub exit_code: i32,
    /// Standard output
    pub stdout: String,
    /// Standard error
    pub stderr: String,
    /// Running time in milliseconds
    pub execution_time_ms: u64,
    /// Whether the exit code was 0
    pub success: bool,
}

impl ExecutionResult {
    /// A result; it is a success exactly when the exit code is 0.
    pub fn new(exit_code: i32, stdout: String, stderr: String, execution_time_ms: u64) -> (r: Self)
        ensures
            r == (ExecutionResult { exit_code, stdout, stderr, execution_time_ms, success: exit_code == 0 }),
    {
        ExecutionResult { exit_code, stdout, stderr, execution_time_ms, success: exit_code == 0 }
    }

    /// The result of a run that timed out.
    pub fn timeout(execution_time_ms: u64) -> (r: Self)
        ensures
            r.exit_code == -1 && r.stdout@.len() == 0 && r.stderr@ == "Command timed out"@,
            r.execution_time_ms == execution_time_ms && !r.success,
    {
        ExecutionResult {
            exit_code: -1,
            stdout: String::new(),
            stderr: owned("Command timed out"),
            execution_time_ms,
            success: false,
        }
    }
}

/// Settings of parallel runs.
#[derive(Debug, Clone)]
pub struct ParallelConfig {
    /// Largest number of concurrent runs
    pub max_concurrency: usize,
    /// Stop at the first failure
    pub fail_fast: bool,
}

impl Default for ParallelConfig {
    fn default() -> (r: Self)
        ensures
            r.max_concurrency >= 1 && !r.fail_fast,
    {
        ParallelConfig { max_concurrency: available_cpus(), fail_fast: false }
    }
}

impl ParallelConfig {
    /// One concurrent run per CPU, not failing fast.
    pub fn new() -> (r: Self)
        ensures
            r.max_concurrency >= 1 && !r.fail_fast,
    {
        Self::default()
    }

    /// Set the largest number of concurrent runs (at least one).
    pub fn with_max_concurrency(self, max_concurrency: usize) -> (r: Self)
        ensures
            r.max_concurrency == (if max_concurrency >= 1 { max_concurrency } else { 1 }),
            r.fail_fast == self.fail_fast,
    {
        let m = if max_concurrency >= 1 { max_concurrency } else { 1 };
        ParallelConfig { max_concurrency: m, ..self }
    }

    /// Set whether to stop at the first failure.
    pub fn with_fail_fast(self, fail_fast: bool) -> (r: Self)
        ensures
            r == (ParallelConfig { fail_fast, ..self }),
    {
        ParallelConfig { fail_fast, ..self }
    }
}

/// A command to run among others.
#[derive(Debug, Clone)]
pub struct ExecutionTask {
    /// Identifier of the task
    pub id: String,
    /// Command line
    pub command: String,
    /// Settings of the run
    pub config: ExecutionConfig,
}

impl ExecutionTask {
    /// A task with default settings.
    pub fn new(id: &str, command: &str) -> (r: Self)
        ensures
            r.id@ == id@ && r.command@ == command@,
            r.config.working_directory is None,
            r.config.environment_variables@ == Map::<Seq<char>, Seq<char>>::empty(),
            r.config.timeout_seconds is None && r.config.capture_stdout && r.config.capture_stderr,
            r.config.inherit_environment && !r.config.use_shell,
    {
        ExecutionTask { id: owned(id), command: owned(command), config: ExecutionConfig::default() }
    }

    /// Set the settings of the run.
    pub fn with_config(self, config: ExecutionConfig) -> (r: Self)
        ensures
            r == (ExecutionTask { config, ..self }),
    {
        ExecutionTask { config, ..self }
    }
}

/// Whether a task outcome counts as a success: it ran and exited with 0.
pub open spec fn task_succeeded(r: Result<ExecutionResult, CommandExecutorError>) -> bool {
    r matches Ok(x) && x.success
}

/// The index of the first task result with the identifier `id`.
pub open spec fn first_task_named(s: Seq<(String, Result<ExecutionResult, CommandExecutorError>)>, id: Seq<char>, i: int) -> bool {
    0 <= i < s.len() && s[i].0@ == id && forall|j: int| 0 <= j < i ==> s[j].0@ != id
}

/// The tally of parallel runs.
#[derive(Debug)]
pub struct ParallelResult {
    /// Outcome per task identifier (a later outcome replaces an earlier one of the same
    /// identifier), in the order the identifiers were first added
    pub task_results: Vec<(String, Result<ExecutionResult, CommandExecutorError>)>,
    /// Total running time in milliseconds
    pub total_execution_time_ms: u64,
    /// Number of successful outcomes added
    pub success_count: usize,
    /// Number of other outcomes added
    pub failure_count: usize,
}

/// The task results after adding an outcome for `id`: it replaces the outcome of the
/// first entry with that identifier, or is appended.
pub open spec fn results_after_add(
    old: Seq<(String, Result<ExecutionResult, CommandExecutorError>)>,
    new: Seq<(String, Result<ExecutionResult, CommandExecutorError>)>,
    id: String,
    r: Result<ExecutionResult, CommandExecutorError>,
) -> bool {
    if exists|i: int| first_task_named(old, id@, i) {
        exists|i: int| first_task_named(old, id@, i) && new == old.update(i, (id, r))
    } else {
        new == old.push((id, r))
    }
}

/// The task results after adding an outcome for `id` (the function that
/// `results_after_add` describes).
pub open spec fn results_added(
    old: Seq<(String, Result<ExecutionResult, CommandExecutorError>)>,
    id: String,
    r: Result<ExecutionResult, CommandExecutorError>,
) -> Seq<(String, Result<ExecutionResult, CommandExecutorError>)> {
    if exists|i: int| first_task_named(old, id@, i) {
        old.update(choose|i: int| first_task_named(old, id@, i), (id, r))
    } else {
        old.push((id, r))
    }
}

/// The task results after adding the outcomes in order to no results.
pub open spec fn results_fold(s: Seq<(String, Result<ExecutionResult, CommandExecutorError>)>) -> Seq<(String, Result<ExecutionResult, CommandExecutorError>)>
    decreases s.len(),
{
    if s.len() == 0 {
        Seq::empty()
    } else {
        results_added(results_fold(s.drop_last()), s.last().0, s.last().1)
    }
}

/// The number of successful outcomes.
pub open spec fn successes(s: Seq<(String, Result<ExecutionResult, CommandExecutorError>)>) -> nat
    decreases s.len(),
{
    if s.len() == 0 {
        0
    } else {
        successes(s.drop_last()) + if task_succeeded(s.last().1) { 1nat } else { 0nat }
    }
}

/// `i` is the index of the first outcome that is an error.
pub open spec fn first_error_at(s: Seq<(String, Result<ExecutionResult, CommandExecutorError>)>, i: int) -> bool {
    0 <= i < s.len() && s[i].1 is Err && forall|j: int| 0 <= j < i ==> s[j].1 is Ok
}

/// How many outcomes are taken: all of them, or, when failing fast, those up to and
/// including the first error.
pub open spec fn outcomes_taken(s: Seq<(String, Result<ExecutionResult, CommandExecutorError>)>, fail_fast: bool) -> int {
    if fail_fast && exists|i: int| first_error_at(s, i) {
        (choose|i: int| first_error_at(s, i)) + 1
    } else {
        s.len() as int
    }
}

/// Adding an outcome gives the results that `results_added` names.
proof fn lemma_results_after_add_is_added(
    old: Seq<(String, Result<ExecutionResult, CommandExecutorError>)>,
    new: Seq<(String, Result<ExecutionResult, CommandExecutorError>)>,
    id: String,
    r: Result<ExecutionResult, CommandExecutorError>,
)
    requires
        results_after_add(old, new, id, r),
    ensures
        new == results_added(old, id, r),
{
    if exists|i: int| first_task_named(old, id@, i) {
        let i = choose|i: int| first_task_named(old, id@, i) && new == old.update(i, (id, r));
        let j = choose|j: int| first_task_named(old, id@, j);
        if i < j {
            assert(old[i].0@ == id@);
        }
        if j < i {
            assert(old[j].0@ == id@);
        }
        assert(i == j);
    }
}

impl ParallelResult {
    /// An empty tally.
    pub fn new() -> (r: Self)
        ensures
            r.task_results@.len() == 0 && r.total_execution_time_ms == 0,
            r.success_count == 0 && r.failure_count == 0,
    {
        ParallelResult { task_results: Vec::new(), total_execution_time_ms: 0, success_count: 0, failure_count: 0 }
    }

    /// Add the outcome of a task and count it as a success or a failure.
    pub fn add_result(&mut self, task_id: String, result: Result<ExecutionResult, CommandExecutorError>)
        requires
            old(self).success_count < usize::MAX,
            old(self).failure_count < usize::MAX,
        ensures
            final(self).success_count == old(self).success_count + (if task_succeeded(result) { 1int } else { 0 }),
            final(self).failure_count == old(self).failure_count + (if task_succeeded(result) { 0int } else { 1 }),
            final(self).total_execution_time_ms == old(self).total_execution_time_ms,
            results_after_add(old(self).task_results@, final(self).task_results@, task_id, result),
    {
        let ok = match &result {
            Ok(x) => x.success,
            Err(_) => false,
        };
        let mut i: usize = 0;
        let mut found = false;
        while i < self.task_results.len() && !found
            invariant
                i <= self.task_results@.len(),
                found ==> i < self.task_results@.len() && first_task_named(self.task_results@, task_id@, i as int),
                !found ==> forall|j: int| 0 <= j < i ==> (#[trigger] self.task_results@[j]).0@ != task_id@,
            decreases (self.task_results@.len() - i) * 2 + (if found { 0int } else { 1int }),
        {
            if self.task_results[i].0 == task_id {
                found = true;
            } else {
                i = i + 1;
            }
        }
        if ok {
            self.success_count = self.success_count + 1;
        } else {
            self.failure_count = self.failure_count + 1;
        }
        if found {
            let mut results: Vec<(String, Result<ExecutionResult, CommandExecutorError>)> = Vec::new();
            std::mem::swap(&mut results, &mut self.task_results);
            results.set(i, (task_id, result));
            self.task_results = results;
            return;
        }
        proof {
            if exists|k: int| first_task_named(old(self).task_results@, task_id@, k) {
                let k = choose|k: int| first_task_named(old(self).task_results@, task_id@, k);
                assert(self.task_results@[k].0@ == task_id@);
            }
        }
        self.task_results.push((task_id, result));
    }

    /// Whether nothing failed and something succeeded.
    pub fn is_success(&self) -> (r: bool)
        ensures
            r == (self.failure_count == 0 && self.success_count > 0),
    {
        self.failure_count == 0 && self.success_count > 0
    }

    /// The identifiers and errors of the tasks that did not run, in order.
    pub fn failed_results(&self) -> (r: Vec<(&String, &CommandExecutorError)>)
        ensures
            r@.map_values(|p: (&String, &CommandExecutorError)| (*p.0, *p.1))
                == failed_entries(self.task_results@),
    {
        let mut out: Vec<(&String, &CommandExecutorError)> = Vec::new();
        let mut i: usize = 0;
        while i < self.task_results.len()
            invariant
                i <= self.task_results@.len(),
                out@.map_values(|p: (&String, &CommandExecutorError)| (*p.0, *p.1))
                    == failed_entries(self.task_results@.subrange(0, i as int)),
            decreases self.task_results.len() - i,
        {
            proof {
                assert(self.task_results@.subrange(0, i + 1).drop_last() =~= self.task_results@.subrange(0, i as int));
            }
            let ghost before = out@.map_values(|p: (&String, &CommandExecutorError)| (*p.0, *p.1));
            match &self.task_results[i].1 {
                Err(e) => {
                    out.push((&self.task_results[i].0, e));
                    assert(out@.map_values(|p: (&String, &CommandExecutorError)| (*p.0, *p.1))
                        =~= before.push((self.task_results@[i as int].0, *e)));
                },
                Ok(_) => {},
            }
            i = i + 1;
        }
        assert(self.task_results@.subrange(0, self.task_results@.len() as int) =~= self.task_results@);
        out
    }
}

/// The identifiers and errors of the entries whose outcome is an error, in order.
pub open spec fn failed_entries(s: Seq<(String, Result<ExecutionResult, CommandExecutorError>)>) -> Seq<(String, CommandExecutorError)>
    decreases s.len(),
{
    if s.len() == 0 {
        Seq::empty()
    } else {
        let prev = failed_entries(s.drop_last());
        match s.last().1 {
            Err(e) => prev.push((s.last().0, e)),
            Ok(_) => prev,
        }
    }
}

/// Each added outcome is counted exactly once, as a success or as a failure.
pub proof fn law_each_outcome_counted_once(old_s: usize, old_f: usize, new_s: usize, new_f: usize, r: Result<ExecutionResult, CommandExecutorError>)
    requires
        new_s == old_s + (if task_succeeded(r) { 1int } else { 0 }),
        new_f == old_f + (if task_succeeded(r) { 0int } else { 1 }),
    ensures
        new_s + new_f == old_s + old_f + 1,
        task_succeeded(r) ==> new_f == old_f,
        !task_succeeded(r) ==> new_s == old_s,
{
}

/// A program and its arguments, from a command line: through the shell (`sh -c`), or
/// split into whitespace-separated words.
pub open spec fn parse_command_spec(command: Seq<char>, use_shell: bool) -> Option<(Seq<char>, Seq<Seq<char>>)> {
    if is_blank(command) {
        None
    } else if use_shell {
        Some(("sh"@, seq!["-c"@, command]))
    } else {
        let ws = words(command);
        Some((ws[0], ws.drop_first()))
    }
}

/// A non-blank text has a first word.
proof fn lemma_words_nonempty(s: Seq<char>)
    requires
        !is_blank(s),
    ensures
        words(s).len() >= 1,
{
    let j = choose|j: int| 0 <= j < s.len() && !crate::text::is_ws(s[j]);
    lemma_words_state_grows(s, j);
}

/// Reading a non-whitespace character at `j` leaves a word pending or done from then on.
proof fn lemma_words_state_grows(s: Seq<char>, j: int)
    requires
        0 <= j < s.len(),
        !crate::text::is_ws(s[j]),
    ensures
        words_state_nonempty(s),
    decreases s.len(),
{
    if j == s.len() - 1 {
    } else {
        lemma_words_state_grows(s.drop_last(), j);
    }
}

/// Some word is done or pending.
spec fn words_state_nonempty(s: Seq<char>) -> bool {
    crate::text::words_state(s).0.len() > 0 || crate::text::words_state(s).1.len() > 0
}

/// Running external commands.
pub struct CommandExecutor;

impl CommandExecutor {
    /// Split a command line into a program and its arguments (see
    /// `parse_command_spec`); a blank command line is refused.
    pub fn parse_command(command: &str, use_shell: bool) -> (r: Result<(String, Vec<String>), CommandExecutorError>)
        ensures
            match r {
                Ok((p, args)) => parse_command_spec(command@, use_shell) == Some((p@, args@.map_values(|a: String| a@))),
                Err(e) => parse_command_spec(command@, use_shell) is None
                    && (e matches CommandExecutorError::InvalidCommand(m) && m@ == "Command is empty"@),
            },
    {
        if str_is_blank(command) {
            return Err(CommandExecutorError::InvalidCommand(owned("Command is empty")));
        }
        if use_shell {
            let mut args: Vec<String> = Vec::new();
            args.push(owned("-c"));
            args.push(owned(command));
            assert(args@.map_values(|a: String| a@) =~= seq!["-c"@, command@]);
            Ok((owned("sh"), args))
        } else {
            let parts = split_whitespace(command);
            proof {
                lemma_words_nonempty(command@);
            }
            let mut parts = parts;
            let ghost all = parts@.map_values(|w: String| w@);
            let program = parts.remove(0);
            assert(parts@.map_values(|a: String| a@) =~= all.drop_first());
            Ok((program, parts))
        }
    }

    /// A task with default settings.
    pub fn create_task(id: &str, command: &str) -> (r: ExecutionTask)
        ensures
            r.id@ == id@ && r.command@ == command@,
            r.config.working_directory is None,
            r.config.environment_variables@ == Map::<Seq<char>, Seq<char>>::empty(),
            r.config.timeout_seconds is None && r.config.capture_stdout && r.config.capture_stderr,
            r.config.inherit_environment && !r.config.use_shell,
    {
        ExecutionTask::new(id, command)
    }

    /// Settings with the given directory (when set) and environment variables, defaults
    /// otherwise.
    pub fn create_config(working_dir: Option<String>, env_vars: EnvMap) -> (r: ExecutionConfig)
        ensures
            r.working_directory == working_dir,
            r.environment_variables@ == env_vars@,
            r.timeout_seconds is None && r.capture_stdout && r.capture_stderr,
            r.inherit_environment && !r.use_shell,
    {
        let mut config = ExecutionConfig::new();
        if let Some(dir) = working_dir {
            config = ExecutionConfig { working_directory: Some(dir), ..config };
        }
        let r = config.with_environment_variables(env_vars);
        assert(r.environment_variables@ =~= env_vars@);
        r
    }

    /// The tally of parallel runs from the outcomes in completion order: each outcome is
    /// added; when failing fast, the first error is added and the rest are dropped.
    pub fn collect_results(outcomes: Vec<(String, Result<ExecutionResult, CommandExecutorError>)>, fail_fast: bool, total_execution_time_ms: u64) -> (r: ParallelResult)
        requires
            outcomes@.len() < usize::MAX,
        ensures
            r.total_execution_time_ms == total_execution_time_ms,
            r.success_count + r.failure_count == outcomes_taken(outcomes@, fail_fast),
            r.success_count == successes(outcomes@.subrange(0, outcomes_taken(outcomes@, fail_fast))),
            r.task_results@ == results_fold(outcomes@.subrange(0, outcomes_taken(outcomes@, fail_fast))),
            !fail_fast ==> r.success_count + r.failure_count == outcomes@.len(),
    {
        let mut result = ParallelResult::new();
        let mut n: usize = 0;
        let ghost all = outcomes@;
        let mut rest = outcomes;
        let mut stopped = false;
        assert(all.subrange(0, 0) =~= Seq::<(String, Result<ExecutionResult, CommandExecutorError>)>::empty());
        while rest.len() > 0 && !stopped
            invariant
                n + rest@.len() == all.len(),
                rest@ == all.subrange(n as int, all.len() as int),
                result.success_count == successes(all.subrange(0, n as int)),
                result.success_count + result.failure_count == n,
                result.task_results@ == results_fold(all.subrange(0, n as int)),
                result.total_execution_time_ms == 0,
                all.len() < usize::MAX,
                stopped ==> fail_fast && n >= 1 && all[n - 1].1 is Err,
                fail_fast ==> forall|j: int| 0 <= j < n && !(stopped && j == n - 1) ==> (#[trigger] all[j]).1 is Ok,
            decreases rest.len(),
        {
            assert(rest@[0] == all[n as int]);
            let ghost before = result.task_results@;
            let (id, outcome) = rest.remove(0);
            let is_err = outcome.is_err();
            result.add_result(id, outcome);
            proof {
                lemma_results_after_add_is_added(before, result.task_results@, all[n as int].0, all[n as int].1);
                assert(all.subrange(0, n + 1).drop_last() =~= all.subrange(0, n as int));
                assert(all.subrange(0, n + 1).last() == all[n as int]);
            }
            assert(rest@ =~= all.subrange(n + 1, all.len() as int));
            n = n + 1;
            if fail_fast && is_err {
                stopped = true;
            }
        }
        proof {
            if fail_fast {
                if stopped {
                    assert(first_error_at(all, n - 1));
                    let c = choose|i: int| first_error_at(all, i);
                    if c < n - 1 {
                        assert(all[c].1 is Ok);
                    }
                    if n - 1 < c {
                        assert(all[n - 1].1 is Ok);
                    }
                    assert(outcomes_taken(all, fail_fast) == n);
                } else {
                    assert(n == all.len());
                    if exists|i: int| first_error_at(all, i) {
                        let c = choose|i: int| first_error_at(all, i);
                        assert(all[c].1 is Ok);
                    }
                    assert(outcomes_taken(all, fail_fast) == n);
                }
            } else {
                assert(n == all.len());
            }
        }
        result.total_execution_time_ms = total_execution_time_ms;
        result
    }
}

} // verus!
