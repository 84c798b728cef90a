//! The command line: its commands and options, and what each command hands on
//! to the use case that runs it.
use crate::cli_commands::{groups_filter, AuditArgs};
use crate::foreach_command::ForeachCommandConfig;
use crate::status_check::{RepositoryState, StatusCheckConfig};
use crate::sync_repositories::SyncRepositoriesConfig;
use crate::text::{cat2, cat3, dec_digits, join_space, join_space_exec, owned, u64_to_string};
use crate::util::Duplicate;
use vstd::prelude::*;

verus! {

broadcast use vstd::seq_lib::group_seq_properties;

/// Output formats of the `status` command.
#[derive(Debug, Clone, Copy, PartialEq, Eq, Structural)]
pub enum OutputFormat {
    /// Text for people (the default)
    Text,
    /// JSON
    Json,
    /// YAML
    Yaml,
}

/// The commands.
#[derive(Debug, Clone)]
pub enum Commands {
    /// Initialise a workspace
    Init { path: Option<String>, force: bool, manifest: bool },
    /// Synchronise repositories
    Sync { group: Vec<String>, force: bool, no_correct_branch: bool, jobs: Option<usize>, no_recursive: bool },
    /// Show repository status
    Status { branch: bool, compact: bool, group: Vec<String>, output: OutputFormat },
    /// Run a command in each repository
    Foreach {
        command: String,
        args: Vec<String>,
        group: Vec<String>,
        parallel: bool,
        jobs: Option<usize>,
        continue_on_error: bool,
    },
    /// Audit the dependencies
    Audit { group: Vec<String>, parallel: bool, jobs: Option<usize>, continue_on_vulnerabilities: bool },
    /// Show commit logs
    Log { group: Vec<String>, oneline: bool, max_count: Option<usize>, since: Option<String>, until: Option<String> },
    /// Write out the workspace manifest
    DumpManifest { format: String, output: Option<String>, pretty: bool },
    /// Apply a new manifest
    ApplyManifest { manifest_file: String, force: bool, dry_run: bool },
}

/// The parsed command line.
#[derive(Debug, Clone)]
pub struct Cli {
    /// Verbose output
    pub verbose: bool,
    /// No colours
    pub no_color: bool,
    /// Working directory
    pub directory: Option<String>,
    /// The command
    pub command: Commands,
}

/// The application: a parsed command line to run.
#[derive(Debug, Clone)]
pub struct CliApp {
    /// The command line
    pub cli: Cli,
}

/// The full command line of `foreach`: the command, then its arguments, each
/// after one space.
pub open spec fn full_command_spec(command: Seq<char>, args: Seq<Seq<char>>) -> Seq<char> {
    if args.len() == 0 {
        command
    } else {
        command + " "@ + join_space(args)
    }
}

/// The counts of a dirty repository: `<n>M`, `<n>S`, `<n>U` for modified, staged
/// and untracked files, each only when not zero.
pub open spec fn change_parts(modified: nat, staged: nat, untracked: nat) -> Seq<Seq<char>> {
    let a = if modified > 0 { seq![dec_digits(modified) + "M"@] } else { Seq::empty() };
    let b = if staged > 0 { seq![dec_digits(staged) + "S"@] } else { Seq::empty() };
    let c = if untracked > 0 { seq![dec_digits(untracked) + "U"@] } else { Seq::empty() };
    a + b + c
}

/// The one-character marker of a state in the compact listing.
pub open spec fn state_marker_spec(s: RepositoryState) -> Seq<char> {
    match s {
        RepositoryState::Clean => "✓"@,
        RepositoryState::Dirty => "M"@,
        RepositoryState::Missing => "?"@,
        RepositoryState::WrongBranch => "B"@,
        RepositoryState::OutOfSync => "S"@,
        RepositoryState::Error => "E"@,
    }
}

/// The word for a state in the detailed listing.
pub open spec fn state_label_spec(s: RepositoryState) -> Seq<char> {
    match s {
        RepositoryState::Clean => "clean"@,
        RepositoryState::Dirty => "dirty"@,
        RepositoryState::Missing => "missing"@,
        RepositoryState::WrongBranch => "wrong branch"@,
        RepositoryState::OutOfSync => "out of sync"@,
        RepositoryState::Error => "error"@,
    }
}

/// The marker of a state in the compact listing.
pub fn state_marker(s: RepositoryState) -> (r: &'static str)
    ensures
        r@ == state_marker_spec(s),
{
    match s {
        RepositoryState::Clean => "✓",
        RepositoryState::Dirty => "M",
        RepositoryState::Missing => "?",
        RepositoryState::WrongBranch => "B",
        RepositoryState::OutOfSync => "S",
        RepositoryState::Error => "E",
    }
}

/// The word for a state in the detailed listing.
pub fn state_label(s: RepositoryState) -> (r: &'static str)
    ensures
        r@ == state_label_spec(s),
{
    match s {
        RepositoryState::Clean => "clean",
        RepositoryState::Dirty => "dirty",
        RepositoryState::Missing => "missing",
        RepositoryState::WrongBranch => "wrong branch",
        RepositoryState::OutOfSync => "out of sync",
        RepositoryState::Error => "error",
    }
}

/// A count followed by its letter.
fn count_part(n: usize, letter: &str) -> (r: String)
    ensures
        r@ == dec_digits(n as nat) + letter@,
{
    let d = u64_to_string(n as u64);
    cat2(d.as_str(), letter)
}

/// The summary of the changes of a dirty repository, such as `3M 1S 2U`: the
/// non-zero counts joined by spaces; none when all counts are zero.
pub fn change_summary(modified: usize, staged: usize, untracked: usize) -> (r: Option<String>)
    ensures
        match r {
            Some(t) => change_parts(modified as nat, staged as nat, untracked as nat).len() > 0
                && t@ == join_space(change_parts(modified as nat, staged as nat, untracked as nat)),
            None => change_parts(modified as nat, staged as nat, untracked as nat).len() == 0,
        },
{
    let mut parts: Vec<String> = Vec::new();
    if modified > 0 {
        parts.push(count_part(modified, "M"));
    }
    if staged > 0 {
        parts.push(count_part(staged, "S"));
    }
    if untracked > 0 {
        parts.push(count_part(untracked, "U"));
    }
    assert(parts@.map_values(|p: String| p@) =~= change_parts(modified as nat, staged as nat, untracked as nat));
    if parts.len() == 0 {
        None
    } else {
        Some(join_space_exec(&parts))
    }
}

/// The full command line of `foreach`.
pub fn full_command(command: &str, args: &Vec<String>) -> (r: String)
    ensures
        r@ == full_command_spec(command@, args@.map_values(|a: String| a@)),
{
    if args.len() == 0 {
        owned(command)
    } else {
        let rest = join_space_exec(args);
        cat3(command, " ", rest.as_str())
    }
}

impl CliApp {
    /// An application for a parsed command line.
    pub fn new(cli: Cli) -> (r: Self)
        ensures
            r.cli == cli,
    {
        CliApp { cli }
    }

    /// Whether the output is coloured: unless `--no-color` was given.
    pub fn color_enabled(&self) -> (r: bool)
        ensures
            r == !self.cli.no_color,
    {
        !self.cli.no_color
    }

    /// The settings of a `sync` run.
    pub fn sync_config(
        &self,
        groups: &Vec<String>,
        force: bool,
        no_correct_branch: bool,
        jobs: Option<usize>,
        no_recursive: bool,
    ) -> (r: SyncRepositoriesConfig)
        ensures
            r.groups.deep_view() == (if groups@.len() == 0 { None } else { Some(groups.deep_view()) }),
            r.force == force,
            r.no_correct_branch == no_correct_branch,
            r.parallel_jobs == jobs,
            r.verbose == self.cli.verbose,
            r.recursive == !no_recursive,
    {
        SyncRepositoriesConfig {
            groups: groups_filter(groups),
            force,
            no_correct_branch,
            parallel_jobs: jobs,
            verbose: self.cli.verbose,
            recursive: !no_recursive,
        }
    }

    /// The settings of a `status` run.
    pub fn status_config(&self, show_branch: bool, compact: bool, groups: &Vec<String>) -> (r: StatusCheckConfig)
        ensures
            r.groups.deep_view() == (if groups@.len() == 0 { None } else { Some(groups.deep_view()) }),
            r.show_branch == show_branch,
            r.compact == compact,
            r.verbose == self.cli.verbose,
    {
        StatusCheckConfig { groups: groups_filter(groups), show_branch, compact, verbose: self.cli.verbose }
    }

    /// The settings of a `foreach` run: the command with its arguments, the
    /// other settings at their defaults.
    pub fn foreach_config(
        &self,
        command: &str,
        args: &Vec<String>,
        groups: &Vec<String>,
        parallel: bool,
        jobs: Option<usize>,
        continue_on_error: bool,
    ) -> (r: ForeachCommandConfig)
        ensures
            r.command@ == full_command_spec(command@, args@.map_values(|a: String| a@)),
            r.groups.deep_view() == (if groups@.len() == 0 { None } else { Some(groups.deep_view()) }),
            r.parallel == parallel,
            r.max_parallel == jobs,
            r.continue_on_error == continue_on_error,
            r.verbose == self.cli.verbose,
            r.environment_variables@ == Map::<Seq<char>, Seq<char>>::empty(),
            r.timeout_seconds is None,
            r.change_dir,
    {
        let base = ForeachCommandConfig::default();
        ForeachCommandConfig {
            command: full_command(command, args),
            groups: groups_filter(groups),
            parallel,
            max_parallel: jobs,
            continue_on_error,
            verbose: self.cli.verbose,
            ..base
        }
    }

    /// The arguments of an `audit` run, in the current directory.
    pub fn audit_args(
        &self,
        groups: &Vec<String>,
        parallel: bool,
        jobs: Option<usize>,
        continue_on_vulnerabilities: bool,
    ) -> (r: AuditArgs)
        ensures
            r.groups.deep_view() == (if groups@.len() == 0 { None } else { Some(groups.deep_view()) }),
            r.parallel == parallel,
            r.max_parallel == jobs,
            r.continue_on_vulnerabilities == continue_on_vulnerabilities,
            r.verbose == self.cli.verbose,
            r.workspace_dir is None,
    {
        AuditArgs {
            groups: groups_filter(groups),
            parallel,
            max_parallel: jobs,
            continue_on_vulnerabilities,
            verbose: self.cli.verbose,
            workspace_dir: None,
        }
    }
}

} // verus!
