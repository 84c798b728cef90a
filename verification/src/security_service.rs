//! The outcome of a dependency audit of one project, as the auditing service reports it.
use crate::text::{cat2, owned};
use vstd::prelude::*;

verus! {

/// Severity of a reported vulnerability.
#[derive(Debug, Clone, Copy, PartialEq, Eq, Structural)]
pub enum Severity {
    Critical,
    High,
    Medium,
    Low,
}

/// Number of reported vulnerabilities per severity.
#[derive(Debug, Clone, Copy, PartialEq, Eq, Structural)]
pub struct WarningCount {
    pub critical: usize,
    pub high: usize,
    pub medium: usize,
    pub low: usize,
}

/// Whether any vulnerability of any severity was reported.
pub open spec fn any_warning(w: WarningCount) -> bool {
    w.critical + w.high + w.medium + w.low > 0
}

impl WarningCount {
    /// No vulnerabilities.
    pub fn new() -> (r: Self)
        ensures
            r.critical == 0 && r.high == 0 && r.medium == 0 && r.low == 0,
    {
        WarningCount { critical: 0, high: 0, medium: 0, low: 0 }
    }

    /// The number of vulnerabilities of all severities.
    pub fn total(&self) -> (r: usize)
        requires
            self.critical + self.high + self.medium + self.low <= usize::MAX,
        ensures
            r == self.critical + self.high + self.medium + self.low,
    {
        self.critical + self.high + self.medium + self.low
    }

    /// Whether any vulnerability was reported (the total is positive).
    pub fn any(&self) -> (r: bool)
        ensures
            r == any_warning(*self),
    {
        self.critical > 0 || self.high > 0 || self.medium > 0 || self.low > 0
    }

    /// Whether a critical or high vulnerability was reported.
    pub fn has_critical_or_high(&self) -> (r: bool)
        ensures
            r == (self.critical > 0 || self.high > 0),
    {
        self.critical > 0 || self.high > 0
    }
}

/// One reported vulnerability.
#[derive(Debug, Clone)]
pub struct Vulnerability {
    pub id: String,
    pub severity: Severity,
    pub description: String,
    pub url: Option<String>,
}

/// The audit of one project: counts and details.
#[derive(Debug, Clone)]
pub struct AuditResult {
    pub warning_count: WarningCount,
    pub vulnerabilities: Vec<Vulnerability>,
}

/// Errors of the auditing service.
#[derive(Debug, Clone, PartialEq, Eq)]
pub enum SecurityError {
    CommandExecutionFailed(String),
    ParseError(String),
    ToolNotInstalled(String),
}

/// The `Display` text of a service error.
pub open spec fn security_error_text(e: SecurityError) -> Seq<char> {
    match e {
        SecurityError::CommandExecutionFailed(m) => "Command execution failed: "@ + m@,
        SecurityError::ParseError(m) => "Failed to parse audit output: "@ + m@,
        SecurityError::ToolNotInstalled(m) => "Audit tool not installed: "@ + m@,
    }
}

impl SecurityError {
    /// The message of the error (its `Display` text).
    pub fn to_string(&self) -> (r: String)
        ensures
            r@ == security_error_text(*self),
    {
        match self {
            SecurityError::CommandExecutionFailed(m) => cat2("Command execution failed: ", m.as_str()),
            SecurityError::ParseError(m) => cat2("Failed to parse audit output: ", m.as_str()),
            SecurityError::ToolNotInstalled(m) => cat2("Audit tool not installed: ", m.as_str()),
        }
    }
}

/// The dependency auditing service (its audits run an external tool).
#[derive(Debug, Clone, Copy)]
pub struct SecurityService;

impl SecurityService {
    /// The service.
    pub fn new() -> (r: Self) {
        SecurityService
    }
}

} // verus!
