//! The report that the `audit` command shows for a workspace audit, as lines.
use crate::cli_commands::AuditCommand;
use crate::security_audit::{audit_critical_or_high, audit_succeeded, audit_vulnerable, RepoAuditResult, WorkspaceAuditResult};
use crate::security_service::{Severity, Vulnerability, WarningCount};
use crate::text::{cat2, cat3, cat4, dec_digits, owned, substring, u64_to_string};
use vstd::prelude::*;

verus! {

/// How a report line is shown: plainly on standard output, on standard error, as a
/// warning, or as a success message.
#[derive(Debug, Clone, Copy, PartialEq, Eq, Structural)]
pub enum LineStyle {
    Plain,
    Error,
    Warning,
    Success,
}

/// One line of a report.
#[derive(Debug, Clone)]
pub struct ReportLine {
    /// How it is shown
    pub style: LineStyle,
    /// Its text
    pub text: String,
}

/// The view of a report line.
pub type LineView = (LineStyle, Seq<char>);

/// The views of report lines.
pub open spec fn lines_view(v: Seq<ReportLine>) -> Seq<LineView> {
    v.map_values(|l: ReportLine| (l.style, l.text@))
}

/// The decimal text of a count.
pub open spec fn num(n: int) -> Seq<char> {
    dec_digits(n as nat)
}

/// The number of vulnerabilities of all severities.
pub open spec fn total_of(c: WarningCount) -> int {
    c.critical + c.high + c.medium + c.low
}

/// The lowercase name of a severity.
pub open spec fn severity_word(s: Severity) -> Seq<char> {
    match s {
        Severity::Critical => "critical"@,
        Severity::High => "high"@,
        Severity::Medium => "medium"@,
        Severity::Low => "low"@,
    }
}

/// The summary counts.
pub open spec fn summary_lines(w: WorkspaceAuditResult) -> Seq<LineView> {
    seq![
        (LineStyle::Plain, "\n=== Security Audit Summary ==="@),
        (LineStyle::Plain, "Total repositories: "@ + num(w.repo_results@.len() as int)),
        (LineStyle::Plain, "Audited (Rust projects): "@ + num(w.audited_count as int)),
        (LineStyle::Plain, "Skipped (non-Rust): "@ + num(w.skipped_count as int)),
        (LineStyle::Plain, "Errors: "@ + num(w.error_count as int)),
        (LineStyle::Plain, "With vulnerabilities: "@ + num(w.vulnerable_count as int)),
    ]
}

/// The line of a count of one severity, when it is positive.
pub open spec fn severity_line(label: Seq<char>, n: usize) -> Seq<LineView> {
    if n > 0 {
        seq![(LineStyle::Plain, label + num(n as int))]
    } else {
        Seq::empty()
    }
}

/// At most the first 80 characters of a text.
pub open spec fn first80(s: Seq<char>) -> Seq<char> {
    if s.len() <= 80 { s } else { s.subrange(0, 80) }
}

/// The lines of one vulnerability: its id, severity and the start of its description,
/// then its link when it has one.
pub open spec fn vulnerability_lines(v: Vulnerability) -> Seq<LineView> {
    seq![(LineStyle::Plain, "      - "@ + v.id@ + " ("@ + severity_word(v.severity) + "): "@ + first80(v.description@))]
        + match v.url {
            Some(u) => seq![(LineStyle::Plain, "        More info: "@ + u@)],
            None => Seq::<LineView>::empty(),
        }
}

/// The lines of a list of vulnerabilities, in order.
pub open spec fn vulnerabilities_lines(vs: Seq<Vulnerability>) -> Seq<LineView>
    decreases vs.len(),
{
    if vs.len() == 0 {
        Seq::empty()
    } else {
        vulnerabilities_lines(vs.drop_last()) + vulnerability_lines(vs.last())
    }
}

/// The lines of one vulnerable repository: a header (an error line when a critical or
/// high vulnerability is among them, else a warning), the counts per severity, and in
/// verbose mode the vulnerabilities themselves.
pub open spec fn repo_vulnerability_lines(r: RepoAuditResult, verbose: bool) -> Seq<LineView> {
    match r.audit_result {
        Some(a) => {
            let c = a.warning_count;
            let header = if c.critical > 0 || c.high > 0 {
                (LineStyle::Error, "📛 "@ + r.dest@ + ": "@ + num(total_of(c)) + " vulnerabilities"@)
            } else {
                (LineStyle::Warning, "⚠️  "@ + r.dest@ + ": "@ + num(total_of(c)) + " vulnerabilities"@)
            };
            seq![header] + severity_line("    🔴 Critical: "@, c.critical) + severity_line("    🟠 High: "@, c.high)
                + severity_line("    🟡 Medium: "@, c.medium) + severity_line("    🔵 Low: "@, c.low)
                + if verbose && a.vulnerabilities@.len() > 0 {
                seq![(LineStyle::Plain, "    Vulnerabilities:"@)] + vulnerabilities_lines(a.vulnerabilities@)
            } else {
                Seq::<LineView>::empty()
            }
        },
        None => Seq::empty(),
    }
}

/// The lines of the vulnerable repositories among `rs`, in order.
pub open spec fn vulnerable_repos_lines(rs: Seq<RepoAuditResult>, verbose: bool) -> Seq<LineView>
    decreases rs.len(),
{
    if rs.len() == 0 {
        Seq::empty()
    } else {
        vulnerable_repos_lines(rs.drop_last(), verbose) + if audit_vulnerable(rs.last()) {
            repo_vulnerability_lines(rs.last(), verbose)
        } else {
            Seq::<LineView>::empty()
        }
    }
}

/// Some result reports a critical or high vulnerability.
pub open spec fn any_critical_or_high(rs: Seq<RepoAuditResult>) -> bool {
    exists|i: int| 0 <= i < rs.len() && audit_critical_or_high(#[trigger] rs[i])
}

/// The recommendations after vulnerabilities were found.
pub open spec fn recommendation_lines(critical: bool) -> Seq<LineView> {
    seq![(LineStyle::Plain, "\n=== Recommendations ==="@)] + if critical {
        seq![
            (LineStyle::Error, "❗ Critical or high severity vulnerabilities found!"@),
            (LineStyle::Plain, "   • Review and update affected dependencies immediately"@),
            (LineStyle::Plain, "   • Run 'cargo update' in affected repositories"@),
            (LineStyle::Plain, "   • Check for security advisories and patches"@),
        ]
    } else {
        seq![
            (LineStyle::Warning, "⚠️  Lower severity vulnerabilities found"@),
            (LineStyle::Plain, "   • Consider updating dependencies when convenient"@),
            (LineStyle::Plain, "   • Monitor for security updates"@),
        ]
    } + seq![
        (LineStyle::Plain, "   • Run 'cargo audit' in individual repositories for more details"@),
        (LineStyle::Plain, "   • Use 'cargo audit fix' to attempt automatic fixes"@),
    ]
}

/// The failed Rust projects among `rs` that carry an error message, one error line each.
pub open spec fn error_lines(rs: Seq<RepoAuditResult>) -> Seq<LineView>
    decreases rs.len(),
{
    if rs.len() == 0 {
        Seq::empty()
    } else {
        let r = rs.last();
        error_lines(rs.drop_last()) + if !audit_succeeded(r) && r.is_rust_project && r.error is Some {
            seq![(LineStyle::Error, "❌ "@ + r.dest@ + ": "@ + r.error->0@)]
        } else {
            Seq::<LineView>::empty()
        }
    }
}

/// The closing status line.
pub open spec fn final_line(w: WorkspaceAuditResult) -> LineView {
    if any_critical_or_high(w.repo_results@) {
        (LineStyle::Error, "🚨 Security audit completed with critical/high vulnerabilities"@)
    } else if w.vulnerable_count > 0 {
        (LineStyle::Warning, "⚠️  Security audit completed with minor vulnerabilities"@)
    } else if w.error_count == 0 && w.audited_count > 0 {
        (LineStyle::Success, "✅ Security audit completed successfully - no vulnerabilities found"@)
    } else {
        (LineStyle::Plain, "ℹ️  Security audit completed"@)
    }
}

/// The whole report: the summary; the vulnerabilities and recommendations when some
/// project is vulnerable, else a success line when some project was audited; the
/// errors when some audit failed; an empty line and the closing status.
pub open spec fn audit_report_spec(w: WorkspaceAuditResult, verbose: bool) -> Seq<LineView> {
    summary_lines(w) + (if w.vulnerable_count > 0 {
        seq![(LineStyle::Plain, "\n=== Vulnerabilities Found ==="@)] + vulnerable_repos_lines(w.repo_results@, verbose)
            + recommendation_lines(any_critical_or_high(w.repo_results@))
    } else if w.audited_count > 0 {
        seq![(LineStyle::Success, "✅ No vulnerabilities found!"@)]
    } else {
        Seq::<LineView>::empty()
    }) + (if w.error_count > 0 {
        seq![(LineStyle::Plain, "\n=== Audit Errors ==="@)] + error_lines(w.repo_results@)
    } else {
        Seq::<LineView>::empty()
    }) + seq![(LineStyle::Plain, ""@), final_line(w)]
}

/// The totals of the vulnerable results fit in a `usize`.
pub open spec fn totals_fit(rs: Seq<RepoAuditResult>) -> bool {
    forall|i: int| 0 <= i < rs.len() && audit_vulnerable(#[trigger] rs[i]) ==> total_of(rs[i].audit_result->0.warning_count) <= usize::MAX
}

/// A report line.
fn report_line(style: LineStyle, text: String) -> (r: ReportLine)
    ensures
        r.style == style && r.text@ == text@,
{
    ReportLine { style, text }
}

/// The decimal text of a count.
fn count_text(n: usize) -> (r: String)
    ensures
        r@ == num(n as int),
{
    u64_to_string(n as u64)
}

/// Append the lines of the vulnerabilities.
fn push_vulnerabilities(out: &mut Vec<ReportLine>, vs: &Vec<Vulnerability>)
    ensures
        lines_view(final(out)@) == lines_view(old(out)@) + vulnerabilities_lines(vs@),
{
    let ghost start = lines_view(out@);
    let mut i: usize = 0;
    assert(vs@.subrange(0, 0) =~= Seq::<Vulnerability>::empty());
    assert(lines_view(out@) =~= start + vulnerabilities_lines(vs@.subrange(0, 0)));
    while i < vs.len()
        invariant
            i <= vs@.len(),
            lines_view(out@) == start + vulnerabilities_lines(vs@.subrange(0, i as int)),
        decreases vs.len() - i,
    {
        let v = &vs[i];
        let ghost before = lines_view(out@);
        let sev: &str = match v.severity {
            Severity::Critical => "critical",
            Severity::High => "high",
            Severity::Medium => "medium",
            Severity::Low => "low",
        };
        let n = v.description.as_str().unicode_len();
        let desc = if n <= 80 { owned(v.description.as_str()) } else { substring(v.description.as_str(), 0, 80) };
        let head = cat4("      - ", v.id.as_str(), " (", sev);
        let text = cat3(head.as_str(), "): ", desc.as_str());
        out.push(report_line(LineStyle::Plain, text));
        match &v.url {
            Some(u) => {
                out.push(report_line(LineStyle::Plain, cat2("        More info: ", u.as_str())));
            },
            None => {},
        }
        proof {
            assert(vs@.subrange(0, i + 1).drop_last() =~= vs@.subrange(0, i as int));
            assert(vs@.subrange(0, i + 1).last() == vs@[i as int]);
            assert(lines_view(out@) =~= before + vulnerability_lines(vs@[i as int]));
        }
        i = i + 1;
    }
    assert(vs@.subrange(0, vs@.len() as int) =~= vs@);
}

/// Append the line of a severity count when it is positive.
fn push_severity(out: &mut Vec<ReportLine>, label: &str, n: usize)
    ensures
        lines_view(final(out)@) == lines_view(old(out)@) + severity_line(label@, n),
{
    let ghost before = lines_view(out@);
    if n > 0 {
        let t = count_text(n);
        out.push(report_line(LineStyle::Plain, cat2(label, t.as_str())));
    }
    assert(lines_view(out@) =~= before + severity_line(label@, n));
}

/// Append the lines of one vulnerable repository.
fn push_repo_vulnerabilities(out: &mut Vec<ReportLine>, r: &RepoAuditResult, verbose: bool)
    requires
        audit_vulnerable(*r) ==> total_of(r.audit_result->0.warning_count) <= usize::MAX,
        audit_vulnerable(*r),
    ensures
        lines_view(final(out)@) == lines_view(old(out)@) + repo_vulnerability_lines(*r, verbose),
{
    let ghost start = lines_view(out@);
    match &r.audit_result {
        Some(a) => {
            let c = &a.warning_count;
            let total = c.total();
            let t = count_text(total);
            let tail = cat3(": ", t.as_str(), " vulnerabilities");
            let crit = c.has_critical_or_high();
            let text = if crit {
                cat3("📛 ", r.dest.as_str(), tail.as_str())
            } else {
                cat3("⚠️  ", r.dest.as_str(), tail.as_str())
            };
            let style = if crit { LineStyle::Error } else { LineStyle::Warning };
            proof {
                let cv = a.warning_count;
                if crit {
                    assert(text@ =~= "📛 "@ + r.dest@ + ": "@ + num(total_of(cv)) + " vulnerabilities"@);
                } else {
                    assert(text@ =~= "⚠️  "@ + r.dest@ + ": "@ + num(total_of(cv)) + " vulnerabilities"@);
                }
            }
            out.push(report_line(style, text));
            let ghost h = lines_view(out@);
            push_severity(out, "    🔴 Critical: ", c.critical);
            push_severity(out, "    🟠 High: ", c.high);
            push_severity(out, "    🟡 Medium: ", c.medium);
            push_severity(out, "    🔵 Low: ", c.low);
            let ghost s = lines_view(out@);
            if verbose && a.vulnerabilities.len() > 0 {
                out.push(report_line(LineStyle::Plain, owned("    Vulnerabilities:")));
                push_vulnerabilities(out, &a.vulnerabilities);
            }
            proof {
                let cv = a.warning_count;
                let header = if cv.critical > 0 || cv.high > 0 {
                    (LineStyle::Error, "📛 "@ + r.dest@ + ": "@ + num(total_of(cv)) + " vulnerabilities"@)
                } else {
                    (LineStyle::Warning, "⚠️  "@ + r.dest@ + ": "@ + num(total_of(cv)) + " vulnerabilities"@)
                };
                assert(h =~= start + seq![header]);
                let sev = severity_line("    🔴 Critical: "@, cv.critical) + severity_line("    🟠 High: "@, cv.high)
                    + severity_line("    🟡 Medium: "@, cv.medium) + severity_line("    🔵 Low: "@, cv.low);
                assert(s =~= h + sev);
                let vpart = if verbose && a.vulnerabilities@.len() > 0 {
                    seq![(LineStyle::Plain, "    Vulnerabilities:"@)] + vulnerabilities_lines(a.vulnerabilities@)
                } else {
                    Seq::<LineView>::empty()
                };
                assert(lines_view(out@) =~= s + vpart);
                assert(repo_vulnerability_lines(*r, verbose) =~= seq![header] + sev + vpart);
                assert(lines_view(out@) =~= start + repo_vulnerability_lines(*r, verbose));
            }
        },
        None => {},
    }
}

/// Append the recommendations.
fn push_recommendations(out: &mut Vec<ReportLine>, critical: bool)
    ensures
        lines_view(final(out)@) == lines_view(old(out)@) + recommendation_lines(critical),
{
    let ghost start = lines_view(out@);
    out.push(report_line(LineStyle::Plain, owned("\n=== Recommendations ===")));
    if critical {
        out.push(report_line(LineStyle::Error, owned("❗ Critical or high severity vulnerabilities found!")));
        out.push(report_line(LineStyle::Plain, owned("   • Review and update affected dependencies immediately")));
        out.push(report_line(LineStyle::Plain, owned("   • Run 'cargo update' in affected repositories")));
        out.push(report_line(LineStyle::Plain, owned("   • Check for security advisories and patches")));
    } else {
        out.push(report_line(LineStyle::Warning, owned("⚠️  Lower severity vulnerabilities found")));
        out.push(report_line(LineStyle::Plain, owned("   • Consider updating dependencies when convenient")));
        out.push(report_line(LineStyle::Plain, owned("   • Monitor for security updates")));
    }
    out.push(report_line(LineStyle::Plain, owned("   • Run 'cargo audit' in individual repositories for more details")));
    out.push(report_line(LineStyle::Plain, owned("   • Use 'cargo audit fix' to attempt automatic fixes")));
    assert(lines_view(out@) =~= start + recommendation_lines(critical));
}

impl AuditCommand {
    /// The report of a workspace audit (see `audit_report_spec`). The totals of the
    /// vulnerable projects must fit in a `usize`.
    pub fn audit_report(&self, result: &WorkspaceAuditResult, verbose: bool) -> (r: Vec<ReportLine>)
        requires
            totals_fit(result.repo_results@),
        ensures
            lines_view(r@) == audit_report_spec(*result, verbose),
    {
        let rs = &result.repo_results;
        let mut out: Vec<ReportLine> = Vec::new();
        out.push(report_line(LineStyle::Plain, owned("\n=== Security Audit Summary ===")));
        let t0 = count_text(result.total_count());
        out.push(report_line(LineStyle::Plain, cat2("Total repositories: ", t0.as_str())));
        let t1 = count_text(result.audited_count);
        out.push(report_line(LineStyle::Plain, cat2("Audited (Rust projects): ", t1.as_str())));
        let t2 = count_text(result.skipped_count);
        out.push(report_line(LineStyle::Plain, cat2("Skipped (non-Rust): ", t2.as_str())));
        let t3 = count_text(result.error_count);
        out.push(report_line(LineStyle::Plain, cat2("Errors: ", t3.as_str())));
        let t4 = count_text(result.vulnerable_count);
        out.push(report_line(LineStyle::Plain, cat2("With vulnerabilities: ", t4.as_str())));
        let ghost s0 = lines_view(out@);
        assert(s0 =~= summary_lines(*result));
        let critical = result.has_critical_or_high_vulnerabilities();
        if result.has_vulnerabilities() {
            out.push(report_line(LineStyle::Plain, owned("\n=== Vulnerabilities Found ===")));
            let ghost s1 = lines_view(out@);
            let mut i: usize = 0;
            assert(rs@.subrange(0, 0) =~= Seq::<RepoAuditResult>::empty());
            assert(lines_view(out@) =~= s1 + vulnerable_repos_lines(rs@.subrange(0, 0), verbose));
            while i < rs.len()
                invariant
                    i <= rs@.len(),
                    totals_fit(rs@),
                    lines_view(out@) == s1 + vulnerable_repos_lines(rs@.subrange(0, i as int), verbose),
                decreases rs.len() - i,
            {
                let ghost before = lines_view(out@);
                if rs[i].has_vulnerabilities() {
                    push_repo_vulnerabilities(&mut out, &rs[i], verbose);
                }
                proof {
                    assert(rs@.subrange(0, i + 1).drop_last() =~= rs@.subrange(0, i as int));
                    assert(rs@.subrange(0, i + 1).last() == rs@[i as int]);
                    assert(lines_view(out@) =~= s1 + vulnerable_repos_lines(rs@.subrange(0, i + 1), verbose));
                }
                i = i + 1;
            }
            assert(rs@.subrange(0, rs@.len() as int) =~= rs@);
            push_recommendations(&mut out, critical);
        } else if result.audited_count > 0 {
            out.push(report_line(LineStyle::Success, owned("✅ No vulnerabilities found!")));
        }
        let ghost s2 = lines_view(out@);
        assert(s2 =~= summary_lines(*result) + (if result.vulnerable_count > 0 {
            seq![(LineStyle::Plain, "\n=== Vulnerabilities Found ==="@)] + vulnerable_repos_lines(result.repo_results@, verbose)
                + recommendation_lines(any_critical_or_high(result.repo_results@))
        } else if result.audited_count > 0 {
            seq![(LineStyle::Success, "✅ No vulnerabilities found!"@)]
        } else {
            Seq::<LineView>::empty()
        }));
        if result.error_count > 0 {
            out.push(report_line(LineStyle::Plain, owned("\n=== Audit Errors ===")));
            let ghost s3 = lines_view(out@);
            let mut j: usize = 0;
            assert(rs@.subrange(0, 0) =~= Seq::<RepoAuditResult>::empty());
            assert(lines_view(out@) =~= s3 + error_lines(rs@.subrange(0, 0)));
            while j < rs.len()
                invariant
                    j <= rs@.len(),
                    lines_view(out@) == s3 + error_lines(rs@.subrange(0, j as int)),
                decreases rs.len() - j,
            {
                let ghost before = lines_view(out@);
                let r = &rs[j];
                if !r.is_success() && r.is_rust_project {
                    match &r.error {
                        Some(e) => {
                            let text = cat4("❌ ", r.dest.as_str(), ": ", e.as_str());
                            out.push(report_line(LineStyle::Error, text));
                            assert(lines_view(out@) =~= before + seq![(LineStyle::Error, "❌ "@ + r.dest@ + ": "@ + r.error->0@)]);
                        },
                        None => {},
                    }
                }
                proof {
                    assert(rs@.subrange(0, j + 1).drop_last() =~= rs@.subrange(0, j as int));
                    assert(rs@.subrange(0, j + 1).last() == rs@[j as int]);
                    assert(*r == rs@[j as int]);
                    assert(lines_view(out@) =~= s3 + error_lines(rs@.subrange(0, j + 1)));
                }
                j = j + 1;
            }
            assert(rs@.subrange(0, rs@.len() as int) =~= rs@);
        }
        let ghost s4 = lines_view(out@);
        assert(s4 =~= s2 + (if result.error_count > 0 {
            seq![(LineStyle::Plain, "\n=== Audit Errors ==="@)] + error_lines(result.repo_results@)
        } else {
            Seq::<LineView>::empty()
        }));
        out.push(report_line(LineStyle::Plain, owned("")));
        if critical {
            out.push(report_line(LineStyle::Error, owned("🚨 Security audit completed with critical/high vulnerabilities")));
        } else if result.has_vulnerabilities() {
            out.push(report_line(LineStyle::Warning, owned("⚠️  Security audit completed with minor vulnerabilities")));
        } else if result.is_success() && result.audited_count > 0 {
            out.push(report_line(LineStyle::Success, owned("✅ Security audit completed successfully - no vulnerabilities found")));
        } else {
            out.push(report_line(LineStyle::Plain, owned("ℹ️  Security audit completed")));
        }
        assert(lines_view(out@) =~= s4 + seq![(LineStyle::Plain, ""@), final_line(*result)]);
        assert(lines_view(out@) =~= audit_report_spec(*result, verbose));
        out
    }
}

} // verus!
