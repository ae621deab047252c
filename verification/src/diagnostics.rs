//! Turns what the analysis service found in a manifest into diagnostics.

use crate::api::{
    AffectedPackageDto, AffectedPackageView, FileAnalysisResult, FileAnalysisResultView,
    VulnerabilityDto, VulnerabilityView,
};
use crate::package_locator::{find_package_version_range, located_range};
use crate::position::{Position, Range};
use crate::text::{
    decimal, decimal_text, eq_ignoring_ascii_case, str_eq_ignore_ascii_case,
};
use vstd::prelude::*;
use vstd::string::StringExecFns;

verus! {

/// How grave a diagnostic is.
#[derive(Clone, Copy, Debug, PartialEq, Eq, Structural)]
pub enum DiagnosticSeverity {
    Error,
    Warning,
    Information,
    Hint,
}

/// A message anchored to a range of a document.
#[derive(Debug)]
pub struct Diagnostic {
    pub range: Range,
    pub severity: Option<DiagnosticSeverity>,
    pub source: Option<String>,
    pub message: String,
}

/// A `Diagnostic`, as a mathematical value.
pub struct DiagnosticView {
    pub range: Range,
    pub severity: Option<DiagnosticSeverity>,
    pub source: Option<Seq<char>>,
    pub message: Seq<char>,
}

impl DeepView for Diagnostic {
    type V = DiagnosticView;

    open spec fn deep_view(&self) -> DiagnosticView {
        DiagnosticView {
            range: self.range,
            severity: self.severity,
            source: self.source.deep_view(),
            message: self.message@,
        }
    }
}

impl Clone for Diagnostic {
    fn clone(&self) -> (copy: Diagnostic)
        ensures
            copy.deep_view() == self.deep_view(),
    {
        Diagnostic {
            range: self.range,
            severity: self.severity,
            source: match &self.source {
                Some(s) => Some(s.clone()),
                None => None,
            },
            message: self.message.clone(),
        }
    }
}

/// The range at the very start of a document, which stands in where no better
/// one is known.
pub open spec fn origin_range() -> Range {
    Range {
        start: Position { line: 0, character: 0 },
        end: Position { line: 0, character: 0 },
    }
}

/// The severity for the service's word, whatever the case of its letters. A
/// word that is none of the four known ones gives a hint.
pub open spec fn severity_of(severity: Seq<char>) -> DiagnosticSeverity {
    if eq_ignoring_ascii_case(severity, "critical"@) {
        DiagnosticSeverity::Error
    } else if eq_ignoring_ascii_case(severity, "high"@) {
        DiagnosticSeverity::Error
    } else if eq_ignoring_ascii_case(severity, "medium"@) {
        DiagnosticSeverity::Warning
    } else if eq_ignoring_ascii_case(severity, "low"@) {
        DiagnosticSeverity::Information
    } else {
        DiagnosticSeverity::Hint
    }
}

/// What a message ends with to name the document's language: nothing where
/// the language is unknown or empty.
pub open spec fn language_suffix(language_id: Option<Seq<char>>) -> Seq<char> {
    match language_id {
        Some(id) => if id.len() == 0 {
            Seq::empty()
        } else {
            " [lang: "@ + id + "]"@
        },
        None => Seq::empty(),
    }
}

/// The diagnostic for one package that a vulnerability affects, in a document
/// in which the package's version was located at `located`, or not at all.
pub open spec fn finding_at(
    located: Option<Range>,
    vulnerability: VulnerabilityView,
    affected: AffectedPackageView,
    suffix: Seq<char>,
) -> DiagnosticView {
    DiagnosticView {
        range: match located {
            Some(range) => range,
            None => origin_range(),
        },
        severity: Some(severity_of(vulnerability.severity)),
        source: Some("vulnera"@),
        message: vulnerability.summary + ": "@ + affected.name + " ("@ + affected.version + " "@
            + vulnerability.id + ")"@ + suffix,
    }
}

/// The diagnostic for one package that a vulnerability affects: on the
/// package's version literal where the document holds one, and else at its
/// start.
pub open spec fn finding(
    ecosystem: Seq<char>,
    text: Seq<char>,
    vulnerability: VulnerabilityView,
    affected: AffectedPackageView,
    suffix: Seq<char>,
) -> DiagnosticView {
    finding_at(located_range(text, ecosystem, affected.name), vulnerability, affected, suffix)
}

/// The diagnostics for the first `n` packages that a vulnerability affects.
pub open spec fn findings_of(
    ecosystem: Seq<char>,
    text: Seq<char>,
    vulnerability: VulnerabilityView,
    suffix: Seq<char>,
    n: int,
) -> Seq<DiagnosticView> {
    Seq::new(
        n as nat,
        |j: int|
            finding(ecosystem, text, vulnerability, vulnerability.affected_packages[j], suffix),
    )
}

/// The diagnostics for the first `m` vulnerabilities, in their order, each with
/// its packages in their order.
pub open spec fn findings(
    ecosystem: Seq<char>,
    text: Seq<char>,
    vulnerabilities: Seq<VulnerabilityView>,
    suffix: Seq<char>,
    m: int,
) -> Seq<DiagnosticView>
    decreases m,
{
    if m <= 0 {
        Seq::empty()
    } else {
        findings(ecosystem, text, vulnerabilities, suffix, m - 1) + findings_of(
            ecosystem,
            text,
            vulnerabilities[m - 1],
            suffix,
            vulnerabilities[m - 1].affected_packages.len() as int,
        )
    }
}

/// The one diagnostic of a manifest in which nothing was found: a hint on the
/// first character that says that the scan is done.
pub open spec fn scan_complete(
    text: Seq<char>,
    total_vulnerabilities: usize,
    language_id: Option<Seq<char>>,
) -> DiagnosticView {
    DiagnosticView {
        range: if text.len() == 0 {
            origin_range()
        } else {
            Range {
                start: Position { line: 0, character: 0 },
                end: Position { line: 0, character: 1 },
            }
        },
        severity: Some(DiagnosticSeverity::Hint),
        source: Some("vulnera"@),
        message: "Dependency scan complete: "@ + decimal_text(total_vulnerabilities as nat)
            + " vulnerabilities"@ + language_suffix(language_id),
    }
}

/// The diagnostics of a manifest: one for each package of each vulnerability,
/// or the single hint where there is none.
pub open spec fn diagnostics_of(
    result: FileAnalysisResultView,
    text: Seq<char>,
    language_id: Option<Seq<char>>,
) -> Seq<DiagnosticView> {
    let found = findings(
        result.ecosystem,
        text,
        result.vulnerabilities,
        language_suffix(language_id),
        result.vulnerabilities.len() as int,
    );
    if found.len() == 0 {
        seq![scan_complete(text, result.metadata.total_vulnerabilities, language_id)]
    } else {
        found
    }
}

/// The diagnostic that tells of an analysis that failed.
pub open spec fn failure_of(message: Seq<char>) -> DiagnosticView {
    DiagnosticView {
        range: origin_range(),
        severity: Some(DiagnosticSeverity::Error),
        source: Some("vulnera"@),
        message: "Dependency scan failed: "@ + message,
    }
}

/// A vulnerability in a few words: its summary and, on a second line, its
/// references, where it has any.
pub open spec fn summary_of(vulnerability: VulnerabilityView) -> Seq<char> {
    if vulnerability.references.len() == 0 {
        vulnerability.summary
    } else {
        vulnerability.summary + "\n"@ + "References: "@ + joined(
            vulnerability.references,
            ", "@,
            vulnerability.references.len() as int,
        )
    }
}

/// The first `n` of `parts`, with `separator` between each two.
pub open spec fn joined(parts: Seq<Seq<char>>, separator: Seq<char>, n: int) -> Seq<char>
    decreases n,
{
    if n <= 0 {
        Seq::empty()
    } else if n == 1 {
        parts[0]
    } else {
        joined(parts, separator, n - 1) + separator + parts[n - 1]
    }
}

/// The range at the very start of a document.
pub fn default_range() -> (range: Range)
    ensures
        range == origin_range(),
{
    Range::new(Position::new(0, 0), Position::new(0, 0))
}

/// The severity for the service's word. Total: every string has one.
pub fn map_severity(severity: &str) -> (mapped: DiagnosticSeverity)
    ensures
        mapped == severity_of(severity@),
{
    if str_eq_ignore_ascii_case(severity, "critical") {
        DiagnosticSeverity::Error
    } else if str_eq_ignore_ascii_case(severity, "high") {
        DiagnosticSeverity::Error
    } else if str_eq_ignore_ascii_case(severity, "medium") {
        DiagnosticSeverity::Warning
    } else if str_eq_ignore_ascii_case(severity, "low") {
        DiagnosticSeverity::Information
    } else {
        DiagnosticSeverity::Hint
    }
}

/// The words that close a message to name the document's language.
pub fn lang_suffix(language_id: Option<&str>) -> (suffix: String)
    ensures
        suffix@ == language_suffix(language_id.deep_view()),
{
    match language_id {
        Some(id) => {
            if id.is_empty() {
                String::new()
            } else {
                let mut suffix = String::from_str(" [lang: ");
                suffix.append(id);
                suffix.append("]");
                suffix
            }
        },
        None => String::new(),
    }
}

/// The diagnostic for one package that a vulnerability affects, anchored at
/// `located`, or at the start of the document where the package's version was
/// not located. `suffix` closes the message.
pub fn finding_diagnostic(
    located: Option<Range>,
    vulnerability: &VulnerabilityDto,
    affected: &AffectedPackageDto,
    suffix: &str,
) -> (diagnostic: Diagnostic)
    ensures
        diagnostic.deep_view() == finding_at(
            located,
            vulnerability.deep_view(),
            affected.deep_view(),
            suffix@,
        ),
{
    let range = match located {
        Some(range) => range,
        None => default_range(),
    };
    let severity = map_severity(vulnerability.severity.as_str());
    let mut message = vulnerability.summary.clone();
    message.append(": ");
    message.append(affected.name.as_str());
    message.append(" (");
    message.append(affected.version.as_str());
    message.append(" ");
    message.append(vulnerability.id.as_str());
    message.append(")");
    message.append(suffix);
    Diagnostic {
        range,
        severity: Some(severity),
        source: Some(String::from_str("vulnera")),
        message,
    }
}

/// The single hint for a manifest in which nothing was found.
pub fn info_diagnostic(
    document_text: &str,
    result: &FileAnalysisResult,
    language_id: Option<&str>,
) -> (diagnostic: Diagnostic)
    ensures
        diagnostic.deep_view() == scan_complete(
            document_text@,
            result.metadata.total_vulnerabilities,
            language_id.deep_view(),
        ),
{
    let range = if document_text.is_empty() {
        default_range()
    } else {
        Range::new(Position::new(0, 0), Position::new(0, 1))
    };
    let suffix = lang_suffix(language_id);
    let count = decimal(result.metadata.total_vulnerabilities as u64);
    let mut message = String::from_str("Dependency scan complete: ");
    message.append(count.as_str());
    message.append(" vulnerabilities");
    message.append(suffix.as_str());
    Diagnostic {
        range,
        severity: Some(DiagnosticSeverity::Hint),
        source: Some(String::from_str("vulnera")),
        message,
    }
}

/// The diagnostics for what the service found in a manifest whose text is
/// `document_text`: for each vulnerability and each package that it affects one
/// diagnostic, on the package's version literal where that is found and at the
/// start of the document where it is not; a single hint where there is none.
pub fn build_diagnostics(
    result: &FileAnalysisResult,
    document_text: &str,
    language_id: Option<&str>,
) -> (diagnostics: Vec<Diagnostic>)
    ensures
        diagnostics.deep_view() == diagnostics_of(
            result.deep_view(),
            document_text@,
            language_id.deep_view(),
        ),
{
    let mut diagnostics: Vec<Diagnostic> = Vec::new();
    let suffix = lang_suffix(language_id);
    let ghost eco = result.ecosystem@;
    let ghost text = document_text@;
    let ghost vulns = result.deep_view().vulnerabilities;
    let mut i: usize = 0;
    assert(diagnostics.deep_view() =~= findings(eco, text, vulns, suffix@, 0));
    while i < result.vulnerabilities.len()
        invariant
            i <= result.vulnerabilities.len(),
            eco == result.ecosystem@,
            text == document_text@,
            vulns == result.deep_view().vulnerabilities,
            diagnostics.deep_view() == findings(eco, text, vulns, suffix@, i as int),
        decreases result.vulnerabilities.len() - i,
    {
        let vulnerability = &result.vulnerabilities[i];
        assert(vulns[i as int] == vulnerability.deep_view());
        let ghost before = diagnostics.deep_view();
        let mut j: usize = 0;
        assert(diagnostics.deep_view() =~= before + findings_of(
            eco,
            text,
            vulnerability.deep_view(),
            suffix@,
            0,
        ));
        while j < vulnerability.affected_packages.len()
            invariant
                j <= vulnerability.affected_packages.len(),
                eco == result.ecosystem@,
                text == document_text@,
                diagnostics.deep_view() == before + findings_of(
                    eco,
                    text,
                    vulnerability.deep_view(),
                    suffix@,
                    j as int,
                ),
            decreases vulnerability.affected_packages.len() - j,
        {
            let affected = &vulnerability.affected_packages[j];
            assert(vulnerability.deep_view().affected_packages[j as int] == affected.deep_view());
            let located = find_package_version_range(
                document_text,
                result.ecosystem.as_str(),
                affected.name.as_str(),
            );
            let diagnostic = finding_diagnostic(located, vulnerability, affected, suffix.as_str());
            let ghost held = diagnostics.deep_view();
            diagnostics.push(diagnostic);
            assert(diagnostics.deep_view() =~= held.push(diagnostic.deep_view()));
            j = j + 1;
            assert(diagnostics.deep_view() =~= before + findings_of(
                eco,
                text,
                vulnerability.deep_view(),
                suffix@,
                j as int,
            ));
        }
        i = i + 1;
    }
    if diagnostics.len() == 0 {
        let info = info_diagnostic(document_text, result, language_id);
        diagnostics.push(info);
        assert(diagnostics.deep_view() =~= seq![info.deep_view()]);
    }
    diagnostics
}

/// The diagnostic that tells of an analysis that failed, with the reason.
pub fn build_analysis_failure_diagnostic(message: &str) -> (diagnostic: Diagnostic)
    ensures
        diagnostic.deep_view() == failure_of(message@),
{
    let mut text = String::from_str("Dependency scan failed: ");
    text.append(message);
    Diagnostic {
        range: default_range(),
        severity: Some(DiagnosticSeverity::Error),
        source: Some(String::from_str("vulnera")),
        message: text,
    }
}

/// A vulnerability in a few words.
pub fn summarize_vulnerabilities(vuln: &VulnerabilityDto) -> (summary: String)
    ensures
        summary@ == summary_of(vuln.deep_view()),
{
    let mut summary = vuln.summary.clone();
    if vuln.references.len() == 0 {
        return summary;
    }
    summary.append("\n");
    summary.append("References: ");
    let ghost parts = vuln.deep_view().references;
    let mut listed = String::new();
    let mut i: usize = 0;
    while i < vuln.references.len()
        invariant
            i <= vuln.references.len(),
            parts == vuln.deep_view().references,
            listed@ == joined(parts, ", "@, i as int),
        decreases vuln.references.len() - i,
    {
        assert(parts[i as int] == vuln.references[i as int]@);
        if i > 0 {
            listed.append(", ");
        }
        listed.append(vuln.references[i].as_str());
        i = i + 1;
        assert(listed@ =~= joined(parts, ", "@, i as int));
    }
    summary.append(listed.as_str());
    assert(summary@ =~= summary_of(vuln.deep_view()));
    summary
}

/// A copy of a list of diagnostics.
pub fn clone_diagnostics(diagnostics: &Vec<Diagnostic>) -> (copy: Vec<Diagnostic>)
    ensures
        copy.deep_view() == diagnostics.deep_view(),
{
    let mut copy: Vec<Diagnostic> = Vec::new();
    let mut i: usize = 0;
    while i < diagnostics.len()
        invariant
            i <= diagnostics.len(),
            copy.len() == i,
            forall|j: int| 0 <= j < i ==> copy@[j].deep_view() == diagnostics@[j].deep_view(),
        decreases diagnostics.len() - i,
    {
        copy.push(diagnostics[i].clone());
        i = i + 1;
    }
    assert(copy.deep_view() =~= diagnostics.deep_view());
    copy
}

} // verus!
