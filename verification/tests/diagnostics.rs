use vulnera_adapter::api::{
    AffectedPackageDto, AnalysisMetadataDto, FileAnalysisResult, SeverityBreakdownDto,
    VulnerabilityDto,
};
use vulnera_adapter::diagnostics::{
    build_analysis_failure_diagnostic, build_diagnostics, default_range, finding_diagnostic,
    info_diagnostic, lang_suffix, map_severity, summarize_vulnerabilities, DiagnosticSeverity,
};
use vulnera_adapter::position::{Position, Range};

fn affected(name: &str, version: &str) -> AffectedPackageDto {
    AffectedPackageDto {
        name: name.to_string(),
        version: version.to_string(),
        ecosystem: "npm".to_string(),
        vulnerable_ranges: vec![],
        fixed_versions: vec![],
    }
}

fn vulnerability(id: &str, summary: &str, severity: &str, packages: Vec<AffectedPackageDto>) -> VulnerabilityDto {
    VulnerabilityDto {
        id: id.to_string(),
        summary: summary.to_string(),
        description: String::new(),
        severity: severity.to_string(),
        affected_packages: packages,
        references: vec![],
        sources: vec![],
    }
}

fn result(ecosystem: &str, vulnerabilities: Vec<VulnerabilityDto>, total: usize) -> FileAnalysisResult {
    FileAnalysisResult {
        file_id: None,
        filename: None,
        ecosystem: ecosystem.to_string(),
        vulnerabilities,
        packages: None,
        dependency_graph: None,
        version_recommendations: None,
        metadata: AnalysisMetadataDto {
            total_packages: 1,
            vulnerable_packages: 0,
            total_vulnerabilities: total,
            severity_breakdown: SeverityBreakdownDto { critical: 0, high: 0, medium: 0, low: 0 },
            analysis_duration_ms: 0,
            sources_queried: vec![],
        },
        error: None,
        cache_hit: None,
        workspace_path: None,
    }
}

#[test]
fn severity_mapping_of_each_known_word() {
    assert_eq!(map_severity("critical"), DiagnosticSeverity::Error);
    assert_eq!(map_severity("high"), DiagnosticSeverity::Error);
    assert_eq!(map_severity("medium"), DiagnosticSeverity::Warning);
    assert_eq!(map_severity("low"), DiagnosticSeverity::Information);
}

#[test]
fn severity_mapping_ignores_case() {
    assert_eq!(map_severity("CRITICAL"), DiagnosticSeverity::Error);
    assert_eq!(map_severity("High"), DiagnosticSeverity::Error);
    assert_eq!(map_severity("mEdIuM"), DiagnosticSeverity::Warning);
    assert_eq!(map_severity("LOW"), DiagnosticSeverity::Information);
}

#[test]
fn severity_mapping_is_total() {
    for word in ["", "unknown", "severe", "criticale", " high", "low ", "高", "hıgh", "\u{0130}"] {
        assert_eq!(map_severity(word), DiagnosticSeverity::Hint);
    }
}

#[test]
fn one_diagnostic_for_each_affected_package() {
    let text = "{ \"dependencies\": { \"lodash\": \"4.17.20\" } }";
    let found = result(
        "npm",
        vec![
            vulnerability(
                "CVE-1",
                "Prototype pollution",
                "high",
                vec![affected("lodash", "4.17.20"), affected("absent", "0.1.0")],
            ),
            vulnerability("CVE-2", "ReDoS", "low", vec![affected("lodash", "4.17.20")]),
        ],
        2,
    );
    let diagnostics = build_diagnostics(&found, text, None);
    assert_eq!(diagnostics.len(), 3);

    assert_eq!(diagnostics[0].range, Range::new(Position::new(0, 31), Position::new(0, 38)));
    assert_eq!(diagnostics[0].severity, Some(DiagnosticSeverity::Error));
    assert_eq!(diagnostics[0].source.as_deref(), Some("vulnera"));
    assert_eq!(diagnostics[0].message, "Prototype pollution: lodash (4.17.20 CVE-1)");

    // A package that the text does not hold is anchored at the start.
    assert_eq!(diagnostics[1].range, Range::new(Position::new(0, 0), Position::new(0, 0)));
    assert_eq!(diagnostics[1].message, "Prototype pollution: absent (0.1.0 CVE-1)");

    assert_eq!(diagnostics[2].severity, Some(DiagnosticSeverity::Information));
    assert_eq!(diagnostics[2].message, "ReDoS: lodash (4.17.20 CVE-2)");
}

#[test]
fn language_suffix_is_added_when_known() {
    let text = "lodash==1.0\n";
    let found = result("pypi", vec![vulnerability("V", "S", "medium", vec![affected("lodash", "1.0")])], 1);
    let diagnostics = build_diagnostics(&found, text, Some("python"));
    assert_eq!(diagnostics[0].message, "S: lodash (1.0 V) [lang: python]");
    let diagnostics = build_diagnostics(&found, text, Some(""));
    assert_eq!(diagnostics[0].message, "S: lodash (1.0 V)");
    let diagnostics = build_diagnostics(&found, text, None);
    assert_eq!(diagnostics[0].message, "S: lodash (1.0 V)");
    // A language id of white space is not empty: it is named like any other.
    let diagnostics = build_diagnostics(&found, text, Some("  "));
    assert_eq!(diagnostics[0].message, "S: lodash (1.0 V) [lang:   ]");
    assert_eq!(lang_suffix(Some("toml")), " [lang: toml]");
    assert_eq!(lang_suffix(Some(" ")), " [lang:  ]");
    assert_eq!(lang_suffix(Some("")), "");
    assert_eq!(lang_suffix(None), "");
}

#[test]
fn diagnostics_use_the_inline_table_form_of_cargo() {
    let text = "[dependencies]\nserde = { version = \"1.0.100\", features = [\"derive\"] }\n";
    let found = result("cargo", vec![vulnerability("V", "S", "critical", vec![affected("serde", "1.0.100")])], 1);
    let diagnostics = build_diagnostics(&found, text, None);
    assert_eq!(diagnostics[0].range, Range::new(Position::new(1, 21), Position::new(1, 28)));
}

#[test]
fn unaffected_file_gets_one_hint() {
    let found = result("npm", vec![], 0);
    let diagnostics = build_diagnostics(&found, "{}", Some("json"));
    assert_eq!(diagnostics.len(), 1);
    assert_eq!(diagnostics[0].severity, Some(DiagnosticSeverity::Hint));
    assert_eq!(diagnostics[0].range, Range::new(Position::new(0, 0), Position::new(0, 1)));
    assert_eq!(diagnostics[0].source.as_deref(), Some("vulnera"));
    assert_eq!(diagnostics[0].message, "Dependency scan complete: 0 vulnerabilities [lang: json]");
}

#[test]
fn vulnerability_without_packages_counts_as_unaffected() {
    let found = result("npm", vec![vulnerability("V", "S", "high", vec![])], 12);
    let diagnostics = build_diagnostics(&found, "", None);
    assert_eq!(diagnostics.len(), 1);
    assert_eq!(diagnostics[0].range, Range::new(Position::new(0, 0), Position::new(0, 0)));
    assert_eq!(diagnostics[0].message, "Dependency scan complete: 12 vulnerabilities");
}

#[test]
fn info_diagnostic_writes_the_count_in_decimal() {
    let found = result("npm", vec![], 1234567890);
    let diagnostic = info_diagnostic("x", &found, None);
    assert_eq!(diagnostic.message, "Dependency scan complete: 1234567890 vulnerabilities");
    let found = result("npm", vec![], 7);
    assert_eq!(info_diagnostic("x", &found, None).message, "Dependency scan complete: 7 vulnerabilities");
    let found = result("npm", vec![], 100);
    assert_eq!(info_diagnostic("x", &found, None).message, "Dependency scan complete: 100 vulnerabilities");
}

#[test]
fn failure_diagnostic() {
    let diagnostic = build_analysis_failure_diagnostic("boom");
    assert_eq!(diagnostic.severity, Some(DiagnosticSeverity::Error));
    assert_eq!(diagnostic.source.as_deref(), Some("vulnera"));
    assert_eq!(diagnostic.range, default_range());
    assert_eq!(diagnostic.range, Range::new(Position::new(0, 0), Position::new(0, 0)));
    assert_eq!(diagnostic.message, "Dependency scan failed: boom");
}

#[test]
fn diagnostics_are_the_same_when_built_again() {
    let text = "{ \"lodash\": \"4.17.20\" }";
    let found = result("npm", vec![vulnerability("V", "S", "high", vec![affected("lodash", "4.17.20")])], 1);
    let first = build_diagnostics(&found, text, Some("json"));
    let second = build_diagnostics(&found, text, Some("json"));
    assert_eq!(first.len(), second.len());
    for (a, b) in first.iter().zip(second.iter()) {
        assert_eq!(a.range, b.range);
        assert_eq!(a.severity, b.severity);
        assert_eq!(a.source, b.source);
        assert_eq!(a.message, b.message);
    }
}

#[test]
fn summary_without_references() {
    let vulnerability = vulnerability("V", "Something bad", "high", vec![]);
    assert_eq!(summarize_vulnerabilities(&vulnerability), "Something bad");
}

#[test]
fn summary_with_references() {
    let mut vulnerability = vulnerability("V", "Something bad", "high", vec![]);
    vulnerability.references = vec!["https://a".to_string()];
    assert_eq!(summarize_vulnerabilities(&vulnerability), "Something bad\nReferences: https://a");
    vulnerability.references = vec!["https://a".to_string(), "https://b".to_string(), "c".to_string()];
    assert_eq!(
        summarize_vulnerabilities(&vulnerability),
        "Something bad\nReferences: https://a, https://b, c"
    );
}

#[test]
fn finding_is_anchored_where_the_version_was_located() {
    let vuln = vulnerability("CVE-3", "Overflow", "Medium", vec![]);
    let package = affected("zlib", "1.2.11");
    let range = Range::new(Position::new(4, 2), Position::new(4, 8));
    let diagnostic = finding_diagnostic(Some(range), &vuln, &package, " [lang: c]");
    assert_eq!(diagnostic.range, range);
    assert_eq!(diagnostic.severity, Some(DiagnosticSeverity::Warning));
    assert_eq!(diagnostic.source.as_deref(), Some("vulnera"));
    assert_eq!(diagnostic.message, "Overflow: zlib (1.2.11 CVE-3) [lang: c]");
    let diagnostic = finding_diagnostic(None, &vuln, &package, "");
    assert_eq!(diagnostic.range, Range::new(Position::new(0, 0), Position::new(0, 0)));
    assert_eq!(diagnostic.message, "Overflow: zlib (1.2.11 CVE-3)");
}
