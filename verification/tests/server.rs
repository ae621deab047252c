use vulnera_adapter::api::{
    AffectedPackageDto, AnalysisMetadataDto, ApiError, BatchAnalysisMetadata,
    BatchDependencyAnalysisResponse, FileAnalysisResult, SeverityBreakdownDto,
    VersionRecommendationDto, VulnerabilityDto,
};
use vulnera_adapter::diagnostics::DiagnosticSeverity;
use vulnera_adapter::lsp::{detect_ecosystem, ContentChange, TextDocumentSyncKind};
use vulnera_adapter::position::{Position, Range};
use vulnera_adapter::state::{BatchStart, DocumentSnapshot, MessageType, ServerAction, ServerState};
use vulnera_adapter::uri::DocumentUri;
use vulnera_adapter::code_actions::CodeActionKind;
use vulnera_adapter::{Config, VulneraLanguageServer};

fn uri(raw: &str) -> DocumentUri {
    DocumentUri::parse(raw).expect("a URI")
}

fn server() -> VulneraLanguageServer {
    VulneraLanguageServer::new(Config::default())
}

fn metadata(total: usize) -> AnalysisMetadataDto {
    AnalysisMetadataDto {
        total_packages: 1,
        vulnerable_packages: 0,
        total_vulnerabilities: total,
        severity_breakdown: SeverityBreakdownDto { critical: 0, high: 0, medium: 0, low: 0 },
        analysis_duration_ms: 1,
        sources_queried: vec![],
    }
}

fn clean(file_id: Option<&str>, ecosystem: &str) -> FileAnalysisResult {
    FileAnalysisResult {
        file_id: file_id.map(|s| s.to_string()),
        filename: None,
        ecosystem: ecosystem.to_string(),
        vulnerabilities: vec![],
        packages: None,
        dependency_graph: None,
        version_recommendations: None,
        metadata: metadata(0),
        error: None,
        cache_hit: None,
        workspace_path: None,
    }
}

fn lodash_finding(file_id: Option<&str>) -> FileAnalysisResult {
    let mut result = clean(file_id, "npm");
    result.metadata = metadata(1);
    result.vulnerabilities = vec![VulnerabilityDto {
        id: "GHSA-1".to_string(),
        summary: "Command injection".to_string(),
        description: String::new(),
        severity: "high".to_string(),
        affected_packages: vec![AffectedPackageDto {
            name: "lodash".to_string(),
            version: "4.17.20".to_string(),
            ecosystem: "npm".to_string(),
            vulnerable_ranges: vec![],
            fixed_versions: vec![],
        }],
        references: vec![],
        sources: vec![],
    }];
    result.version_recommendations = Some(vec![VersionRecommendationDto {
        package: "lodash".to_string(),
        ecosystem: "npm".to_string(),
        current_version: Some("4.17.20".to_string()),
        nearest_safe_above_current: Some("4.17.21".to_string()),
        most_up_to_date_safe: None,
        next_safe_minor_within_current_major: None,
        nearest_impact: None,
        most_up_to_date_impact: None,
        prerelease_exclusion_applied: None,
        notes: None,
    }]);
    result
}

fn response(results: Vec<FileAnalysisResult>, request_id: Option<&str>) -> BatchDependencyAnalysisResponse {
    BatchDependencyAnalysisResponse {
        metadata: BatchAnalysisMetadata {
            request_id: request_id.map(|s| s.to_string()),
            total_files: results.len(),
            successful: results.len(),
            failed: 0,
            duration_ms: 1,
            total_vulnerabilities: 0,
            total_packages: 0,
            cache_hits: None,
            critical_count: 0,
            high_count: 0,
        },
        results,
    }
}

/// The task and the delay of the debounce that `actions` start.
fn started(actions: &[ServerAction]) -> Vec<(String, u64, u64)> {
    actions
        .iter()
        .filter_map(|action| match action {
            ServerAction::StartDebounce { workspace_key, task, debounce_ms } => {
                Some((workspace_key.clone(), *task, *debounce_ms))
            }
            _ => None,
        })
        .collect()
}

fn cancelled(actions: &[ServerAction]) -> Vec<(String, u64)> {
    actions
        .iter()
        .filter_map(|action| match action {
            ServerAction::CancelTask { workspace_key, task } => Some((workspace_key.clone(), *task)),
            _ => None,
        })
        .collect()
}

/// What `actions` publish: the URI, the messages and the version.
fn published(actions: &[ServerAction]) -> Vec<(String, Vec<String>, Option<i32>)> {
    actions
        .iter()
        .filter_map(|action| match action {
            ServerAction::PublishDiagnostics { uri, diagnostics, version } => Some((
                uri.clone(),
                diagnostics.iter().map(|d| d.message.clone()).collect(),
                *version,
            )),
            _ => None,
        })
        .collect()
}

const PACKAGE_JSON: &str = "{ \"dependencies\": { \"lodash\": \"4.17.20\" } }";

#[test]
fn ecosystems_by_file_name() {
    let of = |name: &str| detect_ecosystem(&Some(name.to_string()), Some("rust"));
    for name in ["package.json", "package-lock.json", "yarn.lock", "pnpm-lock.yaml", "PACKAGE.JSON", "my.package.json"] {
        assert_eq!(of(name), "npm", "{}", name);
    }
    for name in ["requirements.txt", "pyproject.toml", "Pipfile", "Pipfile.lock", "poetry.lock", "uv.lock", "dev-requirements.txt"] {
        assert_eq!(of(name), "pypi", "{}", name);
    }
    for name in ["Cargo.toml", "Cargo.lock", "cargo.TOML"] {
        assert_eq!(of(name), "cargo", "{}", name);
    }
    for name in ["go.mod", "go.sum"] {
        assert_eq!(of(name), "go", "{}", name);
    }
    for name in ["pom.xml", "build.gradle", "build.gradle.kts", "gradle.lockfile"] {
        assert_eq!(of(name), "maven", "{}", name);
    }
    for name in ["composer.json", "composer.lock"] {
        assert_eq!(of(name), "packagist", "{}", name);
    }
    // A name that says nothing gives `unknown`, whatever the language.
    for name in ["notes.md", "main.rs", "", "package.json.bak", "ackage.json"] {
        assert_eq!(of(name), "unknown", "{}", name);
    }
}

#[test]
fn ecosystems_by_language_without_a_file_name() {
    let of = |language: &str| detect_ecosystem(&None, Some(language));
    assert_eq!(of("javascript"), "npm");
    assert_eq!(of("typescript"), "npm");
    assert_eq!(of("python"), "pypi");
    assert_eq!(of("rust"), "cargo");
    assert_eq!(of("go"), "go");
    assert_eq!(of("java"), "maven");
    assert_eq!(of("kotlin"), "maven");
    assert_eq!(of("php"), "packagist");
    assert_eq!(of("Rust"), "unknown");
    assert_eq!(of("markdown"), "unknown");
    assert_eq!(detect_ecosystem(&None, None), "unknown");
}

#[test]
fn initialize_merges_settings_and_tells_capabilities() {
    let mut server = server();
    let env = vec![("VULNERA_DEBOUNCE_MS".to_string(), "50".to_string())];
    let options = serde_json::from_str(r#"{"vulnera":{"detailLevel":"full"}}"#).expect("JSON");
    let answer = server.initialize(&env, Some(options));
    assert!(answer.capabilities.open_close);
    assert_eq!(answer.capabilities.change, TextDocumentSyncKind::Incremental);
    assert!(answer.capabilities.save_include_text);
    assert_eq!(answer.capabilities.code_action_kinds, vec![CodeActionKind::QuickFix]);
    assert!(!answer.capabilities.resolve_provider);
    assert_eq!(answer.server_name, "Vulnera Dependency LSP");
    assert_eq!(answer.server_version, "0.1.0");

    let actions = server.did_open(&uri("file:///w/package.json"), "json", 1, "{}".to_string());
    assert_eq!(started(&actions), vec![("/w".to_string(), 0, 50)]);
    let start = server.state.begin_batch("/w", 0).expect("a batch");
    let call = start.call.expect("a request");
    assert!(call.url.ends_with("detail_level=full"));

    match &server.initialized()[..] {
        [ServerAction::LogMessage { kind, message }] => {
            assert_eq!(*kind, MessageType::Info);
            assert_eq!(message, "Vulnera LSP initialized");
        }
        other => panic!("unexpected: {:?}", other),
    }
}

#[test]
fn open_stores_the_document_and_starts_a_debounce() {
    let mut server = server();
    let actions = server.did_open(&uri("file:///w/package.json"), "json", 3, PACKAGE_JSON.to_string());
    assert_eq!(started(&actions), vec![("/w".to_string(), 0, 500)]);
    assert_eq!(actions.len(), 1);
    let stored = server.state.document_snapshot("file:///w/package.json").expect("stored");
    assert_eq!(stored.text, PACKAGE_JSON);
    assert_eq!(stored.version, 3);
    assert_eq!(stored.language_id.as_deref(), Some("json"));
    assert_eq!(stored.file_name.as_deref(), Some("package.json"));
    assert_eq!(stored.workspace_path.as_deref(), Some("/w/package.json"));
    assert_eq!(stored.ecosystem, "npm");
    assert_eq!(stored.uri.path, "/w/package.json");
    assert_eq!(server.state.document_text("file:///w/package.json").as_deref(), Some(PACKAGE_JSON));
    assert!(server.state.document_text("file:///w/other.json").is_none());
}

#[test]
fn debounce_coalescing() {
    let mut server = server();
    let doc = uri("file:///w/package.json");
    let mut tasks = Vec::new();
    let actions = server.did_open(&doc, "json", 1, "{ \"lodash\": \"1.0.0\" }".to_string());
    assert!(cancelled(&actions).is_empty());
    tasks.push(started(&actions)[0].1);
    for (version, new) in [(2, "1.0.1"), (3, "1.0.2"), (4, "1.0.3")] {
        let change = ContentChange {
            range: Some(Range::new(Position::new(0, 13), Position::new(0, 18))),
            range_length: None,
            text: new.to_string(),
        };
        let actions = server.did_change(&doc, version, &[change]);
        // Each change gives the waiting task up and starts another.
        assert_eq!(cancelled(&actions), vec![("/w".to_string(), *tasks.last().expect("a task"))]);
        tasks.push(started(&actions)[0].1);
    }
    let actions = server.did_save(&doc, Some("{ \"lodash\": \"2.0.0\" }".to_string()));
    assert_eq!(cancelled(&actions), vec![("/w".to_string(), *tasks.last().expect("a task"))]);
    tasks.push(started(&actions)[0].1);

    // Of the five tasks only the last one sends anything.
    let (last, stale) = tasks.split_last().expect("tasks");
    for task in stale {
        assert!(server.state.begin_batch("/w", *task).is_none());
    }
    let start = server.state.begin_batch("/w", *last).expect("a batch");
    let request = start.call.expect("a request");
    assert_eq!(request.body.files.len(), 1);
    assert_eq!(request.body.files[0].file_content, "{ \"lodash\": \"2.0.0\" }");
    assert_eq!(request.body.files[0].file_id.as_deref(), Some("file:///w/package.json"));
    assert_eq!(request.body.files[0].ecosystem, "npm");
    assert_eq!(request.body.files[0].filename.as_deref(), Some("package.json"));
    assert_eq!(request.body.files[0].workspace_path.as_deref(), Some("/w/package.json"));
    assert!(request.body.enable_cache);
    assert!(!request.body.compact_mode);
    // The version of a save without a new version is that of the last change.
    assert_eq!(start.job.snapshots[0].version, 4);
    // Once begun, the batch is not begun again.
    assert!(server.state.begin_batch("/w", *last).is_none());
}

#[test]
fn workspace_batching() {
    let mut server = server();
    server.did_open(&uri("file:///w/package.json"), "json", 1, "{}".to_string());
    let actions = server.did_open(&uri("file:///w/Cargo.toml"), "toml", 1, "[dependencies]\n".to_string());
    assert_eq!(cancelled(&actions), vec![("/w".to_string(), 0)]);
    let (key, task, _) = started(&actions)[0].clone();
    assert_eq!(key, "/w");
    let start = server.state.begin_batch("/w", task).expect("a batch");
    let request = start.call.expect("a request");
    let ids: Vec<_> = request.body.files.iter().map(|f| f.file_id.clone().expect("an id")).collect();
    assert_eq!(ids, vec!["file:///w/package.json", "file:///w/Cargo.toml"]);
    let ecosystems: Vec<_> = request.body.files.iter().map(|f| f.ecosystem.as_str()).collect();
    assert_eq!(ecosystems, vec!["npm", "cargo"]);
    assert_eq!(start.job.workspace_key, "/w");
}

#[test]
fn workspaces_are_isolated() {
    let mut server = server();
    let a = server.did_open(&uri("file:///a/package.json"), "json", 1, "{}".to_string());
    let b = server.did_open(&uri("file:///b/package.json"), "json", 1, "{}".to_string());
    assert!(cancelled(&a).is_empty());
    assert!(cancelled(&b).is_empty());
    let task_a = started(&a)[0].1;
    let task_b = started(&b)[0].1;
    assert_ne!(task_a, task_b);
    let again = server.did_save(&uri("file:///a/package.json"), None);
    assert_eq!(cancelled(&again), vec![("/a".to_string(), task_a)]);
    // The other workspace's task is still the one that sends.
    let start_b = server.state.begin_batch("/b", task_b).expect("a batch");
    assert_eq!(start_b.job.snapshots.len(), 1);
    assert_eq!(start_b.job.snapshots[0].uri.text, "file:///b/package.json");
    let start_a = server.state.begin_batch("/a", started(&again)[0].1).expect("a batch");
    assert_eq!(start_a.job.snapshots[0].uri.text, "file:///a/package.json");
}

#[test]
fn ecosystem_unknown() {
    let mut server = server();
    let actions = server.did_open(&uri("file:///w/notes.md"), "markdown", 7, "# notes".to_string());
    assert!(started(&actions).is_empty());
    assert_eq!(published(&actions), vec![("file:///w/notes.md".to_string(), vec![], Some(7))]);
    assert_eq!(actions.len(), 1);
    let change = ContentChange { range: None, range_length: None, text: "more".to_string() };
    let actions = server.did_change(&uri("file:///w/notes.md"), 8, &[change]);
    assert!(started(&actions).is_empty());
    assert_eq!(published(&actions), vec![("file:///w/notes.md".to_string(), vec![], Some(8))]);
    assert!(server.state.begin_batch("/w", 0).is_none());
}

#[test]
fn unknown_documents_stay_out_of_a_batch() {
    let mut state = ServerState::new(Config::default());
    let doc = uri("file:///w/package.json");
    let snapshot = |ecosystem: &str| DocumentSnapshot {
        uri: doc.clone(),
        text: "{}".to_string(),
        version: 1,
        language_id: None,
        file_name: Some("package.json".to_string()),
        workspace_path: Some("/w/package.json".to_string()),
        ecosystem: ecosystem.to_string(),
    };
    state.upsert_document(snapshot("npm"));
    let actions = state.schedule_analysis("file:///w/package.json");
    let task = started(&actions)[0].1;
    // The document turns unknown while it waits.
    state.upsert_document(snapshot("unknown"));
    assert!(state.begin_batch("/w", task).is_none());
    // With nothing to send the task is done: the next schedule gives nothing up.
    state.upsert_document(snapshot("npm"));
    assert!(cancelled(&state.schedule_analysis("file:///w/package.json")).is_empty());
}

#[test]
fn scheduling_an_unopened_document_does_nothing() {
    let mut state = ServerState::new(Config::default());
    assert!(state.schedule_analysis("file:///w/package.json").is_empty());
    let mut server = server();
    assert!(server.did_save(&uri("file:///w/package.json"), None).is_empty());
}

fn open_and_begin(server: &mut VulneraLanguageServer, raw: &str, version: i32, text: &str) -> BatchStart {
    let actions = server.did_open(&uri(raw), "json", version, text.to_string());
    let (key, task, _) = started(&actions)[0].clone();
    server.state.begin_batch(&key, task).expect("a batch")
}

#[test]
fn results_are_published_as_of_the_snapshot_version() {
    let mut server = server();
    let start = open_and_begin(&mut server, "file:///w/package.json", 5, PACKAGE_JSON);
    // The document moves on while the request is under way.
    server.state.upsert_document(DocumentSnapshot {
        version: 6,
        text: "{}".to_string(),
        ..start.job.snapshots[0].clone()
    });
    let answer = response(vec![lodash_finding(Some("file:///w/package.json"))], Some("req-9"));
    let actions = server.state.complete_batch(start.job, Ok(answer));
    match &actions[0] {
        ServerAction::LogMessage { kind, message } => {
            assert_eq!(*kind, MessageType::Info);
            assert_eq!(message, "Vulnera dependency batch request_id=req-9");
        }
        other => panic!("unexpected: {:?}", other),
    }
    assert_eq!(
        published(&actions),
        vec![(
            "file:///w/package.json".to_string(),
            vec!["Command injection: lodash (4.17.20 GHSA-1) [lang: json]".to_string()],
            Some(5),
        )]
    );
    assert_eq!(actions.len(), 2);
    match &actions[1] {
        ServerAction::PublishDiagnostics { diagnostics, .. } => {
            assert_eq!(diagnostics[0].severity, Some(DiagnosticSeverity::Error));
            assert_eq!(diagnostics[0].range, Range::new(Position::new(0, 31), Position::new(0, 38)));
        }
        other => panic!("unexpected: {:?}", other),
    }
    let cached = server.state.analysis_for("file:///w/package.json").expect("cached");
    assert_eq!(cached.diagnostics.len(), 1);
    assert_eq!(cached.diagnostics[0].message, "Command injection: lodash (4.17.20 GHSA-1) [lang: json]");
    assert_eq!(cached.result.vulnerabilities.len(), 1);
}

#[test]
fn results_without_ids_are_paired_by_place() {
    let mut server = server();
    server.did_open(&uri("file:///w/package.json"), "json", 1, "{}".to_string());
    let actions = server.did_open(&uri("file:///w/Cargo.toml"), "toml", 2, "".to_string());
    let start = server.state.begin_batch("/w", started(&actions)[0].1).expect("a batch");
    // One result has no id, the other an unknown one: pairing goes by place.
    let mut failed = clean(Some("nobody"), "cargo");
    failed.error = Some("no lock file".to_string());
    let answer = response(vec![clean(None, "npm"), failed], None);
    let actions = server.state.complete_batch(start.job, Ok(answer));
    assert_eq!(
        published(&actions),
        vec![
            (
                "file:///w/package.json".to_string(),
                vec!["Dependency scan complete: 0 vulnerabilities [lang: json]".to_string()],
                Some(1),
            ),
            (
                "file:///w/Cargo.toml".to_string(),
                vec!["Dependency scan failed: no lock file".to_string()],
                Some(2),
            ),
        ]
    );
    assert_eq!(actions.len(), 2);
    // A result with an error is not cached.
    assert!(server.state.analysis_for("file:///w/package.json").is_some());
    assert!(server.state.analysis_for("file:///w/Cargo.toml").is_none());
}

#[test]
fn an_empty_id_counts_as_no_id() {
    let mut server = server();
    let start = open_and_begin(&mut server, "file:///w/package.json", 1, "{}");
    let answer = response(vec![clean(Some(""), "npm")], None);
    let actions = server.state.complete_batch(start.job, Ok(answer));
    assert_eq!(published(&actions).len(), 1);
    assert_eq!(published(&actions)[0].0, "file:///w/package.json");
}

#[test]
fn results_with_ids_are_paired_by_id() {
    let mut server = server();
    server.did_open(&uri("file:///w/package.json"), "json", 1, "{}".to_string());
    let actions = server.did_open(&uri("file:///w/Cargo.toml"), "toml", 2, "".to_string());
    let start = server.state.begin_batch("/w", started(&actions)[0].1).expect("a batch");
    let answer = response(
        vec![clean(Some("file:///w/Cargo.toml"), "cargo"), clean(Some("file:///w/package.json"), "npm")],
        None,
    );
    let actions = server.state.complete_batch(start.job, Ok(answer));
    let uris: Vec<_> = published(&actions).into_iter().map(|p| (p.0, p.2)).collect();
    assert_eq!(
        uris,
        vec![
            ("file:///w/Cargo.toml".to_string(), Some(2)),
            ("file:///w/package.json".to_string(), Some(1)),
        ]
    );
}

fn failure_messages(actions: &[ServerAction], reason: &str) {
    let n = actions.len();
    match &actions[n - 2] {
        ServerAction::ShowMessage { kind, message } => {
            assert_eq!(*kind, MessageType::Error);
            assert_eq!(message, &format!("Vulnera dependency analysis failed: {}", reason));
        }
        other => panic!("unexpected: {:?}", other),
    }
    match &actions[n - 1] {
        ServerAction::LogMessage { kind, message } => {
            assert_eq!(*kind, MessageType::Error);
            assert_eq!(message, &format!("Dependency analysis failed: {}", reason));
        }
        other => panic!("unexpected: {:?}", other),
    }
}

#[test]
fn batch_failure_blast_radius() {
    let mut server = server();
    server.did_open(&uri("file:///w/package.json"), "json", 1, "{}".to_string());
    server.did_open(&uri("file:///other/package.json"), "json", 4, "{}".to_string());
    let actions = server.did_open(&uri("file:///w/Cargo.toml"), "toml", 2, "".to_string());
    let start = server.state.begin_batch("/w", started(&actions)[0].1).expect("a batch");
    // A document of the workspace that was not part of the batch.
    server.state.upsert_document(DocumentSnapshot {
        uri: uri("file:///w/go.mod"),
        text: String::new(),
        version: 9,
        language_id: None,
        file_name: Some("go.mod".to_string()),
        workspace_path: Some("/w/go.mod".to_string()),
        ecosystem: "go".to_string(),
    });
    let actions = server.state.complete_batch(
        start.job,
        Err(ApiError::HttpStatus(500, "down".to_string())),
    );
    let reason = "Unexpected status 500: down";
    let mut failures = published(&actions);
    failures.sort();
    assert_eq!(
        failures,
        vec![
            ("file:///w/Cargo.toml".to_string(), vec![format!("Dependency scan failed: {}", reason)], Some(2)),
            ("file:///w/go.mod".to_string(), vec![format!("Dependency scan failed: {}", reason)], Some(9)),
            ("file:///w/package.json".to_string(), vec![format!("Dependency scan failed: {}", reason)], Some(1)),
        ]
    );
    assert_eq!(actions.len(), 5);
    failure_messages(&actions, reason);
    for action in &actions[..3] {
        match action {
            ServerAction::PublishDiagnostics { diagnostics, .. } => {
                assert_eq!(diagnostics.len(), 1);
                assert_eq!(diagnostics[0].severity, Some(DiagnosticSeverity::Error));
            }
            other => panic!("unexpected: {:?}", other),
        }
    }
    // A failure does not touch the cache.
    assert!(server.state.analysis_for("file:///w/package.json").is_none());
}

#[test]
fn cardinality_mismatch_fails_the_batch() {
    let mut server = server();
    let start = open_and_begin(&mut server, "file:///w/package.json", 1, "{}");
    let answer = response(vec![clean(None, "npm"), clean(None, "npm")], None);
    let actions = server.state.complete_batch(start.job, Ok(answer));
    let reason = "Batch response cardinality mismatch: requested 1, received 2";
    assert_eq!(
        published(&actions),
        vec![("file:///w/package.json".to_string(), vec![format!("Dependency scan failed: {}", reason)], Some(1))]
    );
    failure_messages(&actions, reason);
    assert!(server.state.analysis_for("file:///w/package.json").is_none());
}

#[test]
fn unknown_file_id_fails_the_whole_batch() {
    let mut server = server();
    server.did_open(&uri("file:///w/package.json"), "json", 1, "{}".to_string());
    let actions = server.did_open(&uri("file:///w/Cargo.toml"), "toml", 2, "".to_string());
    let start = server.state.begin_batch("/w", started(&actions)[0].1).expect("a batch");
    let answer = response(
        vec![clean(Some("file:///w/package.json"), "npm"), clean(Some("file:///w/elsewhere"), "npm")],
        None,
    );
    let actions = server.state.complete_batch(start.job, Ok(answer));
    let reason = "Unknown file_id returned by analysis service: file:///w/elsewhere";
    // Nothing is published for the result that stands before the unknown one:
    // each document of the workspace gets the failure and nothing else.
    let mut failures = published(&actions);
    failures.sort();
    assert_eq!(
        failures,
        vec![
            ("file:///w/Cargo.toml".to_string(), vec![format!("Dependency scan failed: {}", reason)], Some(2)),
            ("file:///w/package.json".to_string(), vec![format!("Dependency scan failed: {}", reason)], Some(1)),
        ]
    );
    assert_eq!(actions.len(), 4);
    failure_messages(&actions, reason);
    assert!(server.state.analysis_for("file:///w/package.json").is_none());
    assert!(server.state.analysis_for("file:///w/Cargo.toml").is_none());
}

#[test]
fn failed_dealing_leaves_the_cache_and_publishes_nothing() {
    let mut server = server();
    server.did_open(&uri("file:///w/package.json"), "json", 1, PACKAGE_JSON.to_string());
    let actions = server.did_open(&uri("file:///w/Cargo.toml"), "toml", 2, "".to_string());
    let start = server.state.begin_batch("/w", started(&actions)[0].1).expect("a batch");
    let results = vec![
        lodash_finding(Some("file:///w/package.json")),
        clean(Some("file:///w/elsewhere"), "cargo"),
    ];
    let (dealt, ended) = server.state.run_batch_analysis(&start.job, results);
    assert!(dealt.is_empty());
    assert_eq!(
        ended,
        Err("Unknown file_id returned by analysis service: file:///w/elsewhere".to_string())
    );
    assert!(server.state.analysis_for("file:///w/package.json").is_none());
    // The first unknown id is the one that is named.
    let results = vec![clean(Some("x"), "npm"), clean(Some("y"), "npm")];
    let (dealt, ended) = server.state.run_batch_analysis(&start.job, results);
    assert!(dealt.is_empty());
    assert_eq!(ended, Err("Unknown file_id returned by analysis service: x".to_string()));
    // With every result paired, the same call deals them out.
    let results = vec![
        lodash_finding(Some("file:///w/package.json")),
        clean(Some("file:///w/Cargo.toml"), "cargo"),
    ];
    let (dealt, ended) = server.state.run_batch_analysis(&start.job, results);
    assert_eq!(dealt.len(), 2);
    assert_eq!(ended, Ok(()));
    assert!(server.state.analysis_for("file:///w/package.json").is_some());
}

#[test]
fn superseded_batch_publishes_nothing() {
    let mut server = server();
    let start = open_and_begin(&mut server, "file:///w/package.json", 1, PACKAGE_JSON);
    // An edit arrives while the request is under way.
    let change = ContentChange { range: None, range_length: None, text: "{}".to_string() };
    let actions = server.did_change(&uri("file:///w/package.json"), 2, &[change]);
    assert_eq!(cancelled(&actions), vec![("/w".to_string(), start.job.task)]);
    let answer = response(vec![lodash_finding(Some("file:///w/package.json"))], None);
    assert!(server.state.complete_batch(start.job, Ok(answer)).is_empty());
    assert!(server.state.analysis_for("file:///w/package.json").is_none());
    // The new task still sends.
    let start = server.state.begin_batch("/w", started(&actions)[0].1).expect("a batch");
    assert_eq!(start.job.snapshots[0].text, "{}");
    assert_eq!(start.job.snapshots[0].version, 2);
}

#[test]
fn completed_batch_frees_the_workspace() {
    let mut server = server();
    let start = open_and_begin(&mut server, "file:///w/package.json", 1, "{}");
    let task = start.job.task;
    server.state.complete_batch(start.job, Ok(response(vec![clean(None, "npm")], None)));
    let actions = server.did_save(&uri("file:///w/package.json"), None);
    assert!(cancelled(&actions).is_empty());
    assert_ne!(started(&actions)[0].1, task);
}

#[test]
fn repeated_analysis_gives_the_same_diagnostics() {
    let mut server = server();
    let doc = "file:///w/package.json";
    let mut seen = Vec::new();
    let start = open_and_begin(&mut server, doc, 1, PACKAGE_JSON);
    seen.push(published(&server.state.complete_batch(
        start.job,
        Ok(response(vec![lodash_finding(Some(doc))], None)),
    )));
    for _ in 0..2 {
        let actions = server.did_save(&uri(doc), None);
        let start = server.state.begin_batch("/w", started(&actions)[0].1).expect("a batch");
        seen.push(published(&server.state.complete_batch(
            start.job,
            Ok(response(vec![lodash_finding(Some(doc))], None)),
        )));
    }
    assert_eq!(seen[0], seen[1]);
    assert_eq!(seen[1], seen[2]);
    assert_eq!(seen[0][0].2, Some(1));
}

#[test]
fn code_actions_come_from_the_cached_analysis() {
    let mut server = server();
    let doc = "file:///w/package.json";
    assert!(server.code_action(doc).is_empty());
    let start = open_and_begin(&mut server, doc, 1, PACKAGE_JSON);
    assert!(server.code_action(doc).is_empty());
    server.state.complete_batch(start.job, Ok(response(vec![lodash_finding(Some(doc))], None)));
    let actions = server.code_action(doc);
    assert_eq!(actions.len(), 1);
    assert_eq!(actions[0].title, "npm: lodash [json] -> nearest safe 4.17.21");
    assert_eq!(actions[0].is_preferred, Some(true));
    let edit = actions[0].edit.as_ref().expect("an edit");
    assert_eq!(edit.uri, doc);
    assert_eq!(edit.edits[0].range, Range::new(Position::new(0, 31), Position::new(0, 38)));
    assert_eq!(edit.edits[0].new_text, "4.17.21");
    let attached = actions[0].diagnostics.as_ref().expect("diagnostics");
    assert_eq!(attached.len(), 1);
    assert_eq!(attached[0].message, "Command injection: lodash (4.17.20 GHSA-1) [lang: json]");

    // The range follows the text as it is now, not as it was analysed.
    let change = ContentChange {
        range: Some(Range::new(Position::new(0, 0), Position::new(0, 0))),
        range_length: None,
        text: "\n".to_string(),
    };
    server.did_change(&uri(doc), 2, &[change]);
    let actions = server.code_action(doc);
    let edit = actions[0].edit.as_ref().expect("an edit");
    assert_eq!(edit.edits[0].range, Range::new(Position::new(1, 31), Position::new(1, 38)));
}

#[test]
fn retraction_on_close() {
    let mut server = server();
    let doc = "file:///w/package.json";
    let start = open_and_begin(&mut server, doc, 1, PACKAGE_JSON);
    server.state.complete_batch(start.job, Ok(response(vec![lodash_finding(Some(doc))], None)));
    assert!(!server.code_action(doc).is_empty());
    let actions = server.did_close(doc);
    assert_eq!(published(&actions), vec![(doc.to_string(), vec![], None)]);
    assert_eq!(actions.len(), 1);
    assert!(server.code_action(doc).is_empty());
    assert!(server.state.document_snapshot(doc).is_none());
    assert!(server.state.analysis_for(doc).is_none());
}

#[test]
fn closing_the_last_waiting_document_gives_the_task_up() {
    let mut server = server();
    let first = server.did_open(&uri("file:///w/package.json"), "json", 1, "{}".to_string());
    let second = server.did_open(&uri("file:///w/Cargo.toml"), "toml", 1, "".to_string());
    let task = started(&second)[0].1;
    assert_ne!(task, started(&first)[0].1);
    // One document still waits: the task stays.
    let actions = server.did_close("file:///w/package.json");
    assert!(cancelled(&actions).is_empty());
    let actions = server.did_close("file:///w/Cargo.toml");
    assert_eq!(cancelled(&actions), vec![("/w".to_string(), task)]);
    assert_eq!(published(&actions), vec![("file:///w/Cargo.toml".to_string(), vec![], None)]);
    assert!(server.state.begin_batch("/w", task).is_none());
}

#[test]
fn closing_a_waiting_document_takes_it_off_the_batch() {
    let mut server = server();
    server.did_open(&uri("file:///w/package.json"), "json", 1, "{}".to_string());
    let actions = server.did_open(&uri("file:///w/Cargo.toml"), "toml", 1, "".to_string());
    server.did_close("file:///w/package.json");
    let start = server.state.begin_batch("/w", started(&actions)[0].1).expect("a batch");
    let uris: Vec<_> = start.job.snapshots.iter().map(|s| s.uri.text.as_str()).collect();
    assert_eq!(uris, vec!["file:///w/Cargo.toml"]);
}

#[test]
fn closing_an_unopened_document_only_retracts() {
    let mut server = server();
    let actions = server.did_close("file:///w/package.json");
    assert_eq!(published(&actions), vec![("file:///w/package.json".to_string(), vec![], None)]);
    assert_eq!(actions.len(), 1);
}

#[test]
fn change_that_does_not_apply_falls_back_to_the_last_full_text() {
    let mut server = server();
    let doc = uri("file:///w/package.json");
    server.did_open(&doc, "json", 1, "abc".to_string());
    let changes = vec![
        ContentChange { range: None, range_length: None, text: "full".to_string() },
        ContentChange {
            range: Some(Range::new(Position::new(5, 0), Position::new(5, 1))),
            range_length: None,
            text: "x".to_string(),
        },
    ];
    let actions = server.did_change(&doc, 2, &changes);
    match &actions[0] {
        ServerAction::LogMessage { kind, message } => {
            assert_eq!(*kind, MessageType::Warning);
            assert_eq!(
                message,
                "Failed to apply incremental change for file:///w/package.json: Invalid start position: Position { line: 5, character: 0 }. Falling back to last full text."
            );
        }
        other => panic!("unexpected: {:?}", other),
    }
    assert_eq!(started(&actions).len(), 1);
    let stored = server.state.document_snapshot("file:///w/package.json").expect("stored");
    assert_eq!(stored.text, "full");
    assert_eq!(stored.version, 2);
    assert_eq!(stored.language_id.as_deref(), Some("json"));
}

#[test]
fn change_that_does_not_apply_leaves_the_text_without_a_full_text() {
    let mut server = server();
    let doc = uri("file:///w/package.json");
    server.did_open(&doc, "json", 1, "abc".to_string());
    let changes = vec![
        ContentChange {
            range: Some(Range::new(Position::new(0, 0), Position::new(0, 1))),
            range_length: None,
            text: "X".to_string(),
        },
        ContentChange {
            range: Some(Range::new(Position::new(0, 9), Position::new(0, 9))),
            range_length: None,
            text: "y".to_string(),
        },
    ];
    let actions = server.did_change(&doc, 2, &changes);
    assert!(matches!(&actions[0], ServerAction::LogMessage { kind: MessageType::Warning, .. }));
    let stored = server.state.document_snapshot("file:///w/package.json").expect("stored");
    assert_eq!(stored.text, "abc");
    assert_eq!(stored.version, 2);
}

#[test]
fn change_of_an_unopened_document_starts_from_nothing() {
    let mut server = server();
    let doc = uri("file:///w/package.json");
    let change = ContentChange {
        range: Some(Range::new(Position::new(0, 0), Position::new(0, 0))),
        range_length: None,
        text: "{}".to_string(),
    };
    let actions = server.did_change(&doc, 1, &[change]);
    assert_eq!(started(&actions).len(), 1);
    let stored = server.state.document_snapshot("file:///w/package.json").expect("stored");
    assert_eq!(stored.text, "{}");
    assert_eq!(stored.language_id, None);
    assert_eq!(stored.ecosystem, "npm");
}

#[test]
fn save_with_text_replaces_the_text_and_keeps_the_version() {
    let mut server = server();
    let doc = uri("file:///w/package.json");
    server.did_open(&doc, "json", 11, "old".to_string());
    server.did_save(&doc, Some("new".to_string()));
    let stored = server.state.document_snapshot("file:///w/package.json").expect("stored");
    assert_eq!(stored.text, "new");
    assert_eq!(stored.version, 11);
    // A save of a document that is not open stores it under version 0.
    let other = uri("file:///w/Cargo.toml");
    let actions = server.did_save(&other, Some("[package]".to_string()));
    assert_eq!(started(&actions).len(), 1);
    let stored = server.state.document_snapshot("file:///w/Cargo.toml").expect("stored");
    assert_eq!(stored.version, 0);
    assert_eq!(stored.ecosystem, "cargo");
}

#[test]
fn settings_with_an_address_that_is_no_url_keep_the_client() {
    let mut state = ServerState::new(Config::default());
    let mut next = Config::default();
    next.api_url = "//nowhere".to_string();
    next.debounce_ms = 5;
    state.update_config(next);
    state.upsert_document(DocumentSnapshot {
        uri: uri("file:///w/package.json"),
        text: "{}".to_string(),
        version: 1,
        language_id: None,
        file_name: Some("package.json".to_string()),
        workspace_path: None,
        ecosystem: "npm".to_string(),
    });
    let actions = state.schedule_analysis("file:///w/package.json");
    // The delay follows the new settings, the client stays.
    assert_eq!(started(&actions), vec![("/w".to_string(), 0, 5)]);
    let start = state.begin_batch("/w", 0).expect("a batch");
    let request = start.call.expect("a request");
    assert!(request.url.starts_with("http://localhost:3000/"));
}

#[test]
fn settings_go_into_the_request() {
    let mut config = Config::default();
    config.api_url = "https://svc.example.org".to_string();
    config.api_key = Some("key".to_string());
    config.compact_mode = true;
    config.enable_cache = false;
    config.user_agent = "ua/2".to_string();
    let mut server = VulneraLanguageServer::new(config);
    let start = open_and_begin(&mut server, "file:///w/package.json", 1, "{}");
    let request = start.call.expect("a request");
    assert_eq!(request.url, "https://svc.example.org/api/v1/dependencies/analyze?detail_level=standard");
    assert_eq!(
        request.headers,
        vec![
            ("User-Agent".to_string(), "ua/2".to_string()),
            ("X-API-Key".to_string(), "key".to_string()),
        ]
    );
    assert!(request.body.compact_mode);
    assert!(!request.body.enable_cache);
}

#[test]
fn settings_are_handed_out_as_they_are() {
    let mut server = server();
    assert_eq!(server.state.config().debounce_ms, 500);
    let env = vec![("VULNERA_DEBOUNCE_MS".to_string(), "50".to_string())];
    let options = serde_json::from_str(r#"{"userAgent":"editor/7"}"#).expect("JSON");
    server.initialize(&env, Some(options));
    let config = server.state.config();
    assert_eq!(config.debounce_ms, 50);
    assert_eq!(config.user_agent, "editor/7");
    assert_eq!(config.api_url, "http://localhost:3000");
}
