//! What goes to the analysis service and what comes back.

use crate::config::DetailLevel;
use crate::text::{decimal, decimal_text, result_view};
use crate::uri::{endpoint, endpoint_of, normalize_url, normalized_url};
use serde_json::Value;
use vstd::prelude::*;
use vstd::string::StringExecFns;

verus! {

/// One manifest of a batch.
#[derive(Debug, Clone)]
pub struct DependencyFileRequest {
    pub file_id: Option<String>,
    pub file_content: String,
    pub ecosystem: String,
    pub filename: Option<String>,
    pub workspace_path: Option<String>,
}

/// A `DependencyFileRequest`, as a mathematical value.
pub struct DependencyFileRequestView {
    pub file_id: Option<Seq<char>>,
    pub file_content: Seq<char>,
    pub ecosystem: Seq<char>,
    pub filename: Option<Seq<char>>,
    pub workspace_path: Option<Seq<char>>,
}

impl DeepView for DependencyFileRequest {
    type V = DependencyFileRequestView;

    open spec fn deep_view(&self) -> DependencyFileRequestView {
        DependencyFileRequestView {
            file_id: self.file_id.deep_view(),
            file_content: self.file_content@,
            ecosystem: self.ecosystem@,
            filename: self.filename.deep_view(),
            workspace_path: self.workspace_path.deep_view(),
        }
    }
}

/// The body of one request: the manifests of a workspace and two switches.
#[derive(Debug, Clone)]
pub struct BatchDependencyAnalysisRequest {
    pub files: Vec<DependencyFileRequest>,
    pub enable_cache: bool,
    pub compact_mode: bool,
}

/// A `BatchDependencyAnalysisRequest`, as a mathematical value.
pub struct BatchDependencyAnalysisRequestView {
    pub files: Seq<DependencyFileRequestView>,
    pub enable_cache: bool,
    pub compact_mode: bool,
}

impl DeepView for BatchDependencyAnalysisRequest {
    type V = BatchDependencyAnalysisRequestView;

    open spec fn deep_view(&self) -> BatchDependencyAnalysisRequestView {
        BatchDependencyAnalysisRequestView {
            files: self.files.deep_view(),
            enable_cache: self.enable_cache,
            compact_mode: self.compact_mode,
        }
    }
}

/// The service's answer to a batch.
#[derive(Debug, Clone)]
pub struct BatchDependencyAnalysisResponse {
    pub results: Vec<FileAnalysisResult>,
    pub metadata: BatchAnalysisMetadata,
}

/// The service's figures on a whole batch.
#[derive(Debug, Clone)]
pub struct BatchAnalysisMetadata {
    pub request_id: Option<String>,
    pub total_files: usize,
    pub successful: usize,
    pub failed: usize,
    pub duration_ms: u64,
    pub total_vulnerabilities: usize,
    pub total_packages: usize,
    pub cache_hits: Option<usize>,
    pub critical_count: usize,
    pub high_count: usize,
}

/// What the service found in one manifest.
#[derive(Debug, Clone)]
pub struct FileAnalysisResult {
    pub file_id: Option<String>,
    pub filename: Option<String>,
    pub ecosystem: String,
    pub vulnerabilities: Vec<VulnerabilityDto>,
    pub packages: Option<Vec<PackageDto>>,
    pub dependency_graph: Option<Value>,
    pub version_recommendations: Option<Vec<VersionRecommendationDto>>,
    pub metadata: AnalysisMetadataDto,
    pub error: Option<String>,
    pub cache_hit: Option<bool>,
    pub workspace_path: Option<String>,
}

/// A `FileAnalysisResult`, as a mathematical value.
pub struct FileAnalysisResultView {
    pub file_id: Option<Seq<char>>,
    pub filename: Option<Seq<char>>,
    pub ecosystem: Seq<char>,
    pub vulnerabilities: Seq<VulnerabilityView>,
    pub packages: Option<Seq<PackageView>>,
    pub dependency_graph: Option<Value>,
    pub version_recommendations: Option<Seq<VersionRecommendationView>>,
    pub metadata: AnalysisMetadataView,
    pub error: Option<Seq<char>>,
    pub cache_hit: Option<bool>,
    pub workspace_path: Option<Seq<char>>,
}

impl DeepView for FileAnalysisResult {
    type V = FileAnalysisResultView;

    open spec fn deep_view(&self) -> FileAnalysisResultView {
        FileAnalysisResultView {
            file_id: self.file_id.deep_view(),
            filename: self.filename.deep_view(),
            ecosystem: self.ecosystem@,
            vulnerabilities: self.vulnerabilities.deep_view(),
            packages: self.packages.deep_view(),
            dependency_graph: self.dependency_graph,
            version_recommendations: self.version_recommendations.deep_view(),
            metadata: self.metadata.deep_view(),
            error: self.error.deep_view(),
            cache_hit: self.cache_hit,
            workspace_path: self.workspace_path.deep_view(),
        }
    }
}

/// The service's figures on one manifest.
#[derive(Debug, Clone)]
pub struct AnalysisMetadataDto {
    pub total_packages: usize,
    pub vulnerable_packages: usize,
    pub total_vulnerabilities: usize,
    pub severity_breakdown: SeverityBreakdownDto,
    pub analysis_duration_ms: u64,
    pub sources_queried: Vec<String>,
}

/// A `AnalysisMetadata`, as a mathematical value.
pub struct AnalysisMetadataView {
    pub total_packages: usize,
    pub vulnerable_packages: usize,
    pub total_vulnerabilities: usize,
    pub severity_breakdown: SeverityBreakdownDto,
    pub analysis_duration_ms: u64,
    pub sources_queried: Seq<Seq<char>>,
}

impl DeepView for AnalysisMetadataDto {
    type V = AnalysisMetadataView;

    open spec fn deep_view(&self) -> AnalysisMetadataView {
        AnalysisMetadataView {
            total_packages: self.total_packages,
            vulnerable_packages: self.vulnerable_packages,
            total_vulnerabilities: self.total_vulnerabilities,
            severity_breakdown: self.severity_breakdown,
            analysis_duration_ms: self.analysis_duration_ms,
            sources_queried: self.sources_queried.deep_view(),
        }
    }
}

/// How many vulnerabilities of each severity a manifest has.
#[derive(Debug, Clone, Copy)]
pub struct SeverityBreakdownDto {
    pub critical: usize,
    pub high: usize,
    pub medium: usize,
    pub low: usize,
}

/// A package that a manifest depends on.
#[derive(Debug, Clone)]
pub struct PackageDto {
    pub name: String,
    pub version: String,
    pub ecosystem: String,
}

/// A `Package`, as a mathematical value.
pub struct PackageView {
    pub name: Seq<char>,
    pub version: Seq<char>,
    pub ecosystem: Seq<char>,
}

impl DeepView for PackageDto {
    type V = PackageView;

    open spec fn deep_view(&self) -> PackageView {
        PackageView { name: self.name@, version: self.version@, ecosystem: self.ecosystem@ }
    }
}

/// One vulnerability, with the packages of the manifest that it affects.
#[derive(Debug, Clone)]
pub struct VulnerabilityDto {
    pub id: String,
    pub summary: String,
    pub description: String,
    pub severity: String,
    pub affected_packages: Vec<AffectedPackageDto>,
    pub references: Vec<String>,
    pub sources: Vec<String>,
}

/// A `Vulnerability`, as a mathematical value.
pub struct VulnerabilityView {
    pub id: Seq<char>,
    pub summary: Seq<char>,
    pub description: Seq<char>,
    pub severity: Seq<char>,
    pub affected_packages: Seq<AffectedPackageView>,
    pub references: Seq<Seq<char>>,
    pub sources: Seq<Seq<char>>,
}

impl DeepView for VulnerabilityDto {
    type V = VulnerabilityView;

    open spec fn deep_view(&self) -> VulnerabilityView {
        VulnerabilityView {
            id: self.id@,
            summary: self.summary@,
            description: self.description@,
            severity: self.severity@,
            affected_packages: self.affected_packages.deep_view(),
            references: self.references.deep_view(),
            sources: self.sources.deep_view(),
        }
    }
}

/// A package of the manifest that a vulnerability affects.
#[derive(Debug, Clone)]
pub struct AffectedPackageDto {
    pub name: String,
    pub version: String,
    pub ecosystem: String,
    pub vulnerable_ranges: Vec<String>,
    pub fixed_versions: Vec<String>,
}

/// A `AffectedPackage`, as a mathematical value.
pub struct AffectedPackageView {
    pub name: Seq<char>,
    pub version: Seq<char>,
    pub ecosystem: Seq<char>,
    pub vulnerable_ranges: Seq<Seq<char>>,
    pub fixed_versions: Seq<Seq<char>>,
}

impl DeepView for AffectedPackageDto {
    type V = AffectedPackageView;

    open spec fn deep_view(&self) -> AffectedPackageView {
        AffectedPackageView {
            name: self.name@,
            version: self.version@,
            ecosystem: self.ecosystem@,
            vulnerable_ranges: self.vulnerable_ranges.deep_view(),
            fixed_versions: self.fixed_versions.deep_view(),
        }
    }
}

/// The safe versions that the service proposes for one package, one for each
/// strategy that found any.
#[derive(Debug, Clone)]
pub struct VersionRecommendationDto {
    pub package: String,
    pub ecosystem: String,
    pub current_version: Option<String>,
    pub nearest_safe_above_current: Option<String>,
    pub most_up_to_date_safe: Option<String>,
    pub next_safe_minor_within_current_major: Option<String>,
    pub nearest_impact: Option<String>,
    pub most_up_to_date_impact: Option<String>,
    pub prerelease_exclusion_applied: Option<bool>,
    pub notes: Option<Vec<String>>,
}

/// A `VersionRecommendation`, as a mathematical value.
pub struct VersionRecommendationView {
    pub package: Seq<char>,
    pub ecosystem: Seq<char>,
    pub current_version: Option<Seq<char>>,
    pub nearest_safe_above_current: Option<Seq<char>>,
    pub most_up_to_date_safe: Option<Seq<char>>,
    pub next_safe_minor_within_current_major: Option<Seq<char>>,
    pub nearest_impact: Option<Seq<char>>,
    pub most_up_to_date_impact: Option<Seq<char>>,
    pub prerelease_exclusion_applied: Option<bool>,
    pub notes: Option<Seq<Seq<char>>>,
}

impl DeepView for VersionRecommendationDto {
    type V = VersionRecommendationView;

    open spec fn deep_view(&self) -> VersionRecommendationView {
        VersionRecommendationView {
            package: self.package@,
            ecosystem: self.ecosystem@,
            current_version: self.current_version.deep_view(),
            nearest_safe_above_current: self.nearest_safe_above_current.deep_view(),
            most_up_to_date_safe: self.most_up_to_date_safe.deep_view(),
            next_safe_minor_within_current_major: self
                .next_safe_minor_within_current_major.deep_view(),
            nearest_impact: self.nearest_impact.deep_view(),
            most_up_to_date_impact: self.most_up_to_date_impact.deep_view(),
            prerelease_exclusion_applied: self.prerelease_exclusion_applied,
            notes: self.notes.deep_view(),
        }
    }
}

impl DetailLevel {
    /// The word for this level in the request's query.
    pub fn as_str(&self) -> (word: &'static str)
        ensures
            word@ == match *self {
                DetailLevel::Minimal => "minimal"@,
                DetailLevel::Standard => "standard"@,
                DetailLevel::Full => "full"@,
            },
    {
        match self {
            DetailLevel::Minimal => "minimal",
            DetailLevel::Standard => "standard",
            DetailLevel::Full => "full",
        }
    }
}

/// What can go wrong between the adapter and the service.
#[derive(Debug)]
pub enum ApiError {
    /// The service's address is no URL; with the address.
    InvalidUrl(String),
    /// No HTTP client could be built; with the reason.
    HttpClient(String),
    /// The request did not get through; with the reason.
    HttpRequest(String),
    /// The service answered with a status that is no success; with the status
    /// and the body of the answer.
    HttpStatus(u16, String),
    /// The answer is not the JSON that was expected; with the reason.
    Deserialize(String),
}

/// A `ApiError`, as a mathematical value.
pub enum ApiErrorView {
    InvalidUrl(Seq<char>),
    HttpClient(Seq<char>),
    HttpRequest(Seq<char>),
    HttpStatus(u16, Seq<char>),
    Deserialize(Seq<char>),
}

impl DeepView for ApiError {
    type V = ApiErrorView;

    open spec fn deep_view(&self) -> ApiErrorView {
        match self {
            ApiError::InvalidUrl(url) => ApiErrorView::InvalidUrl(url@),
            ApiError::HttpClient(reason) => ApiErrorView::HttpClient(reason@),
            ApiError::HttpRequest(reason) => ApiErrorView::HttpRequest(reason@),
            ApiError::HttpStatus(status, body) => ApiErrorView::HttpStatus(*status, body@),
            ApiError::Deserialize(reason) => ApiErrorView::Deserialize(reason@),
        }
    }
}

/// What an error reads as.
pub open spec fn error_text(error: ApiErrorView) -> Seq<char> {
    match error {
        ApiErrorView::InvalidUrl(url) => "Invalid API URL: "@ + url,
        ApiErrorView::HttpClient(reason) => "Failed to build HTTP client: "@ + reason,
        ApiErrorView::HttpRequest(reason) => "HTTP request failed: "@ + reason,
        ApiErrorView::HttpStatus(status, body) => "Unexpected status "@ + decimal_text(
            status as nat,
        ) + ": "@ + body,
        ApiErrorView::Deserialize(reason) => "Failed to parse response: "@ + reason,
    }
}

impl ApiError {
    /// The error in words.
    pub fn message(&self) -> (text: String)
        ensures
            text@ == error_text(self.deep_view()),
    {
        match self {
            ApiError::InvalidUrl(url) => {
                let mut text = String::from_str("Invalid API URL: ");
                text.append(url.as_str());
                text
            },
            ApiError::HttpClient(reason) => {
                let mut text = String::from_str("Failed to build HTTP client: ");
                text.append(reason.as_str());
                text
            },
            ApiError::HttpRequest(reason) => {
                let mut text = String::from_str("HTTP request failed: ");
                text.append(reason.as_str());
                text
            },
            ApiError::HttpStatus(status, body) => {
                let mut text = String::from_str("Unexpected status ");
                let code = decimal(*status as u64);
                text.append(code.as_str());
                text.append(": ");
                text.append(body.as_str());
                text
            },
            ApiError::Deserialize(reason) => {
                let mut text = String::from_str("Failed to parse response: ");
                text.append(reason.as_str());
                text
            },
        }
    }
}

/// What it takes to call the service: where it is, and what to send along.
#[derive(Debug)]
pub struct VulneraApiClient {
    base_url: String,
    api_key: Option<String>,
    user_agent: String,
}

/// A `VulneraApiClient`, as a mathematical value.
pub struct VulneraApiClientView {
    pub base_url: Seq<char>,
    pub api_key: Option<Seq<char>>,
    pub user_agent: Seq<char>,
}

impl DeepView for VulneraApiClient {
    type V = VulneraApiClientView;

    closed spec fn deep_view(&self) -> VulneraApiClientView {
        VulneraApiClientView {
            base_url: self.base_url@,
            api_key: self.api_key.deep_view(),
            user_agent: self.user_agent@,
        }
    }
}

/// One HTTP request, ready to be sent as a POST with a JSON body.
#[derive(Debug)]
pub struct PreparedRequest {
    pub url: String,
    /// The headers, as names and values.
    pub headers: Vec<(String, String)>,
    pub body: BatchDependencyAnalysisRequest,
}

/// A `PreparedRequest`, as a mathematical value.
pub struct PreparedRequestView {
    pub url: Seq<char>,
    pub headers: Seq<(Seq<char>, Seq<char>)>,
    pub body: BatchDependencyAnalysisRequestView,
}

impl DeepView for PreparedRequest {
    type V = PreparedRequestView;

    open spec fn deep_view(&self) -> PreparedRequestView {
        PreparedRequestView {
            url: self.url@,
            headers: self.headers.deep_view(),
            body: self.body.deep_view(),
        }
    }
}

/// The word for a level in the request's query.
pub open spec fn detail_word(level: DetailLevel) -> Seq<char> {
    match level {
        DetailLevel::Minimal => "minimal"@,
        DetailLevel::Standard => "standard"@,
        DetailLevel::Full => "full"@,
    }
}

/// The headers of a request: the user agent and, where there is a key, the key.
pub open spec fn headers_of(client: VulneraApiClientView) -> Seq<(Seq<char>, Seq<char>)> {
    match client.api_key {
        Some(key) => seq![("User-Agent"@, client.user_agent), ("X-API-Key"@, key)],
        None => seq![("User-Agent"@, client.user_agent)],
    }
}

/// The client for a service at `base_url`, or the error where that is no URL.
pub open spec fn client_for(
    base_url: Seq<char>,
    api_key: Option<Seq<char>>,
    user_agent: Seq<char>,
) -> Result<VulneraApiClientView, ApiErrorView> {
    match normalized_url(base_url) {
        Some(url) => Ok(VulneraApiClientView { base_url: url, api_key, user_agent }),
        None => Err(ApiErrorView::InvalidUrl(base_url)),
    }
}

/// Where the analysis lies below the service's address: at
/// `api/v1/dependencies/analyze`.
pub open spec fn analysis_path() -> Seq<Seq<char>> {
    seq!["api"@, "v1"@, "dependencies"@, "analyze"@]
}

/// The request that asks the service to analyse `body`: to the service's
/// address with the analysis path appended and the detail level in the query.
pub open spec fn request_for(
    client: VulneraApiClientView,
    level: DetailLevel,
    body: BatchDependencyAnalysisRequestView,
) -> Result<PreparedRequestView, ApiErrorView> {
    match endpoint_of(client.base_url, analysis_path(), "detail_level"@, detail_word(level)) {
        Some(url) => Ok(PreparedRequestView { url, headers: headers_of(client), body }),
        None => Err(ApiErrorView::InvalidUrl(client.base_url)),
    }
}

/// What an answer with `status` and the body `payload` means: the payload
/// where the status is a success, from 200 to 299, and an error otherwise.
pub open spec fn answer_of(status: u16, payload: Seq<char>) -> Result<Seq<char>, ApiErrorView> {
    if 200 <= status <= 299 {
        Ok(payload)
    } else {
        Err(ApiErrorView::HttpStatus(status, payload))
    }
}

/// The client that a server falls back to: for a service on this machine,
/// without a key.
pub open spec fn local_client() -> VulneraApiClientView {
    VulneraApiClientView {
        base_url: "http://localhost:3000"@,
        api_key: None,
        user_agent: "vulnera-adapter-lsp/0.1.0"@,
    }
}

impl VulneraApiClient {
    /// The client for a service on this machine, without a key.
    pub fn local() -> (client: VulneraApiClient)
        ensures
            client.deep_view() == local_client(),
    {
        VulneraApiClient {
            base_url: String::from_str("http://localhost:3000"),
            api_key: None,
            user_agent: String::from_str("vulnera-adapter-lsp/0.1.0"),
        }
    }

    /// A client for the service at `base_url`. An address that is no URL is
    /// refused.
    pub fn new(base_url: &str, api_key: Option<String>, user_agent: &str) -> (client: Result<
        VulneraApiClient,
        ApiError,
    >)
        ensures
            result_view(client) == client_for(base_url@, api_key.deep_view(), user_agent@),
    {
        match normalize_url(base_url) {
            Some(url) => Ok(
                VulneraApiClient {
                    base_url: url,
                    api_key,
                    user_agent: String::from_str(user_agent),
                },
            ),
            None => Err(ApiError::InvalidUrl(String::from_str(base_url))),
        }
    }

    /// The request that asks for the analysis of `request`: a POST to
    /// `api/v1/dependencies/analyze` below the service's address, whatever
    /// path that has, with the detail level in the query.
    pub fn analyze_dependencies(
        &self,
        detail_level: DetailLevel,
        request: BatchDependencyAnalysisRequest,
    ) -> (prepared: Result<PreparedRequest, ApiError>)
        ensures
            result_view(prepared) == request_for(
                self.deep_view(),
                detail_level,
                request.deep_view(),
            ),
    {
        let mut path: Vec<String> = Vec::new();
        path.push(String::from_str("api"));
        path.push(String::from_str("v1"));
        path.push(String::from_str("dependencies"));
        path.push(String::from_str("analyze"));
        assert(path.deep_view() =~= analysis_path());
        match endpoint(self.base_url.as_str(), &path, "detail_level", detail_level.as_str()) {
            Some(url) => Ok(PreparedRequest { url, headers: self.headers(), body: request }),
            None => Err(ApiError::InvalidUrl(self.base_url.clone())),
        }
    }

    /// The headers that go with each request: the user agent and, where the
    /// client has a key, the key.
    pub fn headers(&self) -> (headers: Vec<(String, String)>)
        ensures
            headers.deep_view() == headers_of(self.deep_view()),
    {
        let mut headers: Vec<(String, String)> = Vec::new();
        headers.push((String::from_str("User-Agent"), self.user_agent.clone()));
        match &self.api_key {
            Some(key) => {
                headers.push((String::from_str("X-API-Key"), key.clone()));
            },
            None => {},
        }
        assert(headers.deep_view() =~= headers_of(self.deep_view()));
        headers
    }

    /// Reads the service's answer: its body, or the error that its status
    /// stands for.
    pub fn read_answer(status: u16, payload: String) -> (answer: Result<String, ApiError>)
        ensures
            result_view(answer) == answer_of(status, payload@),
    {
        if 200 <= status && status <= 299 {
            Ok(payload)
        } else {
            Err(ApiError::HttpStatus(status, payload))
        }
    }
}

} // verus!
