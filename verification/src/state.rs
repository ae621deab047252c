//! The server's state: the open documents, the analyses that were last
//! published, and the schedule of the analyses to come.
//!
//! The state is a value that one caller at a time changes. Each change says
//! what the caller has to do next, as a list of actions: this module decides,
//! and whoever holds the state sleeps, sends and publishes.

use crate::api::{
    client_for, error_text, local_client, request_for, ApiError, ApiErrorView,
    BatchDependencyAnalysisRequest, BatchDependencyAnalysisRequestView,
    BatchDependencyAnalysisResponse, DependencyFileRequest, DependencyFileRequestView,
    FileAnalysisResult, FileAnalysisResultView, PreparedRequest, PreparedRequestView,
    VulneraApiClient, VulneraApiClientView,
};
use crate::config::{Config, ConfigView};
use crate::diagnostics::{
    build_analysis_failure_diagnostic, build_diagnostics, clone_diagnostics, diagnostics_of,
    failure_of, Diagnostic, DiagnosticView,
};
use crate::store::{
    analyses_held, analysis, document, document_uris, documents_held, drop_analysis,
    drop_document, lists_held, new_analyses, new_documents, new_lists, new_tasks, put_analysis,
    put_document, put_list, put_task, take_list, take_task, tasks_held,
};
use crate::text::{
    clone_optional, concat, decimal, decimal_text, find_last, last_index_of,
    lemma_last_index_bounds, result_view, str_eq, to_chars,
};
use crate::uri::{DocumentUri, DocumentUriView};
use dashmap::DashMap;
use vstd::prelude::*;
use vstd::string::{StrSliceExecFns, StringExecFns};

verus! {

/// An open document as the server last saw it.
#[derive(Debug)]
pub struct DocumentSnapshot {
    pub uri: DocumentUri,
    pub text: String,
    pub version: i32,
    pub language_id: Option<String>,
    pub file_name: Option<String>,
    pub workspace_path: Option<String>,
    pub ecosystem: String,
}

/// A `DocumentSnapshot`, as a mathematical value.
pub struct DocumentSnapshotView {
    pub uri: DocumentUriView,
    pub text: Seq<char>,
    pub version: i32,
    pub language_id: Option<Seq<char>>,
    pub file_name: Option<Seq<char>>,
    pub workspace_path: Option<Seq<char>>,
    pub ecosystem: Seq<char>,
}

impl DeepView for DocumentSnapshot {
    type V = DocumentSnapshotView;

    open spec fn deep_view(&self) -> DocumentSnapshotView {
        DocumentSnapshotView {
            uri: self.uri.deep_view(),
            text: self.text@,
            version: self.version,
            language_id: self.language_id.deep_view(),
            file_name: self.file_name.deep_view(),
            workspace_path: self.workspace_path.deep_view(),
            ecosystem: self.ecosystem@,
        }
    }
}

impl Clone for DocumentSnapshot {
    fn clone(&self) -> (copy: DocumentSnapshot)
        ensures
            copy.deep_view() == self.deep_view(),
    {
        DocumentSnapshot {
            uri: self.uri.clone(),
            text: self.text.clone(),
            version: self.version,
            language_id: clone_optional(&self.language_id),
            file_name: clone_optional(&self.file_name),
            workspace_path: clone_optional(&self.workspace_path),
            ecosystem: self.ecosystem.clone(),
        }
    }
}

/// What the last successful analysis of a document found, and the diagnostics
/// that were published for it.
#[derive(Debug, Clone)]
pub struct AnalysisCache {
    pub result: FileAnalysisResult,
    pub diagnostics: Vec<Diagnostic>,
}

/// A `AnalysisCache`, as a mathematical value.
pub struct AnalysisCacheView {
    pub result: FileAnalysisResultView,
    pub diagnostics: Seq<DiagnosticView>,
}

impl DeepView for AnalysisCache {
    type V = AnalysisCacheView;

    open spec fn deep_view(&self) -> AnalysisCacheView {
        AnalysisCacheView {
            result: self.result.deep_view(),
            diagnostics: self.diagnostics.deep_view(),
        }
    }
}

/// The path that a document's workspace key is taken from: its workspace path
/// where that is known and not empty, and else the path of its URI.
pub open spec fn key_candidate(workspace_path: Option<Seq<char>>, uri_path: Seq<char>) -> Seq<
    char,
> {
    match workspace_path {
        Some(path) => if path.len() == 0 {
            uri_path
        } else {
            path
        },
        None => uri_path,
    }
}

/// The directory of a path: what stands before its last slash, or the path
/// itself where that is nothing.
pub open spec fn directory_of(path: Seq<char>) -> Seq<char> {
    let slash = last_index_of(path, '/', path.len() as int);
    if slash > 0 {
        path.subrange(0, slash)
    } else {
        path
    }
}

/// The key of the workspace that a document belongs to. Manifests that lie in
/// one directory share a key, and so a batch.
pub open spec fn workspace_key_of(workspace_path: Option<Seq<char>>, uri_path: Seq<char>) -> Seq<
    char,
> {
    directory_of(key_candidate(workspace_path, uri_path))
}

/// The key of the workspace of the document with the path `workspace_path`,
/// or, where that is unknown or empty, with the URI path `uri_path`.
pub fn workspace_key_for_path(workspace_path: Option<&str>, uri_path: &str) -> (key: String)
    ensures
        key@ == workspace_key_of(workspace_path.deep_view(), uri_path@),
{
    let candidate: &str = match workspace_path {
        Some(path) => if path.is_empty() {
            uri_path
        } else {
            path
        },
        None => uri_path,
    };
    let chars = to_chars(candidate);
    proof {
        lemma_last_index_bounds(chars@, '/', chars@.len() as int);
    }
    match find_last(&chars, '/') {
        Some(slash) => if slash > 0 {
            String::from_str(candidate.substring_char(0, slash))
        } else {
            String::from_str(candidate)
        },
        None => String::from_str(candidate),
    }
}

/// How a message to the user is meant.
#[derive(Clone, Copy, Debug, PartialEq, Eq, Structural)]
pub enum MessageType {
    Error,
    Warning,
    Info,
    Log,
}

/// What the holder of the state is asked to do.
#[derive(Debug)]
pub enum ServerAction {
    /// Publish these diagnostics for the document, as of this version.
    PublishDiagnostics { uri: String, diagnostics: Vec<Diagnostic>, version: Option<i32> },
    /// Wait for the delay, then begin the batch of the workspace under the
    /// number `task`.
    StartDebounce { workspace_key: String, task: u64, debounce_ms: u64 },
    /// Give the numbered task up: whatever it is doing, its outcome is not
    /// wanted.
    CancelTask { workspace_key: String, task: u64 },
    /// Show the message to the user.
    ShowMessage { kind: MessageType, message: String },
    /// Write the message to the client's log.
    LogMessage { kind: MessageType, message: String },
}

/// A `ServerAction`, as a mathematical value.
pub enum ServerActionView {
    PublishDiagnostics { uri: Seq<char>, diagnostics: Seq<DiagnosticView>, version: Option<i32> },
    StartDebounce { workspace_key: Seq<char>, task: u64, debounce_ms: u64 },
    CancelTask { workspace_key: Seq<char>, task: u64 },
    ShowMessage { kind: MessageType, message: Seq<char> },
    LogMessage { kind: MessageType, message: Seq<char> },
}

impl DeepView for ServerAction {
    type V = ServerActionView;

    open spec fn deep_view(&self) -> ServerActionView {
        match self {
            ServerAction::PublishDiagnostics { uri, diagnostics, version } => {
                ServerActionView::PublishDiagnostics {
                    uri: uri@,
                    diagnostics: diagnostics.deep_view(),
                    version: *version,
                }
            },
            ServerAction::StartDebounce { workspace_key, task, debounce_ms } => {
                ServerActionView::StartDebounce {
                    workspace_key: workspace_key@,
                    task: *task,
                    debounce_ms: *debounce_ms,
                }
            },
            ServerAction::CancelTask { workspace_key, task } => {
                ServerActionView::CancelTask { workspace_key: workspace_key@, task: *task }
            },
            ServerAction::ShowMessage { kind, message } => {
                ServerActionView::ShowMessage { kind: *kind, message: message@ }
            },
            ServerAction::LogMessage { kind, message } => {
                ServerActionView::LogMessage { kind: *kind, message: message@ }
            },
        }
    }
}

/// The state as a mathematical value.
pub struct ServerModel {
    pub config: ConfigView,
    pub client: VulneraApiClientView,
    /// The open documents, by URI.
    pub documents: Map<Seq<char>, DocumentSnapshotView>,
    /// The last successful analysis of each document, by URI.
    pub analysis: Map<Seq<char>, AnalysisCacheView>,
    /// The task that is to analyse each workspace next, by workspace key.
    pub pending: Map<Seq<char>, u64>,
    /// The documents of each workspace that wait for analysis, by workspace
    /// key, without repetition.
    pub dirty: Map<Seq<char>, Seq<Seq<char>>>,
    /// The number that the next task gets.
    pub next_task: u64,
}

/// The client for the settings `config`; `previous` where the settings hold
/// no URL.
pub open spec fn client_of(
    config: ConfigView,
    previous: VulneraApiClientView,
) -> VulneraApiClientView {
    match client_for(config.api_url, config.api_key, config.user_agent) {
        Ok(client) => client,
        Err(_) => previous,
    }
}

/// The state of a server that has just started with `config`.
pub open spec fn initial_model(config: ConfigView) -> ServerModel {
    ServerModel {
        config,
        client: client_of(config, local_client()),
        documents: Map::empty(),
        analysis: Map::empty(),
        pending: Map::empty(),
        dirty: Map::empty(),
        next_task: 0,
    }
}

/// The workspace key of a document.
pub open spec fn key_of(document: DocumentSnapshotView) -> Seq<char> {
    workspace_key_of(document.workspace_path, document.uri.path)
}

/// Whether a document is of no ecosystem that the service knows.
pub open spec fn is_unknown(document: DocumentSnapshotView) -> bool {
    document.ecosystem == "unknown"@
}

/// `uris` with `uri` among them: added at the end, unless it is there.
pub open spec fn with_uri(uris: Seq<Seq<char>>, uri: Seq<char>) -> Seq<Seq<char>> {
    if uris.contains(uri) {
        uris
    } else {
        uris.push(uri)
    }
}

/// The first `n` of `uris`, without `uri`.
pub open spec fn without_uri(uris: Seq<Seq<char>>, uri: Seq<char>, n: int) -> Seq<Seq<char>>
    decreases n,
{
    if n <= 0 {
        Seq::empty()
    } else if uris[n - 1] == uri {
        without_uri(uris, uri, n - 1)
    } else {
        without_uri(uris, uri, n - 1).push(uris[n - 1])
    }
}

/// What `map` holds under `key`, or nothing.
pub open spec fn held<V>(map: Map<Seq<char>, V>, key: Seq<char>) -> Option<V> {
    if map.contains_key(key) {
        Some(map[key])
    } else {
        None
    }
}

/// The number after `task`, starting over after the last.
pub open spec fn task_after(task: u64) -> u64 {
    if task == u64::MAX {
        0
    } else {
        (task + 1) as u64
    }
}

/// The number for a new task that takes the place of `superseded`: the next
/// number, or the one after it where that is the very number that is being
/// replaced.
pub open spec fn fresh_task(next: u64, superseded: Option<u64>) -> u64 {
    if superseded == Some(next) {
        task_after(next)
    } else {
        next
    }
}

/// The action that gives up the task of a workspace, where it has one.
pub open spec fn cancellation(key: Seq<char>, superseded: Option<u64>) -> Seq<ServerActionView> {
    match superseded {
        Some(task) => seq![ServerActionView::CancelTask { workspace_key: key, task }],
        None => Seq::empty(),
    }
}

/// The state after the analysis of `uri` was asked for, and what is to do.
///
/// Nothing happens for a document that is not open. A document of an unknown
/// ecosystem loses its cached analysis and has its diagnostics retracted; it
/// is not enqueued. Any other document joins the waiting documents of its
/// workspace; the workspace's task, where it has one, is given up, and a new
/// one starts its wait.
pub open spec fn after_schedule(s: ServerModel, uri: Seq<char>) -> (
    ServerModel,
    Seq<ServerActionView>,
) {
    if !s.documents.contains_key(uri) {
        (s, Seq::empty())
    } else if is_unknown(s.documents[uri]) {
        (
            ServerModel { analysis: s.analysis.remove(uri), ..s },
            seq![
                ServerActionView::PublishDiagnostics {
                    uri,
                    diagnostics: Seq::empty(),
                    version: Some(s.documents[uri].version),
                },
            ],
        )
    } else {
        let key = key_of(s.documents[uri]);
        let waiting = match held(s.dirty, key) {
            Some(uris) => uris,
            None => Seq::empty(),
        };
        let superseded = held(s.pending, key);
        let task = fresh_task(s.next_task, superseded);
        (
            ServerModel {
                dirty: s.dirty.insert(key, with_uri(waiting, uri)),
                pending: s.pending.insert(key, task),
                next_task: task_after(task),
                ..s
            },
            cancellation(key, superseded) + seq![
                ServerActionView::StartDebounce {
                    workspace_key: key,
                    task,
                    debounce_ms: s.config.debounce_ms,
                },
            ],
        )
    }
}

/// The state after the document `uri` was closed, and what is to do.
///
/// The document and its cached analysis go. Where the document waited for
/// analysis it is taken off its workspace's list; where it was the last one
/// there, the list goes too, and the workspace's task is given up.
pub open spec fn after_remove(s: ServerModel, uri: Seq<char>) -> (
    ServerModel,
    Seq<ServerActionView>,
) {
    let closed = ServerModel {
        documents: s.documents.remove(uri),
        analysis: s.analysis.remove(uri),
        ..s
    };
    if !s.documents.contains_key(uri) {
        (closed, Seq::empty())
    } else {
        let key = key_of(s.documents[uri]);
        if !s.dirty.contains_key(key) {
            (closed, Seq::empty())
        } else {
            let rest = without_uri(s.dirty[key], uri, s.dirty[key].len() as int);
            if rest.len() > 0 {
                (ServerModel { dirty: s.dirty.insert(key, rest), ..closed }, Seq::empty())
            } else {
                (
                    ServerModel {
                        dirty: s.dirty.remove(key),
                        pending: s.pending.remove(key),
                        ..closed
                    },
                    cancellation(key, held(s.pending, key)),
                )
            }
        }
    }
}

/// No document waits twice: the list of each workspace holds no URI more than
/// once.
pub open spec fn waits_once(s: ServerModel) -> bool {
    forall|key: Seq<char>| #[trigger] s.dirty.contains_key(key) ==> s.dirty[key].no_duplicates()
}

/// Taking a URI off a list without repetition leaves one without repetition,
/// of URIs that were on the list.
pub proof fn lemma_without_uri(uris: Seq<Seq<char>>, uri: Seq<char>, n: int)
    requires
        0 <= n <= uris.len(),
        uris.no_duplicates(),
    ensures
        without_uri(uris, uri, n).no_duplicates(),
        forall|i: int|
            0 <= i < without_uri(uris, uri, n).len() ==> exists|j: int|
                0 <= j < n && uris[j] == #[trigger] without_uri(uris, uri, n)[i],
    decreases n,
{
    if n > 0 {
        lemma_without_uri(uris, uri, n - 1);
        let rest = without_uri(uris, uri, n - 1);
        if uris[n - 1] != uri {
            let all = rest.push(uris[n - 1]);
            assert forall|i: int, j: int|
                0 <= i < all.len() && 0 <= j < all.len() && i != j implies all[i] != all[j] by {
                if i < rest.len() && j == rest.len() {
                    let k = choose|k: int| 0 <= k < n - 1 && uris[k] == rest[i];
                    assert(uris[k] != uris[n - 1]);
                } else if j < rest.len() && i == rest.len() {
                    let k = choose|k: int| 0 <= k < n - 1 && uris[k] == rest[j];
                    assert(uris[k] != uris[n - 1]);
                }
            }
            assert forall|i: int| 0 <= i < all.len() implies exists|j: int|
                0 <= j < n && uris[j] == #[trigger] all[i] by {
                if i < rest.len() {
                    let k = choose|k: int| 0 <= k < n - 1 && uris[k] == rest[i];
                    assert(uris[k] == all[i]);
                } else {
                    assert(uris[n - 1] == all[i]);
                }
            }
        }
    }
}

/// Each document is stored under its own URI.
pub open spec fn keyed_by_uri(s: ServerModel) -> bool {
    forall|uri: Seq<char>| #[trigger]
        s.documents.contains_key(uri) ==> s.documents[uri].uri.text == uri
}

/// `s` with a document stored under its URI.
pub open spec fn with_document(s: ServerModel, document: DocumentSnapshotView) -> ServerModel {
    ServerModel { documents: s.documents.insert(document.uri.text, document), ..s }
}

/// What holds of every state that a server gets into: no document waits
/// twice, and each document is stored under its own URI.
pub open spec fn well_formed(s: ServerModel) -> bool {
    waits_once(s) && keyed_by_uri(s)
}

/// The state of a language server. The state that `new` gives is well formed,
/// and every method keeps a well-formed state so.
pub struct ServerState {
    config: Config,
    http: VulneraApiClient,
    documents: DashMap<String, DocumentSnapshot>,
    analysis: DashMap<String, AnalysisCache>,
    pending: DashMap<String, u64>,
    dirty_by_workspace: DashMap<String, Vec<String>>,
    next_task: u64,
}

fn add_uri(uris: &mut Vec<String>, uri: &str)
    ensures
        final(uris).deep_view() == with_uri(old(uris).deep_view(), uri@),
{
    let ghost before = uris.deep_view();
    let mut i: usize = 0;
    while i < uris.len()
        invariant
            i <= uris.len(),
            before == uris.deep_view(),
            forall|j: int| 0 <= j < i ==> before[j] != uri@,
        decreases uris.len() - i,
    {
        assert(before[i as int] == uris@[i as int]@);
        if str_eq(uris[i].as_str(), uri) {
            assert(before.contains(uri@));
            return ;
        }
        i = i + 1;
    }
    assert(!before.contains(uri@));
    uris.push(String::from_str(uri));
    assert(uris.deep_view() =~= before.push(uri@));
}

fn remove_uri(uris: &Vec<String>, uri: &str) -> (rest: Vec<String>)
    ensures
        rest.deep_view() == without_uri(uris.deep_view(), uri@, uris.deep_view().len() as int),
{
    let ghost all = uris.deep_view();
    let mut rest: Vec<String> = Vec::new();
    let mut i: usize = 0;
    assert(rest.deep_view() =~= without_uri(all, uri@, 0));
    while i < uris.len()
        invariant
            i <= uris.len(),
            all == uris.deep_view(),
            rest.deep_view() == without_uri(all, uri@, i as int),
        decreases uris.len() - i,
    {
        assert(all[i as int] == uris@[i as int]@);
        let ghost kept = rest.deep_view();
        if !str_eq(uris[i].as_str(), uri) {
            rest.push(uris[i].clone());
            assert(rest.deep_view() =~= kept.push(all[i as int]));
        }
        i = i + 1;
    }
    rest
}

impl ServerState {
    /// The state as a mathematical value.
    pub closed spec fn model(&self) -> ServerModel {
        ServerModel {
            config: self.config.deep_view(),
            client: self.http.deep_view(),
            documents: documents_held(self.documents),
            analysis: analyses_held(self.analysis),
            pending: tasks_held(self.pending),
            dirty: lists_held(self.dirty_by_workspace),
            next_task: self.next_task,
        }
    }

    /// The state of a server that starts with `config`. Settings whose
    /// address is no URL leave the server with a client for this machine.
    pub fn new(config: Config) -> (state: ServerState)
        ensures
            state.model() == initial_model(config.deep_view()),
            well_formed(state.model()),
    {
        let http = match VulneraApiClient::new(
            config.api_url.as_str(),
            clone_optional(&config.api_key),
            config.user_agent.as_str(),
        ) {
            Ok(client) => client,
            Err(_) => VulneraApiClient::local(),
        };
        ServerState {
            config,
            http,
            documents: new_documents(),
            analysis: new_analyses(),
            pending: new_tasks(),
            dirty_by_workspace: new_lists(),
            next_task: 0,
        }
    }

    /// Takes new settings. The client follows them, unless their address is
    /// no URL: then the client stays as it is.
    pub fn update_config(&mut self, next: Config)
        ensures
            final(self).model() == (ServerModel {
                config: next.deep_view(),
                client: client_of(next.deep_view(), old(self).model().client),
                ..old(self).model()
            }),
            well_formed(old(self).model()) ==> well_formed(final(self).model()),
    {
        match VulneraApiClient::new(
            next.api_url.as_str(),
            clone_optional(&next.api_key),
            next.user_agent.as_str(),
        ) {
            Ok(client) => {
                self.http = client;
            },
            Err(_) => {},
        }
        self.config = next;
    }

    /// Stores a document, in place of what was stored under its URI.
    pub fn upsert_document(&mut self, snapshot: DocumentSnapshot)
        ensures
            final(self).model() == with_document(old(self).model(), snapshot.deep_view()),
            well_formed(old(self).model()) ==> well_formed(final(self).model()),
    {
        let uri = snapshot.uri.text.clone();
        put_document(&mut self.documents, uri, snapshot);
        proof {
            if well_formed(old(self).model()) {
                lemma_well_formed_stays(
                    old(self).model(),
                    snapshot.deep_view(),
                    uri@,
                    uri@,
                    0,
                );
            }
        }
    }

    /// Forgets a document that was closed.
    pub fn remove_document(&mut self, uri: &str) -> (actions: Vec<ServerAction>)
        ensures
            (final(self).model(), actions.deep_view()) == after_remove(old(self).model(), uri@),
            well_formed(old(self).model()) ==> well_formed(final(self).model()),
    {
        proof {
            if well_formed(old(self).model()) {
                lemma_well_formed_stays(
                    old(self).model(),
                    arbitrary(),
                    uri@,
                    uri@,
                    0,
                );
            }
        }
        let mut actions: Vec<ServerAction> = Vec::new();
        let found = document(&self.documents, uri);
        drop_document(&mut self.documents, uri);
        drop_analysis(&mut self.analysis, uri);
        assert(actions.deep_view() =~= Seq::empty());
        if let Some(snapshot) = found {
            let key = workspace_key_for_path(
                match &snapshot.workspace_path {
                    Some(path) => Some(path.as_str()),
                    None => None,
                },
                snapshot.uri.path.as_str(),
            );
            let ghost dirty = old(self).model().dirty;
            if let Some(uris) = take_list(&mut self.dirty_by_workspace, key.as_str()) {
                let rest = remove_uri(&uris, uri);
                if rest.len() > 0 {
                    put_list(&mut self.dirty_by_workspace, key, rest);
                    assert(self.model().dirty =~= dirty.insert(key@, rest.deep_view()));
                } else {
                    if let Some(task) = take_task(&mut self.pending, key.as_str()) {
                        let cancel = ServerAction::CancelTask { workspace_key: key, task };
                        actions.push(cancel);
                        assert(actions.deep_view() =~= seq![cancel.deep_view()]);
                    }
                }
            } else {
                assert(self.model().dirty =~= dirty);
            }
        }
        actions
    }

    /// Asks for the analysis of a document: see `after_schedule`.
    pub fn schedule_analysis(&mut self, uri: &str) -> (actions: Vec<ServerAction>)
        ensures
            (final(self).model(), actions.deep_view()) == after_schedule(old(self).model(), uri@),
            well_formed(old(self).model()) ==> well_formed(final(self).model()),
    {
        proof {
            if well_formed(old(self).model()) {
                lemma_well_formed_stays(
                    old(self).model(),
                    arbitrary(),
                    uri@,
                    uri@,
                    0,
                );
            }
        }
        let mut actions: Vec<ServerAction> = Vec::new();
        assert(actions.deep_view() =~= Seq::empty());
        let snapshot = match document(&self.documents, uri) {
            Some(snapshot) => snapshot,
            None => {
                return actions;
            },
        };
        if str_eq(snapshot.ecosystem.as_str(), "unknown") {
            drop_analysis(&mut self.analysis, uri);
            let diagnostics: Vec<Diagnostic> = Vec::new();
            assert(diagnostics.deep_view() =~= Seq::empty());
            let publish = ServerAction::PublishDiagnostics {
                uri: String::from_str(uri),
                diagnostics,
                version: Some(snapshot.version),
            };
            actions.push(publish);
            assert(actions.deep_view() =~= seq![publish.deep_view()]);
            return actions;
        }
        let key = workspace_key_for_path(
            match &snapshot.workspace_path {
                Some(path) => Some(path.as_str()),
                None => None,
            },
            snapshot.uri.path.as_str(),
        );
        let mut waiting = match take_list(&mut self.dirty_by_workspace, key.as_str()) {
            Some(uris) => uris,
            None => {
                let uris: Vec<String> = Vec::new();
                assert(uris.deep_view() =~= Seq::empty());
                uris
            },
        };
        add_uri(&mut waiting, uri);
        let ghost dirty = old(self).model().dirty;
        put_list(&mut self.dirty_by_workspace, key.clone(), waiting);
        assert(self.model().dirty =~= dirty.insert(key@, waiting.deep_view()));

        let superseded = take_task(&mut self.pending, key.as_str());
        let task: u64 = match superseded {
            Some(old_task) => {
                let cancel = ServerAction::CancelTask {
                    workspace_key: key.clone(),
                    task: old_task,
                };
                actions.push(cancel);
                assert(actions.deep_view() =~= seq![cancel.deep_view()]);
                if old_task == self.next_task {
                    if old_task == u64::MAX {
                        0
                    } else {
                        old_task + 1
                    }
                } else {
                    self.next_task
                }
            },
            None => self.next_task,
        };
        let ghost pending = old(self).model().pending;
        put_task(&mut self.pending, key.clone(), task);
        assert(self.model().pending =~= pending.insert(key@, task));
        self.next_task = if task == u64::MAX {
            0
        } else {
            task + 1
        };
        let ghost cancelled = actions.deep_view();
        let start = ServerAction::StartDebounce {
            workspace_key: key,
            task,
            debounce_ms: self.config.debounce_ms,
        };
        actions.push(start);
        assert(actions.deep_view() =~= cancelled + seq![start.deep_view()]);
        actions
    }

    /// The settings as they are now.
    pub fn config(&self) -> (config: Config)
        ensures
            config.deep_view() == self.model().config,
    {
        self.config.clone()
    }

    /// The cached analysis of a document.
    pub fn analysis_for(&self, uri: &str) -> (cached: Option<AnalysisCache>)
        ensures
            cached.deep_view() == held(self.model().analysis, uri@),
    {
        analysis(&self.analysis, uri)
    }

    /// The text of an open document.
    pub fn document_text(&self, uri: &str) -> (text: Option<String>)
        ensures
            text.deep_view() == match held(self.model().documents, uri@) {
                Some(snapshot) => Some(snapshot.text),
                None => None,
            },
    {
        match document(&self.documents, uri) {
            Some(snapshot) => Some(snapshot.text),
            None => None,
        }
    }

    /// An open document.
    pub fn document_snapshot(&self, uri: &str) -> (snapshot: Option<DocumentSnapshot>)
        ensures
            snapshot.deep_view() == held(self.model().documents, uri@),
    {
        document(&self.documents, uri)
    }
}

/// A batch on its way: the workspace, the task that runs it, and the documents
/// as they were when the batch began.
#[derive(Debug)]
pub struct BatchJob {
    pub workspace_key: String,
    pub task: u64,
    pub snapshots: Vec<DocumentSnapshot>,
}

/// A `BatchJob`, as a mathematical value.
pub struct BatchJobView {
    pub workspace_key: Seq<char>,
    pub task: u64,
    pub snapshots: Seq<DocumentSnapshotView>,
}

impl DeepView for BatchJob {
    type V = BatchJobView;

    open spec fn deep_view(&self) -> BatchJobView {
        BatchJobView {
            workspace_key: self.workspace_key@,
            task: self.task,
            snapshots: self.snapshots.deep_view(),
        }
    }
}

/// A batch that has begun: the job, and the request to send for it, or the
/// reason why there is none to send.
#[derive(Debug)]
pub struct BatchStart {
    pub job: BatchJob,
    pub call: Result<PreparedRequest, ApiError>,
}

/// A `BatchStart`, as a mathematical value.
pub struct BatchStartView {
    pub job: BatchJobView,
    pub call: Result<PreparedRequestView, ApiErrorView>,
}

impl DeepView for BatchStart {
    type V = BatchStartView;

    open spec fn deep_view(&self) -> BatchStartView {
        BatchStartView { job: self.job.deep_view(), call: result_view(self.call) }
    }
}

/// Of the first `n` of `uris`, the documents that are open and of a known
/// ecosystem, in the order of `uris`.
pub open spec fn snapshots_of(
    documents: Map<Seq<char>, DocumentSnapshotView>,
    uris: Seq<Seq<char>>,
    n: int,
) -> Seq<DocumentSnapshotView>
    decreases n,
{
    if n <= 0 {
        Seq::empty()
    } else if documents.contains_key(uris[n - 1]) && !is_unknown(documents[uris[n - 1]]) {
        snapshots_of(documents, uris, n - 1).push(documents[uris[n - 1]])
    } else {
        snapshots_of(documents, uris, n - 1)
    }
}

/// What the service is told of a document.
pub open spec fn file_request(document: DocumentSnapshotView) -> DependencyFileRequestView {
    DependencyFileRequestView {
        file_id: Some(document.uri.text),
        file_content: document.text,
        ecosystem: document.ecosystem,
        filename: document.file_name,
        workspace_path: document.workspace_path,
    }
}

/// The body of the request for a batch: one file for each document, in their
/// order, and the two switches of the settings.
pub open spec fn request_of(
    snapshots: Seq<DocumentSnapshotView>,
    config: ConfigView,
) -> BatchDependencyAnalysisRequestView {
    BatchDependencyAnalysisRequestView {
        files: Seq::new(snapshots.len(), |i: int| file_request(snapshots[i])),
        enable_cache: config.enable_cache,
        compact_mode: config.compact_mode,
    }
}

/// The URIs of the documents of a batch, in their order.
pub open spec fn batch_uris(snapshots: Seq<DocumentSnapshotView>) -> Seq<Seq<char>> {
    Seq::new(snapshots.len(), |i: int| snapshots[i].uri.text)
}

/// The request of a batch holds one file for each snapshot of the batch, in
/// their order, under the snapshot's URI and with the snapshot's text.
pub open spec fn files_follow_snapshots(begun: BatchStartView) -> bool {
    begun.call matches Ok(request) ==> request.body.files.len() == begun.job.snapshots.len()
        && forall|i: int|
        0 <= i < begun.job.snapshots.len() ==> (#[trigger] request.body.files[i]).file_id == Some(
            begun.job.snapshots[i].uri.text,
        ) && request.body.files[i].file_content == begun.job.snapshots[i].text
}

/// A batch that has begun holds each of its documents once: no two of its
/// snapshots, and so no two files of its request, are of one URI.
pub open spec fn one_file_each(start: Option<BatchStartView>) -> bool {
    start matches Some(begun) ==> batch_uris(begun.job.snapshots).no_duplicates()
}

/// The state after `task` woke up to analyse the workspace `key`, and the
/// batch that it is to send.
///
/// A task that is not the one the workspace waits for was given up: nothing
/// changes and nothing is sent. Else the workspace's list of waiting documents
/// is taken; where none of them is open and of a known ecosystem the task is
/// done, and else the batch holds those documents as they are now.
pub open spec fn after_begin(s: ServerModel, key: Seq<char>, task: u64) -> (
    ServerModel,
    Option<BatchStartView>,
) {
    if held(s.pending, key) != Some(task) {
        (s, None)
    } else {
        let uris = match held(s.dirty, key) {
            Some(uris) => uris,
            None => Seq::empty(),
        };
        let snapshots = snapshots_of(s.documents, uris, uris.len() as int);
        if snapshots.len() == 0 {
            (ServerModel { dirty: s.dirty.remove(key), pending: s.pending.remove(key), ..s }, None)
        } else {
            (
                ServerModel { dirty: s.dirty.remove(key), ..s },
                Some(
                    BatchStartView {
                        job: BatchJobView { workspace_key: key, task, snapshots },
                        call: request_for(
                            s.client,
                            s.config.detail_level,
                            request_of(snapshots, s.config),
                        ),
                    },
                ),
            )
        }
    }
}

/// What came of a batch's results: what was published, what the cache holds
/// after it, and why the batch failed, where it did.
pub struct Dispatch {
    pub actions: Seq<ServerActionView>,
    pub analysis: Map<Seq<char>, AnalysisCacheView>,
    pub failure: Option<Seq<char>>,
}

/// Whether a result says which file it is for.
pub open spec fn is_identified(result: FileAnalysisResultView) -> bool {
    result.file_id matches Some(id) && id.len() > 0
}

/// Whether each of the first `n` results says which file it is for.
pub open spec fn all_identified(results: Seq<FileAnalysisResultView>, n: int) -> bool
    decreases n,
{
    if n <= 0 {
        true
    } else {
        all_identified(results, n - 1) && is_identified(results[n - 1])
    }
}

/// Among the first `n` snapshots, the last one of the document `id`.
pub open spec fn snapshot_with_id(
    snapshots: Seq<DocumentSnapshotView>,
    id: Seq<char>,
    n: int,
) -> Option<DocumentSnapshotView>
    decreases n,
{
    if n <= 0 {
        None
    } else if snapshots[n - 1].uri.text == id {
        Some(snapshots[n - 1])
    } else {
        snapshot_with_id(snapshots, id, n - 1)
    }
}

/// The publication of `diagnostics` for a snapshot, as of its version.
pub open spec fn publication(
    snapshot: DocumentSnapshotView,
    diagnostics: Seq<DiagnosticView>,
) -> ServerActionView {
    ServerActionView::PublishDiagnostics {
        uri: snapshot.uri.text,
        diagnostics,
        version: Some(snapshot.version),
    }
}

/// One result dealt to its snapshot. A result that carries an error has that
/// error published and leaves the cache alone; any other has its diagnostics
/// published and takes the document's place in the cache.
pub open spec fn delivered(
    snapshot: DocumentSnapshotView,
    result: FileAnalysisResultView,
    analysis: Map<Seq<char>, AnalysisCacheView>,
) -> (ServerActionView, Map<Seq<char>, AnalysisCacheView>) {
    match result.error {
        Some(error) => (publication(snapshot, seq![failure_of(error)]), analysis),
        None => {
            let diagnostics = diagnostics_of(result, snapshot.text, snapshot.language_id);
            (
                publication(snapshot, diagnostics),
                analysis.insert(snapshot.uri.text, AnalysisCacheView { result, diagnostics }),
            )
        },
    }
}

/// What is said of a result that names a file that was not sent.
pub open spec fn unknown_file_text(id: Seq<char>) -> Seq<char> {
    "Unknown file_id returned by analysis service: "@ + id
}

/// What is said of an answer that holds another number of results than files
/// were sent.
pub open spec fn mismatch_text(requested: nat, received: nat) -> Seq<char> {
    "Batch response cardinality mismatch: requested "@ + decimal_text(requested)
        + ", received "@ + decimal_text(received)
}

/// The snapshot that a result goes to: with `by_id` the one that the result
/// names, where it names one; without, the one at the result's place.
pub open spec fn target_of(
    snapshots: Seq<DocumentSnapshotView>,
    results: Seq<FileAnalysisResultView>,
    by_id: bool,
    i: int,
) -> Option<DocumentSnapshotView> {
    if by_id {
        snapshot_with_id(snapshots, results[i].file_id->0, snapshots.len() as int)
    } else {
        Some(snapshots[i])
    }
}

/// The place of the first of the first `n` results that goes to no snapshot.
pub open spec fn first_unpaired(
    snapshots: Seq<DocumentSnapshotView>,
    results: Seq<FileAnalysisResultView>,
    by_id: bool,
    n: int,
) -> Option<int>
    decreases n,
{
    if n <= 0 {
        None
    } else if first_unpaired(snapshots, results, by_id, n - 1) is Some {
        first_unpaired(snapshots, results, by_id, n - 1)
    } else if target_of(snapshots, results, by_id, n - 1) is None {
        Some(n - 1)
    } else {
        None
    }
}

/// The first `n` results dealt out to their snapshots, one after the other.
pub open spec fn dispatched(
    snapshots: Seq<DocumentSnapshotView>,
    results: Seq<FileAnalysisResultView>,
    by_id: bool,
    analysis: Map<Seq<char>, AnalysisCacheView>,
    n: int,
) -> Dispatch
    decreases n,
{
    if n <= 0 {
        Dispatch { actions: Seq::empty(), analysis, failure: None }
    } else {
        let before = dispatched(snapshots, results, by_id, analysis, n - 1);
        match target_of(snapshots, results, by_id, n - 1) {
            Some(snapshot) => {
                let step = delivered(snapshot, results[n - 1], before.analysis);
                Dispatch { actions: before.actions.push(step.0), analysis: step.1, failure: None }
            },
            None => before,
        }
    }
}

/// The results of a batch dealt to its snapshots. The results are paired with
/// the snapshots first: by name where every result names its file, by place
/// otherwise. Where the numbers of results and snapshots differ, and where a
/// result names a file that is none of the batch, the batch fails as a whole:
/// nothing is published and the cache stays as it is. Only a batch in which
/// every result has its snapshot is dealt out.
pub open spec fn batch_outcome(
    snapshots: Seq<DocumentSnapshotView>,
    results: Seq<FileAnalysisResultView>,
    analysis: Map<Seq<char>, AnalysisCacheView>,
) -> Dispatch {
    let by_id = all_identified(results, results.len() as int);
    if results.len() != snapshots.len() {
        Dispatch {
            actions: Seq::empty(),
            analysis,
            failure: Some(mismatch_text(snapshots.len(), results.len())),
        }
    } else {
        match first_unpaired(snapshots, results, by_id, results.len() as int) {
            Some(i) => Dispatch {
                actions: Seq::empty(),
                analysis,
                failure: Some(unknown_file_text(results[i].file_id->0)),
            },
            None => dispatched(snapshots, results, by_id, analysis, results.len() as int),
        }
    }
}

/// The failure of a batch, published for those of the first `n` of `order`
/// that are open documents of the workspace `key`.
pub open spec fn failure_report(
    documents: Map<Seq<char>, DocumentSnapshotView>,
    order: Seq<Seq<char>>,
    key: Seq<char>,
    reason: Seq<char>,
    n: int,
) -> Seq<ServerActionView>
    decreases n,
{
    if n <= 0 {
        Seq::empty()
    } else if documents.contains_key(order[n - 1]) && key_of(documents[order[n - 1]]) == key {
        failure_report(documents, order, key, reason, n - 1).push(
            ServerActionView::PublishDiagnostics {
                uri: order[n - 1],
                diagnostics: seq![failure_of(reason)],
                version: Some(documents[order[n - 1]].version),
            },
        )
    } else {
        failure_report(documents, order, key, reason, n - 1)
    }
}

/// The failure of a batch, told to the user and written to the log.
pub open spec fn failure_notices(reason: Seq<char>) -> Seq<ServerActionView> {
    seq![
        ServerActionView::ShowMessage {
            kind: MessageType::Error,
            message: "Vulnera dependency analysis failed: "@ + reason,
        },
        ServerActionView::LogMessage {
            kind: MessageType::Error,
            message: "Dependency analysis failed: "@ + reason,
        },
    ]
}

/// All that a failed batch asks for: the failure published for each open
/// document of the workspace, in the order `order`, then the two notices.
pub open spec fn failure_actions(
    documents: Map<Seq<char>, DocumentSnapshotView>,
    order: Seq<Seq<char>>,
    key: Seq<char>,
    reason: Seq<char>,
) -> Seq<ServerActionView> {
    failure_report(documents, order, key, reason, order.len() as int) + failure_notices(reason)
}

/// The log entry for the identifier that the service gave a request.
pub open spec fn request_log(request_id: Option<Seq<char>>) -> Seq<ServerActionView> {
    match request_id {
        Some(id) => seq![
            ServerActionView::LogMessage {
                kind: MessageType::Info,
                message: "Vulnera dependency batch request_id="@ + id,
            },
        ],
        None => Seq::empty(),
    }
}

/// `order` names each open document once.
pub open spec fn enumerates(
    order: Seq<Seq<char>>,
    documents: Map<Seq<char>, DocumentSnapshotView>,
) -> bool {
    order.no_duplicates() && order.to_set() == documents.dom()
}

/// The state after the service answered the batch `job` with `results`, and
/// what is to do: the log entry for the request, and either what dealing the
/// results out publishes or, where the batch failed, the failure for every
/// open document of the workspace.
pub open spec fn after_answer(
    s: ServerModel,
    job: BatchJobView,
    request_id: Option<Seq<char>>,
    results: Seq<FileAnalysisResultView>,
    order: Seq<Seq<char>>,
) -> (ServerModel, Seq<ServerActionView>) {
    let dealt = batch_outcome(job.snapshots, results, s.analysis);
    (
        ServerModel { analysis: dealt.analysis, ..s },
        request_log(request_id) + dealt.actions + match dealt.failure {
            Some(reason) => failure_actions(s.documents, order, job.workspace_key, reason),
            None => Seq::empty(),
        },
    )
}

/// The state after the batch `job` came to its end, and what is to do.
///
/// A task that is not the one its workspace waits for was given up: its
/// outcome is dropped. Else the workspace waits for no task any more. An error
/// on the way is published for every open document of the workspace; an
/// answer is dealt out as `after_answer` says.
pub open spec fn after_complete(
    s: ServerModel,
    job: BatchJobView,
    outcome: Result<(Option<Seq<char>>, Seq<FileAnalysisResultView>), ApiErrorView>,
    order: Seq<Seq<char>>,
) -> (ServerModel, Seq<ServerActionView>) {
    if held(s.pending, job.workspace_key) != Some(job.task) {
        (s, Seq::empty())
    } else {
        let done = ServerModel { pending: s.pending.remove(job.workspace_key), ..s };
        match outcome {
            Ok((request_id, results)) => after_answer(done, job, request_id, results, order),
            Err(error) => (
                done,
                failure_actions(s.documents, order, job.workspace_key, error_text(error)),
            ),
        }
    }
}

/// What the service's answer holds for the dealing: the request's identifier
/// and the results.
pub open spec fn answer_view(
    outcome: Result<BatchDependencyAnalysisResponse, ApiError>,
) -> Result<(Option<Seq<char>>, Seq<FileAnalysisResultView>), ApiErrorView> {
    match outcome {
        Ok(response) => Ok(
            (response.metadata.request_id.deep_view(), response.results.deep_view()),
        ),
        Err(error) => Err(error.deep_view()),
    }
}

proof fn lemma_all_identified(results: Seq<FileAnalysisResultView>, n: int, i: int)
    requires
        all_identified(results, n),
        0 <= i < n,
    ensures
        is_identified(results[i]),
    decreases n,
{
    if i < n - 1 {
        lemma_all_identified(results, n - 1, i);
    }
}

fn optional_str(text: &Option<String>) -> (borrowed: Option<&str>)
    ensures
        borrowed.deep_view() == text.deep_view(),
{
    match text {
        Some(s) => Some(s.as_str()),
        None => None,
    }
}

fn file_request_for(snapshot: &DocumentSnapshot) -> (file: DependencyFileRequest)
    ensures
        file.deep_view() == file_request(snapshot.deep_view()),
{
    DependencyFileRequest {
        file_id: Some(snapshot.uri.text.clone()),
        file_content: snapshot.text.clone(),
        ecosystem: snapshot.ecosystem.clone(),
        filename: clone_optional(&snapshot.file_name),
        workspace_path: clone_optional(&snapshot.workspace_path),
    }
}

fn build_request(snapshots: &Vec<DocumentSnapshot>, config: &Config) -> (request:
    BatchDependencyAnalysisRequest)
    ensures
        request.deep_view() == request_of(snapshots.deep_view(), config.deep_view()),
{
    let mut files: Vec<DependencyFileRequest> = Vec::new();
    let ghost all = snapshots.deep_view();
    let mut i: usize = 0;
    while i < snapshots.len()
        invariant
            i <= snapshots.len(),
            all == snapshots.deep_view(),
            files.deep_view() == Seq::new(i as nat, |j: int| file_request(all[j])),
        decreases snapshots.len() - i,
    {
        assert(all[i as int] == snapshots@[i as int].deep_view());
        let ghost before = files.deep_view();
        let file = file_request_for(&snapshots[i]);
        files.push(file);
        assert(files.deep_view() =~= before.push(file.deep_view()));
        i = i + 1;
        assert(files.deep_view() =~= Seq::new(i as nat, |j: int| file_request(all[j])));
    }
    BatchDependencyAnalysisRequest {
        files,
        enable_cache: config.enable_cache,
        compact_mode: config.compact_mode,
    }
}

fn find_snapshot<'a>(snapshots: &'a Vec<DocumentSnapshot>, id: &str) -> (found: Option<
    &'a DocumentSnapshot,
>)
    ensures
        found.deep_view() == snapshot_with_id(
            snapshots.deep_view(),
            id@,
            snapshots.deep_view().len() as int,
        ),
{
    let ghost all = snapshots.deep_view();
    let mut n: usize = snapshots.len();
    while n > 0
        invariant
            n <= snapshots.len(),
            all == snapshots.deep_view(),
            snapshot_with_id(all, id@, all.len() as int) == snapshot_with_id(all, id@, n as int),
        decreases n,
    {
        assert(all[n - 1] == snapshots@[n - 1].deep_view());
        if str_eq(snapshots[n - 1].uri.text.as_str(), id) {
            return Some(&snapshots[n - 1]);
        }
        n = n - 1;
    }
    None
}

fn results_identified(results: &Vec<FileAnalysisResult>) -> (identified: bool)
    ensures
        identified == all_identified(results.deep_view(), results.deep_view().len() as int),
{
    let ghost all = results.deep_view();
    let mut i: usize = 0;
    while i < results.len()
        invariant
            i <= results.len(),
            all == results.deep_view(),
            all_identified(all, i as int),
        decreases results.len() - i,
    {
        assert(all[i as int] == results@[i as int].deep_view());
        let named = match &results[i].file_id {
            Some(id) => !id.as_str().is_empty(),
            None => false,
        };
        if !named {
            proof {
                if all_identified(all, all.len() as int) {
                    lemma_all_identified(all, all.len() as int, i as int);
                }
            }
            return false;
        }
        i = i + 1;
    }
    true
}

fn just(diagnostic: Diagnostic) -> (diagnostics: Vec<Diagnostic>)
    ensures
        diagnostics.deep_view() == seq![diagnostic.deep_view()],
{
    let mut diagnostics: Vec<Diagnostic> = Vec::new();
    diagnostics.push(diagnostic);
    assert(diagnostics.deep_view() =~= seq![diagnostic.deep_view()]);
    diagnostics
}

impl ServerState {
    /// Begins the batch of a workspace, as the task that has waited for it:
    /// see `after_begin`. The request holds one file for each waiting document
    /// that is open and of a known ecosystem, with the document's URI and its
    /// text as it is now; in a well-formed state none of them comes twice.
    pub fn begin_batch(&mut self, workspace_key: &str, task: u64) -> (start: Option<BatchStart>)
        ensures
            (final(self).model(), start.deep_view()) == after_begin(
                old(self).model(),
                workspace_key@,
                task,
            ),
            start.deep_view() matches Some(begun) ==> files_follow_snapshots(begun),
            well_formed(old(self).model()) ==> well_formed(final(self).model()) && one_file_each(
                start.deep_view(),
            ),
    {
        proof {
            if well_formed(old(self).model()) {
                lemma_well_formed_stays(
                    old(self).model(),
                    arbitrary(),
                    workspace_key@,
                    workspace_key@,
                    task,
                );
                lemma_batch_has_one_file_each(old(self).model(), workspace_key@, task);
            }
        }
        let ghost before = self.model();
        match take_task(&mut self.pending, workspace_key) {
            Some(waited) => {
                if waited != task {
                    put_task(&mut self.pending, String::from_str(workspace_key), waited);
                    assert(self.model().pending =~= before.pending);
                    return None;
                }
            },
            None => {
                assert(self.model().pending =~= before.pending);
                return None;
            },
        }
        let uris = match take_list(&mut self.dirty_by_workspace, workspace_key) {
            Some(uris) => uris,
            None => {
                let uris: Vec<String> = Vec::new();
                assert(uris.deep_view() =~= Seq::empty());
                uris
            },
        };
        let ghost waiting = uris.deep_view();
        let mut snapshots: Vec<DocumentSnapshot> = Vec::new();
        let mut i: usize = 0;
        assert(snapshots.deep_view() =~= snapshots_of(before.documents, waiting, 0));
        while i < uris.len()
            invariant
                i <= uris.len(),
                waiting == uris.deep_view(),
                before.documents == documents_held(self.documents),
                snapshots.deep_view() == snapshots_of(before.documents, waiting, i as int),
            decreases uris.len() - i,
        {
            assert(waiting[i as int] == uris@[i as int]@);
            let ghost kept = snapshots.deep_view();
            match document(&self.documents, uris[i].as_str()) {
                Some(snapshot) => {
                    if !str_eq(snapshot.ecosystem.as_str(), "unknown") {
                        snapshots.push(snapshot);
                        assert(snapshots.deep_view() =~= kept.push(snapshot.deep_view()));
                    }
                },
                None => {},
            }
            i = i + 1;
        }
        if snapshots.len() == 0 {
            return None;
        }
        put_task(&mut self.pending, String::from_str(workspace_key), task);
        assert(self.model().pending =~= before.pending);
        let request = build_request(&snapshots, &self.config);
        let call = self.http.analyze_dependencies(self.config.detail_level, request);
        Some(
            BatchStart {
                job: BatchJob { workspace_key: String::from_str(workspace_key), task, snapshots },
                call,
            },
        )
    }

    fn deliver(
        &mut self,
        snapshot: &DocumentSnapshot,
        result: FileAnalysisResult,
        actions: &mut Vec<ServerAction>,
    )
        ensures
            final(self).model() == (ServerModel {
                analysis: delivered(
                    snapshot.deep_view(),
                    result.deep_view(),
                    old(self).model().analysis,
                ).1,
                ..old(self).model()
            }),
            final(actions).deep_view() == old(actions).deep_view().push(
                delivered(snapshot.deep_view(), result.deep_view(), old(self).model().analysis).0,
            ),
    {
        let ghost published = actions.deep_view();
        match &result.error {
            Some(error) => {
                let publish = ServerAction::PublishDiagnostics {
                    uri: snapshot.uri.text.clone(),
                    diagnostics: just(build_analysis_failure_diagnostic(error.as_str())),
                    version: Some(snapshot.version),
                };
                actions.push(publish);
                assert(actions.deep_view() =~= published.push(publish.deep_view()));
            },
            None => {
                let diagnostics = build_diagnostics(
                    &result,
                    snapshot.text.as_str(),
                    optional_str(&snapshot.language_id),
                );
                let publish = ServerAction::PublishDiagnostics {
                    uri: snapshot.uri.text.clone(),
                    diagnostics: clone_diagnostics(&diagnostics),
                    version: Some(snapshot.version),
                };
                actions.push(publish);
                assert(actions.deep_view() =~= published.push(publish.deep_view()));
                put_analysis(
                    &mut self.analysis,
                    snapshot.uri.text.clone(),
                    AnalysisCache { result, diagnostics },
                );
            },
        }
    }

    /// Deals the results of a batch out to its documents: see `batch_outcome`.
    /// Gives what to publish, or the reason why the batch failed as a whole;
    /// a batch that fails publishes nothing and leaves the cache as it is.
    pub fn run_batch_analysis(
        &mut self,
        job: &BatchJob,
        results: Vec<FileAnalysisResult>,
    ) -> (dealt: (Vec<ServerAction>, Result<(), String>))
        ensures
            ({
                let outcome = batch_outcome(
                    job.snapshots.deep_view(),
                    results.deep_view(),
                    old(self).model().analysis,
                );
                &&& final(self).model() == (ServerModel {
                    analysis: outcome.analysis,
                    ..old(self).model()
                })
                &&& dealt.0.deep_view() == outcome.actions
                &&& match dealt.1 {
                    Ok(_) => outcome.failure is None,
                    Err(reason) => outcome.failure == Some(reason@),
                }
            }),
            well_formed(old(self).model()) ==> well_formed(final(self).model()),
    {
        let ghost before = self.model();
        let ghost snapshots = job.snapshots.deep_view();
        let ghost all = results.deep_view();
        let mut actions: Vec<ServerAction> = Vec::new();
        assert(actions.deep_view() =~= Seq::empty());
        assert(self.model() == (ServerModel { analysis: before.analysis, ..before }));
        if results.len() != job.snapshots.len() {
            let mut reason = String::from_str("Batch response cardinality mismatch: requested ");
            reason.append(decimal(job.snapshots.len() as u64).as_str());
            reason.append(", received ");
            reason.append(decimal(results.len() as u64).as_str());
            return (actions, Err(reason));
        }
        let by_id = results_identified(&results);
        match unpaired(&job.snapshots, &results, by_id) {
            Some(reason) => {
                return (actions, Err(reason));
            },
            None => {},
        }
        let count: usize = results.len();
        let ghost given = results@;
        let mut i: usize = 0;
        for result in it: results
            invariant
                it.seq() == given,
                before == old(self).model(),
                given == results@,
                all == results.deep_view(),
                given.len() == count,
                i == it.index(),
                count == job.snapshots.len(),
                snapshots == job.snapshots.deep_view(),
                all.len() == count,
                forall|j: int| 0 <= j < count ==> all[j] == given[j].deep_view(),
                by_id == all_identified(all, all.len() as int),
                first_unpaired(snapshots, all, by_id, all.len() as int) is None,
                self.model() == (ServerModel {
                    analysis: dispatched(snapshots, all, by_id, before.analysis, i as int).analysis,
                    ..before
                }),
                actions.deep_view() == dispatched(
                    snapshots,
                    all,
                    by_id,
                    before.analysis,
                    i as int,
                ).actions,
        {
            assert(all[i as int] == result.deep_view());
            assert(snapshots[i as int] == job.snapshots@[i as int].deep_view());
            proof {
                lemma_paired(snapshots, all, by_id, all.len() as int, i as int);
            }
            let target: Option<&DocumentSnapshot> = if by_id {
                proof {
                    lemma_all_identified(all, all.len() as int, i as int);
                }
                match &result.file_id {
                    Some(id) => find_snapshot(&job.snapshots, id.as_str()),
                    None => None,
                }
            } else {
                Some(&job.snapshots[i])
            };
            match target {
                Some(snapshot) => {
                    self.deliver(snapshot, result, &mut actions);
                },
                None => {},
            }
            i = i + 1;
        }
        (actions, Ok(()))
    }
}

proof fn lemma_paired(
    snapshots: Seq<DocumentSnapshotView>,
    results: Seq<FileAnalysisResultView>,
    by_id: bool,
    n: int,
    i: int,
)
    requires
        0 <= i < n,
        first_unpaired(snapshots, results, by_id, n) is None,
    ensures
        target_of(snapshots, results, by_id, i) is Some,
    decreases n,
{
    if i < n - 1 {
        lemma_paired(snapshots, results, by_id, n - 1, i);
    }
}

proof fn lemma_places_pair(
    snapshots: Seq<DocumentSnapshotView>,
    results: Seq<FileAnalysisResultView>,
    n: int,
)
    ensures
        first_unpaired(snapshots, results, false, n) is None,
    decreases n,
{
    if n > 0 {
        lemma_places_pair(snapshots, results, n - 1);
    }
}

proof fn lemma_first_unpaired_stays(
    snapshots: Seq<DocumentSnapshotView>,
    results: Seq<FileAnalysisResultView>,
    by_id: bool,
    i: int,
    n: int,
)
    requires
        0 <= i <= n,
        first_unpaired(snapshots, results, by_id, i) is Some,
    ensures
        first_unpaired(snapshots, results, by_id, n) == first_unpaired(
            snapshots,
            results,
            by_id,
            i,
        ),
    decreases n - i,
{
    if i < n {
        lemma_first_unpaired_stays(snapshots, results, by_id, i, n - 1);
    }
}

/// Why the results cannot be paired with the snapshots, where one of them
/// names a file that is none of the batch.
fn unpaired(
    snapshots: &Vec<DocumentSnapshot>,
    results: &Vec<FileAnalysisResult>,
    by_id: bool,
) -> (reason: Option<String>)
    requires
        by_id == all_identified(results.deep_view(), results.deep_view().len() as int),
    ensures
        match reason {
            Some(reason) => first_unpaired(
                snapshots.deep_view(),
                results.deep_view(),
                by_id,
                results.deep_view().len() as int,
            ) matches Some(i) && reason@ == unknown_file_text(results.deep_view()[i].file_id->0),
            None => first_unpaired(
                snapshots.deep_view(),
                results.deep_view(),
                by_id,
                results.deep_view().len() as int,
            ) is None,
        },
{
    let ghost all = results.deep_view();
    let ghost held = snapshots.deep_view();
    let mut i: usize = 0;
    if !by_id {
        proof {
            lemma_places_pair(held, all, all.len() as int);
        }
        return None;
    }
    while i < results.len()
        invariant
            i <= results.len(),
            by_id,
            by_id == all_identified(all, all.len() as int),
            all == results.deep_view(),
            held == snapshots.deep_view(),
            first_unpaired(held, all, by_id, i as int) is None,
        decreases results.len() - i,
    {
        assert(all[i as int] == results@[i as int].deep_view());
        proof {
            lemma_all_identified(all, all.len() as int, i as int);
        }
        match &results[i].file_id {
            Some(id) => {
                if find_snapshot(snapshots, id.as_str()).is_none() {
                    proof {
                        lemma_first_unpaired_stays(held, all, by_id, i + 1, all.len() as int);
                    }
                    return Some(
                        concat("Unknown file_id returned by analysis service: ", id.as_str()),
                    );
                }
            },
            None => {},
        }
        i = i + 1;
    }
    None
}

/// Whether the batch `job` ends in a failure that is published.
pub open spec fn batch_fails(
    s: ServerModel,
    job: BatchJobView,
    outcome: Result<(Option<Seq<char>>, Seq<FileAnalysisResultView>), ApiErrorView>,
) -> bool {
    held(s.pending, job.workspace_key) == Some(job.task) && match outcome {
        Ok((_, results)) => batch_outcome(job.snapshots, results, s.analysis).failure is Some,
        Err(_) => true,
    }
}

impl ServerState {
    fn report_failure(
        &self,
        workspace_key: &str,
        reason: &str,
        actions: &mut Vec<ServerAction>,
    ) -> (order: Ghost<Seq<Seq<char>>>)
        ensures
            enumerates(order@, self.model().documents),
            final(actions).deep_view() == old(actions).deep_view() + failure_actions(
                self.model().documents,
                order@,
                workspace_key@,
                reason@,
            ),
    {
        let uris = document_uris(&self.documents);
        let ghost order = uris.deep_view();
        let ghost documents = self.model().documents;
        let ghost published = actions.deep_view();
        let mut i: usize = 0;
        assert(actions.deep_view() =~= published + failure_report(
            documents,
            order,
            workspace_key@,
            reason@,
            0,
        ));
        while i < uris.len()
            invariant
                i <= uris.len(),
                order == uris.deep_view(),
                documents == documents_held(self.documents),
                actions.deep_view() == published + failure_report(
                    documents,
                    order,
                    workspace_key@,
                    reason@,
                    i as int,
                ),
            decreases uris.len() - i,
        {
            assert(order[i as int] == uris@[i as int]@);
            let ghost sofar = actions.deep_view();
            match document(&self.documents, uris[i].as_str()) {
                Some(snapshot) => {
                    let key = workspace_key_for_path(
                        optional_str(&snapshot.workspace_path),
                        snapshot.uri.path.as_str(),
                    );
                    if str_eq(key.as_str(), workspace_key) {
                        let publish = ServerAction::PublishDiagnostics {
                            uri: uris[i].clone(),
                            diagnostics: just(build_analysis_failure_diagnostic(reason)),
                            version: Some(snapshot.version),
                        };
                        actions.push(publish);
                        assert(actions.deep_view() =~= sofar.push(publish.deep_view()));
                    }
                },
                None => {},
            }
            i = i + 1;
            assert(actions.deep_view() =~= published + failure_report(
                documents,
                order,
                workspace_key@,
                reason@,
                i as int,
            ));
        }
        let ghost reported = actions.deep_view();
        let show = ServerAction::ShowMessage {
            kind: MessageType::Error,
            message: concat("Vulnera dependency analysis failed: ", reason),
        };
        let log = ServerAction::LogMessage {
            kind: MessageType::Error,
            message: concat("Dependency analysis failed: ", reason),
        };
        actions.push(show);
        actions.push(log);
        assert(actions.deep_view() =~= reported + failure_notices(reason@));
        assert(actions.deep_view() =~= published + failure_actions(
            documents,
            order,
            workspace_key@,
            reason@,
        ));
        Ghost(order)
    }

    /// Ends a batch with what came of its request: see `after_complete`. The
    /// order in which a failure is published for the documents of the
    /// workspace is that in which the store hands its documents out.
    pub fn complete_batch(
        &mut self,
        job: BatchJob,
        outcome: Result<BatchDependencyAnalysisResponse, ApiError>,
    ) -> (actions: Vec<ServerAction>)
        ensures
            exists|order: Seq<Seq<char>>|
                (batch_fails(old(self).model(), job.deep_view(), answer_view(outcome))
                    ==> enumerates(order, old(self).model().documents)) && (
                    final(self).model(),
                    actions.deep_view(),
                ) == #[trigger] after_complete(
                    old(self).model(),
                    job.deep_view(),
                    answer_view(outcome),
                    order,
                ),
            well_formed(old(self).model()) ==> well_formed(final(self).model()),
    {
        let ghost before = self.model();
        let ghost wanted = answer_view(outcome);
        let mut actions: Vec<ServerAction> = Vec::new();
        assert(actions.deep_view() =~= Seq::empty());
        match take_task(&mut self.pending, job.workspace_key.as_str()) {
            Some(waited) => {
                if waited != job.task {
                    put_task(&mut self.pending, job.workspace_key.clone(), waited);
                    assert(self.model().pending =~= before.pending);
                    assert((self.model(), actions.deep_view()) == after_complete(
                        before,
                        job.deep_view(),
                        wanted,
                        Seq::empty(),
                    ));
                    return actions;
                }
            },
            None => {
                assert(self.model().pending =~= before.pending);
                assert((self.model(), actions.deep_view()) == after_complete(
                    before,
                    job.deep_view(),
                    wanted,
                    Seq::empty(),
                ));
                return actions;
            },
        }
        match outcome {
            Ok(response) => {
                match &response.metadata.request_id {
                    Some(id) => {
                        let log = ServerAction::LogMessage {
                            kind: MessageType::Info,
                            message: concat("Vulnera dependency batch request_id=", id.as_str()),
                        };
                        actions.push(log);
                        assert(actions.deep_view() =~= seq![log.deep_view()]);
                    },
                    None => {},
                }
                let ghost logged = actions.deep_view();
                let (mut dealt, ended) = self.run_batch_analysis(&job, response.results);
                let ghost dealt_view = dealt.deep_view();
                actions.append(&mut dealt);
                assert(actions.deep_view() =~= logged + dealt_view);
                match ended {
                    Ok(_) => {
                        assert(actions.deep_view() =~= logged + dealt_view + Seq::empty());
                        assert((self.model(), actions.deep_view()) == after_complete(
                            before,
                            job.deep_view(),
                            wanted,
                            Seq::empty(),
                        ));
                    },
                    Err(reason) => {
                        let order = self.report_failure(
                            job.workspace_key.as_str(),
                            reason.as_str(),
                            &mut actions,
                        );
                        assert((self.model(), actions.deep_view()) == after_complete(
                            before,
                            job.deep_view(),
                            wanted,
                            order@,
                        ));
                    },
                }
            },
            Err(error) => {
                let reason = error.message();
                let order = self.report_failure(
                    job.workspace_key.as_str(),
                    reason.as_str(),
                    &mut actions,
                );
                assert(actions.deep_view() =~= failure_actions(
                    before.documents,
                    order@,
                    job.workspace_key@,
                    reason@,
                ));
                assert((self.model(), actions.deep_view()) == after_complete(
                    before,
                    job.deep_view(),
                    wanted,
                    order@,
                ));
            },
        }
        actions
    }
}

/// Of waiting URIs without repetition, in a store that holds each document
/// under its own URI, the snapshots are of different URIs, each one of the
/// waiting ones.
pub proof fn lemma_snapshots_differ(
    documents: Map<Seq<char>, DocumentSnapshotView>,
    uris: Seq<Seq<char>>,
    n: int,
)
    requires
        0 <= n <= uris.len(),
        uris.no_duplicates(),
        forall|uri: Seq<char>| #[trigger]
            documents.contains_key(uri) ==> documents[uri].uri.text == uri,
    ensures
        batch_uris(snapshots_of(documents, uris, n)).no_duplicates(),
        forall|i: int|
            0 <= i < snapshots_of(documents, uris, n).len() ==> exists|j: int|
                0 <= j < n && uris[j] == #[trigger] batch_uris(snapshots_of(documents, uris, n))[i],
    decreases n,
{
    if n > 0 {
        lemma_snapshots_differ(documents, uris, n - 1);
        let rest = snapshots_of(documents, uris, n - 1);
        let all = snapshots_of(documents, uris, n);
        if documents.contains_key(uris[n - 1]) && !is_unknown(documents[uris[n - 1]]) {
            assert(all == rest.push(documents[uris[n - 1]]));
            assert(batch_uris(all)[rest.len() as int] == uris[n - 1]);
            assert forall|i: int| 0 <= i < all.len() implies exists|j: int|
                0 <= j < n && uris[j] == #[trigger] batch_uris(all)[i] by {
                if i < rest.len() {
                    assert(batch_uris(all)[i] == batch_uris(rest)[i]);
                    let j = choose|j: int| 0 <= j < n - 1 && uris[j] == batch_uris(rest)[i];
                    assert(uris[j] == batch_uris(all)[i]);
                } else {
                    assert(uris[n - 1] == batch_uris(all)[i]);
                }
            }
            assert forall|i: int, k: int|
                0 <= i < all.len() && 0 <= k < all.len() && i != k implies batch_uris(all)[i]
                != batch_uris(all)[k] by {
                if i < rest.len() && k < rest.len() {
                    assert(batch_uris(all)[i] == batch_uris(rest)[i]);
                    assert(batch_uris(all)[k] == batch_uris(rest)[k]);
                } else if i < rest.len() {
                    assert(batch_uris(all)[i] == batch_uris(rest)[i]);
                    let j = choose|j: int| 0 <= j < n - 1 && uris[j] == batch_uris(rest)[i];
                    assert(uris[j] != uris[n - 1]);
                } else {
                    assert(batch_uris(all)[k] == batch_uris(rest)[k]);
                    let j = choose|j: int| 0 <= j < n - 1 && uris[j] == batch_uris(rest)[k];
                    assert(uris[j] != uris[n - 1]);
                }
            }
        } else {
            assert(all == rest);
        }
    }
}

/// In a well-formed state a batch that begins holds each of its documents
/// once.
pub proof fn lemma_batch_has_one_file_each(s: ServerModel, key: Seq<char>, task: u64)
    requires
        well_formed(s),
    ensures
        one_file_each(after_begin(s, key, task).1),
{
    if s.dirty.contains_key(key) {
        lemma_snapshots_differ(s.documents, s.dirty[key], s.dirty[key].len() as int);
    }
    let none = Seq::<Seq<char>>::empty();
    lemma_snapshots_differ(s.documents, none, 0);
}

/// A well-formed state stays well formed: when a document is stored, when one
/// is scheduled or closed, and when a batch begins.
pub proof fn lemma_well_formed_stays(
    s: ServerModel,
    document: DocumentSnapshotView,
    uri: Seq<char>,
    key: Seq<char>,
    task: u64,
)
    requires
        well_formed(s),
    ensures
        well_formed(with_document(s, document)),
        well_formed(after_schedule(s, uri).0),
        well_formed(after_remove(s, uri).0),
        well_formed(after_begin(s, key, task).0),
{
    let stored = with_document(s, document);
    assert forall|u: Seq<char>| #[trigger]
        stored.documents.contains_key(u) implies stored.documents[u].uri.text == u by {
        if u != document.uri.text {
            assert(s.documents.contains_key(u));
        }
    }
    let scheduled = after_schedule(s, uri).0;
    assert forall|k: Seq<char>| #[trigger]
        scheduled.dirty.contains_key(k) implies scheduled.dirty[k].no_duplicates() by {
        if s.documents.contains_key(uri) && !is_unknown(s.documents[uri]) && k == key_of(
            s.documents[uri],
        ) {
            let waiting = match held(s.dirty, k) {
                Some(uris) => uris,
                None => Seq::empty(),
            };
            if s.dirty.contains_key(k) {
                assert(s.dirty[k].no_duplicates());
            }
            assert(with_uri(waiting, uri).no_duplicates());
        } else {
            assert(s.dirty.contains_key(k));
        }
    }
    let removed = after_remove(s, uri).0;
    assert forall|k: Seq<char>| #[trigger]
        removed.dirty.contains_key(k) implies removed.dirty[k].no_duplicates() by {
        assert(s.dirty.contains_key(k));
        if s.documents.contains_key(uri) && k == key_of(s.documents[uri]) {
            lemma_without_uri(s.dirty[k], uri, s.dirty[k].len() as int);
        }
    }
    assert forall|u: Seq<char>| #[trigger]
        removed.documents.contains_key(u) implies removed.documents[u].uri.text == u by {
        assert(s.documents.contains_key(u));
    }
    let begun = after_begin(s, key, task).0;
    assert forall|k: Seq<char>| #[trigger]
        begun.dirty.contains_key(k) implies begun.dirty[k].no_duplicates() by {
        assert(s.dirty.contains_key(k));
    }
}

} // verus!
