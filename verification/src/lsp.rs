//! The language server: what each notification and request of the client does
//! to the state, and what comes of it.

use crate::api::VersionRecommendationDto;
use crate::code_actions::{
    build_code_actions, code_actions_of, CodeAction, CodeActionKind, CodeActionView,
};
use crate::config::{config_from_env, config_with_options, Config};
use crate::diagnostics::{clone_diagnostics, Diagnostic, DiagnosticView};
use crate::position::{resolve, resolve_position, Position, Range};
use crate::state::{
    after_remove, after_schedule, client_of, held, well_formed, with_document, DocumentSnapshot,
    DocumentSnapshotView, MessageType, ServerAction, ServerActionView, ServerModel, ServerState,
};
use crate::text::{
    chars_end_with_ignore_ascii_case, decimal, decimal_text, ends_with_ignoring_ascii_case,
    lemma_utf8_len_is_encoded_len, str_eq, to_chars, utf8_len,
};
use crate::uri::{last_segment, DocumentUri, DocumentUriView};
use serde_json::Value;
use vstd::prelude::*;
use vstd::string::{StrSliceExecFns, StringExecFns};

verus! {

/// The ecosystem that a file name stands for, by its ending and whatever the
/// case of its letters; `unknown` where the name says nothing.
pub open spec fn ecosystem_of_name(name: Seq<char>) -> Seq<char> {
    if ends_with_ignoring_ascii_case(name, "package.json"@) || ends_with_ignoring_ascii_case(
        name,
        "package-lock.json"@,
    ) || ends_with_ignoring_ascii_case(name, "yarn.lock"@) || ends_with_ignoring_ascii_case(
        name,
        "pnpm-lock.yaml"@,
    ) {
        "npm"@
    } else if ends_with_ignoring_ascii_case(name, "requirements.txt"@)
        || ends_with_ignoring_ascii_case(name, "pyproject.toml"@) || ends_with_ignoring_ascii_case(
        name,
        "pipfile"@,
    ) || ends_with_ignoring_ascii_case(name, "pipfile.lock"@) || ends_with_ignoring_ascii_case(
        name,
        "poetry.lock"@,
    ) || ends_with_ignoring_ascii_case(name, "uv.lock"@) {
        "pypi"@
    } else if ends_with_ignoring_ascii_case(name, "cargo.toml"@) || ends_with_ignoring_ascii_case(
        name,
        "cargo.lock"@,
    ) {
        "cargo"@
    } else if ends_with_ignoring_ascii_case(name, "go.mod"@) || ends_with_ignoring_ascii_case(
        name,
        "go.sum"@,
    ) {
        "go"@
    } else if ends_with_ignoring_ascii_case(name, "pom.xml"@) || ends_with_ignoring_ascii_case(
        name,
        "build.gradle"@,
    ) || ends_with_ignoring_ascii_case(name, "build.gradle.kts"@)
        || ends_with_ignoring_ascii_case(name, "gradle.lockfile"@) {
        "maven"@
    } else if ends_with_ignoring_ascii_case(name, "composer.json"@)
        || ends_with_ignoring_ascii_case(name, "composer.lock"@) {
        "packagist"@
    } else {
        "unknown"@
    }
}

/// The ecosystem that a language stands for; `unknown` where it is none of
/// the known ones.
pub open spec fn ecosystem_of_language(language_id: Seq<char>) -> Seq<char> {
    if language_id == "javascript"@ || language_id == "typescript"@ {
        "npm"@
    } else if language_id == "python"@ {
        "pypi"@
    } else if language_id == "rust"@ {
        "cargo"@
    } else if language_id == "go"@ {
        "go"@
    } else if language_id == "java"@ || language_id == "kotlin"@ {
        "maven"@
    } else if language_id == "php"@ {
        "packagist"@
    } else {
        "unknown"@
    }
}

/// The ecosystem of a document: by its file name where it has one, and by its
/// language only where it has none. Never by what the document holds.
pub open spec fn ecosystem_of(file_name: Option<Seq<char>>, language_id: Option<Seq<char>>) -> Seq<
    char,
> {
    match file_name {
        Some(name) => ecosystem_of_name(name),
        None => match language_id {
            Some(id) => ecosystem_of_language(id),
            None => "unknown"@,
        },
    }
}

fn ecosystem_for_name(name: &str) -> (ecosystem: &'static str)
    ensures
        ecosystem@ == ecosystem_of_name(name@),
{
    let chars = to_chars(name);
    if chars_end_with_ignore_ascii_case(&chars, "package.json") || chars_end_with_ignore_ascii_case(
        &chars,
        "package-lock.json",
    ) || chars_end_with_ignore_ascii_case(&chars, "yarn.lock") || chars_end_with_ignore_ascii_case(
        &chars,
        "pnpm-lock.yaml",
    ) {
        "npm"
    } else if chars_end_with_ignore_ascii_case(&chars, "requirements.txt")
        || chars_end_with_ignore_ascii_case(&chars, "pyproject.toml")
        || chars_end_with_ignore_ascii_case(&chars, "pipfile") || chars_end_with_ignore_ascii_case(
        &chars,
        "pipfile.lock",
    ) || chars_end_with_ignore_ascii_case(&chars, "poetry.lock")
        || chars_end_with_ignore_ascii_case(&chars, "uv.lock") {
        "pypi"
    } else if chars_end_with_ignore_ascii_case(&chars, "cargo.toml")
        || chars_end_with_ignore_ascii_case(&chars, "cargo.lock") {
        "cargo"
    } else if chars_end_with_ignore_ascii_case(&chars, "go.mod")
        || chars_end_with_ignore_ascii_case(&chars, "go.sum") {
        "go"
    } else if chars_end_with_ignore_ascii_case(&chars, "pom.xml")
        || chars_end_with_ignore_ascii_case(&chars, "build.gradle")
        || chars_end_with_ignore_ascii_case(&chars, "build.gradle.kts")
        || chars_end_with_ignore_ascii_case(&chars, "gradle.lockfile") {
        "maven"
    } else if chars_end_with_ignore_ascii_case(&chars, "composer.json")
        || chars_end_with_ignore_ascii_case(&chars, "composer.lock") {
        "packagist"
    } else {
        "unknown"
    }
}

fn ecosystem_for_language(language_id: &str) -> (ecosystem: &'static str)
    ensures
        ecosystem@ == ecosystem_of_language(language_id@),
{
    if str_eq(language_id, "javascript") || str_eq(language_id, "typescript") {
        "npm"
    } else if str_eq(language_id, "python") {
        "pypi"
    } else if str_eq(language_id, "rust") {
        "cargo"
    } else if str_eq(language_id, "go") {
        "go"
    } else if str_eq(language_id, "java") || str_eq(language_id, "kotlin") {
        "maven"
    } else if str_eq(language_id, "php") {
        "packagist"
    } else {
        "unknown"
    }
}

/// The ecosystem of a document with this file name and this language.
pub fn detect_ecosystem(file_name: &Option<String>, language_id: Option<&str>) -> (ecosystem:
    String)
    ensures
        ecosystem@ == ecosystem_of(file_name.deep_view(), language_id.deep_view()),
{
    match file_name {
        Some(name) => String::from_str(ecosystem_for_name(name.as_str())),
        None => match language_id {
            Some(id) => String::from_str(ecosystem_for_language(id)),
            None => String::from_str("unknown"),
        },
    }
}

/// One change to a document: a new text for a range of it, or, without a
/// range, for all of it.
#[derive(Debug)]
pub struct ContentChange {
    pub range: Option<Range>,
    pub range_length: Option<u32>,
    pub text: String,
}

/// A `ContentChange`, as a mathematical value.
pub struct ContentChangeView {
    pub range: Option<Range>,
    pub range_length: Option<u32>,
    pub text: Seq<char>,
}

impl DeepView for ContentChange {
    type V = ContentChangeView;

    open spec fn deep_view(&self) -> ContentChangeView {
        ContentChangeView { range: self.range, range_length: self.range_length, text: self.text@ }
    }
}

/// Why a change does not apply.
#[derive(Clone, Copy, Debug, PartialEq, Eq, Structural)]
pub enum EditError {
    /// The text has no place at the range's start.
    InvalidStart(Position),
    /// The text has no place at the range's end.
    InvalidEnd(Position),
    /// The range's start lies after its end; with the byte offsets of both
    /// and the length of the text.
    InvalidOffsets { start: usize, end: usize, len: usize },
}

/// `text` after one change, or why the change does not apply.
pub open spec fn change_applied(text: Seq<char>, change: ContentChangeView) -> Result<
    Seq<char>,
    EditError,
> {
    match change.range {
        None => Ok(change.text),
        Some(range) => match resolve(text, range.start) {
            None => Err(EditError::InvalidStart(range.start)),
            Some(start) => match resolve(text, range.end) {
                None => Err(EditError::InvalidEnd(range.end)),
                Some(end) => if start > end {
                    Err(
                        EditError::InvalidOffsets {
                            start: utf8_len(text, start) as usize,
                            end: utf8_len(text, end) as usize,
                            len: utf8_len(text, text.len() as int) as usize,
                        },
                    )
                } else {
                    Ok(
                        text.subrange(0, start) + change.text + text.subrange(
                            end,
                            text.len() as int,
                        ),
                    )
                },
            },
        },
    }
}

/// `text` after the first `n` changes, one after the other, or why the first
/// of them that does not apply does not.
pub open spec fn changes_applied(
    text: Seq<char>,
    changes: Seq<ContentChangeView>,
    n: int,
) -> Result<Seq<char>, EditError>
    decreases n,
{
    if n <= 0 {
        Ok(text)
    } else {
        match changes_applied(text, changes, n - 1) {
            Ok(changed) => change_applied(changed, changes[n - 1]),
            Err(error) => Err(error),
        }
    }
}

proof fn lemma_changes_fail(text: Seq<char>, changes: Seq<ContentChangeView>, i: int, n: int)
    requires
        0 <= i <= n,
        changes_applied(text, changes, i) is Err,
    ensures
        changes_applied(text, changes, n) == changes_applied(text, changes, i),
    decreases n - i,
{
    if i < n {
        lemma_changes_fail(text, changes, i, n - 1);
    }
}

fn apply_change(text: &str, change: &ContentChange) -> (changed: Result<String, EditError>)
    ensures
        match changed {
            Ok(new_text) => change_applied(text@, change.deep_view()) == Ok::<
                Seq<char>,
                EditError,
            >(new_text@),
            Err(error) => change_applied(text@, change.deep_view()) == Err::<Seq<char>, EditError>(
                error,
            ),
        },
{
    let range = match change.range {
        Some(range) => range,
        None => {
            return Ok(change.text.clone());
        },
    };
    let chars = to_chars(text);
    let len: usize = text.as_bytes().len();
    proof {
        lemma_utf8_len_is_encoded_len(text@);
    }
    let (start, start_offset) = match resolve_position(&chars, range.start) {
        Some(place) => place,
        None => {
            return Err(EditError::InvalidStart(range.start));
        },
    };
    let (end, end_offset) = match resolve_position(&chars, range.end) {
        Some(place) => place,
        None => {
            return Err(EditError::InvalidEnd(range.end));
        },
    };
    if start > end {
        return Err(EditError::InvalidOffsets { start: start_offset, end: end_offset, len });
    }
    let head = text.substring_char(0, start);
    let tail = text.substring_char(end, chars.len());
    let mut changed = String::from_str(head);
    changed.append(change.text.as_str());
    changed.append(tail);
    Ok(changed)
}

/// Applies the changes to `text`, one after the other. Where one of them does
/// not apply, `text` stays as it was.
pub fn apply_content_changes(text: &mut String, changes: &[ContentChange]) -> (outcome: Result<
    (),
    EditError,
>)
    ensures
        match outcome {
            Ok(_) => changes_applied(
                old(text)@,
                changes.deep_view(),
                changes.deep_view().len() as int,
            ) == Ok::<Seq<char>, EditError>(final(text)@),
            Err(error) => changes_applied(
                old(text)@,
                changes.deep_view(),
                changes.deep_view().len() as int,
            ) == Err::<Seq<char>, EditError>(error) && final(text)@ == old(text)@,
        },
{
    let ghost all = changes.deep_view();
    let mut current = text.clone();
    let mut i: usize = 0;
    while i < changes.len()
        invariant
            i <= changes.len(),
            all == changes.deep_view(),
            text@ == old(text)@,
            changes_applied(old(text)@, all, i as int) == Ok::<Seq<char>, EditError>(current@),
        decreases changes.len() - i,
    {
        assert(all[i as int] == changes@[i as int].deep_view());
        match apply_change(current.as_str(), &changes[i]) {
            Ok(changed) => {
                current = changed;
            },
            Err(error) => {
                proof {
                    lemma_changes_fail(old(text)@, all, i + 1, all.len() as int);
                }
                return Err(error);
            },
        }
        i = i + 1;
    }
    *text = current;
    Ok(())
}

/// How the client is to send the changes of a document.
#[derive(Clone, Copy, Debug, PartialEq, Eq, Structural)]
pub enum TextDocumentSyncKind {
    Full,
    Incremental,
}

/// What the server tells the client that it can do.
#[derive(Debug)]
pub struct ServerCapabilities {
    /// The client is to tell of documents that open and close.
    pub open_close: bool,
    pub change: TextDocumentSyncKind,
    /// The client is to send a document's text along when it is saved.
    pub save_include_text: bool,
    /// The kinds of code action that the server offers.
    pub code_action_kinds: Vec<CodeActionKind>,
    /// The server's code actions are complete as they come.
    pub resolve_provider: bool,
}

/// The server's answer to `initialize`.
#[derive(Debug)]
pub struct InitializeResult {
    pub capabilities: ServerCapabilities,
    pub server_name: String,
    pub server_version: String,
}

/// The document that the client opened, as the server stores it.
pub open spec fn opened(
    uri: DocumentUriView,
    language_id: Seq<char>,
    version: i32,
    text: Seq<char>,
) -> DocumentSnapshotView {
    DocumentSnapshotView {
        uri,
        text,
        version,
        language_id: Some(language_id),
        file_name: last_segment(uri.path),
        workspace_path: Some(uri.path),
        ecosystem: ecosystem_of(last_segment(uri.path), Some(language_id)),
    }
}

/// A document under `uri` with a new text and version, and the language of
/// the document that was there before, where there was one.
pub open spec fn revised(
    previous: Option<DocumentSnapshotView>,
    uri: DocumentUriView,
    version: i32,
    text: Seq<char>,
) -> DocumentSnapshotView {
    let language_id = match previous {
        Some(document) => document.language_id,
        None => None,
    };
    DocumentSnapshotView {
        uri,
        text,
        version,
        language_id,
        file_name: last_segment(uri.path),
        workspace_path: Some(uri.path),
        ecosystem: ecosystem_of(last_segment(uri.path), language_id),
    }
}

/// Among the first `n` changes, the text of the last one that replaces the
/// whole document.
pub open spec fn last_full_text(changes: Seq<ContentChangeView>, n: int) -> Option<Seq<char>>
    decreases n,
{
    if n <= 0 {
        None
    } else if changes[n - 1].range is None {
        Some(changes[n - 1].text)
    } else {
        last_full_text(changes, n - 1)
    }
}

/// The text of a document after the client's changes. Changes that do not
/// apply leave the text of the last change that replaces the whole document,
/// or, without such a change, the text as it was.
pub open spec fn text_after(previous: Seq<char>, changes: Seq<ContentChangeView>) -> Seq<char> {
    match changes_applied(previous, changes, changes.len() as int) {
        Ok(text) => text,
        Err(_) => match last_full_text(changes, changes.len() as int) {
            Some(text) => text,
            None => previous,
        },
    }
}

/// What an edit error reads as.
pub open spec fn edit_error_text(error: EditError) -> Seq<char> {
    match error {
        EditError::InvalidStart(position) => "Invalid start position: "@ + position_text(position),
        EditError::InvalidEnd(position) => "Invalid end position: "@ + position_text(position),
        EditError::InvalidOffsets { start, end, len } => "Invalid edit range offsets: start="@
            + decimal_text(start as nat) + ", end="@ + decimal_text(end as nat) + ", len="@
            + decimal_text(len as nat),
    }
}

/// What a position reads as.
pub open spec fn position_text(position: Position) -> Seq<char> {
    "Position { line: "@ + decimal_text(position.line as nat) + ", character: "@ + decimal_text(
        position.character as nat,
    ) + " }"@
}

/// The warning that is logged where changes do not apply.
pub open spec fn edit_warning(
    uri: Seq<char>,
    previous: Seq<char>,
    changes: Seq<ContentChangeView>,
) -> Seq<ServerActionView> {
    match changes_applied(previous, changes, changes.len() as int) {
        Ok(_) => Seq::empty(),
        Err(error) => seq![
            ServerActionView::LogMessage {
                kind: MessageType::Warning,
                message: "Failed to apply incremental change for "@ + uri + ": "@
                    + edit_error_text(error) + ". Falling back to last full text."@,
            },
        ],
    }
}

/// The text of a document before a change: nothing where it is not open.
pub open spec fn text_before(previous: Option<DocumentSnapshotView>) -> Seq<char> {
    match previous {
        Some(document) => document.text,
        None => Seq::empty(),
    }
}

/// The state after the client opened a document, and what is to do: the
/// document is stored and its analysis is asked for.
pub open spec fn after_open(
    s: ServerModel,
    uri: DocumentUriView,
    language_id: Seq<char>,
    version: i32,
    text: Seq<char>,
) -> (ServerModel, Seq<ServerActionView>) {
    after_schedule(with_document(s, opened(uri, language_id, version, text)), uri.text)
}

/// The state after the client changed a document, and what is to do: the
/// document is stored with its new text and version, a warning is logged where
/// the changes did not apply, and the document's analysis is asked for.
pub open spec fn after_change(
    s: ServerModel,
    uri: DocumentUriView,
    version: i32,
    changes: Seq<ContentChangeView>,
) -> (ServerModel, Seq<ServerActionView>) {
    let previous = held(s.documents, uri.text);
    let text = text_after(text_before(previous), changes);
    let scheduled = after_schedule(
        with_document(s, revised(previous, uri, version, text)),
        uri.text,
    );
    (scheduled.0, edit_warning(uri.text, text_before(previous), changes) + scheduled.1)
}

/// The state after the client saved a document, and what is to do: where the
/// text came along the document is stored with it, under the version that it
/// had (or 0); in either case the document's analysis is asked for.
pub open spec fn after_save(s: ServerModel, uri: DocumentUriView, text: Option<Seq<char>>) -> (
    ServerModel,
    Seq<ServerActionView>,
) {
    match text {
        Some(text) => {
            let previous = held(s.documents, uri.text);
            let version = match previous {
                Some(document) => document.version,
                None => 0i32,
            };
            after_schedule(with_document(s, revised(previous, uri, version, text)), uri.text)
        },
        None => after_schedule(s, uri.text),
    }
}

/// The state after the client closed a document, and what is to do: the
/// document is forgotten and its diagnostics are retracted.
pub open spec fn after_close(s: ServerModel, uri: Seq<char>) -> (
    ServerModel,
    Seq<ServerActionView>,
) {
    let removed = after_remove(s, uri);
    (
        removed.0,
        removed.1.push(
            ServerActionView::PublishDiagnostics {
                uri,
                diagnostics: Seq::empty(),
                version: None,
            },
        ),
    )
}

/// `action` with `diagnostics` attached.
pub open spec fn attached(
    action: CodeActionView,
    diagnostics: Seq<DiagnosticView>,
) -> CodeActionView {
    CodeActionView { diagnostics: Some(diagnostics), ..action }
}

/// The quick fixes for a document: none where no analysis of it is cached;
/// else those for the cached recommendations and the document's text as it is
/// now, each with the cached diagnostics attached.
pub open spec fn code_actions_for(s: ServerModel, uri: Seq<char>) -> Seq<CodeActionView> {
    match held(s.analysis, uri) {
        None => Seq::empty(),
        Some(cached) => {
            let recommendations = match cached.result.version_recommendations {
                Some(recommendations) => recommendations,
                None => Seq::empty(),
            };
            let document = held(s.documents, uri);
            let actions = code_actions_of(
                uri,
                cached.result.ecosystem,
                text_before(document),
                recommendations,
                match document {
                    Some(document) => document.language_id,
                    None => None,
                },
                recommendations.len() as int,
            );
            Seq::new(actions.len(), |i: int| attached(actions[i], cached.diagnostics))
        },
    }
}

/// A language server: its state, and one method for each message of the
/// client.
pub struct VulneraLanguageServer {
    /// The state; batches begin and end on it.
    pub state: ServerState,
}

fn position_string(position: Position) -> (text: String)
    ensures
        text@ == position_text(position),
{
    let mut text = String::from_str("Position { line: ");
    text.append(decimal(position.line as u64).as_str());
    text.append(", character: ");
    text.append(decimal(position.character as u64).as_str());
    text.append(" }");
    text
}

impl EditError {
    /// The error in words.
    pub fn message(&self) -> (text: String)
        ensures
            text@ == edit_error_text(*self),
    {
        match self {
            EditError::InvalidStart(position) => {
                let mut text = String::from_str("Invalid start position: ");
                text.append(position_string(*position).as_str());
                text
            },
            EditError::InvalidEnd(position) => {
                let mut text = String::from_str("Invalid end position: ");
                text.append(position_string(*position).as_str());
                text
            },
            EditError::InvalidOffsets { start, end, len } => {
                let mut text = String::from_str("Invalid edit range offsets: start=");
                text.append(decimal(*start as u64).as_str());
                text.append(", end=");
                text.append(decimal(*end as u64).as_str());
                text.append(", len=");
                text.append(decimal(*len as u64).as_str());
                text
            },
        }
    }
}

fn find_full_text(changes: &[ContentChange]) -> (text: Option<String>)
    ensures
        text.deep_view() == last_full_text(changes.deep_view(), changes.deep_view().len() as int),
{
    let ghost all = changes.deep_view();
    let mut n: usize = changes.len();
    while n > 0
        invariant
            n <= changes.len(),
            all == changes.deep_view(),
            last_full_text(all, all.len() as int) == last_full_text(all, n as int),
        decreases n,
    {
        assert(all[n - 1] == changes@[n - 1].deep_view());
        if changes[n - 1].range.is_none() {
            return Some(changes[n - 1].text.clone());
        }
        n = n - 1;
    }
    None
}

fn attach_diagnostics(actions: Vec<CodeAction>, diagnostics: &Vec<Diagnostic>) -> (complete: Vec<
    CodeAction,
>)
    ensures
        complete.deep_view() == Seq::new(
            actions.deep_view().len(),
            |i: int| attached(actions.deep_view()[i], diagnostics.deep_view()),
        ),
{
    let ghost given = actions@;
    let ghost all = actions.deep_view();
    let ghost attach = diagnostics.deep_view();
    let mut complete: Vec<CodeAction> = Vec::new();
    let count: usize = actions.len();
    let mut i: usize = 0;
    assert(complete.deep_view() =~= Seq::new(0nat, |j: int| attached(all[j], attach)));
    for action in it: actions
        invariant
            it.seq() == given,
            given.len() == count,
            i == it.index(),
            attach == diagnostics.deep_view(),
            all.len() == given.len(),
            forall|j: int| 0 <= j < given.len() ==> all[j] == given[j].deep_view(),
            complete.deep_view() == Seq::new(i as nat, |j: int| attached(all[j], attach)),
    {
        let ghost before = complete.deep_view();
        let mut action = action;
        action.diagnostics = Some(clone_diagnostics(diagnostics));
        complete.push(action);
        assert(complete.deep_view() =~= before.push(attached(all[i as int], attach)));
        i = i + 1;
        assert(complete.deep_view() =~= Seq::new(i as nat, |j: int| attached(all[j], attach)));
    }
    complete
}

impl VulneraLanguageServer {
    /// The state as a mathematical value.
    pub open spec fn model(&self) -> ServerModel {
        self.state.model()
    }

    /// A server that starts with `config`.
    pub fn new(config: Config) -> (server: VulneraLanguageServer)
        ensures
            server.model() == crate::state::initial_model(config.deep_view()),
            well_formed(server.model()),
    {
        VulneraLanguageServer { state: ServerState::new(config) }
    }

    /// Answers `initialize`: takes the settings that the environment and the
    /// client's options give, and says what the server can do.
    pub fn initialize(&mut self, env: &Vec<(String, String)>, options: Option<Value>) -> (answer:
        InitializeResult)
        ensures
            ({
                let config = match options {
                    Some(sent) => config_with_options(config_from_env(env.deep_view()), sent),
                    None => config_from_env(env.deep_view()),
                };
                final(self).model() == (ServerModel {
                    config,
                    client: client_of(config, old(self).model().client),
                    ..old(self).model()
                })
            }),
            answer.capabilities.open_close,
            answer.capabilities.change == TextDocumentSyncKind::Incremental,
            answer.capabilities.save_include_text,
            answer.capabilities.code_action_kinds@ == seq![CodeActionKind::QuickFix],
            !answer.capabilities.resolve_provider,
            answer.server_name@ == "Vulnera Dependency LSP"@,
            answer.server_version@ == "0.1.0"@,
            well_formed(old(self).model()) ==> well_formed(final(self).model()),
    {
        let config = Config::from_env(env).apply_initialize_options(options);
        self.state.update_config(config);
        let mut kinds: Vec<CodeActionKind> = Vec::new();
        kinds.push(CodeActionKind::QuickFix);
        InitializeResult {
            capabilities: ServerCapabilities {
                open_close: true,
                change: TextDocumentSyncKind::Incremental,
                save_include_text: true,
                code_action_kinds: kinds,
                resolve_provider: false,
            },
            server_name: String::from_str("Vulnera Dependency LSP"),
            server_version: String::from_str("0.1.0"),
        }
    }

    /// Answers `initialized`: one line for the client's log.
    pub fn initialized(&self) -> (actions: Vec<ServerAction>)
        ensures
            actions.deep_view() == seq![
                ServerActionView::LogMessage {
                    kind: MessageType::Info,
                    message: "Vulnera LSP initialized"@,
                },
            ],
    {
        let mut actions: Vec<ServerAction> = Vec::new();
        let log = ServerAction::LogMessage {
            kind: MessageType::Info,
            message: String::from_str("Vulnera LSP initialized"),
        };
        actions.push(log);
        assert(actions.deep_view() =~= seq![log.deep_view()]);
        actions
    }

    /// The client opened a document: see `after_open`.
    pub fn did_open(
        &mut self,
        uri: &DocumentUri,
        language_id: &str,
        version: i32,
        text: String,
    ) -> (actions: Vec<ServerAction>)
        ensures
            (final(self).model(), actions.deep_view()) == after_open(
                old(self).model(),
                uri.deep_view(),
                language_id@,
                version,
                text@,
            ),
            well_formed(old(self).model()) ==> well_formed(final(self).model()),
    {
        let file_name = uri.file_name();
        let ecosystem = detect_ecosystem(&file_name, Some(language_id));
        self.state.upsert_document(
            DocumentSnapshot {
                uri: uri.clone(),
                text,
                version,
                language_id: Some(String::from_str(language_id)),
                file_name,
                workspace_path: Some(uri.path.clone()),
                ecosystem,
            },
        );
        self.state.schedule_analysis(uri.text.as_str())
    }

    fn store_revision(
        &mut self,
        previous: Option<DocumentSnapshot>,
        uri: &DocumentUri,
        version: i32,
        text: String,
    )
        ensures
            final(self).model() == with_document(
                old(self).model(),
                revised(previous.deep_view(), uri.deep_view(), version, text@),
            ),
            well_formed(old(self).model()) ==> well_formed(final(self).model()),
    {
        let language_id = match previous {
            Some(document) => document.language_id,
            None => None,
        };
        let file_name = uri.file_name();
        let ecosystem = detect_ecosystem(
            &file_name,
            match &language_id {
                Some(id) => Some(id.as_str()),
                None => None,
            },
        );
        self.state.upsert_document(
            DocumentSnapshot {
                uri: uri.clone(),
                text,
                version,
                language_id,
                file_name,
                workspace_path: Some(uri.path.clone()),
                ecosystem,
            },
        );
    }

    /// The client changed a document: see `after_change`.
    pub fn did_change(
        &mut self,
        uri: &DocumentUri,
        version: i32,
        changes: &[ContentChange],
    ) -> (actions: Vec<ServerAction>)
        ensures
            (final(self).model(), actions.deep_view()) == after_change(
                old(self).model(),
                uri.deep_view(),
                version,
                changes.deep_view(),
            ),
            well_formed(old(self).model()) ==> well_formed(final(self).model()),
    {
        let previous = self.state.document_snapshot(uri.text.as_str());
        let mut text = match &previous {
            Some(document) => document.text.clone(),
            None => String::new(),
        };
        let mut actions: Vec<ServerAction> = Vec::new();
        assert(actions.deep_view() =~= Seq::empty());
        match apply_content_changes(&mut text, changes) {
            Ok(_) => {},
            Err(error) => {
                let mut message = String::from_str("Failed to apply incremental change for ");
                message.append(uri.text.as_str());
                message.append(": ");
                message.append(error.message().as_str());
                message.append(". Falling back to last full text.");
                let log = ServerAction::LogMessage { kind: MessageType::Warning, message };
                actions.push(log);
                assert(actions.deep_view() =~= seq![log.deep_view()]);
                match find_full_text(changes) {
                    Some(full) => {
                        text = full;
                    },
                    None => {},
                }
            },
        }
        self.store_revision(previous, uri, version, text);
        let ghost warned = actions.deep_view();
        let mut scheduled = self.state.schedule_analysis(uri.text.as_str());
        let ghost asked = scheduled.deep_view();
        actions.append(&mut scheduled);
        assert(actions.deep_view() =~= warned + asked);
        actions
    }

    /// The client saved a document: see `after_save`.
    pub fn did_save(&mut self, uri: &DocumentUri, text: Option<String>) -> (actions: Vec<
        ServerAction,
    >)
        ensures
            (final(self).model(), actions.deep_view()) == after_save(
                old(self).model(),
                uri.deep_view(),
                text.deep_view(),
            ),
            well_formed(old(self).model()) ==> well_formed(final(self).model()),
    {
        match text {
            Some(text) => {
                let previous = self.state.document_snapshot(uri.text.as_str());
                let version: i32 = match &previous {
                    Some(document) => document.version,
                    None => 0,
                };
                self.store_revision(previous, uri, version, text);
            },
            None => {},
        }
        self.state.schedule_analysis(uri.text.as_str())
    }

    /// The client closed a document: see `after_close`.
    pub fn did_close(&mut self, uri: &str) -> (actions: Vec<ServerAction>)
        ensures
            (final(self).model(), actions.deep_view()) == after_close(old(self).model(), uri@),
            well_formed(old(self).model()) ==> well_formed(final(self).model()),
    {
        let mut actions = self.state.remove_document(uri);
        let ghost removed = actions.deep_view();
        let diagnostics: Vec<Diagnostic> = Vec::new();
        assert(diagnostics.deep_view() =~= Seq::empty());
        let publish = ServerAction::PublishDiagnostics {
            uri: String::from_str(uri),
            diagnostics,
            version: None,
        };
        actions.push(publish);
        assert(actions.deep_view() =~= removed.push(publish.deep_view()));
        actions
    }

    /// The quick fixes for a document: see `code_actions_for`.
    pub fn code_action(&self, uri: &str) -> (actions: Vec<CodeAction>)
        ensures
            actions.deep_view() == code_actions_for(self.model(), uri@),
    {
        let cached = match self.state.analysis_for(uri) {
            Some(cached) => cached,
            None => {
                let none: Vec<CodeAction> = Vec::new();
                assert(none.deep_view() =~= Seq::empty());
                return none;
            },
        };
        let recommendations: Vec<VersionRecommendationDto> = match cached
            .result.version_recommendations {
            Some(recommendations) => recommendations,
            None => {
                let none: Vec<VersionRecommendationDto> = Vec::new();
                assert(none.deep_view() =~= Seq::empty());
                none
            },
        };
        let document = self.state.document_snapshot(uri);
        let actions = match &document {
            Some(document) => build_code_actions(
                uri,
                cached.result.ecosystem.as_str(),
                document.text.as_str(),
                recommendations.as_slice(),
                match &document.language_id {
                    Some(id) => Some(id.as_str()),
                    None => None,
                },
            ),
            None => build_code_actions(
                uri,
                cached.result.ecosystem.as_str(),
                "",
                recommendations.as_slice(),
                None,
            ),
        };
        proof {
            reveal_strlit("");
            assert(""@ =~= Seq::<char>::empty());
        }
        attach_diagnostics(actions, &cached.diagnostics)
    }
}

} // verus!
