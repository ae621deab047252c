//! Turns the service's version recommendations into quick fixes.

use crate::api::{VersionRecommendationDto, VersionRecommendationView};
use crate::diagnostics::{Diagnostic, DiagnosticView};
use crate::package_locator::{find_package_version_range, located_range};
use crate::position::Range;
use crate::text::{clone_optional, kept_non_empty, non_empty};
use vstd::prelude::*;
use vstd::string::StringExecFns;

verus! {

/// The ways in which the service picks a safe version.
#[derive(Clone, Copy, Debug, PartialEq, Eq, Structural)]
pub enum Strategy {
    NearestSafeAboveCurrent,
    MostUpToDateSafe,
    NextSafeMinorWithinCurrentMajor,
}

/// The kinds of code action that this server offers.
#[derive(Clone, Copy, Debug, PartialEq, Eq, Structural)]
pub enum CodeActionKind {
    QuickFix,
}

/// Replaces a range of a document by a text.
#[derive(Debug)]
pub struct TextEdit {
    pub range: Range,
    pub new_text: String,
}

/// A `TextEdit`, as a mathematical value.
pub struct TextEditView {
    pub range: Range,
    pub new_text: Seq<char>,
}

impl DeepView for TextEdit {
    type V = TextEditView;

    open spec fn deep_view(&self) -> TextEditView {
        TextEditView { range: self.range, new_text: self.new_text@ }
    }
}

/// The edits of one document.
#[derive(Debug)]
pub struct WorkspaceEdit {
    pub uri: String,
    pub edits: Vec<TextEdit>,
}

/// A `WorkspaceEdit`, as a mathematical value.
pub struct WorkspaceEditView {
    pub uri: Seq<char>,
    pub edits: Seq<TextEditView>,
}

impl DeepView for WorkspaceEdit {
    type V = WorkspaceEditView;

    open spec fn deep_view(&self) -> WorkspaceEditView {
        WorkspaceEditView { uri: self.uri@, edits: self.edits.deep_view() }
    }
}

/// What the command `vulnera.applyRecommendation` is given: the package, the
/// strategy that was picked, and all three candidate versions.
#[derive(Debug)]
pub struct RecommendationPayload {
    pub package: String,
    pub ecosystem: String,
    pub strategy: String,
    pub language_id: Option<String>,
    pub nearest_safe_above_current: Option<String>,
    pub most_up_to_date_safe: Option<String>,
    pub next_safe_minor_within_current_major: Option<String>,
}

/// A `RecommendationPayload`, as a mathematical value.
pub struct RecommendationPayloadView {
    pub package: Seq<char>,
    pub ecosystem: Seq<char>,
    pub strategy: Seq<char>,
    pub language_id: Option<Seq<char>>,
    pub nearest_safe_above_current: Option<Seq<char>>,
    pub most_up_to_date_safe: Option<Seq<char>>,
    pub next_safe_minor_within_current_major: Option<Seq<char>>,
}

impl DeepView for RecommendationPayload {
    type V = RecommendationPayloadView;

    open spec fn deep_view(&self) -> RecommendationPayloadView {
        RecommendationPayloadView {
            package: self.package@,
            ecosystem: self.ecosystem@,
            strategy: self.strategy@,
            language_id: self.language_id.deep_view(),
            nearest_safe_above_current: self.nearest_safe_above_current.deep_view(),
            most_up_to_date_safe: self.most_up_to_date_safe.deep_view(),
            next_safe_minor_within_current_major: self
                .next_safe_minor_within_current_major.deep_view(),
        }
    }
}

/// A command for the client to run, with its single argument.
#[derive(Debug)]
pub struct Command {
    pub title: String,
    pub command: String,
    pub payload: RecommendationPayload,
}

/// A `Command`, as a mathematical value.
pub struct CommandView {
    pub title: Seq<char>,
    pub command: Seq<char>,
    pub payload: RecommendationPayloadView,
}

impl DeepView for Command {
    type V = CommandView;

    open spec fn deep_view(&self) -> CommandView {
        CommandView {
            title: self.title@,
            command: self.command@,
            payload: self.payload.deep_view(),
        }
    }
}

/// A quick fix: either an edit of the document or a command.
#[derive(Debug)]
pub struct CodeAction {
    pub title: String,
    pub kind: Option<CodeActionKind>,
    pub diagnostics: Option<Vec<Diagnostic>>,
    pub edit: Option<WorkspaceEdit>,
    pub command: Option<Command>,
    pub is_preferred: Option<bool>,
}

/// A `CodeAction`, as a mathematical value.
pub struct CodeActionView {
    pub title: Seq<char>,
    pub kind: Option<CodeActionKind>,
    pub diagnostics: Option<Seq<DiagnosticView>>,
    pub edit: Option<WorkspaceEditView>,
    pub command: Option<CommandView>,
    pub is_preferred: Option<bool>,
}

impl DeepView for CodeAction {
    type V = CodeActionView;

    open spec fn deep_view(&self) -> CodeActionView {
        CodeActionView {
            title: self.title@,
            kind: self.kind,
            diagnostics: self.diagnostics.deep_view(),
            edit: self.edit.deep_view(),
            command: self.command.deep_view(),
            is_preferred: self.is_preferred,
        }
    }
}

/// The name of a strategy in the service's answer and in a command's payload.
pub open spec fn strategy_key(strategy: Strategy) -> Seq<char> {
    match strategy {
        Strategy::NearestSafeAboveCurrent => "nearest_safe_above_current"@,
        Strategy::MostUpToDateSafe => "most_up_to_date_safe"@,
        Strategy::NextSafeMinorWithinCurrentMajor => "next_safe_minor_within_current_major"@,
    }
}

/// What a title calls a strategy.
pub open spec fn strategy_label(strategy: Strategy) -> Seq<char> {
    match strategy {
        Strategy::NearestSafeAboveCurrent => "nearest safe"@,
        Strategy::MostUpToDateSafe => "latest safe"@,
        Strategy::NextSafeMinorWithinCurrentMajor => "next safe minor"@,
    }
}

/// The version that a recommendation holds for a strategy.
pub open spec fn candidate(rec: VersionRecommendationView, strategy: Strategy) -> Option<
    Seq<char>,
> {
    match strategy {
        Strategy::NearestSafeAboveCurrent => rec.nearest_safe_above_current,
        Strategy::MostUpToDateSafe => rec.most_up_to_date_safe,
        Strategy::NextSafeMinorWithinCurrentMajor => rec.next_safe_minor_within_current_major,
    }
}

/// What a title holds to name the document's language: nothing where it is
/// unknown or empty.
pub open spec fn title_language(language_id: Option<Seq<char>>) -> Seq<char> {
    match language_id {
        Some(id) => if id.len() == 0 {
            Seq::empty()
        } else {
            " ["@ + id + "]"@
        },
        None => Seq::empty(),
    }
}

/// The title of the action that moves a package to `version`.
pub open spec fn title_of(
    rec: VersionRecommendationView,
    strategy: Strategy,
    version: Seq<char>,
    language_id: Option<Seq<char>>,
) -> Seq<char> {
    rec.ecosystem + ": "@ + rec.package + title_language(language_id) + " -> "@ + strategy_label(
        strategy,
    ) + " "@ + version
}

/// The action that replaces `range` of the document by `version`.
pub open spec fn edit_action(
    title: Seq<char>,
    uri: Seq<char>,
    range: Range,
    version: Seq<char>,
    preferred: bool,
) -> CodeActionView {
    CodeActionView {
        title,
        kind: Some(CodeActionKind::QuickFix),
        diagnostics: None,
        edit: Some(
            WorkspaceEditView { uri, edits: seq![TextEditView { range, new_text: version }] },
        ),
        command: None,
        is_preferred: Some(preferred),
    }
}

/// The action that hands a recommendation to the client's own command.
pub open spec fn command_action(
    title: Seq<char>,
    rec: VersionRecommendationView,
    strategy: Strategy,
    language_id: Option<Seq<char>>,
) -> CodeActionView {
    CodeActionView {
        title,
        kind: Some(CodeActionKind::QuickFix),
        diagnostics: None,
        edit: None,
        command: Some(
            CommandView {
                title,
                command: "vulnera.applyRecommendation"@,
                payload: RecommendationPayloadView {
                    package: rec.package,
                    ecosystem: rec.ecosystem,
                    strategy: strategy_key(strategy),
                    language_id: kept_non_empty(language_id),
                    nearest_safe_above_current: rec.nearest_safe_above_current,
                    most_up_to_date_safe: rec.most_up_to_date_safe,
                    next_safe_minor_within_current_major: rec.next_safe_minor_within_current_major,
                },
            },
        ),
        is_preferred: Some(strategy == Strategy::NearestSafeAboveCurrent),
    }
}

/// The edit that puts `version` in place of what was located, where something
/// was.
pub open spec fn version_edit(located: Option<Range>, version: Seq<char>) -> Option<TextEditView> {
    match located {
        Some(range) => Some(TextEditView { range, new_text: version }),
        None => None,
    }
}

/// The action that moves a package to `version` under a strategy: the edit,
/// where there is one to make, and else the command.
pub open spec fn action_with(
    uri: Seq<char>,
    rec: VersionRecommendationView,
    strategy: Strategy,
    version: Seq<char>,
    edit: Option<TextEditView>,
    language_id: Option<Seq<char>>,
) -> CodeActionView {
    let title = title_of(rec, strategy, version, language_id);
    match edit {
        Some(edit) => edit_action(
            title,
            uri,
            edit.range,
            edit.new_text,
            strategy == Strategy::NearestSafeAboveCurrent,
        ),
        None => command_action(title, rec, strategy, language_id),
    }
}

/// The action of one strategy of a recommendation: none where the
/// recommendation holds no version for it; an edit where the package's version
/// literal is found in the document; a command where it is not.
pub open spec fn action_of(
    uri: Seq<char>,
    ecosystem: Seq<char>,
    text: Seq<char>,
    rec: VersionRecommendationView,
    strategy: Strategy,
    language_id: Option<Seq<char>>,
) -> Seq<CodeActionView> {
    match candidate(rec, strategy) {
        Some(version) => seq![
            action_with(
                uri,
                rec,
                strategy,
                version,
                version_edit(located_range(text, ecosystem, rec.package), version),
                language_id,
            ),
        ],
        None => Seq::empty(),
    }
}

/// The actions of one recommendation, in the fixed order of the strategies.
pub open spec fn actions_of(
    uri: Seq<char>,
    ecosystem: Seq<char>,
    text: Seq<char>,
    rec: VersionRecommendationView,
    language_id: Option<Seq<char>>,
) -> Seq<CodeActionView> {
    action_of(uri, ecosystem, text, rec, Strategy::NearestSafeAboveCurrent, language_id)
        + action_of(uri, ecosystem, text, rec, Strategy::MostUpToDateSafe, language_id)
        + action_of(
        uri,
        ecosystem,
        text,
        rec,
        Strategy::NextSafeMinorWithinCurrentMajor,
        language_id,
    )
}

/// The actions of the first `n` recommendations, in their order.
pub open spec fn code_actions_of(
    uri: Seq<char>,
    ecosystem: Seq<char>,
    text: Seq<char>,
    recommendations: Seq<VersionRecommendationView>,
    language_id: Option<Seq<char>>,
    n: int,
) -> Seq<CodeActionView>
    decreases n,
{
    if n <= 0 {
        Seq::empty()
    } else {
        code_actions_of(uri, ecosystem, text, recommendations, language_id, n - 1) + actions_of(
            uri,
            ecosystem,
            text,
            recommendations[n - 1],
            language_id,
        )
    }
}

impl Strategy {
    /// The strategy's name in the service's answer and in a command's payload.
    pub fn key(&self) -> (word: &'static str)
        ensures
            word@ == strategy_key(*self),
    {
        match self {
            Strategy::NearestSafeAboveCurrent => "nearest_safe_above_current",
            Strategy::MostUpToDateSafe => "most_up_to_date_safe",
            Strategy::NextSafeMinorWithinCurrentMajor => "next_safe_minor_within_current_major",
        }
    }

    /// What a title calls the strategy.
    pub fn label(&self) -> (word: &'static str)
        ensures
            word@ == strategy_label(*self),
    {
        match self {
            Strategy::NearestSafeAboveCurrent => "nearest safe",
            Strategy::MostUpToDateSafe => "latest safe",
            Strategy::NextSafeMinorWithinCurrentMajor => "next safe minor",
        }
    }

    /// Whether the strategy's action is the one to prefer: the nearest safe
    /// version is.
    pub fn is_preferred(&self) -> (b: bool)
        ensures
            b == (*self == Strategy::NearestSafeAboveCurrent),
    {
        match self {
            Strategy::NearestSafeAboveCurrent => true,
            _ => false,
        }
    }
}

/// The action that replaces the range of `edit` in the document `uri`.
pub fn make_edit_action(title: String, uri: String, edit: TextEdit, preferred: bool) -> (action:
    CodeAction)
    ensures
        action.deep_view() == edit_action(title@, uri@, edit.range, edit.new_text@, preferred),
{
    let ghost wanted = edit.deep_view();
    let mut edits: Vec<TextEdit> = Vec::new();
    edits.push(edit);
    assert(edits.deep_view() =~= seq![wanted]);
    CodeAction {
        title,
        kind: Some(CodeActionKind::QuickFix),
        diagnostics: None,
        edit: Some(WorkspaceEdit { uri, edits }),
        command: None,
        is_preferred: Some(preferred),
    }
}

/// The action that hands `rec` to the command `vulnera.applyRecommendation`.
pub fn make_command_action(
    title: String,
    rec: &VersionRecommendationDto,
    strategy: Strategy,
    language_id: Option<&str>,
) -> (action: CodeAction)
    ensures
        action.deep_view() == command_action(
            title@,
            rec.deep_view(),
            strategy,
            language_id.deep_view(),
        ),
{
    let command = Command {
        title: title.clone(),
        command: String::from_str("vulnera.applyRecommendation"),
        payload: RecommendationPayload {
            package: rec.package.clone(),
            ecosystem: rec.ecosystem.clone(),
            strategy: String::from_str(strategy.key()),
            language_id: non_empty(language_id),
            nearest_safe_above_current: clone_optional(&rec.nearest_safe_above_current),
            most_up_to_date_safe: clone_optional(&rec.most_up_to_date_safe),
            next_safe_minor_within_current_major: clone_optional(
                &rec.next_safe_minor_within_current_major,
            ),
        },
    };
    CodeAction {
        title,
        kind: Some(CodeActionKind::QuickFix),
        diagnostics: None,
        edit: None,
        command: Some(command),
        is_preferred: Some(strategy.is_preferred()),
    }
}

/// The edit that puts `new_version` in place of the version literal of
/// `package`, where the document holds one.
pub fn find_version_edit(
    ecosystem: &str,
    package: &str,
    new_version: &str,
    document_text: &str,
) -> (edit: Option<TextEdit>)
    ensures
        edit.deep_view() == version_edit(
            located_range(document_text@, ecosystem@, package@),
            new_version@,
        ),
{
    match find_package_version_range(document_text, ecosystem, package) {
        Some(range) => Some(TextEdit { range, new_text: String::from_str(new_version) }),
        None => None,
    }
}

fn title_suffix(language_id: Option<&str>) -> (suffix: String)
    ensures
        suffix@ == title_language(language_id.deep_view()),
{
    match language_id {
        Some(id) => {
            if id.is_empty() {
                String::new()
            } else {
                let mut suffix = String::from_str(" [");
                suffix.append(id);
                suffix.append("]");
                suffix
            }
        },
        None => String::new(),
    }
}

/// The action that moves the package of `rec` to `version` under `strategy`:
/// the edit `edit` of the document `uri`, where there is one, and else the
/// command.
pub fn recommendation_action(
    uri: &str,
    rec: &VersionRecommendationDto,
    strategy: Strategy,
    version: &str,
    edit: Option<TextEdit>,
    language_id: Option<&str>,
) -> (action: CodeAction)
    ensures
        action.deep_view() == action_with(
            uri@,
            rec.deep_view(),
            strategy,
            version@,
            edit.deep_view(),
            language_id.deep_view(),
        ),
{
    let suffix = title_suffix(language_id);
    let mut title = rec.ecosystem.clone();
    title.append(": ");
    title.append(rec.package.as_str());
    title.append(suffix.as_str());
    title.append(" -> ");
    title.append(strategy.label());
    title.append(" ");
    title.append(version);
    match edit {
        Some(edit) => make_edit_action(title, String::from_str(uri), edit, strategy.is_preferred()),
        None => make_command_action(title, rec, strategy, language_id),
    }
}

fn strategy_action(
    actions: &mut Vec<CodeAction>,
    uri: &str,
    ecosystem: &str,
    document_text: &str,
    rec: &VersionRecommendationDto,
    strategy: Strategy,
    version: &Option<String>,
    language_id: Option<&str>,
)
    requires
        version.deep_view() == candidate(rec.deep_view(), strategy),
    ensures
        final(actions).deep_view() == old(actions).deep_view() + action_of(
            uri@,
            ecosystem@,
            document_text@,
            rec.deep_view(),
            strategy,
            language_id.deep_view(),
        ),
{
    let ghost before = actions.deep_view();
    match version {
        Some(version) => {
            let edit = find_version_edit(
                ecosystem,
                rec.package.as_str(),
                version.as_str(),
                document_text,
            );
            let action = recommendation_action(
                uri,
                rec,
                strategy,
                version.as_str(),
                edit,
                language_id,
            );
            actions.push(action);
            assert(actions.deep_view() =~= before.push(action.deep_view()));
            assert(actions.deep_view() =~= before + action_of(
                uri@,
                ecosystem@,
                document_text@,
                rec.deep_view(),
                strategy,
                language_id.deep_view(),
            ));
        },
        None => {
            assert(actions.deep_view() =~= before + action_of(
                uri@,
                ecosystem@,
                document_text@,
                rec.deep_view(),
                strategy,
                language_id.deep_view(),
            ));
        },
    }
}

/// The quick fixes for the document `uri`: for each recommendation up to three
/// actions, one for each strategy that it holds a version for, in the order
/// nearest safe, latest safe, next safe minor. An action edits the document
/// where the package's version literal is found in `document_text`, and falls
/// back to a command where it is not.
pub fn build_code_actions(
    uri: &str,
    ecosystem: &str,
    document_text: &str,
    recommendations: &[VersionRecommendationDto],
    language_id: Option<&str>,
) -> (actions: Vec<CodeAction>)
    ensures
        actions.deep_view() == code_actions_of(
            uri@,
            ecosystem@,
            document_text@,
            recommendations.deep_view(),
            language_id.deep_view(),
            recommendations.deep_view().len() as int,
        ),
{
    let mut actions: Vec<CodeAction> = Vec::new();
    let ghost recs = recommendations.deep_view();
    let ghost lang = language_id.deep_view();
    let mut i: usize = 0;
    assert(actions.deep_view() =~= code_actions_of(
        uri@,
        ecosystem@,
        document_text@,
        recs,
        lang,
        0,
    ));
    while i < recommendations.len()
        invariant
            i <= recommendations.len(),
            recs == recommendations.deep_view(),
            lang == language_id.deep_view(),
            actions.deep_view() == code_actions_of(
                uri@,
                ecosystem@,
                document_text@,
                recs,
                lang,
                i as int,
            ),
        decreases recommendations.len() - i,
    {
        let rec = &recommendations[i];
        assert(recs[i as int] == rec.deep_view());
        let ghost before = actions.deep_view();
        strategy_action(
            &mut actions,
            uri,
            ecosystem,
            document_text,
            rec,
            Strategy::NearestSafeAboveCurrent,
            &rec.nearest_safe_above_current,
            language_id,
        );
        strategy_action(
            &mut actions,
            uri,
            ecosystem,
            document_text,
            rec,
            Strategy::MostUpToDateSafe,
            &rec.most_up_to_date_safe,
            language_id,
        );
        strategy_action(
            &mut actions,
            uri,
            ecosystem,
            document_text,
            rec,
            Strategy::NextSafeMinorWithinCurrentMajor,
            &rec.next_safe_minor_within_current_major,
            language_id,
        );
        assert(actions.deep_view() =~= before + actions_of(
            uri@,
            ecosystem@,
            document_text@,
            rec.deep_view(),
            lang,
        ));
        i = i + 1;
    }
    actions
}

} // verus!
