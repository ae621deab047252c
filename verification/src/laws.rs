//! What holds of the server whatever it is given: the laws of the schedule,
//! of the dealing of results, and of closing a document.

use crate::api::FileAnalysisResultView;
use crate::code_actions::CodeActionView;
use crate::diagnostics::{failure_of, severity_of, DiagnosticSeverity};
use crate::lsp::{after_close, change_applied, code_actions_for, ContentChangeView, EditError};
use crate::package_locator::{is_boundary, located_range, located_span};
use crate::position::{
    lemma_chars_before, lemma_position_nonnegative, lemma_resolve_unique, lemma_utf8_len_grows,
    position_at, position_of_offset, range_of_span, resolve, resolves_at,
};
use crate::state::{
    after_begin, after_schedule, all_identified, batch_outcome, dispatched,
    failure_report, held, is_unknown, key_of, snapshot_with_id, snapshots_of, with_uri,
    AnalysisCacheView, BatchStartView, DocumentSnapshotView, ServerActionView, ServerModel,
};
use crate::text::{eq_ignoring_ascii_case, utf8_len};
use vstd::prelude::*;

verus! {

/// An action that publishes diagnostics.
pub open spec fn is_publication(action: ServerActionView) -> bool {
    action is PublishDiagnostics
}

/// An action that publishes for one of `snapshots`, as of that snapshot's
/// version.
pub open spec fn publishes_for_one_of(
    action: ServerActionView,
    snapshots: Seq<DocumentSnapshotView>,
) -> bool {
    exists|j: int|
        0 <= j < snapshots.len() && published_for(action, #[trigger] snapshots[j])
}

/// An action that publishes for `snapshot`, as of its version.
pub open spec fn published_for(action: ServerActionView, snapshot: DocumentSnapshotView) -> bool {
    action matches ServerActionView::PublishDiagnostics { uri, version, .. } && uri
        == snapshot.uri.text && version == Some(snapshot.version)
}

/// An action that gives up the task of the workspace `key`.
pub open spec fn cancels(action: ServerActionView, key: Seq<char>) -> bool {
    action matches ServerActionView::CancelTask { workspace_key, .. } && workspace_key == key
}

proof fn lemma_snapshot_with_id_is_one(snapshots: Seq<DocumentSnapshotView>, id: Seq<char>, n: int)
    requires
        0 <= n <= snapshots.len(),
        snapshot_with_id(snapshots, id, n) is Some,
    ensures
        exists|j: int|
            0 <= j < n && #[trigger] snapshots[j] == snapshot_with_id(snapshots, id, n)->0,
    decreases n,
{
    if snapshots[n - 1].uri.text != id {
        lemma_snapshot_with_id_is_one(snapshots, id, n - 1);
    }
}

/// Whatever a batch publishes, it publishes for one of the snapshots that the
/// batch was made from, under that snapshot's URI and as of that snapshot's
/// version: a client can tell by the version which text the diagnostics are
/// about.
pub proof fn lemma_published_version_is_snapshot_version(
    snapshots: Seq<DocumentSnapshotView>,
    results: Seq<FileAnalysisResultView>,
    by_id: bool,
    analysis: Map<Seq<char>, AnalysisCacheView>,
    n: int,
    i: int,
)
    requires
        0 <= n <= results.len(),
        n <= snapshots.len(),
        0 <= i < dispatched(snapshots, results, by_id, analysis, n).actions.len(),
    ensures
        publishes_for_one_of(
            dispatched(snapshots, results, by_id, analysis, n).actions[i],
            snapshots,
        ),
    decreases n,
{
    let before = dispatched(snapshots, results, by_id, analysis, n - 1);
    if n > 0 {
        if i < before.actions.len() {
            lemma_published_version_is_snapshot_version(
                snapshots,
                results,
                by_id,
                analysis,
                n - 1,
                i,
            );
        } else if by_id {
            lemma_snapshot_with_id_is_one(
                snapshots,
                results[n - 1].file_id->0,
                snapshots.len() as int,
            );
        } else {
            assert(snapshots[n - 1] == snapshots[n - 1]);
        }
    }
}

/// What a batch publishes, and whether and why it fails, does not depend on
/// what was cached before: the same results for the same snapshots give the
/// same diagnostics again.
pub proof fn lemma_batch_is_repeatable(
    snapshots: Seq<DocumentSnapshotView>,
    results: Seq<FileAnalysisResultView>,
    first: Map<Seq<char>, AnalysisCacheView>,
    second: Map<Seq<char>, AnalysisCacheView>,
)
    ensures
        batch_outcome(snapshots, results, first).actions == batch_outcome(
            snapshots,
            results,
            second,
        ).actions,
        batch_outcome(snapshots, results, first).failure == batch_outcome(
            snapshots,
            results,
            second,
        ).failure,
{
    lemma_dispatch_is_repeatable(
        snapshots,
        results,
        all_identified(results, results.len() as int),
        first,
        second,
        results.len() as int,
    );
}

proof fn lemma_dispatch_is_repeatable(
    snapshots: Seq<DocumentSnapshotView>,
    results: Seq<FileAnalysisResultView>,
    by_id: bool,
    first: Map<Seq<char>, AnalysisCacheView>,
    second: Map<Seq<char>, AnalysisCacheView>,
    n: int,
)
    ensures
        dispatched(snapshots, results, by_id, first, n).actions == dispatched(
            snapshots,
            results,
            by_id,
            second,
            n,
        ).actions,
    decreases n,
{
    if n > 0 {
        lemma_dispatch_is_repeatable(snapshots, results, by_id, first, second, n - 1);
    }
}

/// A batch fails as a whole: where it fails, be it that the numbers of results
/// and files differ or that a result names a file that was not sent, nothing
/// is published and the cache holds what it held.
pub proof fn lemma_failed_batch_has_no_effect(
    snapshots: Seq<DocumentSnapshotView>,
    results: Seq<FileAnalysisResultView>,
    analysis: Map<Seq<char>, AnalysisCacheView>,
)
    requires
        batch_outcome(snapshots, results, analysis).failure is Some,
    ensures
        batch_outcome(snapshots, results, analysis).actions.len() == 0,
        batch_outcome(snapshots, results, analysis).analysis == analysis,
{
    lemma_dispatch_does_not_fail(
        snapshots,
        results,
        all_identified(results, results.len() as int),
        analysis,
        results.len() as int,
    );
}

proof fn lemma_dispatch_does_not_fail(
    snapshots: Seq<DocumentSnapshotView>,
    results: Seq<FileAnalysisResultView>,
    by_id: bool,
    analysis: Map<Seq<char>, AnalysisCacheView>,
    n: int,
)
    ensures
        dispatched(snapshots, results, by_id, analysis, n).failure is None,
    decreases n,
{
    if n > 0 {
        lemma_dispatch_does_not_fail(snapshots, results, by_id, analysis, n - 1);
    }
}

/// Closing a document retracts its diagnostics: the last thing that closing
/// asks for is to publish an empty list for the document, and nothing else
/// that it asks for publishes anything. After it the document has no quick
/// fixes.
pub proof fn lemma_close_retracts(s: ServerModel, uri: Seq<char>)
    ensures
        after_close(s, uri).1.len() > 0,
        after_close(s, uri).1.last() == (ServerActionView::PublishDiagnostics {
            uri,
            diagnostics: Seq::empty(),
            version: None,
        }),
        forall|i: int|
            0 <= i < after_close(s, uri).1.len() - 1 ==> !is_publication(
                #[trigger] after_close(s, uri).1[i],
            ),
        !after_close(s, uri).0.documents.contains_key(uri),
        !after_close(s, uri).0.analysis.contains_key(uri),
        code_actions_for(after_close(s, uri).0, uri) == Seq::<CodeActionView>::empty(),
{
}

/// A schedule supersedes: the task that a workspace waited for before a
/// document of it was scheduled is not the task that it waits for after, and
/// when it wakes up it sends nothing and changes nothing.
pub proof fn lemma_superseded_task_sends_nothing(s: ServerModel, uri: Seq<char>)
    requires
        s.documents.contains_key(uri),
        !is_unknown(s.documents[uri]),
        s.pending.contains_key(key_of(s.documents[uri])),
    ensures
        ({
            let key = key_of(s.documents[uri]);
            let after = after_schedule(s, uri).0;
            &&& after.pending.contains_key(key)
            &&& after.pending[key] != s.pending[key]
            &&& after_begin(after, key, s.pending[key]) == (after, None::<BatchStartView>)
        }),
{
}

/// Every task that a workspace waits for has a number below the next one to
/// be given out.
pub open spec fn tasks_in_order(s: ServerModel) -> bool {
    forall|key: Seq<char>| #[trigger] s.pending.contains_key(key) ==> s.pending[key] < s.next_task
}

/// Tasks are numbered in the order in which they start: as long as the
/// numbers have not run out, a schedule gives its task the next number, which
/// is above the number of every task that any workspace waits for. So no task
/// that was superseded before can be taken for the one that a workspace waits
/// for now.
pub proof fn lemma_tasks_are_numbered_in_order(s: ServerModel, uri: Seq<char>)
    requires
        tasks_in_order(s),
        s.next_task < u64::MAX,
        s.documents.contains_key(uri),
        !is_unknown(s.documents[uri]),
    ensures
        after_schedule(s, uri).0.pending[key_of(s.documents[uri])] == s.next_task,
        after_schedule(s, uri).0.next_task == s.next_task + 1,
        tasks_in_order(after_schedule(s, uri).0),
{
    let key = key_of(s.documents[uri]);
    if s.pending.contains_key(key) {
        assert(s.pending[key] < s.next_task);
    }
    let after = after_schedule(s, uri).0;
    assert forall|other: Seq<char>| #[trigger]
        after.pending.contains_key(other) implies after.pending[other] < after.next_task by {
        if other != key {
            assert(s.pending.contains_key(other));
        }
    }
}

/// Only the task that a workspace waits for can send its batch: any other
/// task that wakes up for the workspace sends nothing and changes nothing.
pub proof fn lemma_only_the_pending_task_sends(s: ServerModel, key: Seq<char>, task: u64)
    requires
        held(s.pending, key) != Some(task),
    ensures
        after_begin(s, key, task) == (s, None::<BatchStartView>),
{
}

/// Scheduling coalesces: a document that is scheduled again before its
/// workspace's batch began is still waiting once, not twice, and the open
/// documents are as they were.
pub proof fn lemma_schedule_coalesces(s: ServerModel, uri: Seq<char>)
    requires
        s.documents.contains_key(uri),
        !is_unknown(s.documents[uri]),
    ensures
        ({
            let key = key_of(s.documents[uri]);
            let once = after_schedule(s, uri).0;
            let twice = after_schedule(once, uri).0;
            &&& once.dirty.contains_key(key)
            &&& once.dirty[key].contains(uri)
            &&& twice.dirty == once.dirty
            &&& twice.documents == once.documents
        }),
{
    let key = key_of(s.documents[uri]);
    let once = after_schedule(s, uri).0;
    let waiting = match held(s.dirty, key) {
        Some(uris) => uris,
        None => Seq::empty(),
    };
    assert(with_uri(waiting, uri).contains(uri)) by {
        if !waiting.contains(uri) {
            assert(waiting.push(uri)[waiting.len() as int] == uri);
        }
    }
    assert(after_schedule(once, uri).0.dirty =~= once.dirty);
}

/// A batch holds the documents as they are when it begins: each snapshot in
/// it is the open document of one of the URIs that were waiting, and none is
/// of an unknown ecosystem.
pub proof fn lemma_batch_holds_current_documents(
    documents: Map<Seq<char>, DocumentSnapshotView>,
    uris: Seq<Seq<char>>,
    n: int,
    i: int,
)
    requires
        0 <= n <= uris.len(),
        0 <= i < snapshots_of(documents, uris, n).len(),
    ensures
        !is_unknown(snapshots_of(documents, uris, n)[i]),
        exists|j: int|
            0 <= j < n && documents.contains_key(#[trigger] uris[j]) && documents[uris[j]]
                == snapshots_of(documents, uris, n)[i],
    decreases n,
{
    if n > 0 {
        let rest = snapshots_of(documents, uris, n - 1);
        if i < rest.len() {
            lemma_batch_holds_current_documents(documents, uris, n - 1, i);
        } else {
            assert(documents.contains_key(uris[n - 1]));
        }
    }
}

/// Workspaces do not touch each other: scheduling a document neither changes
/// what another workspace waits for nor gives another workspace's task up.
pub proof fn lemma_schedule_keeps_other_workspaces(s: ServerModel, uri: Seq<char>, other: Seq<char>)
    requires
        s.documents.contains_key(uri),
        other != key_of(s.documents[uri]),
    ensures
        held(after_schedule(s, uri).0.pending, other) == held(s.pending, other),
        held(after_schedule(s, uri).0.dirty, other) == held(s.dirty, other),
        forall|i: int|
            0 <= i < after_schedule(s, uri).1.len() ==> !cancels(
                #[trigger] after_schedule(s, uri).1[i],
                other,
            ),
{
}

/// Nor does the beginning of a workspace's batch change what another
/// workspace waits for.
pub proof fn lemma_begin_keeps_other_workspaces(
    s: ServerModel,
    key: Seq<char>,
    task: u64,
    other: Seq<char>,
)
    requires
        other != key,
    ensures
        held(after_begin(s, key, task).0.pending, other) == held(s.pending, other),
        held(after_begin(s, key, task).0.dirty, other) == held(s.dirty, other),
{
}

/// A document of an unknown ecosystem is never analysed: scheduling it starts
/// no task and lets no document wait.
pub proof fn lemma_unknown_ecosystem_is_quiet(s: ServerModel, uri: Seq<char>)
    requires
        s.documents.contains_key(uri),
        is_unknown(s.documents[uri]),
    ensures
        after_schedule(s, uri).0.pending == s.pending,
        after_schedule(s, uri).0.dirty == s.dirty,
        after_schedule(s, uri).1 == seq![
            ServerActionView::PublishDiagnostics {
                uri,
                diagnostics: Seq::empty(),
                version: Some(s.documents[uri].version),
            },
        ],
{
}

/// The failure of a batch is published for open documents of the workspace
/// only, each under its own URI and as of its own version.
pub proof fn lemma_failure_is_published_as_of_document_version(
    documents: Map<Seq<char>, DocumentSnapshotView>,
    order: Seq<Seq<char>>,
    key: Seq<char>,
    reason: Seq<char>,
    n: int,
    i: int,
)
    requires
        0 <= n <= order.len(),
        0 <= i < failure_report(documents, order, key, reason, n).len(),
    ensures
        exists|j: int|
            0 <= j < n && documents.contains_key(#[trigger] order[j]) && key_of(
                documents[order[j]],
            ) == key && failure_report(documents, order, key, reason, n)[i] == (
            ServerActionView::PublishDiagnostics {
                uri: order[j],
                diagnostics: seq![failure_of(reason)],
                version: Some(documents[order[j]].version),
            }),
    decreases n,
{
    if n > 0 {
        let rest = failure_report(documents, order, key, reason, n - 1);
        if i < rest.len() {
            lemma_failure_is_published_as_of_document_version(
                documents,
                order,
                key,
                reason,
                n - 1,
                i,
            );
        } else {
            assert(documents.contains_key(order[n - 1]));
        }
    }
}

/// Every word has a severity, and a word that is none of `critical`, `high`,
/// `medium` and `low` is a hint.
pub proof fn lemma_unknown_severity_is_a_hint(word: Seq<char>)
    requires
        !eq_ignoring_ascii_case(word, "critical"@),
        !eq_ignoring_ascii_case(word, "high"@),
        !eq_ignoring_ascii_case(word, "medium"@),
        !eq_ignoring_ascii_case(word, "low"@),
    ensures
        severity_of(word) == DiagnosticSeverity::Hint,
{
}

/// Positions and byte offsets name the same places: the position that stands
/// for the byte offset of the place after `k` characters is the position of
/// that place, and it resolves to that place and no other. This holds as long
/// as neither the line nor the column is at the limit of a `u32`.
pub proof fn lemma_position_round_trip(chars: Seq<char>, k: int)
    requires
        0 <= k <= chars.len(),
        position_at(chars, k).line < u32::MAX,
        position_at(chars, k).character < u32::MAX,
    ensures
        position_of_offset(chars, utf8_len(chars, k)) == position_at(chars, k),
        resolve(chars, position_at(chars, k)) == Some(k),
{
    if k > 0 {
        lemma_utf8_len_grows(chars, k - 1, k);
    }
    lemma_chars_before(chars, chars.len() as int, utf8_len(chars, k), k);
    lemma_position_nonnegative(chars, k);
    let position = position_at(chars, k);
    assert(resolves_at(chars, position, k));
    let chosen = choose|j: int| resolves_at(chars, position, j);
    lemma_resolve_unique(chars, position, chosen, k);
}

/// An edit over the range that the locator gives for a span replaces that
/// span and nothing else: where `start` and `end` are the byte offsets of the
/// places after `from` and `to` characters, the edit puts the new text
/// between the first `from` characters and those from `to` on.
pub proof fn lemma_edit_over_located_range_replaces_the_span(
    text: Seq<char>,
    from: int,
    to: int,
    new_text: Seq<char>,
)
    requires
        0 <= from <= to <= text.len(),
        position_at(text, from).line < u32::MAX,
        position_at(text, from).character < u32::MAX,
        position_at(text, to).line < u32::MAX,
        position_at(text, to).character < u32::MAX,
    ensures
        is_boundary(text, utf8_len(text, from)),
        is_boundary(text, utf8_len(text, to)),
        change_applied(
            text,
            ContentChangeView {
                range: Some(range_of_span(text, utf8_len(text, from), utf8_len(text, to))),
                range_length: None,
                text: new_text,
            },
        ) == Ok::<Seq<char>, EditError>(
            text.subrange(0, from) + new_text + text.subrange(to, text.len() as int),
        ),
{
    lemma_position_round_trip(text, from);
    lemma_position_round_trip(text, to);
}

/// The range that the locator gives covers what the search captured: where
/// the search captures the bytes between the places after `from` and after
/// `to` characters of the text, the locator's range resolves to those two
/// places, so that it covers the characters from `from` up to `to` and no
/// others. Which bytes the search captures is the `regex` crate's to say; this
/// is the rest.
pub proof fn lemma_located_range_covers_the_capture(
    text: Seq<char>,
    ecosystem: Seq<char>,
    package: Seq<char>,
    from: int,
    to: int,
    start: usize,
    end: usize,
)
    requires
        0 <= from <= to <= text.len(),
        start == utf8_len(text, from),
        end == utf8_len(text, to),
        located_span(text, ecosystem, package) == Some((start, end)),
        position_at(text, from).line < u32::MAX,
        position_at(text, from).character < u32::MAX,
        position_at(text, to).line < u32::MAX,
        position_at(text, to).character < u32::MAX,
    ensures
        located_range(text, ecosystem, package) matches Some(range) && resolve(text, range.start)
            == Some(from) && resolve(text, range.end) == Some(to),
{
    lemma_position_round_trip(text, from);
    lemma_position_round_trip(text, to);
}

} // verus!
