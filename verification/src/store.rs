//! The server's maps, kept in `dashmap`'s `DashMap`.
//!
//! Verus sees a `DashMap` as an opaque value. What each of the four maps holds
//! has a name here, and each method that the server calls has a wrapper that
//! says over those names what the method does. A wrapper that changes a map
//! takes it by `&mut`: the contracts speak of a map that nobody else touches
//! in the meantime. None of these contracts is proved; each says what
//! `dashmap`'s source shows of the method.

use crate::state::{AnalysisCache, AnalysisCacheView, DocumentSnapshot, DocumentSnapshotView};
use dashmap::DashMap;
use vstd::prelude::*;

verus! {

/// `dashmap::DashMap`, declared so that the state can hold one. Nothing is
/// said of what is inside one but through the names below.
#[verifier::external_type_specification]
#[verifier::external_body]
#[verifier::reject_recursive_types(K)]
#[verifier::reject_recursive_types(V)]
#[verifier::reject_recursive_types(S)]
pub struct ExDashMap<K, V, S>(DashMap<K, V, S>);

/// The open documents that `map` holds, by URI.
pub uninterp spec fn documents_held(map: DashMap<String, DocumentSnapshot>) -> Map<
    Seq<char>,
    DocumentSnapshotView,
>;

/// The analyses that `map` holds, by URI.
pub uninterp spec fn analyses_held(map: DashMap<String, AnalysisCache>) -> Map<
    Seq<char>,
    AnalysisCacheView,
>;

/// The tasks that `map` holds, by workspace key.
pub uninterp spec fn tasks_held(map: DashMap<String, u64>) -> Map<Seq<char>, u64>;

/// The lists of URIs that `map` holds, by workspace key.
pub uninterp spec fn lists_held(map: DashMap<String, Vec<String>>) -> Map<
    Seq<char>,
    Seq<Seq<char>>,
>;

/// `DashMap::new`: a map that holds nothing.
#[verifier::external_body]
pub(crate) fn new_documents() -> (map: DashMap<String, DocumentSnapshot>)
    ensures
        documents_held(map) == (Map::<Seq<char>, DocumentSnapshotView>::empty()),
{
    DashMap::new()
}

/// `DashMap::insert`: the map holds `snapshot` under `uri`, in place of what
/// it held there, and the rest as before.
#[verifier::external_body]
pub(crate) fn put_document(
    map: &mut DashMap<String, DocumentSnapshot>,
    uri: String,
    snapshot: DocumentSnapshot,
)
    ensures
        documents_held(*final(map)) == documents_held(*old(map)).insert(uri@, snapshot.deep_view()),
{
    map.insert(uri, snapshot);
}

/// `DashMap::remove`: the map holds nothing under `uri`, and the rest as
/// before.
#[verifier::external_body]
pub(crate) fn drop_document(map: &mut DashMap<String, DocumentSnapshot>, uri: &str)
    ensures
        documents_held(*final(map)) == documents_held(*old(map)).remove(uri@),
{
    map.remove(uri);
}

/// `DashMap::get`, then a copy of the value: what the map holds under `uri`.
#[verifier::external_body]
pub(crate) fn document(map: &DashMap<String, DocumentSnapshot>, uri: &str) -> (found: Option<
    DocumentSnapshot,
>)
    ensures
        match found {
            Some(snapshot) => documents_held(*map).contains_key(uri@) && snapshot.deep_view()
                == documents_held(*map)[uri@],
            None => !documents_held(*map).contains_key(uri@),
        },
{
    map.get(uri).map(|entry| entry.value().clone())
}

/// `DashMap::iter`, with a copy of each key: every URI under which the map
/// holds a document, once, in an order that is the map's own.
#[verifier::external_body]
pub(crate) fn document_uris(map: &DashMap<String, DocumentSnapshot>) -> (uris: Vec<String>)
    ensures
        uris.deep_view().no_duplicates(),
        uris.deep_view().to_set() == documents_held(*map).dom(),
{
    map.iter().map(|entry| entry.key().clone()).collect()
}

/// `DashMap::new`: a map that holds nothing.
#[verifier::external_body]
pub(crate) fn new_analyses() -> (map: DashMap<String, AnalysisCache>)
    ensures
        analyses_held(map) == (Map::<Seq<char>, AnalysisCacheView>::empty()),
{
    DashMap::new()
}

/// `DashMap::insert`: the map holds `analysis` under `uri`, in place of what
/// it held there, and the rest as before.
#[verifier::external_body]
pub(crate) fn put_analysis(
    map: &mut DashMap<String, AnalysisCache>,
    uri: String,
    analysis: AnalysisCache,
)
    ensures
        analyses_held(*final(map)) == analyses_held(*old(map)).insert(uri@, analysis.deep_view()),
{
    map.insert(uri, analysis);
}

/// `DashMap::remove`: the map holds nothing under `uri`, and the rest as
/// before.
#[verifier::external_body]
pub(crate) fn drop_analysis(map: &mut DashMap<String, AnalysisCache>, uri: &str)
    ensures
        analyses_held(*final(map)) == analyses_held(*old(map)).remove(uri@),
{
    map.remove(uri);
}

/// `DashMap::get`, then a copy of the value: what the map holds under `uri`.
#[verifier::external_body]
pub(crate) fn analysis(map: &DashMap<String, AnalysisCache>, uri: &str) -> (found: Option<
    AnalysisCache,
>)
    ensures
        match found {
            Some(cached) => analyses_held(*map).contains_key(uri@) && cached.deep_view()
                == analyses_held(*map)[uri@],
            None => !analyses_held(*map).contains_key(uri@),
        },
{
    map.get(uri).map(|entry| entry.value().clone())
}

/// `DashMap::new`: a map that holds nothing.
#[verifier::external_body]
pub(crate) fn new_tasks() -> (map: DashMap<String, u64>)
    ensures
        tasks_held(map) == (Map::<Seq<char>, u64>::empty()),
{
    DashMap::new()
}

/// `DashMap::insert`: the map holds `task` under `key`, in place of what it
/// held there, and the rest as before.
#[verifier::external_body]
pub(crate) fn put_task(map: &mut DashMap<String, u64>, key: String, task: u64)
    ensures
        tasks_held(*final(map)) == tasks_held(*old(map)).insert(key@, task),
{
    map.insert(key, task);
}

/// `DashMap::remove`: hands out what the map held under `key`, and the map
/// holds nothing there any more.
#[verifier::external_body]
pub(crate) fn take_task(map: &mut DashMap<String, u64>, key: &str) -> (taken: Option<u64>)
    ensures
        tasks_held(*final(map)) == tasks_held(*old(map)).remove(key@),
        match taken {
            Some(task) => tasks_held(*old(map)).contains_key(key@) && task == tasks_held(
                *old(map),
            )[key@],
            None => !tasks_held(*old(map)).contains_key(key@),
        },
{
    map.remove(key).map(|entry| entry.1)
}

/// `DashMap::new`: a map that holds nothing.
#[verifier::external_body]
pub(crate) fn new_lists() -> (map: DashMap<String, Vec<String>>)
    ensures
        lists_held(map) == (Map::<Seq<char>, Seq<Seq<char>>>::empty()),
{
    DashMap::new()
}

/// `DashMap::insert`: the map holds `uris` under `key`, in place of what it
/// held there, and the rest as before.
#[verifier::external_body]
pub(crate) fn put_list(map: &mut DashMap<String, Vec<String>>, key: String, uris: Vec<String>)
    ensures
        lists_held(*final(map)) == lists_held(*old(map)).insert(key@, uris.deep_view()),
{
    map.insert(key, uris);
}

/// `DashMap::remove`: hands out what the map held under `key`, and the map
/// holds nothing there any more.
#[verifier::external_body]
pub(crate) fn take_list(map: &mut DashMap<String, Vec<String>>, key: &str) -> (taken: Option<
    Vec<String>,
>)
    ensures
        lists_held(*final(map)) == lists_held(*old(map)).remove(key@),
        match taken {
            Some(uris) => lists_held(*old(map)).contains_key(key@) && uris.deep_view()
                == lists_held(*old(map))[key@],
            None => !lists_held(*old(map)).contains_key(key@),
        },
{
    map.remove(key).map(|entry| entry.1)
}

} // verus!
