//! Document URIs and the URLs of the analysis service.
//!
//! Parsing is the `url` crate's. A document's URI is kept as the two strings
//! that the server reads from it: its normal form, by which the document is
//! known, and its path.

use crate::text::{
    find_last, last_index_of, lemma_last_index_bounds, lemma_last_index_found, to_chars,
};
use vstd::prelude::*;
use vstd::string::{StrSliceExecFns, StringExecFns};

verus! {

/// The normal form of the URL that `raw` spells: what `Url::as_str` gives
/// after `Url::parse`. `None` where `raw` is no URL.
pub uninterp spec fn normalized_url(raw: Seq<char>) -> Option<Seq<char>>;

/// The path of the URL that `raw` spells: what `Url::path` gives after
/// `Url::parse`. `None` where `raw` is no URL.
pub uninterp spec fn path_of_url(raw: Seq<char>) -> Option<Seq<char>>;

/// The URL `base` with `segments` appended to its path, one after the other,
/// in its normal form: what `PathSegmentsMut::extend` leaves after
/// `PathSegmentsMut::pop_if_empty` took an empty last segment off, so that a
/// slash at the end of the base's path does not double. `None` where `base`
/// is no URL, or one whose path has no segments.
pub uninterp spec fn url_with_segments(base: Seq<char>, segments: Seq<Seq<char>>) -> Option<
    Seq<char>,
>;

/// The URL `url` with the pair `name=value` added to its query, in its normal
/// form. `None` where `url` is no URL.
pub uninterp spec fn url_with_pair(url: Seq<char>, name: Seq<char>, value: Seq<char>) -> Option<
    Seq<char>,
>;

/// `Url::parse`, then `Url::as_str`. Believed, not proved: the outcome depends
/// on `raw` alone, so that it is `normalized_url` of it.
#[verifier::external_body]
fn normalize(raw: &str) -> (text: Option<String>)
    ensures
        text.deep_view() == normalized_url(raw@),
{
    url::Url::parse(raw).ok().map(|u| u.as_str().to_string())
}

/// `Url::parse`, then `Url::path`. Believed, not proved: the outcome depends
/// on `raw` alone, so that it is `path_of_url` of it.
#[verifier::external_body]
fn path_of(raw: &str) -> (path: Option<String>)
    ensures
        path.deep_view() == path_of_url(raw@),
{
    url::Url::parse(raw).ok().map(|u| u.path().to_string())
}

/// `Url::parse` of the base, then `Url::path_segments_mut`,
/// `PathSegmentsMut::pop_if_empty` and `PathSegmentsMut::extend`, then
/// `Url::as_str`. Believed, not proved: the outcome depends on the base and
/// the segments alone, so that it is `url_with_segments` of them.
#[verifier::external_body]
fn append_segments(base: &str, segments: &Vec<String>) -> (url: Option<String>)
    ensures
        url.deep_view() == url_with_segments(base@, segments.deep_view()),
{
    let mut parsed = url::Url::parse(base).ok()?;
    parsed.path_segments_mut().ok()?.pop_if_empty().extend(segments);
    Some(parsed.as_str().to_string())
}

/// `Url::parse`, then `Url::query_pairs_mut` and `Serializer::append_pair`,
/// then `Url::as_str`. Believed, not proved: the outcome depends on the three
/// strings alone, so that it is `url_with_pair` of them.
#[verifier::external_body]
fn with_pair(url: &str, name: &str, value: &str) -> (extended: Option<String>)
    ensures
        extended.deep_view() == url_with_pair(url@, name@, value@),
{
    let mut parsed = url::Url::parse(url).ok()?;
    parsed.query_pairs_mut().append_pair(name, value);
    Some(parsed.as_str().to_string())
}

/// The URI of a document.
#[derive(Debug)]
pub struct DocumentUri {
    /// The URI in its normal form: the document's identity.
    pub text: String,
    /// The URI's path.
    pub path: String,
}

/// A `DocumentUri`, as a mathematical value.
pub struct DocumentUriView {
    pub text: Seq<char>,
    pub path: Seq<char>,
}

impl DeepView for DocumentUri {
    type V = DocumentUriView;

    open spec fn deep_view(&self) -> DocumentUriView {
        DocumentUriView { text: self.text@, path: self.path@ }
    }
}

impl Clone for DocumentUri {
    fn clone(&self) -> (copy: DocumentUri)
        ensures
            copy.deep_view() == self.deep_view(),
    {
        DocumentUri { text: self.text.clone(), path: self.path.clone() }
    }
}

/// The URI that `raw` spells.
pub open spec fn parsed_uri(raw: Seq<char>) -> Option<DocumentUriView> {
    match (normalized_url(raw), path_of_url(raw)) {
        (Some(text), Some(path)) => Some(DocumentUriView { text, path }),
        _ => None,
    }
}

/// The last segment of a path: what follows its last slash. A path that does
/// not begin with a slash has no segments.
pub open spec fn last_segment(path: Seq<char>) -> Option<Seq<char>> {
    if path.len() > 0 && path[0] == '/' {
        Some(path.subrange(last_index_of(path, '/', path.len() as int) + 1, path.len() as int))
    } else {
        None
    }
}

/// The endpoint of the service at `base` that lies `segments` below it, with
/// one pair in its query: the base is a prefix, and the segments are appended
/// to whatever path it has.
pub open spec fn endpoint_of(
    base: Seq<char>,
    segments: Seq<Seq<char>>,
    name: Seq<char>,
    value: Seq<char>,
) -> Option<Seq<char>> {
    match url_with_segments(base, segments) {
        Some(url) => url_with_pair(url, name, value),
        None => None,
    }
}

impl DocumentUri {
    /// Reads a URI. `None` where `raw` is none.
    pub fn parse(raw: &str) -> (uri: Option<DocumentUri>)
        ensures
            uri.deep_view() == parsed_uri(raw@),
    {
        match normalize(raw) {
            Some(text) => match path_of(raw) {
                Some(path) => Some(DocumentUri { text, path }),
                None => None,
            },
            None => None,
        }
    }

    /// The name of the file: the last segment of the path.
    pub fn file_name(&self) -> (name: Option<String>)
        ensures
            name.deep_view() == last_segment(self.path@),
    {
        let chars = to_chars(self.path.as_str());
        if chars.len() > 0 && chars[0] == '/' {
            proof {
                lemma_last_index_bounds(chars@, '/', chars@.len() as int);
                lemma_last_index_found(chars@, '/', chars@.len() as int, 0);
            }
            match find_last(&chars, '/') {
                Some(i) => {
                    let segment = self.path.as_str().substring_char(i + 1, chars.len());
                    Some(String::from_str(segment))
                },
                None => None,
            }
        } else {
            None
        }
    }
}

/// The normal form of the URL that `raw` spells.
pub fn normalize_url(raw: &str) -> (url: Option<String>)
    ensures
        url.deep_view() == normalized_url(raw@),
{
    normalize(raw)
}

/// The URL of the endpoint of the service at `base` that lies `segments` below
/// it, with the pair `name=value` in its query.
pub fn endpoint(base: &str, segments: &Vec<String>, name: &str, value: &str) -> (url: Option<
    String,
>)
    ensures
        url.deep_view() == endpoint_of(base@, segments.deep_view(), name@, value@),
{
    match append_segments(base, segments) {
        Some(url) => with_pair(url.as_str(), name, value),
        None => None,
    }
}

} // verus!
