//! Finds the version literal of a package in the text of a manifest.
//!
//! Each ecosystem has its patterns, regular expressions with the package's
//! name in them and a group named `ver` around the version. The search itself
//! is the `regex` crate's; what this module adds is the choice of patterns,
//! their order, and the conversion of the match to a range.

use crate::position::{range_of_span, span_to_range, Range};
use crate::text::{str_eq_ignore_ascii_case, eq_ignoring_ascii_case, utf8_len};
use vstd::prelude::*;
use vstd::string::StringExecFns;

verus! {

/// The characters that `regex` gives a meaning to, and that `regex::escape`
/// therefore puts a backslash before.
pub open spec fn is_meta_character(c: char) -> bool {
    c == '\\' || c == '.' || c == '+' || c == '*' || c == '?' || c == '(' || c == ')' || c == '|'
        || c == '[' || c == ']' || c == '{' || c == '}' || c == '^' || c == '$' || c == '#' || c
        == '&' || c == '-' || c == '~'
}

/// `s` with a backslash before each meta character.
pub open spec fn escaped(s: Seq<char>) -> Seq<char>
    decreases s.len(),
{
    if s.len() == 0 {
        seq![]
    } else if is_meta_character(s.last()) {
        escaped(s.drop_last()) + seq!['\\', s.last()]
    } else {
        escaped(s.drop_last()) + seq![s.last()]
    }
}

/// What a search of `text` for `pattern` captures in the group named `group`:
/// the byte offsets where the group of the leftmost match starts and ends.
/// `None` where `pattern` is no regular expression that `regex` compiles,
/// where nothing in `text` matches it, and where the match has no such group.
pub uninterp spec fn group_capture(
    pattern: Seq<char>,
    group: Seq<char>,
    text: Seq<char>,
) -> Option<(usize, usize)>;

/// The name of the group that each of the locator's patterns puts around the
/// version.
pub open spec fn version_group() -> Seq<char> {
    "ver"@
}

/// Byte `offset` lies between two characters of `chars`, or at either end.
pub open spec fn is_boundary(chars: Seq<char>, offset: int) -> bool {
    exists|k: int| 0 <= k <= chars.len() && #[trigger] utf8_len(chars, k) == offset
}

/// `regex::escape`. Believed, not proved: it copies the string and puts a
/// backslash before each character that `regex_syntax::is_meta_character`
/// accepts, the characters that `is_meta_character` lists here.
#[verifier::external_body]
fn escape(package: &str) -> (literal: String)
    ensures
        literal@ == escaped(package@),
{
    regex::escape(package)
}

/// `Regex::new`, `Regex::captures` and `Captures::name`, in that order, then
/// `Match::start` and `Match::end`. Believed, not proved: the outcome depends
/// on the pattern, the group's name and the text alone, so that it is
/// `group_capture` of them; and, as `Match` documents, the start is not after
/// the end and both fall on character boundaries of the text.
#[verifier::external_body]
fn capture_group(pattern: &str, group: &str, text: &str) -> (span: Option<(usize, usize)>)
    ensures
        span == group_capture(pattern@, group@, text@),
        span matches Some((start, end)) ==> start <= end && is_boundary(text@, start as int)
            && is_boundary(text@, end as int),
{
    regex::Regex::new(pattern).ok().and_then(
        |re| re.captures(text).and_then(|found| found.name(group).map(|m| (m.start(), m.end()))),
    )
}

/// The families of manifests that the locator knows.
#[derive(Clone, Copy, Debug, PartialEq, Eq, Structural)]
pub enum ManifestFamily {
    Npm,
    Pypi,
    Cargo,
    Other,
}

/// The family that an ecosystem's name stands for, whatever the case of its
/// letters.
pub open spec fn family_of(ecosystem: Seq<char>) -> ManifestFamily {
    if eq_ignoring_ascii_case(ecosystem, "npm"@) {
        ManifestFamily::Npm
    } else if eq_ignoring_ascii_case(ecosystem, "pypi"@) || eq_ignoring_ascii_case(
        ecosystem,
        "pip"@,
    ) || eq_ignoring_ascii_case(ecosystem, "python"@) {
        ManifestFamily::Pypi
    } else if eq_ignoring_ascii_case(ecosystem, "cargo"@) || eq_ignoring_ascii_case(
        ecosystem,
        "rust"@,
    ) {
        ManifestFamily::Cargo
    } else {
        ManifestFamily::Other
    }
}

/// `"<package>": "<version>"`, as in a `package.json`.
pub open spec fn npm_pattern(package: Seq<char>) -> Seq<char> {
    "\""@ + escaped(package) + "\"\\s*:\\s*\"(?P<ver>[^\"]+)\""@
}

/// A line `<package> == <version>`, with any run of `= < > ! ~` as the
/// operator, as in a `requirements.txt`.
pub open spec fn pypi_pattern(package: Seq<char>) -> Seq<char> {
    "(?m)^\\s*"@ + escaped(package) + "\\s*[=<>!~]+\\s*(?P<ver>[^\\s#]+)"@
}

/// A line `<package> = "<version>"`, as in a `Cargo.toml`.
pub open spec fn cargo_pattern(package: Seq<char>) -> Seq<char> {
    "(?m)^\\s*"@ + escaped(package) + "\\s*=\\s*\"(?P<ver>[^\"]+)\""@
}

/// A line `<package> = { .. version = "<version>" .. }`, the inline table of a
/// `Cargo.toml`.
pub open spec fn cargo_inline_pattern(package: Seq<char>) -> Seq<char> {
    "(?m)^\\s*"@ + escaped(package) + "\\s*=\\s*\\{[^}]*version\\s*=\\s*\"(?P<ver>[^\"]+)\""@
}

/// The patterns of a family for a package, in the order in which they are
/// tried.
pub open spec fn patterns_of(family: ManifestFamily, package: Seq<char>) -> Seq<Seq<char>> {
    match family {
        ManifestFamily::Npm => seq![npm_pattern(package)],
        ManifestFamily::Pypi => seq![pypi_pattern(package)],
        ManifestFamily::Cargo => seq![cargo_pattern(package), cargo_inline_pattern(package)],
        ManifestFamily::Other => seq![],
    }
}

/// A captured span, unless it is empty: a version has at least one character.
pub open spec fn non_empty_span(capture: Option<(usize, usize)>) -> Option<(usize, usize)> {
    match capture {
        Some((start, end)) => if start < end {
            Some((start, end))
        } else {
            None
        },
        None => None,
    }
}

/// What one pattern finds: the captured span, unless it is empty.
pub open spec fn pattern_span(pattern: Seq<char>, text: Seq<char>) -> Option<(usize, usize)> {
    non_empty_span(group_capture(pattern, version_group(), text))
}

/// The range that stands for a span of `text`, where there is one.
pub open spec fn range_of(text: Seq<char>, span: Option<(usize, usize)>) -> Option<Range> {
    match span {
        Some((start, end)) => Some(range_of_span(text, start as int, end as int)),
        None => None,
    }
}

/// The span of the first pattern, from index `from` on, that finds one.
pub open spec fn first_span(patterns: Seq<Seq<char>>, text: Seq<char>, from: int) -> Option<
    (usize, usize),
>
    decreases patterns.len() - from,
{
    if from < 0 || from >= patterns.len() {
        None
    } else if pattern_span(patterns[from], text) is Some {
        pattern_span(patterns[from], text)
    } else {
        first_span(patterns, text, from + 1)
    }
}

/// The byte span of the version literal of `package` in `text`.
pub open spec fn located_span(text: Seq<char>, ecosystem: Seq<char>, package: Seq<char>) -> Option<
    (usize, usize),
> {
    first_span(patterns_of(family_of(ecosystem), package), text, 0)
}

/// The range of the version literal of `package` in `text`.
pub open spec fn located_range(text: Seq<char>, ecosystem: Seq<char>, package: Seq<char>) -> Option<
    Range,
> {
    range_of(text, located_span(text, ecosystem, package))
}

/// The family that `ecosystem` stands for.
pub fn manifest_family(ecosystem: &str) -> (family: ManifestFamily)
    ensures
        family == family_of(ecosystem@),
{
    if str_eq_ignore_ascii_case(ecosystem, "npm") {
        ManifestFamily::Npm
    } else if str_eq_ignore_ascii_case(ecosystem, "pypi") || str_eq_ignore_ascii_case(
        ecosystem,
        "pip",
    ) || str_eq_ignore_ascii_case(ecosystem, "python") {
        ManifestFamily::Pypi
    } else if str_eq_ignore_ascii_case(ecosystem, "cargo") || str_eq_ignore_ascii_case(
        ecosystem,
        "rust",
    ) {
        ManifestFamily::Cargo
    } else {
        ManifestFamily::Other
    }
}

fn pattern_around(head: &str, literal: &str, tail: &str) -> (pattern: String)
    ensures
        pattern@ == head@ + literal@ + tail@,
{
    let mut pattern = String::from_str(head);
    pattern.append(literal);
    pattern.append(tail);
    pattern
}

/// A captured span, unless it is empty.
pub fn keep_non_empty(capture: Option<(usize, usize)>) -> (span: Option<(usize, usize)>)
    ensures
        span == non_empty_span(capture),
{
    match capture {
        Some((start, end)) => if start < end {
            Some((start, end))
        } else {
            None
        },
        None => None,
    }
}

/// The range that stands for a byte span of `text`, where there is one.
pub fn span_range(text: &str, span: Option<(usize, usize)>) -> (range: Option<Range>)
    ensures
        range == range_of(text@, span),
{
    match span {
        Some((start, end)) => Some(span_to_range(text, start, end)),
        None => None,
    }
}

/// Searches `text` for one pattern and gives the span of its `ver` group,
/// unless that is empty.
pub fn find_with_regex(text: &str, pattern: &str) -> (span: Option<(usize, usize)>)
    ensures
        span == pattern_span(pattern@, text@),
        span matches Some((start, end)) ==> is_boundary(text@, start as int) && is_boundary(
            text@,
            end as int,
        ),
{
    keep_non_empty(capture_group(pattern, "ver", text))
}

/// The byte span of the version literal of `package` in `text`, under the
/// conventions of `ecosystem`: what the first of the ecosystem's patterns that
/// finds anything captures. `None` for an ecosystem without patterns.
pub fn find_package_version_span(text: &str, ecosystem: &str, package: &str) -> (span: Option<
    (usize, usize),
>)
    ensures
        span == located_span(text@, ecosystem@, package@),
        span matches Some((start, end)) ==> start < end && is_boundary(text@, start as int)
            && is_boundary(text@, end as int),
{
    let family = manifest_family(ecosystem);
    let literal = escape(package);
    let ghost patterns = patterns_of(family, package@);
    match family {
        ManifestFamily::Npm => {
            let pattern = pattern_around("\"", literal.as_str(), "\"\\s*:\\s*\"(?P<ver>[^\"]+)\"");
            assert(pattern@ == patterns[0]);
            assert(first_span(patterns, text@, 1) is None);
            find_with_regex(text, pattern.as_str())
        },
        ManifestFamily::Pypi => {
            let pattern = pattern_around(
                "(?m)^\\s*",
                literal.as_str(),
                "\\s*[=<>!~]+\\s*(?P<ver>[^\\s#]+)",
            );
            assert(pattern@ == patterns[0]);
            assert(first_span(patterns, text@, 1) is None);
            find_with_regex(text, pattern.as_str())
        },
        ManifestFamily::Cargo => {
            let plain = pattern_around(
                "(?m)^\\s*",
                literal.as_str(),
                "\\s*=\\s*\"(?P<ver>[^\"]+)\"",
            );
            assert(plain@ == patterns[0]);
            match find_with_regex(text, plain.as_str()) {
                Some(span) => Some(span),
                None => {
                    let inline = pattern_around(
                        "(?m)^\\s*",
                        literal.as_str(),
                        "\\s*=\\s*\\{[^}]*version\\s*=\\s*\"(?P<ver>[^\"]+)\"",
                    );
                    assert(inline@ == patterns[1]);
                    assert(first_span(patterns, text@, 2) is None);
                    assert(first_span(patterns, text@, 1) == pattern_span(patterns[1], text@));
                    find_with_regex(text, inline.as_str())
                },
            }
        },
        ManifestFamily::Other => None,
    }
}

/// The range of the version literal of `package` in `text`, under the
/// conventions of `ecosystem`, or `None` where it is not found.
pub fn find_package_version_range(text: &str, ecosystem: &str, package: &str) -> (found: Option<
    Range,
>)
    ensures
        found == located_range(text@, ecosystem@, package@),
{
    span_range(text, find_package_version_span(text, ecosystem, package))
}

} // verus!
