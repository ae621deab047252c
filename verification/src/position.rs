//! Positions in a text: zero-based lines and, within a line, UTF-16 code units.
//!
//! A text is modelled by its characters. A byte offset into its UTF-8 form and
//! a line/column position are two ways to name a place between two characters;
//! this module converts between them.

use crate::text::{
    char_utf16_width, char_utf8_width, lemma_utf8_len_is_encoded_len, to_chars, utf16_width,
    utf8_len,
};
use vstd::prelude::*;

verus! {

/// A place in a text: the line, and the number of UTF-16 code units before it
/// on that line.
#[derive(Clone, Copy, Debug, PartialEq, Eq, Structural)]
pub struct Position {
    pub line: u32,
    pub character: u32,
}

/// A half-open span of a text, from `start` up to `end`.
#[derive(Clone, Copy, Debug, PartialEq, Eq, Structural)]
pub struct Range {
    pub start: Position,
    pub end: Position,
}

impl Position {
    /// The position at `character` on `line`.
    pub fn new(line: u32, character: u32) -> (p: Position)
        ensures
            p.line == line,
            p.character == character,
    {
        Position { line, character }
    }
}

impl Range {
    /// The range from `start` up to `end`.
    pub fn new(start: Position, end: Position) -> (r: Range)
        ensures
            r.start == start,
            r.end == end,
    {
        Range { start, end }
    }
}

/// Number of line feeds among the first `k` characters.
pub open spec fn line_at(chars: Seq<char>, k: int) -> int
    decreases k,
{
    if k <= 0 {
        0
    } else {
        line_at(chars, k - 1) + if chars[k - 1] == '\n' {
            1int
        } else {
            0int
        }
    }
}

/// Number of UTF-16 code units between the last line feed among the first `k`
/// characters (or the start of the text) and the `k`-th character.
pub open spec fn column_at(chars: Seq<char>, k: int) -> int
    decreases k,
{
    if k <= 0 {
        0
    } else if chars[k - 1] == '\n' {
        0
    } else {
        column_at(chars, k - 1) + utf16_width(chars[k - 1])
    }
}

/// Among the first `n` characters, how many begin before byte `offset`. Since
/// byte offsets grow with the index, these are a prefix of the text.
pub open spec fn chars_before(chars: Seq<char>, n: int, offset: int) -> int
    decreases n,
{
    if n <= 0 {
        0
    } else if utf8_len(chars, n - 1) < offset {
        n
    } else {
        chars_before(chars, n - 1, offset)
    }
}

/// `v` as a `u32`, or the largest `u32` where it does not fit.
pub open spec fn clamp_u32(v: int) -> u32 {
    if v > u32::MAX {
        u32::MAX
    } else if v < 0 {
        0
    } else {
        v as u32
    }
}

/// The position of the place after the first `k` characters. A line or a column
/// that a `u32` cannot hold is given as `u32::MAX`.
pub open spec fn position_at(chars: Seq<char>, k: int) -> Position {
    Position { line: clamp_u32(line_at(chars, k)), character: clamp_u32(column_at(chars, k)) }
}

/// The position that stands for byte `offset`: the place after the characters
/// that begin before it. An offset inside a character counts as the end of that
/// character, one past the end of the text as the end of the text.
pub open spec fn position_of_offset(chars: Seq<char>, offset: int) -> Position {
    position_at(chars, chars_before(chars, chars.len() as int, offset))
}

/// The range that stands for the byte span from `start` to `end`.
pub open spec fn range_of_span(chars: Seq<char>, start: int, end: int) -> Range {
    Range { start: position_of_offset(chars, start), end: position_of_offset(chars, end) }
}

/// The place after the first `k` characters is at `position`.
pub open spec fn resolves_at(chars: Seq<char>, position: Position, k: int) -> bool {
    &&& 0 <= k <= chars.len()
    &&& line_at(chars, k) == position.line
    &&& column_at(chars, k) == position.character
}

/// The index of the character at `position`, where the text has such a place.
pub open spec fn resolve(chars: Seq<char>, position: Position) -> Option<int> {
    if exists|k: int| resolves_at(chars, position, k) {
        Some(choose|k: int| resolves_at(chars, position, k))
    } else {
        None
    }
}

/// Byte offsets grow with the index, by at least one byte for each character.
pub proof fn lemma_utf8_len_grows(chars: Seq<char>, j: int, k: int)
    requires
        0 <= j <= k,
    ensures
        utf8_len(chars, j) + (k - j) <= utf8_len(chars, k),
    decreases k - j,
{
    if j < k {
        lemma_utf8_len_grows(chars, j, k - 1);
    }
}

/// Line and column grow with the index, in the order of lines first: no two
/// places of a text share a position.
pub proof fn lemma_position_grows(chars: Seq<char>, j: int, k: int)
    requires
        0 <= j < k,
    ensures
        line_at(chars, j) < line_at(chars, k) || (line_at(chars, j) == line_at(chars, k)
            && column_at(chars, j) < column_at(chars, k)),
        0 <= line_at(chars, j),
        0 <= column_at(chars, j),
    decreases k - j,
{
    lemma_position_nonnegative(chars, j);
    if j < k - 1 {
        lemma_position_grows(chars, j, k - 1);
    }
}

/// Lines and columns are not negative.
pub proof fn lemma_position_nonnegative(chars: Seq<char>, k: int)
    ensures
        0 <= line_at(chars, k),
        0 <= column_at(chars, k),
    decreases k,
{
    if k > 0 {
        lemma_position_nonnegative(chars, k - 1);
    }
}

/// A position names at most one place of a text.
pub proof fn lemma_resolve_unique(chars: Seq<char>, position: Position, j: int, k: int)
    requires
        resolves_at(chars, position, j),
        resolves_at(chars, position, k),
    ensures
        j == k,
{
    if j < k {
        lemma_position_grows(chars, j, k);
    } else if k < j {
        lemma_position_grows(chars, k, j);
    }
}

/// The characters that begin before a byte offset are those before the first
/// character that does not.
pub proof fn lemma_chars_before(chars: Seq<char>, n: int, offset: int, k: int)
    requires
        0 <= k <= n,
        k > 0 ==> utf8_len(chars, k - 1) < offset,
        k < n ==> utf8_len(chars, k) >= offset,
    ensures
        chars_before(chars, n, offset) == k,
    decreases n - k,
{
    if k < n {
        lemma_utf8_len_grows(chars, k, n - 1);
        lemma_chars_before(chars, n - 1, offset, k);
    }
}

/// The position that stands for byte `offset` of `text`.
pub fn offset_to_position(text: &str, offset: usize) -> (position: Position)
    ensures
        position == position_of_offset(text@, offset as int),
{
    let chars = to_chars(text);
    let n: usize = chars.len();
    let mut line: u32 = 0;
    let mut column: u32 = 0;
    let mut left: usize = offset;
    let mut k: usize = 0;
    while k < n && left > 0
        invariant
            chars@ == text@,
            n == chars.len(),
            k <= n,
            left > 0 ==> utf8_len(chars@, k as int) + left == offset,
            left == 0 ==> utf8_len(chars@, k as int) >= offset,
            k > 0 ==> utf8_len(chars@, k - 1) < offset,
            line == clamp_u32(line_at(chars@, k as int)),
            column == clamp_u32(column_at(chars@, k as int)),
        decreases n - k,
    {
        let c: char = chars[k];
        proof {
            lemma_position_nonnegative(chars@, k as int);
        }
        if c == '\n' {
            if line < u32::MAX {
                line = line + 1;
            }
            column = 0;
        } else {
            let w: u32 = char_utf16_width(c);
            column = if column > u32::MAX - w {
                u32::MAX
            } else {
                column + w
            };
        }
        let width: usize = char_utf8_width(c);
        left = if left > width {
            left - width
        } else {
            0
        };
        k = k + 1;
    }
    proof {
        lemma_chars_before(chars@, n as int, offset as int, k as int);
    }
    Position { line, character: column }
}

/// The range that stands for the byte span from `start` to `end` of `text`.
pub fn span_to_range(text: &str, start: usize, end: usize) -> (range: Range)
    ensures
        range == range_of_span(text@, start as int, end as int),
{
    Range { start: offset_to_position(text, start), end: offset_to_position(text, end) }
}

proof fn lemma_nothing_resolves_from(chars: Seq<char>, position: Position, k: int)
    requires
        0 <= k,
        line_at(chars, k) > position.line || (line_at(chars, k) == position.line && column_at(
            chars,
            k,
        ) > position.character),
    ensures
        forall|m: int| k <= m ==> !resolves_at(chars, position, m),
{
    assert forall|m: int| k <= m implies !resolves_at(chars, position, m) by {
        if k < m {
            lemma_position_grows(chars, k, m);
        }
    }
}

/// Walks `chars` to the place at `position`: its character index and its byte
/// offset, or `None` where the text has no such place (a line that does not
/// exist, a column past the end of the line or inside a surrogate pair).
fn locate_position(chars: &Vec<char>, position: Position) -> (place: Option<(usize, usize)>)
    requires
        utf8_len(chars@, chars@.len() as int) <= usize::MAX,
    ensures
        match place {
            Some((k, offset)) => resolves_at(chars@, position, k as int) && offset == utf8_len(
                chars@,
                k as int,
            ),
            None => forall|k: int| !resolves_at(chars@, position, k),
        },
{
    let n: usize = chars.len();
    let mut line: u32 = 0;
    let mut column: u32 = 0;
    let mut offset: usize = 0;
    let mut k: usize = 0;
    loop
        invariant
            n == chars.len(),
            k <= n,
            utf8_len(chars@, chars@.len() as int) <= usize::MAX,
            offset == utf8_len(chars@, k as int),
            line == line_at(chars@, k as int),
            line <= position.line,
            line == position.line ==> column == column_at(chars@, k as int) && column
                <= position.character,
            forall|j: int| 0 <= j < k ==> !resolves_at(chars@, position, j),
        decreases n - k,
    {
        if line == position.line && column == position.character {
            return Some((k, offset));
        }
        if k == n {
            return None;
        }
        let c: char = chars[k];
        proof {
            lemma_utf8_len_grows(chars@, k + 1, n as int);
        }
        if c == '\n' {
            if line == position.line {
                proof {
                    lemma_nothing_resolves_from(chars@, position, k + 1);
                }
                return None;
            }
            line = line + 1;
            column = 0;
        } else if line == position.line {
            let w: u32 = char_utf16_width(c);
            if w > position.character - column {
                proof {
                    lemma_nothing_resolves_from(chars@, position, k + 1);
                }
                return None;
            }
            column = column + w;
        }
        offset = offset + char_utf8_width(c);
        k = k + 1;
    }
}

/// The place at `position` in `chars`, as `resolve` defines it, with its byte
/// offset.
pub(crate) fn resolve_position(chars: &Vec<char>, position: Position) -> (place: Option<
    (usize, usize),
>)
    requires
        utf8_len(chars@, chars@.len() as int) <= usize::MAX,
    ensures
        match place {
            Some((k, offset)) => resolve(chars@, position) == Some(k as int) && k <= chars.len()
                && offset == utf8_len(chars@, k as int),
            None => resolve(chars@, position) is None,
        },
{
    match locate_position(chars, position) {
        Some((k, offset)) => {
            proof {
                let chosen = choose|j: int| resolves_at(chars@, position, j);
                lemma_resolve_unique(chars@, position, chosen, k as int);
            }
            Some((k, offset))
        },
        None => None,
    }
}

/// The byte offset in `text` of the place at `position`, where there is one:
/// the inverse of `offset_to_position` on the boundaries between characters.
pub fn position_to_offset_utf16(text: &str, position: Position) -> (offset: Option<usize>)
    ensures
        match offset {
            Some(o) => resolve(text@, position) matches Some(k) && o == utf8_len(text@, k),
            None => resolve(text@, position) is None,
        },
{
    let chars = to_chars(text);
    let total: usize = text.as_bytes().len();
    proof {
        lemma_utf8_len_is_encoded_len(text@);
    }
    match locate_position(&chars, position) {
        Some((k, offset)) => {
            proof {
                let chosen = choose|j: int| resolves_at(text@, position, j);
                lemma_resolve_unique(text@, position, chosen, k as int);
            }
            Some(offset)
        },
        None => None,
    }
}

} // verus!
