//! Strings as sequences of characters: what the rest of the library asks of
//! them, stated over their `Seq<char>` view.

use vstd::prelude::*;
use vstd::string::StringExecFns;
use vstd::utf8::*;

verus! {

/// Number of bytes that the UTF-8 encoding of `c` takes.
pub open spec fn utf8_width(c: char) -> int {
    if (c as u32) < 0x80 {
        1
    } else if (c as u32) < 0x800 {
        2
    } else if (c as u32) < 0x10000 {
        3
    } else {
        4
    }
}

/// Number of UTF-16 code units that `c` takes: two for a character outside the
/// basic multilingual plane, one otherwise.
pub open spec fn utf16_width(c: char) -> int {
    if (c as u32) < 0x10000 {
        1
    } else {
        2
    }
}

/// Total UTF-8 length of the first `k` characters of `s`.
pub open spec fn utf8_len(s: Seq<char>, k: int) -> int
    decreases k,
{
    if k <= 0 {
        0
    } else {
        utf8_len(s, k - 1) + utf8_width(s[k - 1])
    }
}

/// The Unicode `White_Space` property, which `char::is_whitespace` and
/// `str::trim` go by.
pub open spec fn is_whitespace(c: char) -> bool {
    let v = c as u32;
    (0x09 <= v <= 0x0D) || v == 0x20 || v == 0x85 || v == 0xA0 || v == 0x1680 || (0x2000 <= v
        <= 0x200A) || v == 0x2028 || v == 0x2029 || v == 0x202F || v == 0x205F || v == 0x3000
}

/// A string is blank when trimming it leaves nothing: every character is white
/// space.
pub open spec fn is_blank(s: Seq<char>) -> bool {
    forall|i: int| 0 <= i < s.len() ==> is_whitespace(#[trigger] s[i])
}

/// `c` with an ASCII capital letter turned into its small letter.
pub open spec fn ascii_lower(c: char) -> char {
    if 'A' <= c && c <= 'Z' {
        ((c as u8) + 32) as u8 as char
    } else {
        c
    }
}

/// Equality of two strings up to the case of ASCII letters.
pub open spec fn eq_ignoring_ascii_case(a: Seq<char>, b: Seq<char>) -> bool {
    a.len() == b.len() && forall|i: int|
        0 <= i < a.len() ==> ascii_lower(#[trigger] a[i]) == ascii_lower(b[i])
}

/// `s` ends with `suffix`, up to the case of ASCII letters.
pub open spec fn ends_with_ignoring_ascii_case(s: Seq<char>, suffix: Seq<char>) -> bool {
    suffix.len() <= s.len() && eq_ignoring_ascii_case(
        s.subrange(s.len() - suffix.len(), s.len() as int),
        suffix,
    )
}

/// The number of bytes that `c` takes in UTF-8.
pub fn char_utf8_width(c: char) -> (w: usize)
    ensures
        w == utf8_width(c),
        1 <= w <= 4,
{
    let v: u32 = c as u32;
    if v < 0x80 {
        1
    } else if v < 0x800 {
        2
    } else if v < 0x10000 {
        3
    } else {
        4
    }
}

/// The number of code units that `c` takes in UTF-16.
pub fn char_utf16_width(c: char) -> (w: u32)
    ensures
        w == utf16_width(c),
        1 <= w <= 2,
{
    if (c as u32) < 0x10000 {
        1
    } else {
        2
    }
}

/// Whether `c` is white space.
pub fn char_is_whitespace(c: char) -> (b: bool)
    ensures
        b == is_whitespace(c),
{
    let v: u32 = c as u32;
    (0x09 <= v && v <= 0x0D) || v == 0x20 || v == 0x85 || v == 0xA0 || v == 0x1680 || (0x2000 <= v
        && v <= 0x200A) || v == 0x2028 || v == 0x2029 || v == 0x202F || v == 0x205F || v == 0x3000
}

/// `c`, in lower case where it is an ASCII letter.
pub fn char_ascii_lower(c: char) -> (r: char)
    ensures
        r == ascii_lower(c),
{
    if 'A' <= c && c <= 'Z' {
        let n: u8 = c as u8;
        (n + 32) as char
    } else {
        c
    }
}

/// The characters of `s`, for indexing in constant time.
pub fn to_chars(s: &str) -> (v: Vec<char>)
    ensures
        v@ == s@,
{
    let mut v: Vec<char> = Vec::new();
    for c in it: s.chars()
        invariant
            it.seq() == s@,
            v@ == it.seq().take(it.index() as int),
    {
        v.push(c);
    }
    v
}

/// Whether every one of `chars` is white space.
pub fn chars_blank(chars: &Vec<char>) -> (b: bool)
    ensures
        b == is_blank(chars@),
{
    let mut i: usize = 0;
    while i < chars.len()
        invariant
            i <= chars.len(),
            forall|j: int| 0 <= j < i ==> is_whitespace(#[trigger] chars@[j]),
        decreases chars.len() - i,
    {
        if !char_is_whitespace(chars[i]) {
            return false;
        }
        i = i + 1;
    }
    true
}

/// Whether trimming `s` leaves nothing.
pub fn str_is_blank(s: &str) -> (b: bool)
    ensures
        b == is_blank(s@),
{
    let chars = to_chars(s);
    chars_blank(&chars)
}

/// Whether `a` and `b` are equal up to the case of ASCII letters.
pub fn chars_eq_ignore_ascii_case(a: &Vec<char>, b: &Vec<char>) -> (r: bool)
    ensures
        r == eq_ignoring_ascii_case(a@, b@),
{
    if a.len() != b.len() {
        return false;
    }
    let mut i: usize = 0;
    while i < a.len()
        invariant
            i <= a.len(),
            a.len() == b.len(),
            forall|j: int| 0 <= j < i ==> ascii_lower(#[trigger] a@[j]) == ascii_lower(b@[j]),
        decreases a.len() - i,
    {
        if char_ascii_lower(a[i]) != char_ascii_lower(b[i]) {
            return false;
        }
        i = i + 1;
    }
    true
}

/// Whether `a` and `b` are equal up to the case of ASCII letters.
pub fn str_eq_ignore_ascii_case(a: &str, b: &str) -> (r: bool)
    ensures
        r == eq_ignoring_ascii_case(a@, b@),
{
    let ca = to_chars(a);
    let cb = to_chars(b);
    chars_eq_ignore_ascii_case(&ca, &cb)
}

/// Whether `s` ends with `suffix`, up to the case of ASCII letters.
pub fn chars_end_with_ignore_ascii_case(s: &Vec<char>, suffix: &str) -> (r: bool)
    ensures
        r == ends_with_ignoring_ascii_case(s@, suffix@),
{
    let tail = to_chars(suffix);
    if tail.len() > s.len() {
        return false;
    }
    let start: usize = s.len() - tail.len();
    let ghost window = s@.subrange(start as int, s@.len() as int);
    let mut i: usize = 0;
    while i < tail.len()
        invariant
            i <= tail.len(),
            tail.len() <= s.len(),
            tail@ == suffix@,
            start == s.len() - tail.len(),
            window == s@.subrange(start as int, s@.len() as int),
            forall|j: int|
                0 <= j < i ==> ascii_lower(#[trigger] window[j]) == ascii_lower(tail@[j]),
        decreases tail.len() - i,
    {
        assert(window[i as int] == s@[start + i]);
        if char_ascii_lower(s[start + i]) != char_ascii_lower(tail[i]) {
            assert(ascii_lower(window[i as int]) != ascii_lower(tail@[i as int]));
            return false;
        }
        i = i + 1;
    }
    true
}


/// Whether two strings hold the same characters.
pub fn str_eq(a: &str, b: &str) -> (r: bool)
    ensures
        r == (a@ == b@),
{
    broadcast use encode_utf8_decode_utf8;

    let x = a.as_bytes();
    let y = b.as_bytes();
    if x.len() != y.len() {
        return false;
    }
    let mut i: usize = 0;
    while i < x.len()
        invariant
            i <= x.len(),
            x.len() == y.len(),
            x@ == encode_utf8(a@),
            y@ == encode_utf8(b@),
            forall|j: int| 0 <= j < i ==> x@[j] == y@[j],
        decreases x.len() - i,
    {
        if x[i] != y[i] {
            return false;
        }
        i = i + 1;
    }
    assert(x@ =~= y@);
    assert(decode_utf8(encode_utf8(a@)) == a@);
    assert(decode_utf8(encode_utf8(b@)) == b@);
    true
}


proof fn lemma_utf8_len_shift(s: Seq<char>, k: int)
    requires
        1 <= k <= s.len(),
    ensures
        utf8_len(s, k) == utf8_width(s[0]) + utf8_len(s.drop_first(), k - 1),
    decreases k,
{
    if k > 1 {
        lemma_utf8_len_shift(s, k - 1);
        assert(s.drop_first()[k - 2] == s[k - 1]);
    } else {
        assert(utf8_len(s, 0) == 0);
        assert(utf8_len(s.drop_first(), 0) == 0);
    }
}

/// `utf8_len` of a whole string is the length of its UTF-8 encoding.
pub proof fn lemma_utf8_len_is_encoded_len(s: Seq<char>)
    ensures
        utf8_len(s, s.len() as int) == encode_utf8(s).len(),
    decreases s.len(),
{
    if s.len() > 0 {
        lemma_utf8_len_is_encoded_len(s.drop_first());
        lemma_utf8_len_shift(s, s.len() as int);
        char_is_scalar(s[0]);
    }
}


/// The decimal digit for `d`.
pub open spec fn digit_char(d: int) -> char {
    if d == 0 {
        '0'
    } else if d == 1 {
        '1'
    } else if d == 2 {
        '2'
    } else if d == 3 {
        '3'
    } else if d == 4 {
        '4'
    } else if d == 5 {
        '5'
    } else if d == 6 {
        '6'
    } else if d == 7 {
        '7'
    } else if d == 8 {
        '8'
    } else {
        '9'
    }
}

/// `n` written in decimal, without leading zeros.
pub open spec fn decimal_text(n: nat) -> Seq<char>
    decreases n,
{
    if n < 10 {
        seq![digit_char(n as int)]
    } else {
        decimal_text(n / 10).push(digit_char((n % 10) as int))
    }
}

fn digit_str(d: u64) -> (s: &'static str)
    requires
        d < 10,
    ensures
        s@ == seq![digit_char(d as int)],
{
    proof {
        reveal_strlit("0");
        reveal_strlit("1");
        reveal_strlit("2");
        reveal_strlit("3");
        reveal_strlit("4");
        reveal_strlit("5");
        reveal_strlit("6");
        reveal_strlit("7");
        reveal_strlit("8");
        reveal_strlit("9");
    }
    let s = if d == 0 {
        "0"
    } else if d == 1 {
        "1"
    } else if d == 2 {
        "2"
    } else if d == 3 {
        "3"
    } else if d == 4 {
        "4"
    } else if d == 5 {
        "5"
    } else if d == 6 {
        "6"
    } else if d == 7 {
        "7"
    } else if d == 8 {
        "8"
    } else {
        "9"
    };
    assert(s@ =~= seq![digit_char(d as int)]);
    s
}

/// `n` in decimal.
pub fn decimal(n: u64) -> (s: String)
    ensures
        s@ == decimal_text(n as nat),
    decreases n,
{
    if n < 10 {
        String::from_str(digit_str(n))
    } else {
        let mut s = decimal(n / 10);
        s.append(digit_str(n % 10));
        assert(s@ =~= decimal_text(n as nat));
        s
    }
}

/// `head` followed by `tail`.
pub fn concat(head: &str, tail: &str) -> (s: String)
    ensures
        s@ == head@ + tail@,
{
    let mut s = String::from_str(head);
    s.append(tail);
    s
}


/// A copy of an optional string.
pub fn clone_optional(text: &Option<String>) -> (copy: Option<String>)
    ensures
        copy.deep_view() == text.deep_view(),
{
    match text {
        Some(s) => Some(s.clone()),
        None => None,
    }
}

/// `text`, unless it is absent or empty.
pub fn non_empty(text: Option<&str>) -> (kept: Option<String>)
    ensures
        kept.deep_view() == kept_non_empty(text.deep_view()),
{
    match text {
        Some(s) => if s.is_empty() {
            None
        } else {
            Some(String::from_str(s))
        },
        None => None,
    }
}

/// `text`, unless it is absent or empty.
pub open spec fn kept_non_empty(text: Option<Seq<char>>) -> Option<Seq<char>> {
    match text {
        Some(s) => if s.len() == 0 {
            None
        } else {
            Some(s)
        },
        None => None,
    }
}


/// The index of the last `c` among the first `n` characters of `s`, or -1 where
/// there is none.
pub open spec fn last_index_of(s: Seq<char>, c: char, n: int) -> int
    decreases n,
{
    if n <= 0 {
        -1
    } else if s[n - 1] == c {
        n - 1
    } else {
        last_index_of(s, c, n - 1)
    }
}

/// The last index of a character lies below `n`, and is -1 only where the
/// character does not occur.
pub proof fn lemma_last_index_bounds(s: Seq<char>, c: char, n: int)
    ensures
        -1 <= last_index_of(s, c, n),
        n >= 0 ==> last_index_of(s, c, n) < n,
        n < 0 ==> last_index_of(s, c, n) == -1,
    decreases n,
{
    if n > 0 && s[n - 1] != c {
        lemma_last_index_bounds(s, c, n - 1);
    }
}

/// The last index of a character is at or after any index at which the
/// character stands.
pub proof fn lemma_last_index_found(s: Seq<char>, c: char, n: int, i: int)
    requires
        0 <= i < n,
        s[i] == c,
    ensures
        i <= last_index_of(s, c, n),
    decreases n,
{
    if s[n - 1] != c {
        lemma_last_index_found(s, c, n - 1, i);
    }
}

/// The index of the last `c` in `chars`.
pub fn find_last(chars: &Vec<char>, c: char) -> (found: Option<usize>)
    ensures
        match found {
            Some(i) => i == last_index_of(chars@, c, chars@.len() as int) && i < chars.len(),
            None => last_index_of(chars@, c, chars@.len() as int) == -1,
        },
{
    let mut n: usize = chars.len();
    while n > 0
        invariant
            n <= chars.len(),
            last_index_of(chars@, c, chars@.len() as int) == last_index_of(chars@, c, n as int),
        decreases n,
    {
        if chars[n - 1] == c {
            return Some(n - 1);
        }
        n = n - 1;
    }
    None
}

/// The value of the first `n` characters of `s` read as decimal digits.
pub open spec fn digits_value(s: Seq<char>, n: int) -> nat
    decreases n,
{
    if n <= 0 {
        0
    } else {
        digits_value(s, n - 1) * 10 + (s[n - 1] as u32 - '0' as u32) as nat
    }
}

/// Whether `c` is one of the ten decimal digits.
pub open spec fn is_digit(c: char) -> bool {
    '0' <= c && c <= '9'
}

/// Whether `s` holds decimal digits only.
pub open spec fn all_digits(s: Seq<char>) -> bool {
    forall|i: int| 0 <= i < s.len() ==> is_digit(#[trigger] s[i])
}

/// `s` without the plus sign that may stand before a number.
pub open spec fn unsigned_part(s: Seq<char>) -> Seq<char> {
    if s.len() > 0 && s[0] == '+' {
        s.subrange(1, s.len() as int)
    } else {
        s
    }
}

/// The number that `s` spells, as `str::parse::<u64>` reads it: decimal digits,
/// at least one, after an optional plus sign, with a value that a `u64` holds.
pub open spec fn parsed_u64(s: Seq<char>) -> Option<u64> {
    let body = unsigned_part(s);
    if body.len() > 0 && all_digits(body) && digits_value(body, body.len() as int) <= u64::MAX {
        Some(digits_value(body, body.len() as int) as u64)
    } else {
        None
    }
}

proof fn lemma_digits_value_grows(s: Seq<char>, j: int, k: int)
    requires
        0 <= j <= k <= s.len(),
        all_digits(s),
    ensures
        digits_value(s, j) <= digits_value(s, k),
    decreases k - j,
{
    if j < k {
        lemma_digits_value_grows(s, j, k - 1);
        assert(is_digit(s[k - 1]));
    }
}

/// Reads `s` as a `u64`.
pub fn parse_u64(s: &str) -> (value: Option<u64>)
    ensures
        value == parsed_u64(s@),
{
    let chars = to_chars(s);
    let start: usize = if chars.len() > 0 && chars[0] == '+' {
        1
    } else {
        0
    };
    let ghost body = unsigned_part(s@);
    assert(body.len() == chars.len() - start);
    if start == chars.len() {
        return None;
    }
    let mut value: u64 = 0;
    let mut i: usize = start;
    while i < chars.len()
        invariant
            start <= i <= chars.len(),
            chars@ == s@,
            body == unsigned_part(s@),
            body.len() == chars.len() - start,
            forall|j: int| 0 <= j < body.len() ==> body[j] == chars@[j + start],
            forall|j: int| 0 <= j < i - start ==> is_digit(#[trigger] body[j]),
            value == digits_value(body, i - start),
        decreases chars.len() - i,
    {
        let c: char = chars[i];
        assert(body[i - start] == c);
        if !('0' <= c && c <= '9') {
            assert(!is_digit(body[i - start]));
            return None;
        }
        let digit: u64 = (c as u32 - '0' as u32) as u64;
        let ghost next = digits_value(body, i - start + 1);
        assert(next == value * 10 + digit);
        if value > (u64::MAX - digit) / 10 {
            proof {
                if all_digits(body) {
                    lemma_digits_value_grows(body, i - start + 1, body.len() as int);
                }
            }
            return None;
        }
        value = value * 10 + digit;
        i = i + 1;
    }
    Some(value)
}


/// The deep view of a `Result`: that of what it holds, on either side.
pub open spec fn result_view<T: DeepView, E: DeepView>(outcome: Result<T, E>) -> Result<
    T::V,
    E::V,
> {
    match outcome {
        Ok(value) => Ok(value.deep_view()),
        Err(error) => Err(error.deep_view()),
    }
}

} // verus!
