//! The byte-level grammar of a frame's header: lines of `name: value`, of
//! which the one named `Content-Length` declares the payload's length.

use crate::decimal::{decimal, parse_length, read_length};
use vstd::prelude::*;
use vstd::slice::slice_subrange;

verus! {

pub const LF: u8 = 10;

pub const CR: u8 = 13;

pub const COLON: u8 = 58;

/// Index of the first `b` in `s` at or after `from`; `s.len()` where there is
/// none.
pub open spec fn find_byte(s: Seq<u8>, b: u8, from: int) -> int
    decreases s.len() - from,
{
    if from >= s.len() {
        s.len() as int
    } else if s[from] == b {
        from
    } else {
        find_byte(s, b, from + 1)
    }
}

/// What `find_byte` returns lies between `from` and the end, no `b` stands
/// before it, and `b` stands at it unless it is the end.
pub proof fn lemma_find_byte(s: Seq<u8>, b: u8, from: int)
    requires
        0 <= from <= s.len(),
    ensures
        from <= find_byte(s, b, from) <= s.len(),
        forall|i: int| from <= i < find_byte(s, b, from) ==> s[i] != b,
        find_byte(s, b, from) < s.len() ==> s[find_byte(s, b, from)] == b,
    decreases s.len() - from,
{
    if from < s.len() && s[from] != b {
        lemma_find_byte(s, b, from + 1);
    }
}

/// Any index with the three properties of `lemma_find_byte` is the one
/// `find_byte` returns.
pub proof fn lemma_find_byte_is(s: Seq<u8>, b: u8, from: int, at: int)
    requires
        0 <= from <= at <= s.len(),
        forall|i: int| from <= i < at ==> s[i] != b,
        at < s.len() ==> s[at] == b,
    ensures
        find_byte(s, b, from) == at,
    decreases at - from,
{
    if from < at {
        lemma_find_byte_is(s, b, from + 1, at);
    }
}

/// Finds the first `b` in `s` at or after `from`.
pub fn position(s: &[u8], b: u8, from: usize) -> (at: usize)
    ensures
        at as int == find_byte(s@, b, from as int),
        at <= s.len(),
        from <= s.len() ==> from <= at,
{
    if from >= s.len() {
        return s.len();
    }
    let mut i: usize = from;
    while i < s.len() && s[i] != b
        invariant
            from <= i <= s.len(),
            forall|j: int| from <= j < i ==> s@[j] != b,
        decreases s.len() - i,
    {
        i += 1;
    }
    proof {
        lemma_find_byte_is(s@, b, from as int, i as int);
    }
    i
}

/// Whether `b`, alone, encodes a white-space character: U+0009 to U+000D, or
/// U+0020.
pub open spec fn is_narrow_space(b: u8) -> bool {
    9 <= b <= 13 || b == 32
}

/// Whether `a b` encodes a white-space character: U+0085 or U+00A0.
pub open spec fn is_pair_space(a: u8, b: u8) -> bool {
    a == 0xC2 && (b == 0x85 || b == 0xA0)
}

/// Whether `a b c` encodes a white-space character: U+1680, U+2000 to U+200A,
/// U+2028, U+2029, U+202F, U+205F or U+3000.
pub open spec fn is_wide_space(a: u8, b: u8, c: u8) -> bool {
    ||| a == 0xE1 && b == 0x9A && c == 0x80
    ||| a == 0xE2 && b == 0x80 && (0x80 <= c <= 0x8A || c == 0xA8 || c == 0xA9 || c == 0xAF)
    ||| a == 0xE2 && b == 0x81 && c == 0x9F
    ||| a == 0xE3 && b == 0x80 && c == 0x80
}

/// How many bytes the white-space character takes that starts at `i` and ends
/// at or before `to`; 0 where none starts there.
pub open spec fn space_at(s: Seq<u8>, i: int, to: int) -> int {
    if i + 1 <= to && is_narrow_space(s[i]) {
        1
    } else if i + 2 <= to && is_pair_space(s[i], s[i + 1]) {
        2
    } else if i + 3 <= to && is_wide_space(s[i], s[i + 1], s[i + 2]) {
        3
    } else {
        0
    }
}

/// How many bytes the white-space character takes that ends just before `i`
/// and starts at or after `from`; 0 where none ends there.
pub open spec fn space_before(s: Seq<u8>, from: int, i: int) -> int {
    if from <= i - 1 && is_narrow_space(s[i - 1]) {
        1
    } else if from <= i - 2 && is_pair_space(s[i - 2], s[i - 1]) {
        2
    } else if from <= i - 3 && is_wide_space(s[i - 3], s[i - 2], s[i - 1]) {
        3
    } else {
        0
    }
}

/// Where the text of `s[from..to]` starts once leading white space is passed.
pub open spec fn skip_spaces(s: Seq<u8>, from: int, to: int) -> int
    decreases to - from,
{
    if space_at(s, from, to) > 0 {
        skip_spaces(s, from + space_at(s, from, to), to)
    } else {
        from
    }
}

/// Where the text of `s[from..to]` ends once trailing white space is dropped.
pub open spec fn drop_spaces(s: Seq<u8>, from: int, to: int) -> int
    decreases to - from,
{
    if space_before(s, from, to) > 0 {
        drop_spaces(s, from, to - space_before(s, from, to))
    } else {
        to
    }
}

/// `s` without the white space at its two ends, white space being the UTF-8
/// encodings of the characters that Unicode gives the property White_Space.
pub open spec fn trim(s: Seq<u8>) -> Seq<u8> {
    let from = skip_spaces(s, 0, s.len() as int);
    s.subrange(from, drop_spaces(s, from, s.len() as int))
}

fn narrow_space(b: u8) -> (r: bool)
    ensures
        r == is_narrow_space(b),
{
    (9 <= b && b <= 13) || b == 32
}

fn pair_space(a: u8, b: u8) -> (r: bool)
    ensures
        r == is_pair_space(a, b),
{
    a == 0xC2 && (b == 0x85 || b == 0xA0)
}

fn wide_space(a: u8, b: u8, c: u8) -> (r: bool)
    ensures
        r == is_wide_space(a, b, c),
{
    (a == 0xE1 && b == 0x9A && c == 0x80) || (a == 0xE2 && b == 0x80 && ((0x80 <= c && c <= 0x8A)
        || c == 0xA8 || c == 0xA9 || c == 0xAF)) || (a == 0xE2 && b == 0x81 && c == 0x9F) || (a
        == 0xE3 && b == 0x80 && c == 0x80)
}

/// The bounds of `trim(s)` within `s`.
pub fn trim_bounds(s: &[u8]) -> (r: (usize, usize))
    ensures
        r.0 <= r.1 <= s.len(),
        r.0 as int == skip_spaces(s@, 0, s@.len() as int),
        r.1 as int == drop_spaces(s@, r.0 as int, s@.len() as int),
        s@.subrange(r.0 as int, r.1 as int) == trim(s@),
{
    let n = s.len();
    let mut from: usize = 0;
    loop
        invariant_except_break
            from <= n,
            n == s.len(),
            skip_spaces(s@, from as int, n as int) == skip_spaces(s@, 0, n as int),
        ensures
            from <= n,
            from as int == skip_spaces(s@, 0, n as int),
        decreases n - from,
    {
        let k: usize = if from < n && narrow_space(s[from]) {
            1
        } else if n - from >= 2 && pair_space(s[from], s[from + 1]) {
            2
        } else if n - from >= 3 && wide_space(s[from], s[from + 1], s[from + 2]) {
            3
        } else {
            0
        };
        assert(k as int == space_at(s@, from as int, n as int));
        if k == 0 {
            break;
        }
        from += k;
    }
    let mut to: usize = n;
    loop
        invariant_except_break
            from <= to <= n,
            n == s.len(),
            drop_spaces(s@, from as int, to as int) == drop_spaces(s@, from as int, n as int),
        ensures
            from <= to <= n,
            to as int == drop_spaces(s@, from as int, n as int),
        decreases to - from,
    {
        let k: usize = if to - from >= 1 && narrow_space(s[to - 1]) {
            1
        } else if to - from >= 2 && pair_space(s[to - 2], s[to - 1]) {
            2
        } else if to - from >= 3 && wide_space(s[to - 3], s[to - 2], s[to - 1]) {
            3
        } else {
            0
        };
        assert(k as int == space_before(s@, from as int, to as int));
        if k == 0 {
            break;
        }
        to -= k;
    }
    (from, to)
}

/// The lower-case form of an ASCII letter; any other byte is itself.
pub open spec fn lower(b: u8) -> u8 {
    if 65 <= b <= 90 {
        (b + 32) as u8
    } else {
        b
    }
}

/// The bytes of a text of ASCII characters.
pub open spec fn ascii_bytes(text: Seq<char>) -> Seq<u8> {
    Seq::new(text.len(), |i: int| text[i] as u8)
}

/// The name of the one header field that a frame needs, in lower case.
pub open spec fn field_name() -> Seq<u8> {
    ascii_bytes("content-length"@)
}

/// Whether `name` is the field's name, in whatever case.
pub open spec fn names_length(name: Seq<u8>) -> bool {
    &&& name.len() == field_name().len()
    &&& forall|i: int| 0 <= i < field_name().len() ==> lower(#[trigger] name[i]) == field_name()[i]
}

/// A header line as the field scan sees it: without one carriage return at
/// its end.
pub open spec fn without_cr(line: Seq<u8>) -> Seq<u8> {
    if line.len() > 0 && line.last() == CR {
        line.drop_last()
    } else {
        line
    }
}

/// The length that a header line declares: the line holds a colon, what
/// stands before its first colon is, once trimmed, the field's name, and what
/// stands behind that colon writes, once trimmed, a length. A line of any
/// other field declares nothing, whatever its name begins with.
pub open spec fn declared_length(line: Seq<u8>) -> Option<usize> {
    let colon = find_byte(line, COLON, 0);
    if colon < line.len() && names_length(trim(line.subrange(0, colon))) {
        parse_length(trim(line.subrange(colon + 1, line.len() as int)))
    } else {
        None
    }
}

/// Only the field of that name declares a length: a line whose name is
/// longer or shorter declares nothing, whatever it begins with and whatever
/// its value.
pub proof fn lemma_other_fields_declare_nothing(line: Seq<u8>)
    requires
        trim(line.subrange(0, find_byte(line, COLON, 0))).len() != field_name().len(),
    ensures
        declared_length(line) is None,
{
}

fn to_lower(b: u8) -> (r: u8)
    ensures
        r == lower(b),
{
    if 65 <= b && b <= 90 {
        b + 32
    } else {
        b
    }
}

/// Whether `name` is the field's name.
pub fn is_field_name(name: &[u8]) -> (r: bool)
    ensures
        r == names_length(name@),
{
    let expected = "content-length".as_bytes();
    proof {
        reveal_strlit("content-length");
        vstd::string::is_ascii_spec_bytes("content-length");
        assert(expected@ =~= field_name());
    }
    if name.len() != expected.len() {
        return false;
    }
    let mut i: usize = 0;
    while i < expected.len()
        invariant
            i <= expected.len() == name.len(),
            expected@ == field_name(),
            forall|j: int| 0 <= j < i ==> lower(#[trigger] name@[j]) == field_name()[j],
        decreases expected.len() - i,
    {
        if to_lower(name[i]) != expected[i] {
            return false;
        }
        i += 1;
    }
    true
}

/// Reads the length that a header line declares.
pub fn read_declared_length(line: &[u8]) -> (r: Option<usize>)
    ensures
        r == declared_length(line@),
{
    let colon = position(line, COLON, 0);
    if colon >= line.len() {
        return None;
    }
    let name = slice_subrange(line, 0, colon);
    let (from, to) = trim_bounds(name);
    if !is_field_name(slice_subrange(name, from, to)) {
        return None;
    }
    let value = slice_subrange(line, colon + 1, line.len());
    let (from, to) = trim_bounds(value);
    read_length(slice_subrange(value, from, to))
}

/// The field's name as a frame's header writes it, with the colon and the
/// space that follow it.
pub open spec fn written_name() -> Seq<u8> {
    ascii_bytes("Content-Length: "@)
}

/// The header block of a frame whose payload has `n` bytes: the one line
/// `Content-Length: n`, then a blank line.
pub open spec fn frame_header(n: nat) -> Seq<u8> {
    written_name() + decimal(n) + seq![CR, LF, CR, LF]
}

} // verus!
