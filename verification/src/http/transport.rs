//! The transport-level header types of the HTTP client crate, declared for
//! the verifier, with the small trusted surface that the header assembler
//! calls.
//!
//! Validity of header names and values is stated here exactly as the HTTP
//! crate's parsers check it, so that the assembler's contracts can say, byte
//! for byte, which header sets convert and which fail.

use vstd::prelude::*;

verus! {

#[verifier::external_type_specification]
#[verifier::external_body]
pub struct ExHeaderName(reqwest::header::HeaderName);

#[verifier::external_type_specification]
#[verifier::external_body]
pub struct ExHeaderValue(reqwest::header::HeaderValue);

#[verifier::external_type_specification]
#[verifier::external_body]
#[verifier::reject_recursive_types(T)]
pub struct ExHeaderMap<T>(reqwest::header::HeaderMap<T>);

/// The characters of the name held by a `HeaderName`. A `HeaderName` stores
/// a lowercase ASCII token, so its character content is well defined.
pub uninterp spec fn header_name_chars(n: reqwest::header::HeaderName) -> Seq<char>;

/// The characters of the string a `HeaderValue`'s bytes spell. Values built
/// by this crate always come from Rust strings, whose bytes are valid
/// UTF-8, so their character content is well defined.
pub uninterp spec fn header_value_chars(v: reqwest::header::HeaderValue) -> Seq<char>;

/// What a `HeaderMap` holds: for each header name present, the first value
/// stored under it.
pub uninterp spec fn header_map_entries(m: reqwest::header::HeaderMap) -> Map<
    Seq<char>,
    Seq<char>,
>;

/// How many name/value pairs a `HeaderMap` stores, counting every value of
/// a multi-valued name. Bounding this is what keeps insertion free of the
/// map's capacity panic.
pub uninterp spec fn header_map_count(m: reqwest::header::HeaderMap) -> nat;

/// True of the characters that may appear in a header-field name: the HTTP
/// token characters. The parser normalizes ASCII uppercase to lowercase, so
/// uppercase letters are accepted here and folded by `lower_char`.
pub open spec fn is_header_name_char(c: char) -> bool {
    c == '!' || c == '#' || c == '$' || c == '%' || c == '&' || c == '\'' || c == '*' || c == '+'
        || c == '-' || c == '.' || (48 <= c as u32 && c as u32 <= 57)  // 0-9
     || (65 <= c as u32 && c as u32 <= 90)  // A-Z, folded to lowercase
     || c == '^' || c == '_' || c == '`' || (97 <= c as u32 && c as u32 <= 122)  // a-z
     || c == '|' || c == '~'
}

/// A legal header-field name: nonempty, no longer than the parser's limit,
/// and made of token characters only. Token characters are ASCII, so the
/// character count below equals the byte count the parser limits.
pub open spec fn valid_header_name(s: Seq<char>) -> bool {
    1 <= s.len() <= 65535 && forall|i: int| 0 <= i < s.len() ==> is_header_name_char(s[i])
}

/// True of the characters whose UTF-8 bytes are all legal in a
/// header-field value: horizontal tab, or anything at or above the space
/// character other than delete. Characters above the ASCII range encode to
/// bytes of 128 and above, which the value parser accepts, so they are all
/// legal.
pub open spec fn is_header_value_char(c: char) -> bool {
    c as u32 == 9 || (32 <= c as u32 && c as u32 != 127)
}

/// A legal header-field value byte sequence, stated over the characters of
/// the string it comes from.
pub open spec fn valid_header_value(s: Seq<char>) -> bool {
    forall|i: int| 0 <= i < s.len() ==> is_header_value_char(s[i])
}

/// The given character with ASCII uppercase folded to lowercase.
pub open spec fn lower_char(c: char) -> char {
    if 65 <= c as u32 && c as u32 <= 90 {
        ((c as u32 + 32) as u8) as char
    } else {
        c
    }
}

/// The given characters with ASCII uppercase folded to lowercase.
pub open spec fn lower_seq(s: Seq<char>) -> Seq<char> {
    s.map_values(|c: char| lower_char(c))
}

/// Relies on `reqwest::header::HeaderName::from_bytes` (the `http` crate):
/// it succeeds exactly on byte strings of length 1 through 65535 whose
/// bytes are all HTTP token characters, and it normalizes ASCII uppercase
/// to lowercase. Non-ASCII characters encode to bytes of 128 and above,
/// which the parser's table rejects, and token characters are one byte
/// each, so the character-level statement below matches the parser's
/// byte-level check.
#[verifier::external_body]
pub(crate) fn try_header_name(s: &str) -> (r: Option<reqwest::header::HeaderName>)
    ensures
        r is Some <==> valid_header_name(s@),
        r matches Some(n) ==> header_name_chars(n) == lower_seq(s@),
{
    reqwest::header::HeaderName::from_bytes(s.as_bytes()).ok()
}

/// Relies on `reqwest::header::HeaderValue::from_bytes` (the `http` crate):
/// it succeeds exactly when every byte is 32 or above and not 127, or is
/// horizontal tab, and it stores the bytes unchanged. A character below 128
/// is one byte equal to its code; a character at or above 128 encodes to
/// bytes that are all 128 or above, which the check accepts; so the
/// character-level statement below matches the parser's byte-level check.
#[verifier::external_body]
pub(crate) fn try_header_value(s: &str) -> (r: Option<reqwest::header::HeaderValue>)
    ensures
        r is Some <==> valid_header_value(s@),
        r matches Some(v) ==> header_value_chars(v) == s@,
{
    reqwest::header::HeaderValue::from_bytes(s.as_bytes()).ok()
}

/// A header collection with nothing in it: what a fresh `HeaderMap` holds.
pub open spec fn no_entries() -> Map<Seq<char>, Seq<char>> {
    Map::empty()
}

/// Relies on `reqwest::header::HeaderMap::new`: the new map is empty.
#[verifier::external_body]
pub(crate) fn new_header_map() -> (r: reqwest::header::HeaderMap)
    ensures
        header_map_entries(r) == no_entries(),
        header_map_count(r) == 0,
{
    reqwest::header::HeaderMap::new()
}

/// Relies on `reqwest::header::HeaderMap::insert`: it associates the value
/// with the name, drops any values previously stored under that name, and
/// grows the map by at most one stored pair. Insertion panics only when
/// the map must grow past its fixed maximum of 32768 slots. Growth doubles
/// the slot table, on the ordinary path when the stored count reaches
/// three quarters of it, and on the collision-heavy path as soon as five
/// times the stored count reaches it; a stored count below 4096 keeps
/// every such doubling at or under the maximum, so the call cannot panic.
#[verifier::external_body]
pub(crate) fn header_map_insert(
    m: &mut reqwest::header::HeaderMap,
    name: reqwest::header::HeaderName,
    value: reqwest::header::HeaderValue,
)
    requires
        header_map_count(*old(m)) < 4096,
    ensures
        header_map_entries(*final(m)) == header_map_entries(*old(m)).insert(
            header_name_chars(name),
            header_value_chars(value),
        ),
        header_map_count(*final(m)) <= header_map_count(*old(m)) + 1,
{
    let _ = m.insert(name, value);
}

} // verus!
