//! Project identifiers: UUID-shaped values that scope a drive authorization
//! and travel through a provider as the flow's `state`.

use vstd::prelude::*;

use crate::error::AuthError;
use crate::message::{message_of, Message};

verus! {

/// The value of a hexadecimal digit, either case; `-1` for any other
/// character.
pub open spec fn hex_value(c: char) -> int {
    if c == '0' {
        0
    } else if c == '1' {
        1
    } else if c == '2' {
        2
    } else if c == '3' {
        3
    } else if c == '4' {
        4
    } else if c == '5' {
        5
    } else if c == '6' {
        6
    } else if c == '7' {
        7
    } else if c == '8' {
        8
    } else if c == '9' {
        9
    } else if c == 'a' {
        10
    } else if c == 'b' {
        11
    } else if c == 'c' {
        12
    } else if c == 'd' {
        13
    } else if c == 'e' {
        14
    } else if c == 'f' {
        15
    } else if c == 'A' {
        10
    } else if c == 'B' {
        11
    } else if c == 'C' {
        12
    } else if c == 'D' {
        13
    } else if c == 'E' {
        14
    } else if c == 'F' {
        15
    } else {
        -1
    }
}

pub open spec fn is_hex_char(c: char) -> bool {
    hex_value(c) >= 0
}

/// The lowercase hexadecimal digit of `n`, for `0 <= n < 16`.
pub open spec fn hex_digit(n: int) -> char {
    if n == 0 {
        '0'
    } else if n == 1 {
        '1'
    } else if n == 2 {
        '2'
    } else if n == 3 {
        '3'
    } else if n == 4 {
        '4'
    } else if n == 5 {
        '5'
    } else if n == 6 {
        '6'
    } else if n == 7 {
        '7'
    } else if n == 8 {
        '8'
    } else if n == 9 {
        '9'
    } else if n == 10 {
        'a'
    } else if n == 11 {
        'b'
    } else if n == 12 {
        'c'
    } else if n == 13 {
        'd'
    } else if n == 14 {
        'e'
    } else {
        'f'
    }
}

/// Whether position `j` of a hyphenated form holds a hyphen.
pub open spec fn is_hyphen_pos(j: int) -> bool {
    j == 8 || j == 13 || j == 18 || j == 23
}

/// How many hyphens stand before the `i`-th digit of a hyphenated form.
pub open spec fn hyphens_before_digit(i: int) -> int {
    if i < 8 {
        0
    } else if i < 12 {
        1
    } else if i < 16 {
        2
    } else if i < 20 {
        3
    } else {
        4
    }
}

/// How many hyphens stand before position `j` of a hyphenated form.
pub open spec fn hyphens_before_pos(j: int) -> int {
    if j < 9 {
        0
    } else if j < 14 {
        1
    } else if j < 19 {
        2
    } else if j < 24 {
        3
    } else {
        4
    }
}

/// 36 characters with hyphens at positions 8, 13, 18 and 23.
pub open spec fn has_hyphen_shape(s: Seq<char>) -> bool {
    &&& s.len() == 36
    &&& s[8] == '-'
    &&& s[13] == '-'
    &&& s[18] == '-'
    &&& s[23] == '-'
}

/// The 32 digit characters of a hyphenated form.
pub open spec fn hyphenated_digits(s: Seq<char>) -> Seq<char> {
    Seq::new(32, |i: int| s[i + hyphens_before_digit(i)])
}

/// Whether `s` starts with `urn:uuid:`, in any case.
pub open spec fn has_urn_prefix(s: Seq<char>) -> bool {
    &&& s.len() >= 9
    &&& (s[0] == 'u' || s[0] == 'U')
    &&& (s[1] == 'r' || s[1] == 'R')
    &&& (s[2] == 'n' || s[2] == 'N')
    &&& s[3] == ':'
    &&& (s[4] == 'u' || s[4] == 'U')
    &&& (s[5] == 'u' || s[5] == 'U')
    &&& (s[6] == 'i' || s[6] == 'I')
    &&& (s[7] == 'd' || s[7] == 'D')
    &&& s[8] == ':'
}

/// The digit characters of a UUID text in one of its four forms (32 bare
/// digits; hyphenated; hyphenated in braces; hyphenated after `urn:uuid:`),
/// or `None` where `s` has none of these shapes.
pub open spec fn uuid_digits(s: Seq<char>) -> Option<Seq<char>> {
    if s.len() == 32 {
        Some(s)
    } else if has_hyphen_shape(s) {
        Some(hyphenated_digits(s))
    } else if s.len() == 38 && s[0] == '{' && s[37] == '}' && has_hyphen_shape(
        s.subrange(1, 37),
    ) {
        Some(hyphenated_digits(s.subrange(1, 37)))
    } else if s.len() == 45 && has_urn_prefix(s) && has_hyphen_shape(s.subrange(9, 45)) {
        Some(hyphenated_digits(s.subrange(9, 45)))
    } else {
        None
    }
}

/// Whether `s` is a UUID text: one of the four shapes, all digits hexadecimal.
pub open spec fn is_uuid_text(s: Seq<char>) -> bool {
    &&& uuid_digits(s) is Some
    &&& forall|i: int| 0 <= i < 32 ==> is_hex_char(#[trigger] uuid_digits(s)->0[i])
}

/// The 16 bytes spelled by 32 hexadecimal digits, high digit first.
pub open spec fn bytes_of_digits(d: Seq<char>) -> Seq<u8> {
    Seq::new(16, |k: int| (16 * hex_value(d[2 * k]) + hex_value(d[2 * k + 1])) as u8)
}

/// The 16 bytes of a UUID text.
pub open spec fn uuid_bytes(s: Seq<char>) -> Seq<u8> {
    bytes_of_digits(uuid_digits(s)->0)
}

/// The 32 lowercase hexadecimal digits of 16 bytes.
pub open spec fn hex_text(b: Seq<u8>) -> Seq<char> {
    Seq::new(
        32,
        |i: int|
            hex_digit(
                if i % 2 == 0 {
                    b[i / 2] as int / 16
                } else {
                    b[i / 2] as int % 16
                },
            ),
    )
}

/// The lowercase hyphenated form of 16 bytes (8-4-4-4-12 digits).
pub open spec fn hyphenated_text(b: Seq<u8>) -> Seq<char> {
    Seq::new(
        36,
        |j: int|
            if is_hyphen_pos(j) {
                '-'
            } else {
                hex_text(b)[j - hyphens_before_pos(j)]
            },
    )
}

/// Relies on `uuid::Uuid::parse_str`: it accepts exactly the four UUID forms
/// with hexadecimal digits of either case, and yields the bytes they spell.
#[verifier::external_body]
fn uuid_parse(s: &str) -> (r: Result<[u8; 16], String>)
    ensures
        r is Ok <==> is_uuid_text(s@),
        r is Ok ==> r->Ok_0@ == uuid_bytes(s@),
{
    uuid::Uuid::parse_str(s).map(|u| *u.as_bytes()).map_err(|e| e.to_string())
}

/// Relies on `uuid::Uuid`'s `Display`: the lowercase hyphenated form.
#[verifier::external_body]
fn uuid_text(b: &[u8; 16]) -> (r: String)
    ensures
        r@ == hyphenated_text(b@),
{
    uuid::Uuid::from_bytes(*b).to_string()
}

/// Relies on `uuid::Uuid::from_slice`: it accepts exactly 16 bytes and keeps
/// them in order.
#[verifier::external_body]
fn uuid_from_slice(b: &[u8]) -> (r: Result<[u8; 16], String>)
    ensures
        r is Ok <==> b@.len() == 16,
        r is Ok ==> r->Ok_0@ == b@,
{
    uuid::Uuid::from_slice(b).map(|u| *u.as_bytes()).map_err(|e| e.to_string())
}

/// An opaque project identifier, held as the 16 bytes of a UUID.
#[derive(Clone, Copy, Debug, PartialEq, Eq)]
pub struct ProjectId {
    bytes: [u8; 16],
}

impl View for ProjectId {
    type V = Seq<u8>;

    closed spec fn view(&self) -> Seq<u8> {
        self.bytes@
    }
}

impl ProjectId {
    /// Parses a project id from a UUID text; anything else is a project-id
    /// error.
    pub fn try_from_str(s: &str) -> (r: Result<ProjectId, AuthError>)
        ensures
            r is Ok <==> is_uuid_text(s@),
            r is Ok ==> r->Ok_0@ == uuid_bytes(s@),
            r is Err ==> r->Err_0 is ProjectIdError,
    {
        match uuid_parse(s) {
            Ok(bytes) => Ok(ProjectId { bytes }),
            Err(e) => Err(AuthError::ProjectIdError(Message::from_string(e))),
        }
    }

    /// A project id from its 16 bytes; any other length is a project-id
    /// error.
    pub fn try_from_slice(b: &[u8]) -> (r: Result<ProjectId, AuthError>)
        ensures
            r is Ok <==> b@.len() == 16,
            r is Ok ==> r->Ok_0@ == b@,
            r is Err ==> r->Err_0 is ProjectIdError,
    {
        match uuid_from_slice(b) {
            Ok(bytes) => Ok(ProjectId { bytes }),
            Err(e) => Err(AuthError::ProjectIdError(Message::from_string(e))),
        }
    }

    /// The lowercase hyphenated text of the id.
    pub fn to_string(&self) -> (r: String)
        ensures
            r@ == hyphenated_text(self@),
    {
        uuid_text(&self.bytes)
    }

    pub fn from_bytes(bytes: [u8; 16]) -> (r: ProjectId)
        ensures
            r@ == bytes@,
    {
        ProjectId { bytes }
    }

    pub fn as_bytes(&self) -> (r: [u8; 16])
        ensures
            r@ == self@,
    {
        self.bytes
    }
}

/// Each hexadecimal digit reads back as the value it was written for.
pub proof fn lemma_hex_digit_value(n: int)
    requires
        0 <= n < 16,
    ensures
        hex_value(hex_digit(n)) == n,
        is_hex_char(hex_digit(n)),
{
}

/// Formatting then parsing gives back the same identifier: the hyphenated
/// text of any 16 bytes is a UUID text, and it spells those bytes.
pub proof fn lemma_round_trip(b: Seq<u8>)
    requires
        b.len() == 16,
    ensures
        is_uuid_text(hyphenated_text(b)),
        uuid_bytes(hyphenated_text(b)) == b,
{
    let h = hyphenated_text(b);
    let t = hex_text(b);
    assert(has_hyphen_shape(h));
    assert(uuid_digits(h) == Some(hyphenated_digits(h)));
    assert forall|i: int| 0 <= i < 32 implies #[trigger] hyphenated_digits(h)[i] == t[i] by {
        let j = i + hyphens_before_digit(i);
        assert(!is_hyphen_pos(j));
        assert(hyphens_before_pos(j) == hyphens_before_digit(i));
    }
    assert(hyphenated_digits(h) =~= t);
    assert forall|i: int| 0 <= i < 32 implies is_hex_char(#[trigger] t[i]) by {
        let v = if i % 2 == 0 {
            b[i / 2] as int / 16
        } else {
            b[i / 2] as int % 16
        };
        lemma_hex_digit_value(v);
    }
    assert forall|k: int| 0 <= k < 16 implies #[trigger] bytes_of_digits(t)[k] == b[k] by {
        assert((2 * k) % 2 == 0);
        assert((2 * k + 1) % 2 == 1);
        assert((2 * k) / 2 == k);
        assert((2 * k + 1) / 2 == k);
        lemma_hex_digit_value(b[k] as int / 16);
        lemma_hex_digit_value(b[k] as int % 16);
    }
    assert(bytes_of_digits(t) =~= b);
}

/// The text of a project id parses back to the same project id.
pub proof fn lemma_project_id_round_trip(p: ProjectId)
    ensures
        p@.len() == 16,
        is_uuid_text(hyphenated_text(p@)),
        uuid_bytes(hyphenated_text(p@)) == p@,
{
    lemma_round_trip(p@);
}

} // verus!
