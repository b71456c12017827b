//! User identifiers: 128-bit UUIDs and their canonical text form.
use vstd::prelude::*;

verus! {

/// The lower-case hexadecimal digit for a value below sixteen.
pub open spec fn hex_char(d: int) -> char {
    if d < 10 {
        (d + 48) as char
    } else {
        (d + 87) as char
    }
}

/// The `k`-th hexadecimal digit of `v`, counting from the most significant.
pub open spec fn uuid_nibble(v: u128, k: int) -> int {
    ((v >> ((124 - 4 * k) as u128)) & 15u128) as int
}

/// How many separators precede text position `i` of the hyphenated form.
pub open spec fn hyphens_before(i: int) -> int {
    if i < 8 {
        0
    } else if i < 13 {
        1
    } else if i < 18 {
        2
    } else if i < 23 {
        3
    } else {
        4
    }
}

/// The hyphenated lower-case text of a UUID: thirty-two hex digits, most
/// significant first, in groups of 8-4-4-4-12 separated by `-`.
pub open spec fn uuid_text(v: u128) -> Seq<char> {
    Seq::new(
        36,
        |i: int|
            if i == 8 || i == 13 || i == 18 || i == 23 {
                '-'
            } else {
                hex_char(uuid_nibble(v, i - hyphens_before(i)))
            },
    )
}

/// Whether `v` carries the version number 7 in its version field.
pub open spec fn is_version_7(v: u128) -> bool {
    (v >> 76u128) & 15u128 == 7
}

/// Whether `v` carries the RFC 9562 variant (binary `10`) in its variant field.
pub open spec fn is_rfc_variant(v: u128) -> bool {
    (v >> 62u128) & 3u128 == 2
}

/// What `uuid::Uuid::parse_str` yields for a text, as the 128-bit value of the
/// UUID (big-endian, as `Uuid::as_u128` gives it), or `None` when it refuses it.
pub uninterp spec fn parsed_uuid(s: Seq<char>) -> Option<u128>;

/// Renders a UUID through `uuid::Uuid::from_u128(..).to_string()`.
///
/// The crate's `Display` writes the hyphenated form in lower case
/// (`format_hyphenated` over the big-endian bytes), which is `uuid_text`.
#[verifier::external_body]
pub(crate) fn uuid_to_string(id: u128) -> (s: String)
    ensures
        s@ == uuid_text(id),
{
    uuid::Uuid::from_u128(id).to_string()
}

/// Parses a UUID through `uuid::Uuid::parse_str`.
///
/// The result is named `parsed_uuid`; the crate accepts the simple, hyphenated,
/// braced and URN forms in either case, which that name leaves unstated. The one
/// fact stated is the documented one that the hyphenated form which the crate
/// itself writes parses back to the same UUID.
#[verifier::external_body]
pub(crate) fn parse_uuid(s: &str) -> (r: Option<u128>)
    ensures
        r == parsed_uuid(s@),
        forall|v: u128| s@ == #[trigger] uuid_text(v) ==> r == Some(v),
{
    match uuid::Uuid::parse_str(s) {
        Ok(u) => Some(u.as_u128()),
        Err(_) => None,
    }
}

/// Draws a fresh time-ordered identifier through `uuid::Uuid::now_v7`.
///
/// The crate documents the value as a version 7 UUID (RFC 9562), and its
/// builder sets the version field to 7 and the variant field to binary `10`;
/// the timestamp and random bits are left open.
#[verifier::external_body]
pub(crate) fn new_v7_id() -> (id: u128)
    ensures
        is_version_7(id),
        is_rfc_variant(id),
{
    uuid::Uuid::now_v7().as_u128()
}

/// The text form of a UUID has thirty-six characters: hyphens at positions
/// 8, 13, 18 and 23, and lower-case hexadecimal digits everywhere else.
pub proof fn uuid_text_shape(v: u128)
    ensures
        uuid_text(v).len() == 36,
        forall|i: int|
            0 <= i < 36 ==> (i == 8 || i == 13 || i == 18 || i == 23 <==> #[trigger] uuid_text(v)[i]
                == '-'),
        forall|i: int|
            0 <= i < 36 && i != 8 && i != 13 && i != 18 && i != 23 ==> ('0' <= #[trigger] uuid_text(
                v,
            )[i] <= '9' || 'a' <= uuid_text(v)[i] <= 'f'),
{
    assert forall|i: int| 0 <= i < 36 && i != 8 && i != 13 && i != 18 && i != 23 implies ('0'
        <= #[trigger] uuid_text(v)[i] <= '9' || 'a' <= uuid_text(v)[i] <= 'f') by {
        let k = i - hyphens_before(i);
        let sh = (124 - 4 * k) as u128;
        assert(((v >> sh) & 15u128) <= 15u128) by (bit_vector);
        assert(0 <= uuid_nibble(v, k) < 16);
    }
}

} // verus!
