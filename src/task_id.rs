use vstd::prelude::*;

verus! {

/// A character that is a hexadecimal digit, in either case.
pub open spec fn is_hex_digit(c: char) -> bool {
    ('0' <= c && c <= '9') || ('a' <= c && c <= 'f') || ('A' <= c && c <= 'F')
}

/// The value of a hexadecimal digit.
pub open spec fn hex_digit_value(c: char) -> nat {
    if '0' <= c && c <= '9' {
        (c as u32 - '0' as u32) as nat
    } else if 'a' <= c && c <= 'f' {
        (c as u32 - 'a' as u32 + 10) as nat
    } else {
        (c as u32 - 'A' as u32 + 10) as nat
    }
}

/// The big-endian value of a sequence of hexadecimal digits.
pub open spec fn hex_value(s: Seq<char>) -> nat
    decreases s.len(),
{
    if s.len() == 0 {
        0
    } else {
        hex_value(s.drop_last()) * 16 + hex_digit_value(s.last())
    }
}

/// The 36-character form `xxxxxxxx-xxxx-xxxx-xxxx-xxxxxxxxxxxx`, hyphens in place.
pub open spec fn is_hyphenated_shape(s: Seq<char>) -> bool {
    s.len() == 36 && s[8] == '-' && s[13] == '-' && s[18] == '-' && s[23] == '-'
}

/// The 32 digit positions of the hyphenated form, hyphens left out.
pub open spec fn hyphenated_digits(s: Seq<char>) -> Seq<char> {
    s.subrange(0, 8) + s.subrange(9, 13) + s.subrange(14, 18) + s.subrange(19, 23) + s.subrange(
        24,
        36,
    )
}

/// `c` equals the lower-case ASCII character `p` once ASCII case is ignored.
pub open spec fn ascii_matches_ignoring_case(c: char, p: char) -> bool {
    c == p || ('A' <= c && c <= 'Z' && c as u32 + 32 == p as u32)
}

/// The text begins with `urn:uuid:`, ASCII case ignored.
pub open spec fn has_urn_prefix(s: Seq<char>) -> bool {
    let p = seq!['u', 'r', 'n', ':', 'u', 'u', 'i', 'd', ':'];
    s.len() >= 9 && forall|i: int| 0 <= i < 9 ==> ascii_matches_ignoring_case(#[trigger] s[i], p[i])
}

/// The digit positions of a textual identifier: the 32-digit simple form, the
/// hyphenated form, the hyphenated form in braces, or the hyphenated form after
/// a `urn:uuid:` prefix. `None` for any other shape.
pub open spec fn identifier_digits(s: Seq<char>) -> Option<Seq<char>> {
    if s.len() == 32 {
        Some(s)
    } else if s.len() == 36 && is_hyphenated_shape(s) {
        Some(hyphenated_digits(s))
    } else if s.len() == 38 && s[0] == '{' && s[37] == '}' && is_hyphenated_shape(
        s.subrange(1, 37),
    ) {
        Some(hyphenated_digits(s.subrange(1, 37)))
    } else if s.len() == 45 && has_urn_prefix(s) && is_hyphenated_shape(s.subrange(9, 45)) {
        Some(hyphenated_digits(s.subrange(9, 45)))
    } else {
        None
    }
}

/// The 128-bit value that a textual identifier denotes, or `None` when the text
/// is not a well-formed identifier.
pub open spec fn identifier_value(s: Seq<char>) -> Option<u128> {
    match identifier_digits(s) {
        Some(d) => if forall|i: int| 0 <= i < d.len() ==> is_hex_digit(#[trigger] d[i]) {
            Some(hex_value(d) as u128)
        } else {
            None
        },
        None => None,
    }
}

/// Relies on `uuid::Uuid::parse_str` and `uuid::Uuid::as_u128`: the text is
/// accepted exactly in the simple, hyphenated, braced and URN forms, with
/// hexadecimal digits of either case, and the value is read big-endian.
#[verifier::external_body]
fn parse_uuid_text(s: &str) -> (r: Option<u128>)
    ensures
        r == identifier_value(s@),
{
    uuid::Uuid::parse_str(s).ok().map(|u| u.as_u128())
}

/// Why a task id was refused.
#[derive(Debug, Clone, Copy, PartialEq, Eq)]
pub enum IdError {
    /// The text is not a well-formed unique identifier.
    Malformed,
}

/// Reads a task id from its textual form.
pub fn parse_task_id(s: &str) -> (r: Result<u128, IdError>)
    ensures
        r == match identifier_value(s@) {
            Some(v) => Ok::<u128, IdError>(v),
            None => Err(IdError::Malformed),
        },
{
    match parse_uuid_text(s) {
        Some(v) => Ok(v),
        None => Err(IdError::Malformed),
    }
}

} // verus!
