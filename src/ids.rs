use vstd::prelude::*;

verus! {

/// The value of a hexadecimal digit, of either case.
pub open spec fn hex_digit_value(c: char) -> Option<int> {
    if '0' <= c && c <= '9' {
        Some(c as int - '0' as int)
    } else if 'a' <= c && c <= 'f' {
        Some(c as int - 'a' as int + 10)
    } else if 'A' <= c && c <= 'F' {
        Some(c as int - 'A' as int + 10)
    } else {
        None
    }
}

/// The value of a run of hexadecimal digits, most significant first.
pub open spec fn hex_number(s: Seq<char>) -> Option<int>
    decreases s.len(),
{
    if s.len() == 0 {
        Some(0)
    } else {
        match (hex_number(s.drop_last()), hex_digit_value(s.last())) {
            (Some(high), Some(low)) => Some(high * 16 + low),
            _ => None,
        }
    }
}

/// The value of a hyphenated UUID: groups of 8, 4, 4, 4 and 12 digits.
pub open spec fn hyphenated_number(s: Seq<char>) -> Option<int> {
    if s.len() == 36 && s[8] == '-' && s[13] == '-' && s[18] == '-' && s[23] == '-' {
        hex_number(
            s.subrange(0, 8) + s.subrange(9, 13) + s.subrange(14, 18) + s.subrange(19, 23)
                + s.subrange(24, 36),
        )
    } else {
        None
    }
}

/// The nine characters are `urn:uuid:` in any mix of letter cases.
pub open spec fn is_urn_prefix(p: Seq<char>) -> bool {
    &&& p.len() == 9
    &&& (p[0] == 'u' || p[0] == 'U') && (p[1] == 'r' || p[1] == 'R') && (p[2] == 'n' || p[2] == 'N')
    &&& p[3] == ':'
    &&& (p[4] == 'u' || p[4] == 'U') && (p[5] == 'u' || p[5] == 'U')
    &&& (p[6] == 'i' || p[6] == 'I') && (p[7] == 'd' || p[7] == 'D')
    &&& p[8] == ':'
}

/// The value of a UUID text in one of its four forms: 32 digits, hyphenated,
/// hyphenated within braces, or hyphenated after `urn:uuid:`.
pub open spec fn uuid_text_number(s: Seq<char>) -> Option<int> {
    if s.len() == 32 {
        hex_number(s)
    } else if s.len() == 36 {
        hyphenated_number(s)
    } else if s.len() == 38 && s[0] == '{' && s[37] == '}' {
        hyphenated_number(s.subrange(1, 37))
    } else if s.len() == 45 && is_urn_prefix(s.subrange(0, 9)) {
        hyphenated_number(s.subrange(9, 45))
    } else {
        None
    }
}

/// The 128-bit value that a UUID text spells, if it is one.
pub open spec fn uuid_text_value(s: Seq<char>) -> Option<u128> {
    match uuid_text_number(s) {
        Some(v) => Some(v as u128),
        None => None,
    }
}

/// The version number stored in a UUID's 128-bit value.
pub open spec fn uuid_version(id: u128) -> u128 {
    (id >> 76u128) & 0xfu128
}

/// The variant bits stored in a UUID's 128-bit value (`2` for RFC 9562).
pub open spec fn uuid_variant(id: u128) -> u128 {
    (id >> 62u128) & 0x3u128
}

/// A random UUID: version 4 of the RFC 9562 variant.
pub open spec fn is_random_uuid(id: u128) -> bool {
    uuid_version(id) == 4 && uuid_variant(id) == 2
}

/// Relies on `uuid::Uuid::new_v4`: a random UUID of version 4 and of the
/// RFC 9562 variant.
#[verifier::external_body]
pub(crate) fn random_user_id() -> (r: u128)
    ensures
        is_random_uuid(r),
{
    uuid::Uuid::new_v4().as_u128()
}

/// Relies on `uuid::Uuid::parse_str` and `Uuid::as_u128`: the big-endian
/// value of a UUID written as text, or `None` where the text is no UUID.
#[verifier::external_body]
pub(crate) fn parse_user_id(s: &str) -> (r: Option<u128>)
    ensures
        r == uuid_text_value(s@),
{
    uuid::Uuid::parse_str(s).ok().map(|u| u.as_u128())
}

} // verus!
