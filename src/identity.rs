//! The 128-bit identity value: parsing and formatting through the uuid crate.
use crate::hex::{all_hex, hex_value, simple_form};
use vstd::prelude::*;

verus! {

/// The 32 digits of the hyphenated form `xxxxxxxx-xxxx-xxxx-xxxx-xxxxxxxxxxxx`, without
/// its hyphens.
pub open spec fn hyphenated_digits(s: Seq<char>) -> Seq<char> {
    s.subrange(0, 8) + s.subrange(9, 13) + s.subrange(14, 18) + s.subrange(19, 23) + s.subrange(
        24,
        36,
    )
}

/// `s` is the hyphenated form of a value: 36 characters, hyphens after the 8th, 12th,
/// 16th and 20th digit, and digits of base sixteen in either case elsewhere.
pub open spec fn is_hyphenated(s: Seq<char>) -> bool {
    &&& s.len() == 36
    &&& s[8] == '-' && s[13] == '-' && s[18] == '-' && s[23] == '-'
    &&& all_hex(hyphenated_digits(s))
}

/// The lengths of the textual forms of a value: simple, hyphenated, hyphenated in
/// braces, and hyphenated after a `urn:uuid:` prefix.
pub open spec fn is_uuid_text_length(n: nat) -> bool {
    n == 32 || n == 36 || n == 38 || n == 45
}

/// What `uuid::Uuid::parse_str` makes of a string: the value, or nothing where it is refused.
pub uninterp spec fn uuid_parse(s: Seq<char>) -> Option<u128>;

/// Relies on `uuid::Uuid::parse_str` (with `Uuid::as_u128`): a string of exactly 32
/// characters is read as 32 digits of base sixteen in either case, most significant
/// first, and is refused if any of them is not such a digit; a string of exactly 36
/// characters is read in the hyphenated form, and refused if it is not in that form; a
/// string of any length but 32, 36, 38 or 45 characters is refused.
#[verifier::external_body]
pub(crate) fn parse_uuid(s: &str) -> (r: Option<u128>)
    ensures
        r == uuid_parse(s@),
        s@.len() == 32 ==> r == (if all_hex(s@) {
            Some(hex_value(s@) as u128)
        } else {
            None
        }),
        s@.len() == 36 ==> r == (if is_hyphenated(s@) {
            Some(hex_value(hyphenated_digits(s@)) as u128)
        } else {
            None
        }),
        !is_uuid_text_length(s@.len()) ==> r is None,
{
    match uuid::Uuid::parse_str(s) {
        Ok(u) => Some(u.as_u128()),
        Err(_) => None,
    }
}

/// Relies on `uuid::Uuid::from_u128` and its `simple()` form: 32 lower-case digits of
/// base sixteen, most significant first, with no separator.
#[verifier::external_body]
pub(crate) fn format_simple(v: u128) -> (r: String)
    ensures
        r@ == simple_form(v),
{
    uuid::Uuid::from_u128(v).simple().to_string()
}

} // verus!
