use crate::chain::{lower_of, to_lowercase};
use regex::Regex;
use vstd::prelude::*;

verus! {

/// Whether `c` is one of `0`..`9`, `a`..`f`.
pub open spec fn is_lower_hex(c: char) -> bool {
    ('0' <= c && c <= '9') || ('a' <= c && c <= 'f')
}

/// Whether `s` is exactly forty lowercase hex digits.
pub open spec fn is_forty_hex(s: Seq<char>) -> bool {
    s.len() == 40 && forall|i: int| 0 <= i < s.len() ==> is_lower_hex(#[trigger] s[i])
}

/// The shape of an address: forty lowercase hex digits, optionally after `0x`.
pub open spec fn has_address_shape(s: Seq<char>) -> bool {
    is_forty_hex(s) || (s.len() == 42 && s[0] == '0' && s[1] == 'x' && is_forty_hex(
        s.subrange(2, 42),
    ))
}

/// The pattern of an address: an optional `0x` and forty lowercase hex digits.
pub const ADDRESS_PATTERN: &'static str = "^(0x)?[0-9a-f]{40}$";

/// Relies on regex's `Regex::new` and `Regex::is_match` for the address
/// pattern: it compiles, and without multi-line mode `^` and `$` match only
/// at the start and end of the text, so the text matches exactly when it is
/// forty characters of `[0-9a-f]`, optionally after `0x`.
#[verifier::external_body]
fn address_regex_match(pattern: &str, text: &str) -> (r: Option<bool>)
    requires
        pattern@ == ADDRESS_PATTERN@,
    ensures
        r == Some(has_address_shape(text@)),
{
    match Regex::new(pattern) {
        Ok(re) => Some(re.is_match(text)),
        Err(_) => None,
    }
}

/// Whether `address`, lowercased, has the shape of an address. Checksums
/// are not checked.
pub fn is_address_simplified(address: &str) -> (r: bool)
    ensures
        r == has_address_shape(lower_of(address@)),
{
    let lowered = to_lowercase(address);
    match address_regex_match(ADDRESS_PATTERN, lowered.as_str()) {
        Some(found) => found,
        None => false,
    }
}

} // verus!
