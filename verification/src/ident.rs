//! Random identifiers in their canonical textual form.
//!
//! An identifier is the text of a random (version 4) UUID: 32 lower-case
//! hexadecimal digits in groups of 8, 4, 4, 4 and 12, separated by hyphens.
//! The digit that opens the third group is the version, `4`; the digit that
//! opens the fourth group carries the variant and is one of `8`, `9`, `a`, `b`.

use vstd::prelude::*;

verus! {

/// Number of characters of an identifier.
pub const ID_LEN: usize = 36;

/// Whether `c` is a lower-case hexadecimal digit.
pub open spec fn is_lower_hex(c: char) -> bool {
    ('0' <= c && c <= '9') || ('a' <= c && c <= 'f')
}

/// Whether position `i` of an identifier holds a hyphen.
pub open spec fn is_separator_position(i: int) -> bool {
    i == 8 || i == 13 || i == 18 || i == 23
}

/// Whether `c` can open the fourth group: the two high bits of the variant
/// digit are `10`.
pub open spec fn is_variant_digit(c: char) -> bool {
    c == '8' || c == '9' || c == 'a' || c == 'b'
}

/// Whether `s` has the shape of a random identifier.
pub open spec fn is_random_id(s: Seq<char>) -> bool {
    &&& s.len() == ID_LEN
    &&& forall|i: int| 0 <= i < s.len() && is_separator_position(i) ==> #[trigger] s[i] == '-'
    &&& forall|i: int|
        0 <= i < s.len() && !is_separator_position(i) ==> is_lower_hex(#[trigger] s[i])
    &&& s[14] == '4'
    &&& is_variant_digit(s[19])
}

/// Draws a fresh random identifier.
///
/// Trusted: calls `uuid::Uuid::new_v4` and renders the value with its
/// `Display` impl. `new_v4` takes 128 bits from the operating system's random
/// source and overwrites the version bits with `0100` and the two variant bits
/// with `10`; `Display` writes the hyphenated lower-case form. The contract
/// claims only that shape, which every outcome has; it says nothing about
/// which identifier is drawn, and two calls may differ. The call panics if the
/// operating system cannot supply random bytes.
#[verifier::external_body]
pub(crate) fn fresh_id() -> (id: String)
    ensures
        is_random_id(id@),
{
    uuid::Uuid::new_v4().to_string()
}

} // verus!
