//! Identifiers of resources: the textual form of a random UUID.
use vstd::prelude::*;

verus! {

/// The length of an identifier in characters.
pub const ID_LEN: usize = 36;

/// A decimal digit or one of the letters `a` to `f`.
pub open spec fn is_lower_hex(c: char) -> bool {
    ('0' <= c && c <= '9') || ('a' <= c && c <= 'f')
}

/// The positions at which the hyphenated form of a UUID has its hyphens.
pub open spec fn is_hyphen_position(i: int) -> bool {
    i == 8 || i == 13 || i == 18 || i == 23
}

/// Whether `c` may stand at position `i` of the hyphenated form: a hyphen
/// at the hyphen positions, a lower-case hexadecimal digit elsewhere.
pub open spec fn fits_position(i: int, c: char) -> bool {
    if is_hyphen_position(i) {
        c == '-'
    } else {
        is_lower_hex(c)
    }
}

/// The hyphenated lower-case form of a version 4 UUID: five groups of 8, 4,
/// 4, 4 and 12 hexadecimal digits, the third group starting with the version
/// digit `4` and the fourth with one of the variant digits `8`, `9`, `a`, `b`.
pub open spec fn is_random_id(s: Seq<char>) -> bool {
    &&& s.len() == ID_LEN
    &&& forall|i: int| 0 <= i < s.len() ==> fits_position(i, #[trigger] s[i])
    &&& s[14] == '4'
    &&& (s[19] == '8' || s[19] == '9' || s[19] == 'a' || s[19] == 'b')
}

/// Draws a fresh identifier.
///
/// Trusted: calls `uuid::Uuid::new_v4` and formats the value through its
/// `Display` impl. The contract claims only the shape of the text, which is
/// the same for every draw: `new_v4` masks the version and the variant into
/// the random bits, and `Display` writes the hyphenated lower-case form.
/// Nothing is claimed about which identifier comes back, so two draws may or
/// may not differ as far as the proofs know. The call aborts if the operating
/// system cannot supply random bytes.
#[verifier::external_body]
pub(crate) fn fresh_id() -> (id: String)
    ensures
        is_random_id(id@),
{
    uuid::Uuid::new_v4().to_string()
}

} // verus!
