//! Fresh random identifiers.
use vstd::prelude::*;

verus! {

/// Whether `c` is a lowercase hexadecimal digit.
pub open spec fn is_lower_hex(c: char) -> bool {
    ('0' <= c <= '9') || ('a' <= c <= 'f')
}

/// The hyphenated text form of a UUID: 8-4-4-4-12 lowercase hex digits.
pub open spec fn is_hyphenated_uuid(s: Seq<char>) -> bool {
    &&& s.len() == 36
    &&& forall|i: int|
        0 <= i < 36 ==> if i == 8 || i == 13 || i == 18 || i == 23 {
            s[i] == '-'
        } else {
            is_lower_hex(#[trigger] s[i])
        }
}

/// The text form of a random (version 4, RFC 4122 variant) UUID: hyphenated,
/// with version digit `4` and a variant digit among `8`, `9`, `a`, `b`.
pub open spec fn is_random_uuid_text(s: Seq<char>) -> bool {
    &&& is_hyphenated_uuid(s)
    &&& s[14] == '4'
    &&& (s[19] == '8' || s[19] == '9' || s[19] == 'a' || s[19] == 'b')
}

/// Calls `uuid::Uuid::new_v4` and renders it with `to_string`. Trusted: the
/// value is random; of every outcome only its text form is stated, which
/// the crate documents as the hyphenated lowercase form; `new_v4` sets the
/// version and variant bits, which fixes the two digits named in
/// `is_random_uuid_text`.
#[verifier::external_body]
pub(crate) fn fresh_uuid() -> (s: String)
    ensures
        is_random_uuid_text(s@),
{
    uuid::Uuid::new_v4().to_string()
}

} // verus!
