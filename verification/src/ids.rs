//! Random identifiers (version 4 UUIDs).

use vstd::prelude::*;

verus! {

/// A lowercase hexadecimal digit.
pub open spec fn lower_hex_char(c: char) -> bool {
    ('0' <= c && c <= '9') || ('a' <= c && c <= 'f')
}

/// The hyphenated form of a UUID: `8-4-4-4-12` lowercase hexadecimal
/// digits.
pub open spec fn hyphenated_uuid(s: Seq<char>) -> bool {
    &&& s.len() == 36
    &&& forall|i: int|
        0 <= i < 36 ==> if i == 8 || i == 13 || i == 18 || i == 23 {
            #[trigger] s[i] == '-'
        } else {
            lower_hex_char(s[i])
        }
}

/// The simple form of a UUID: 32 lowercase hexadecimal digits.
pub open spec fn simple_uuid(s: Seq<char>) -> bool {
    s.len() == 32 && forall|i: int| 0 <= i < 32 ==> lower_hex_char(#[trigger] s[i])
}

/// The digit that carries the RFC 4122 variant: `8`, `9`, `a` or `b`.
pub open spec fn variant_char(c: char) -> bool {
    c == '8' || c == '9' || c == 'a' || c == 'b'
}

/// `uuid::Uuid::new_v4()` in its hyphenated text form.  The value is
/// random: only its shape, version 4 and the RFC 4122 variant are stated.
#[verifier::external_body]
pub(crate) fn new_uuid() -> (s: String)
    ensures
        hyphenated_uuid(s@),
        s@[14] == '4',
        variant_char(s@[19]),
{
    uuid::Uuid::new_v4().to_string()
}

/// `uuid::Uuid::new_v4()` in its simple text form.  The value is random:
/// only its shape, version 4 and the RFC 4122 variant are stated.
#[verifier::external_body]
pub(crate) fn new_uuid_simple() -> (s: String)
    ensures
        simple_uuid(s@),
        s@[12] == '4',
        variant_char(s@[16]),
{
    uuid::Uuid::new_v4().simple().to_string()
}

} // verus!
