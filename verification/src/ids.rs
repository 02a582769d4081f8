//! Fresh identifiers for instances and client connections.
use vstd::prelude::*;

verus! {

/// A lowercase hexadecimal digit.
pub open spec fn is_lower_hex_digit(c: char) -> bool {
    ('0' <= c && c <= '9') || ('a' <= c && c <= 'f')
}

/// The hyphenated text of a random (version 4) UUID: 36 characters, hyphens at
/// 8, 13, 18 and 23, lowercase hexadecimal digits elsewhere, the version digit
/// `4` at 14 and one of `8`, `9`, `a`, `b` at 19.
pub open spec fn is_random_uuid_text(s: Seq<char>) -> bool {
    &&& s.len() == 36
    &&& forall|i: int|
        0 <= i < 36 ==> if i == 8 || i == 13 || i == 18 || i == 23 {
            #[trigger] s[i] == '-'
        } else {
            is_lower_hex_digit(s[i])
        }
    &&& s[14] == '4'
    &&& (s[19] == '8' || s[19] == '9' || s[19] == 'a' || s[19] == 'b')
}

/// `uuid::Uuid::new_v4` formatted with `to_string`. The value is random, so
/// only its shape is claimed: the hyphenated lowercase form that `Uuid`'s
/// `Display` writes, with the version and variant digits that `new_v4` sets.
#[verifier::external_body]
fn random_uuid_text() -> (text: String)
    ensures
        is_random_uuid_text(text@),
{
    ::uuid::Uuid::new_v4().to_string()
}

/// A fresh random identifier, as instances and client connections get.
pub fn new_unique_id() -> (id: String)
    ensures
        is_random_uuid_text(id@),
{
    random_uuid_text()
}

} // verus!
