//! The identifiers under which habits are kept.

use vstd::prelude::*;

verus! {

/// Whether a character is a digit of lower-case hexadecimal.
pub open spec fn is_lower_hex(c: char) -> bool {
    ('0' <= c <= '9') || ('a' <= c <= 'f')
}

/// The shape of a fresh identifier: a random UUID (version 4) written in
/// lower case with hyphens, 128 bits of which 122 are drawn at random.
pub open spec fn is_habit_id(text: Seq<char>) -> bool {
    &&& text.len() == 36
    &&& forall|i: int|
        0 <= i < 36 ==> if i == 8 || i == 13 || i == 18 || i == 23 {
            #[trigger] text[i] == '-'
        } else {
            is_lower_hex(text[i])
        }
    &&& text[14] == '4'
    &&& (text[19] == '8' || text[19] == '9' || text[19] == 'a' || text[19] == 'b')
}

/// Draws an identifier through `uuid::Uuid::new_v4` and writes it out as
/// `Uuid`'s `to_string` does. Trusted: every outcome has the shape of
/// `is_habit_id`. Nothing is promised about which one comes out; that two
/// draws differ is a matter of chance. `uuid` gives up where the system has no
/// random bytes to offer.
#[verifier::external_body]
pub(crate) fn new_id() -> (id: String)
    ensures
        is_habit_id(id@),
{
    uuid::Uuid::new_v4().to_string()
}

} // verus!
