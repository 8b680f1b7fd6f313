//! Random identifiers, as `uuid` makes them.

use vstd::prelude::*;

verus! {

/// Whether `c` is a hexadecimal digit in lower case.
pub open spec fn is_hex_digit(c: char) -> bool {
    '0' <= c <= '9' || 'a' <= c <= 'f'
}

/// Whether `text` is a random UUID as it is usually written: 32 hexadecimal
/// digits in lower case in groups of 8, 4, 4, 4 and 12, with hyphens between
/// them, a version digit of 4 and a variant digit from 8 to b.
pub open spec fn is_random_uuid(text: Seq<char>) -> bool {
    &&& text.len() == 36
    &&& forall|i: int|
        0 <= i < 36 ==> if i == 8 || i == 13 || i == 18 || i == 23 {
            #[trigger] text[i] == '-'
        } else {
            is_hex_digit(text[i])
        }
    &&& text[14] == '4'
    &&& text[19] == '8' || text[19] == '9' || text[19] == 'a' || text[19] == 'b'
}

/// `Uuid::new_v4`, written out: a random UUID. Nothing is said of which one it
/// is; that two calls give different ones is only likely. A machine that has no
/// random bytes to give makes the call panic; nothing in the program decides
/// that.
#[verifier::external_body]
pub(crate) fn new_uuid() -> (result: String)
    ensures
        is_random_uuid(result@),
{
    uuid::Uuid::new_v4().to_string()
}

} // verus!
