//! Fresh random identifiers.
use vstd::prelude::*;

verus! {

pub open spec fn is_lower_hex_digit(c: char) -> bool {
    ('0' <= c && c <= '9') || ('a' <= c && c <= 'f')
}

/// The hyphenated lower-case text of a version 4 UUID: 8-4-4-4-12 hex digits, the
/// version digit `4` first in the third group, and the variant digit (`8`, `9`, `a` or
/// `b`) first in the fourth.
pub open spec fn is_v4_uuid_text(s: Seq<char>) -> bool {
    &&& s.len() == 36
    &&& forall|i: int|
        0 <= i < 36 ==> if i == 8 || i == 13 || i == 18 || i == 23 {
            s[i] == '-'
        } else {
            is_lower_hex_digit(#[trigger] s[i])
        }
    &&& s[14] == '4'
    &&& (s[19] == '8' || s[19] == '9' || s[19] == 'a' || s[19] == 'b')
}

/// `uuid::Uuid::new_v4().to_string()`: a random version 4 UUID, written out by its
/// `Display` (hyphenated, lower-case hex). Which UUID comes back is left open: it is random.
#[verifier::external_body]
pub(crate) fn new_uuid_v4_string() -> (r: String)
    ensures
        is_v4_uuid_text(r@),
{
    uuid::Uuid::new_v4().to_string()
}

} // verus!
