//! Execution ids: the tokens that tie a dispatched wrapper script to the
//! callback it sends later.

use vstd::prelude::*;

verus! {

/// Whether `c` is one of the sixteen lower-case hexadecimal digits.
pub open spec fn is_lower_hex(c: char) -> bool {
    ('0' <= c && c <= '9') || ('a' <= c && c <= 'f')
}

/// Whether `c` may stand at place `i` of an execution id: a hyphen after the
/// groups of eight, four, four and four digits, a digit everywhere else.
pub open spec fn fits_place(i: int, c: char) -> bool {
    if i == 8 || i == 13 || i == 18 || i == 23 {
        c == '-'
    } else {
        is_lower_hex(c)
    }
}

/// The shape of an execution id: a version 4 UUID in its hyphenated
/// lower-case form. It has 36 characters in five groups of hexadecimal
/// digits; the third group begins with the version, the fourth with the
/// variant.
pub open spec fn is_execution_id(id: Seq<char>) -> bool {
    &&& id.len() == 36
    &&& forall|i: int| 0 <= i < 36 ==> fits_place(i, #[trigger] id[i])
    &&& id[14] == '4'
    &&& (id[19] == '8' || id[19] == '9' || id[19] == 'a' || id[19] == 'b')
}

/// `Uuid::new_v4`, rendered by `to_string`: a random version 4 UUID as text.
/// Which one comes back is left open; only its shape is stated. The call
/// panics where the operating system hands out no random bytes.
#[verifier::external_body]
pub(crate) fn fresh_execution_id() -> (id: String)
    ensures
        is_execution_id(id@),
{
    uuid::Uuid::new_v4().to_string()
}

} // verus!
