//! Fresh identifiers for boards, columns and cards.

use vstd::prelude::*;

verus! {

/// A lower-case hexadecimal digit.
pub open spec fn is_lower_hex(c: char) -> bool {
    ('0' <= c && c <= '9') || ('a' <= c && c <= 'f')
}

/// `s` is a random (version 4, RFC 4122 variant) UUID in its lower-case
/// hyphenated form, such as `67e55044-10b1-426f-9247-bb680e5fe0c8`.
pub open spec fn is_v4_uuid_text(s: Seq<char>) -> bool {
    &&& s.len() == 36
    &&& forall|i: int|
        0 <= i < 36 ==> if i == 8 || i == 13 || i == 18 || i == 23 {
            s[i] == '-'
        } else {
            is_lower_hex(#[trigger] s[i])
        }
    &&& s[14] == '4'
    &&& (s[19] == '8' || s[19] == '9' || s[19] == 'a' || s[19] == 'b')
}

/// Draws a random identifier with `uuid::Uuid::new_v4` and renders it with its
/// `Display` impl (`to_string`). Claimed of every outcome: the text is a
/// version 4 UUID in lower-case hyphenated form (new_v4 sets the version nibble
/// to 4 and the variant bits to `10`; Display writes 32 lower-case hex digits in
/// groups of 8-4-4-4-12 separated by hyphens). Which UUID comes back is not
/// stated: it is random.
#[verifier::external_body]
pub(crate) fn new_id() -> (id: String)
    ensures
        is_v4_uuid_text(id@),
{
    uuid::Uuid::new_v4().to_string()
}

} // verus!
