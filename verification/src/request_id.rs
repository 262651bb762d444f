//! Request identifiers: random version-4 UUIDs in hyphenated lower-case form.

use vstd::prelude::*;

verus! {

/// A digit or a letter from `a` to `f`.
pub open spec fn is_lower_hex(c: char) -> bool {
    let n = c as u32;
    (0x30 <= n <= 0x39) || (0x61 <= n <= 0x66)
}

/// The hyphenated lower-case text of a version-4 UUID: thirty-six
/// characters in groups of 8, 4, 4, 4 and 12 hexadecimal digits with a hyphen
/// between groups; the third group starts with `4`, the fourth with `8`, `9`,
/// `a` or `b`.
pub open spec fn is_request_id(s: Seq<char>) -> bool {
    &&& s.len() == 36
    &&& forall|i: int|
        0 <= i < 36 ==> if i == 8 || i == 13 || i == 18 || i == 23 {
            #[trigger] s[i] == '-'
        } else {
            is_lower_hex(s[i])
        }
    &&& s[14] == '4'
    &&& (s[19] == '8' || s[19] == '9' || s[19] == 'a' || s[19] == 'b')
}

/// Draws a fresh request id: `uuid::Uuid::new_v4`, rendered by the `Display`
/// of `Uuid`.
///
/// Trusted: `new_v4` takes 128 random bits and overwrites the version nibble
/// with 4 and the two variant bits with binary 10; `Display` writes the
/// hyphenated form in lower case. Nothing is claimed of the random digits.
/// `new_v4` panics if the operating system yields no random bytes.
#[verifier::external_body]
pub(crate) fn fresh_request_id() -> (id: String)
    ensures
        is_request_id(id@),
{
    uuid::Uuid::new_v4().to_string()
}

} // verus!
