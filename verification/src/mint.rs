//! What every upload takes from outside: a fresh identity and the time.

use vstd::prelude::*;

verus! {

/// Whether `c` is one of the digits `0` to `9` and `a` to `f`.
pub open spec fn is_lower_hex(c: char) -> bool {
    ('0' <= c && c <= '9') || ('a' <= c && c <= 'f')
}

/// The shape of a photo identity: thirty-two lower-case hexadecimal digits in
/// groups of 8, 4, 4, 4 and 12, with a hyphen between groups; the third group
/// begins with the digit 4.
pub open spec fn is_identity(text: Seq<char>) -> bool {
    &&& text.len() == 36
    &&& forall|i: int|
        0 <= i < 36 ==> if i == 8 || i == 13 || i == 18 || i == 23 {
            text[i] == '-'
        } else {
            is_lower_hex(#[trigger] text[i])
        }
    &&& text[14] == '4'
}

/// Mints a photo identity: `Uuid::new_v4`, written out by `to_string`.
///
/// Trusted: the text has the hyphenated lower-case form of a version 4
/// identifier. Which identifier it is depends on chance, so two calls differ.
#[verifier::external_body]
pub(crate) fn fresh_identity() -> (identity: String)
    ensures
        is_identity(identity@),
{
    uuid::Uuid::new_v4().to_string()
}

/// Reads the clock: `Utc::now`, written out by `to_rfc3339`, for example
/// `2024-05-17T09:30:00.123456789+00:00`.
///
/// Trusted: the call returns. The text depends on the time of the call.
#[verifier::external_body]
pub(crate) fn current_timestamp() -> String {
    chrono::Utc::now().to_rfc3339()
}

} // verus!
