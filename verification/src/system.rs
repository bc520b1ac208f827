//! What the machine gives: the time of day and fresh identifiers. Neither
//! can be predicted, so little is promised of them; what is done with them
//! is verified for every value they may have.

use vstd::prelude::*;

verus! {

/// Whether `c` is a digit of lower-case hexadecimal notation.
pub open spec fn is_lower_hex(c: char) -> bool {
    ('0' <= c && c <= '9') || ('a' <= c && c <= 'f')
}

/// Whether `s` has the hyphenated form of a UUID: 36 characters, hyphens at
/// the places 8, 13, 18 and 23, lower-case hexadecimal digits elsewhere.
pub open spec fn is_hyphenated_uuid(s: Seq<char>) -> bool {
    &&& s.len() == 36
    &&& forall|i: int|
        0 <= i < 36 ==> if i == 8 || i == 13 || i == 18 || i == 23 {
            s[i] == '-'
        } else {
            is_lower_hex(#[trigger] s[i])
        }
}

/// `SystemTime::now`, counted in nanoseconds since the Unix epoch; zero for
/// a clock that stands before the epoch. Nothing is promised of the value:
/// the clock of the machine can be set, and it can step back.
#[verifier::external_body]
pub(crate) fn now_nanos() -> u128 {
    std::time::SystemTime::now().duration_since(std::time::UNIX_EPOCH).map(
        |since| since.as_nanos(),
    ).unwrap_or(0)
}

/// `uuid::Uuid::new_v4`, written out with `to_string`. Trusted: the text has
/// the hyphenated lower-case form. That two calls give different texts is
/// overwhelmingly likely and not promised. `new_v4` panics on a machine that
/// cannot give it random bytes.
#[verifier::external_body]
pub(crate) fn fresh_id() -> (r: String)
    ensures
        is_hyphenated_uuid(r@),
{
    uuid::Uuid::new_v4().to_string()
}

} // verus!
