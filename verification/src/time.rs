//! Timestamp rendering, delegated to chrono.

use vstd::prelude::*;

verus! {

/// The RFC 3339 rendering that chrono gives a millisecond UTC timestamp;
/// the empty sequence where the timestamp lies outside chrono's range.
pub uninterp spec fn rfc3339_of(ms: int) -> Seq<char>;

/// Relies on chrono::DateTime::from_timestamp_millis and
/// chrono::DateTime::to_rfc3339: the rendering depends on the millisecond
/// value alone, and an out-of-range value yields the empty string.
#[verifier::external_body]
pub(crate) fn rfc3339_of_millis(ms: i64) -> (r: String)
    ensures
        r@ == rfc3339_of(ms as int),
{
    match chrono::DateTime::from_timestamp_millis(ms) {
        Some(dt) => dt.to_rfc3339(),
        None => String::new(),
    }
}

} // verus!
