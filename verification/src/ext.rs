//! Trusted wrappers around the clock, the RFC 3339 formatter and the
//! identifier generator. Verified code treats the clock reading and the
//! fresh identifier as arbitrary values of their stated shapes.

use vstd::prelude::*;

verus! {

/// The RFC 3339 rendering of the UTC instant `t` milliseconds after the
/// Unix epoch; a fixed function of `t` alone.
pub uninterp spec fn rfc3339_of(t: int) -> Seq<char>;

/// Milliseconds from the Unix epoch through the end of year 9999, well
/// inside the range chrono can represent (about 262,000 years either way).
pub open spec fn rfc3339_representable(t: int) -> bool {
    0 <= t < 253_402_300_800_000
}

/// Relies on chrono's `Utc::now` and `DateTime::timestamp_millis`: the
/// current UTC time as milliseconds since the Unix epoch. Nothing is assumed
/// of the value; the clock may even move backwards between calls.
#[verifier::external_body]
pub(crate) fn now_millis() -> i64 {
    chrono::Utc::now().timestamp_millis()
}

/// Relies on chrono's `DateTime::from_timestamp_millis` (documented to
/// round-trip with `timestamp_millis` and to refuse only out-of-range
/// inputs) and `DateTime::to_rfc3339` (a pure rendering of the instant):
/// together they render `t` as RFC 3339, and succeed on every timestamp up
/// to year 9999.
#[verifier::external_body]
pub(crate) fn format_rfc3339(t: i64) -> (r: Option<String>)
    ensures
        rfc3339_representable(t as int) ==> r is Some,
        r matches Some(s) ==> s@ == rfc3339_of(t as int),
{
    match chrono::DateTime::<chrono::Utc>::from_timestamp_millis(t) {
        Some(instant) => Some(instant.to_rfc3339()),
        None => None,
    }
}

/// Relies on uuid's `Uuid::new_v4` and its `Display` impl: a random
/// version-4 UUID rendered in the hyphenated form, which is always 36
/// characters. Nothing else is assumed; two calls may in principle collide.
#[verifier::external_body]
pub(crate) fn fresh_id() -> (r: String)
    ensures
        r@.len() == 36,
{
    uuid::Uuid::new_v4().to_string()
}

} // verus!
