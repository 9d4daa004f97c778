//! Fresh identifiers and the wall clock, taken on trust from outside
//! crates. Nothing is promised of the values they return: every function
//! built on them states what holds of any outcome.

use vstd::prelude::*;

verus! {

/// Relies on `uuid::Uuid::new_v4` and `Uuid::as_u128`: a freshly
/// generated random 128-bit identifier. Randomness promises nothing, so
/// this has no contract; callers check freshness against the store.
#[verifier::external_body]
pub fn fresh_id() -> u128 {
    uuid::Uuid::new_v4().as_u128()
}

/// Relies on `chrono::Utc::now` and `DateTime::timestamp_millis`: the
/// wall-clock time in milliseconds since the epoch. The clock promises
/// nothing of its value.
#[verifier::external_body]
pub fn now_millis() -> i64 {
    chrono::Utc::now().timestamp_millis()
}

/// Relies on `chrono::Utc::now` and `DateTime::timestamp_nanos_opt`: the
/// wall-clock time in nanoseconds since the epoch, where representable.
/// The clock promises nothing of its value.
#[verifier::external_body]
pub fn now_nanos() -> Option<i64> {
    chrono::Utc::now().timestamp_nanos_opt()
}

} // verus!
