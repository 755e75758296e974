//! The time at which a commit is made.

use vstd::prelude::*;

verus! {

/// The time now in milliseconds since the start of 1970, read by
/// `chrono::Utc::now` and converted by `DateTime::timestamp_millis`.
///
/// Nothing is claimed of the value: a clock can be set, so two readings
/// need not even be in order. `Utc::now` panics where the system clock
/// stands before 1970.
#[verifier::external_body]
pub(crate) fn now_millis() -> i64 {
    chrono::Utc::now().timestamp_millis()
}

} // verus!
