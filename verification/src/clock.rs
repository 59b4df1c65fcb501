//! Trusted access to the wall clock.

use vstd::prelude::*;

verus! {

/// Relies on `chrono::Utc::now` / `DateTime::timestamp_millis`: the current
/// time in milliseconds since the Unix epoch.  Nothing can be promised of the
/// wall clock, so the result is unconstrained; callers that need monotonicity
/// enforce it themselves.
#[verifier::external_body]
pub(crate) fn now_millis() -> i64 {
    chrono::Utc::now().timestamp_millis()
}

/// Relies on `chrono::Utc::now` / `DateTime::to_rfc3339`: the current time as
/// an RFC 3339 string.  The result depends on the wall clock, so nothing is
/// promised of it.
#[verifier::external_body]
pub(crate) fn now_rfc3339() -> String {
    chrono::Utc::now().to_rfc3339()
}

} // verus!
