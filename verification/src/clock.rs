//! The wall clock. Every reading depends on when it is taken, so nothing
//! is claimed of the values these return.

use vstd::prelude::*;

verus! {

/// chrono's `Utc::now().timestamp_millis()`: milliseconds since the Unix
/// epoch.
#[verifier::external_body]
pub(crate) fn now_millis() -> (r: i64)
{
    chrono::Utc::now().timestamp_millis()
}

/// chrono's `Utc::now().to_rfc3339()`: the current UTC time as RFC 3339
/// text.
#[verifier::external_body]
pub(crate) fn utc_now_rfc3339() -> (r: String)
{
    chrono::Utc::now().to_rfc3339()
}

/// chrono's `Utc::now().format("%Y%m%dT%H%M%S")`: the current UTC time as a
/// compact sortable stamp.
#[verifier::external_body]
pub(crate) fn utc_now_stamp() -> (r: String)
{
    chrono::Utc::now().format("%Y%m%dT%H%M%S").to_string()
}

/// std's `SystemTime::now().duration_since(UNIX_EPOCH)` in nanoseconds;
/// `None` when the clock reads before the epoch. Nothing is claimed of the
/// value.
#[verifier::external_body]
pub(crate) fn now_nanos() -> (r: Option<u128>)
{
    std::time::SystemTime::now().duration_since(std::time::UNIX_EPOCH).ok().map(|d| d.as_nanos())
}

} // verus!
