//! Timestamps.
//!
//! The reconciler stamps every status write with an RFC 3339 text.  Reading
//! the clock and rendering a calendar date are done by the `time` crate
//! behind the trusted items below; everything that depends on the resulting
//! text takes it as a plain string.

use vstd::prelude::*;

verus! {

/// The RFC 3339 text of a unix timestamp (UTC, whole seconds).  What the
/// `time` crate renders for one timestamp, which depends on it alone.
pub uninterp spec fn rfc3339_of(ts: int) -> Seq<char>;

/// Relies on `time::OffsetDateTime::now_utc` and `unix_timestamp`: the
/// current instant in unix seconds; nothing holds of the value itself.
#[verifier::external_body]
pub(crate) fn now_unix() -> i64 {
    time::OffsetDateTime::now_utc().unix_timestamp()
}

/// The timestamps the RFC 3339 rendering accepts: from the first instant of
/// year 0 through the last second of year 9999.
pub open spec fn rfc3339_in_range(ts: int) -> bool {
    -62167219200 <= ts <= 253402300799
}

/// Relies on `time::OffsetDateTime::from_unix_timestamp` and the RFC 3339
/// formatter: the text for one timestamp depends on the timestamp alone;
/// the conversion succeeds exactly for the years 0 through 9999, the range
/// both steps accept.
#[verifier::external_body]
pub(crate) fn format_unix_rfc3339(ts: i64) -> (r: Option<String>)
    ensures
        r matches Some(s) ==> s@ == rfc3339_of(ts as int),
        r is Some <==> rfc3339_in_range(ts as int),
{
    let dt = match time::OffsetDateTime::from_unix_timestamp(ts) {
        Ok(dt) => dt,
        Err(_) => return None,
    };
    dt.format(&time::format_description::well_known::Rfc3339).ok()
}

/// Relies on `time::OffsetDateTime::now_utc` and the RFC 3339 formatter:
/// the current instant as text; nothing holds of the value itself.
#[verifier::external_body]
pub(crate) fn now_rfc3339() -> Option<String> {
    time::OffsetDateTime::now_utc().format(&time::format_description::well_known::Rfc3339).ok()
}

} // verus!
