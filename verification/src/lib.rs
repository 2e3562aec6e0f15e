//! Event-driven reconciler for parking occupancy.
//!
//! The library keeps ParkingLot and ParkingSpace resource records in a remote
//! store consistent with a stream of sensor occupancy events.  Every decision
//! the reconciler takes — credential fallback, request construction, response
//! classification, recovery on missing records, and the recount aggregation —
//! is verified here; the surrounding process performs the actual network and
//! environment accesses and feeds the results back in as plain values.

use vstd::prelude::*;

pub mod clock;
pub mod config;
pub mod json;
pub mod reconcile;
pub mod recount;
pub mod store;
pub mod textfmt;
pub mod token;
pub mod wire;

verus! {

/// Default liveness for a sensor whose event does not mention it: online.
pub fn default_true() -> (r: bool)
    ensures
        r == true,
{
    true
}

/// An HTTP status code counts as success exactly when it is in the 2xx range.
pub fn is_success(status: u16) -> (r: bool)
    ensures
        r == spec_is_success(status as int),
{
    200 <= status && status < 300
}

/// The 2xx success range, as the contracts speak of it.
pub open spec fn spec_is_success(status: int) -> bool {
    200 <= status < 300
}

} // verus!
