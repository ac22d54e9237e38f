//! The trusted port range. The worker may bind to any free port inside
//! this narrow band; nothing outside it is ever treated as the backend.

use vstd::prelude::*;

verus! {

pub const API_PORT_MIN: u16 = 8765;

pub const API_PORT_MAX: u16 = 8775;

/// Number of candidate ports in the closed trusted range.
pub const CANDIDATE_PORT_COUNT: u16 = API_PORT_MAX - API_PORT_MIN + 1;

pub open spec fn port_in_range(p: u16) -> bool {
    API_PORT_MIN <= p && p <= API_PORT_MAX
}

pub fn port_in_range_check(p: u16) -> (r: bool)
    ensures
        r == port_in_range(p),
{
    API_PORT_MIN <= p && p <= API_PORT_MAX
}

} // verus!
