use vstd::prelude::*;

verus! {

/// Request counters of the gateway.
#[derive(Clone)]
pub struct Metrics {
    pub requests_total: u64,
    pub active_connections: u64,
}

impl Metrics {
    /// Counters that start at zero.
    pub fn new() -> (r: Self)
        ensures
            r.requests_total == 0,
            r.active_connections == 0,
    {
        Metrics { requests_total: 0, active_connections: 0 }
    }
}

} // verus!
