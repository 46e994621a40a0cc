//! Observability counters of the compact-block streaming service.
use vstd::prelude::*;

verus! {

/// `n + 1`, wrapping at the top of the `u64` range.
pub open spec fn wrapping_inc(n: u64) -> u64 {
    if n == u64::MAX {
        0
    } else {
        (n + 1) as u64
    }
}

/// `n - 1`, wrapping at zero.
pub open spec fn wrapping_dec(n: u64) -> u64 {
    if n == 0 {
        u64::MAX
    } else {
        (n - 1) as u64
    }
}

/// `n + 1`, held at the top of the `u64` range.
pub open spec fn saturating_inc(n: u64) -> u64 {
    if n == u64::MAX {
        n
    } else {
        (n + 1) as u64
    }
}

/// The service's counters.
///
/// `active_connections` is a gauge: it goes up by one when a stream worker
/// starts and down by one when it ends, with wrapping arithmetic so that the
/// pair always restores the earlier value. `blocks_served` only grows.
pub struct StreamMetrics {
    pub active_connections: u64,
    pub blocks_served: u64,
}

impl StreamMetrics {
    pub fn new() -> (r: StreamMetrics)
        ensures
            r.active_connections == 0,
            r.blocks_served == 0,
    {
        StreamMetrics { active_connections: 0, blocks_served: 0 }
    }

    pub fn increment_connections(&mut self)
        ensures
            final(self).active_connections == wrapping_inc(old(self).active_connections),
            final(self).blocks_served == old(self).blocks_served,
    {
        self.active_connections = self.active_connections.wrapping_add(1);
    }

    pub fn decrement_connections(&mut self)
        ensures
            final(self).active_connections == wrapping_dec(old(self).active_connections),
            final(self).blocks_served == old(self).blocks_served,
    {
        self.active_connections = self.active_connections.wrapping_sub(1);
    }

    pub fn record_block_served(&mut self)
        ensures
            final(self).blocks_served == saturating_inc(old(self).blocks_served),
            final(self).active_connections == old(self).active_connections,
    {
        self.blocks_served = self.blocks_served.saturating_add(1);
    }
}

} // verus!
