//! The policy of the pool of backend processes.
use vstd::prelude::*;

verus! {

/// The limits and checks of the pool of backends.
#[derive(Clone, Copy, Debug, PartialEq, Eq, Structural)]
pub struct PoolPolicy {
    /// The most backends alive at once, idle and handed out together.
    pub max_size: u32,
    /// The number of idle backends the pool keeps ready.
    pub min_idle: u32,
    /// The age in seconds after which a backend is replaced, not reused.
    pub max_lifetime_secs: u64,
    /// Whether a backend's health is checked before it is handed out.
    pub test_on_checkout: bool,
}

impl PoolPolicy {
    /// A policy a pool can be built with: room for at least one backend, an
    /// idle floor within that room, and a lifetime that is not zero.
    pub open spec fn wf(self) -> bool {
        0 < self.max_size && self.min_idle <= self.max_size && 0 < self.max_lifetime_secs
    }

    /// The broker's policy: at most six backends, two kept idle, each
    /// replaced after four minutes, and each checked before it is handed out.
    pub fn standard() -> (r: PoolPolicy)
        ensures
            r == (PoolPolicy {
                max_size: 6,
                min_idle: 2,
                max_lifetime_secs: 240,
                test_on_checkout: true,
            }),
            r.wf(),
    {
        PoolPolicy { max_size: 6, min_idle: 2, max_lifetime_secs: 4 * 60, test_on_checkout: true }
    }

    /// Whether the pool can be built with this policy.
    pub fn is_buildable(&self) -> (r: bool)
        ensures
            r == self.wf(),
    {
        0 < self.max_size && self.min_idle <= self.max_size && 0 < self.max_lifetime_secs
    }
}

} // verus!
