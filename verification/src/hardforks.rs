//! The hardfork capability: a query object answering whether a hardfork is
//! active at a given timestamp. Chain configurations (mainnet, testnets,
//! custom specs) are variants behind this trait, so new configurations can be
//! added without touching the call-site logic.

use vstd::prelude::*;

verus! {

/// A chain specification, queried only for whether the two relevant
/// hardforks are active at a block's timestamp.
///
/// Each executable query must answer exactly as its specification-level
/// predicate does, so the call-site contracts can speak of activation as a
/// pure function of the timestamp.
pub trait EthereumHardforks: Sized {
    /// Whether the blockhash-history hardfork (Prague) is active at
    /// `timestamp`.
    spec fn prague_active(&self, timestamp: u64) -> bool;

    /// Whether the beacon-root hardfork (Cancun) is active at `timestamp`.
    spec fn cancun_active(&self, timestamp: u64) -> bool;

    fn is_prague_active_at_timestamp(&self, timestamp: u64) -> (r: bool)
        ensures
            r == self.prague_active(timestamp),
    ;

    fn is_cancun_active_at_timestamp(&self, timestamp: u64) -> (r: bool)
        ensures
            r == self.cancun_active(timestamp),
    ;
}

/// A chain specification given by per-fork activation timestamps: a fork is
/// active at `t` exactly when it has an activation time and `t` is not
/// before it. `None` means the fork never activates on this chain.
#[derive(Clone, Copy, PartialEq, Eq, Debug)]
pub struct ForkTimestamps {
    pub cancun_time: Option<u64>,
    pub prague_time: Option<u64>,
}

impl EthereumHardforks for ForkTimestamps {
    open spec fn prague_active(&self, timestamp: u64) -> bool {
        match self.prague_time {
            Some(t0) => timestamp >= t0,
            None => false,
        }
    }

    open spec fn cancun_active(&self, timestamp: u64) -> bool {
        match self.cancun_time {
            Some(t0) => timestamp >= t0,
            None => false,
        }
    }

    fn is_prague_active_at_timestamp(&self, timestamp: u64) -> (r: bool) {
        match self.prague_time {
            Some(t0) => timestamp >= t0,
            None => false,
        }
    }

    fn is_cancun_active_at_timestamp(&self, timestamp: u64) -> (r: bool) {
        match self.cancun_time {
            Some(t0) => timestamp >= t0,
            None => false,
        }
    }
}

} // verus!
