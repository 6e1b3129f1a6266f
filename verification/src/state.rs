use vstd::prelude::*;

verus! {

/// Singleton global configuration, created once at bootstrap. The host
/// addresses it deterministically and guarantees single creation; identities
/// are the host's opaque account keys, carried here as plain handles.
#[derive(Clone, Copy, Debug, PartialEq, Eq, Structural)]
pub struct WalletState {
    /// Root administrator identity; immutable after bootstrap.
    pub authority: u64,
    /// Cooling-off delay, in seconds, between a withdrawal request and its
    /// execution. Fixed at creation; never negative.
    pub withdraw_delay: i64,
}

impl WalletState {
    pub open spec fn wf(self) -> bool {
        self.withdraw_delay >= 0
    }
}

/// One authorization-registry entry: whether `sp` may invoke settlement.
/// Absence of an entry means the same as `enabled == false`.
#[derive(Clone, Copy, Debug, PartialEq, Eq, Structural)]
pub struct SPAccount {
    pub sp: u64,
    pub enabled: bool,
}

/// An agent may settle exactly when the registry holds an entry for that
/// identity with `enabled` set.
pub open spec fn sp_authorized(entry: Option<SPAccount>, sp: u64) -> bool {
    match entry {
        Some(e) => e.sp == sp && e.enabled,
        None => false,
    }
}

} // verus!
