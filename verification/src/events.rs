use vstd::prelude::*;

verus! {

/// Domain events. Each successful operation returns the event the host must
/// surface; the withdrawal and settlement events double as the host's
/// instruction to move the named amount out of the custodied pool.
#[derive(Clone, Copy, Debug, PartialEq, Eq, Structural)]
pub struct Deposited {
    pub user: u64,
    pub token: u64,
    pub amount: u64,
}

#[derive(Clone, Copy, Debug, PartialEq, Eq, Structural)]
pub struct WithdrawalRequested {
    pub user: u64,
    pub token: u64,
    pub amount: u64,
    pub unlock_at: i64,
}

#[derive(Clone, Copy, Debug, PartialEq, Eq, Structural)]
pub struct WithdrawalExecuted {
    pub user: u64,
    pub token: u64,
    pub amount: u64,
}

#[derive(Clone, Copy, Debug, PartialEq, Eq)]
pub struct Settled {
    pub payer: u64,
    pub token: u64,
    pub payee: u64,
    pub amount: u64,
    pub nonce: u64,
    /// Caller-supplied correlation tag; carried through uninterpreted.
    pub reference: [u8; 32],
}

#[derive(Clone, Copy, Debug, PartialEq, Eq, Structural)]
pub struct SPSet {
    pub sp: u64,
    pub enabled: bool,
}

} // verus!
