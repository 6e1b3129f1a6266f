use crate::errors::ErrorCode;
use vstd::prelude::*;

verus! {

/// Capacity of the sliding window of recently consumed settlement nonces.
pub const NONCE_WINDOW: usize = 100;

/// Mathematical model of one per-(user, asset) ledger record.
#[verifier::ext_equal]
pub struct AccountModel {
    pub balance: u64,
    pub locked: u64,
    pub unlock_at: i64,
    pub nonces: Seq<u64>,
}

impl AccountModel {
    /// Structural well-formedness: the nonce window never exceeds its bound.
    pub open spec fn wf(self) -> bool {
        self.nonces.len() <= NONCE_WINDOW
    }
}

/// Crediting adds exactly `amount` when it fits in the balance field and
/// otherwise fails with `ArithmeticOverflow`, leaving the record unchanged.
pub open spec fn spec_credit(a: AccountModel, amount: u64) -> (AccountModel, Result<(), ErrorCode>) {
    if a.balance + amount <= u64::MAX {
        (AccountModel { balance: (a.balance + amount) as u64, ..a }, Ok(()))
    } else {
        (a, Err(ErrorCode::ArithmeticOverflow))
    }
}

/// Debiting removes exactly `amount` when the balance covers it and
/// otherwise fails with `InsufficientBalance`, leaving the record unchanged.
pub open spec fn spec_debit(a: AccountModel, amount: u64) -> (AccountModel, Result<(), ErrorCode>) {
    if amount <= a.balance {
        (AccountModel { balance: (a.balance - amount) as u64, ..a }, Ok(()))
    } else {
        (a, Err(ErrorCode::InsufficientBalance))
    }
}

/// Consuming a nonce appends it to the window; a full window first evicts
/// its oldest entry.
pub open spec fn spec_mark_nonce(w: Seq<u64>, nonce: u64) -> Seq<u64> {
    if w.len() >= NONCE_WINDOW {
        w.drop_first().push(nonce)
    } else {
        w.push(nonce)
    }
}

/// Pending-withdrawal lock: `locked == 0` means no withdrawal is pending.
#[derive(Clone, Copy, Debug, PartialEq, Eq, Structural)]
pub struct WithdrawLock {
    pub locked: u64,
    pub unlock_at: i64,
}

/// Per-(user, asset) ledger record: spendable balance, the withdrawal lock,
/// and the window of recently consumed settlement nonces.
#[derive(Clone, Debug)]
pub struct UserAccount {
    pub balance: u64,
    pub withdraw_lock: WithdrawLock,
    pub used_nonces: Vec<u64>,
}

impl View for UserAccount {
    type V = AccountModel;

    open spec fn view(&self) -> AccountModel {
        AccountModel {
            balance: self.balance,
            locked: self.withdraw_lock.locked,
            unlock_at: self.withdraw_lock.unlock_at,
            nonces: self.used_nonces@,
        }
    }
}

impl UserAccount {
    pub open spec fn wf(self) -> bool {
        self@.wf()
    }

    /// A fresh record, as the host creates it lazily on first deposit.
    pub fn new() -> (r: UserAccount)
        ensures
            r@ =~= (AccountModel { balance: 0, locked: 0, unlock_at: 0, nonces: Seq::empty() }),
            r.wf(),
    {
        UserAccount {
            balance: 0,
            withdraw_lock: WithdrawLock { locked: 0, unlock_at: 0 },
            used_nonces: Vec::new(),
        }
    }

    /// Add `amount` to the spendable balance with overflow-checked
    /// arithmetic. The only way any component may increase `balance`.
    pub fn credit(&mut self, amount: u64) -> (r: Result<(), ErrorCode>)
        ensures
            ({
                let (m, res) = spec_credit(old(self)@, amount);
                final(self)@ =~= m && r == res
            }),
    {
        match self.balance.checked_add(amount) {
            Some(b) => {
                self.balance = b;
                Ok(())
            },
            None => Err(ErrorCode::ArithmeticOverflow),
        }
    }

    /// Remove `amount` from the spendable balance, guarded so the checked
    /// subtraction cannot underflow. The only way any component may decrease
    /// `balance`.
    pub fn debit(&mut self, amount: u64) -> (r: Result<(), ErrorCode>)
        ensures
            ({
                let (m, res) = spec_debit(old(self)@, amount);
                final(self)@ =~= m && r == res
            }),
    {
        if self.balance < amount {
            return Err(ErrorCode::InsufficientBalance);
        }
        match self.balance.checked_sub(amount) {
            Some(b) => {
                self.balance = b;
                Ok(())
            },
            None => Err(ErrorCode::ArithmeticUnderflow),
        }
    }

    /// Membership test over the recent-nonce window.
    pub fn is_nonce_used(&self, nonce: u64) -> (r: bool)
        ensures
            r == self@.nonces.contains(nonce),
    {
        let mut i: usize = 0;
        while i < self.used_nonces.len()
            invariant
                i <= self.used_nonces.len(),
                forall|j: int| 0 <= j < i ==> self.used_nonces@[j] != nonce,
            decreases self.used_nonces.len() - i,
        {
            if self.used_nonces[i] == nonce {
                return true;
            }
            i += 1;
        }
        false
    }

    /// Consume `nonce`: evict the oldest window entry if the window is at
    /// capacity, then append. Infallible; the `Result` is kept so settlement
    /// can thread every bookkeeping step through uniformly.
    pub fn mark_nonce_used(&mut self, nonce: u64) -> (r: Result<(), ErrorCode>)
        requires
            old(self).wf(),
        ensures
            final(self).wf(),
            r == Ok::<(), ErrorCode>(()),
            final(self)@ =~= (AccountModel { nonces: spec_mark_nonce(old(self)@.nonces, nonce), ..old(self)@ }),
    {
        if self.used_nonces.len() >= NONCE_WINDOW {
            self.used_nonces.remove(0);
        }
        self.used_nonces.push(nonce);
        Ok(())
    }
}

} // verus!
