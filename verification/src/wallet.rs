use crate::account::{spec_credit, spec_debit, spec_mark_nonce, AccountModel, UserAccount};
use crate::errors::ErrorCode;
use crate::events::{Deposited, SPSet, Settled, WithdrawalExecuted, WithdrawalRequested};
use crate::state::{sp_authorized, SPAccount, WalletState};
use vstd::prelude::*;

verus! {

/// The spec-level view of a borrowed registry entry, `None` when the host
/// found no record for the agent.
pub open spec fn entry_of(entry: Option<&SPAccount>) -> Option<SPAccount> {
    match entry {
        Some(e) => Some(*e),
        None => None,
    }
}

/// Transition of `request_withdraw`: checks run in order (zero amount,
/// balance cover, no pending lock); on success the amount moves from the
/// spendable balance into the lock and the unlock time is stamped.
pub open spec fn spec_request_withdraw(
    a: AccountModel,
    delay: i64,
    amount: u64,
    now: i64,
) -> (AccountModel, Result<i64, ErrorCode>) {
    if amount == 0 {
        (a, Err(ErrorCode::InvalidAmount))
    } else if a.balance < amount {
        (a, Err(ErrorCode::InsufficientBalance))
    } else if a.locked != 0 {
        (a, Err(ErrorCode::WithdrawalPending))
    } else {
        (
            AccountModel {
                balance: (a.balance - amount) as u64,
                locked: amount,
                unlock_at: (now + delay) as i64,
                ..a
            },
            Ok((now + delay) as i64),
        )
    }
}

/// Transition of `execute_withdraw`: requires an outstanding lock whose
/// unlock time has passed; on success the lock returns to idle and the
/// locked amount is released to the host for transfer.
pub open spec fn spec_execute_withdraw(a: AccountModel, now: i64) -> (
    AccountModel,
    Result<u64, ErrorCode>,
) {
    if a.locked == 0 {
        (a, Err(ErrorCode::NoWithdrawalPending))
    } else if now < a.unlock_at {
        (a, Err(ErrorCode::WithdrawalNotReady))
    } else {
        (AccountModel { locked: 0, unlock_at: 0, ..a }, Ok(a.locked))
    }
}

/// Transition of `settle`: agent authorization, mandate deadline, nonce
/// freshness and balance cover are checked in that order; on success the
/// nonce is consumed into the window and the payer balance is debited.
pub open spec fn spec_settle(
    a: AccountModel,
    entry: Option<SPAccount>,
    sp: u64,
    amount: u64,
    nonce: u64,
    deadline: i64,
    now: i64,
) -> (AccountModel, Result<(), ErrorCode>) {
    if !sp_authorized(entry, sp) {
        (a, Err(ErrorCode::NotAuthorizedSP))
    } else if now > deadline {
        (a, Err(ErrorCode::MandateExpired))
    } else if a.nonces.contains(nonce) {
        (a, Err(ErrorCode::NonceUsed))
    } else if a.balance < amount {
        (a, Err(ErrorCode::InsufficientBalance))
    } else {
        (
            AccountModel {
                balance: (a.balance - amount) as u64,
                nonces: spec_mark_nonce(a.nonces, nonce),
                ..a
            },
            Ok(()),
        )
    }
}

/// Transition of `set_sp`: only the configured administrator may create or
/// rewrite a registry entry; the entry is overwritten wholesale.
pub open spec fn spec_set_sp(
    ws: WalletState,
    authority: u64,
    entry: SPAccount,
    sp: u64,
    enabled: bool,
) -> (SPAccount, Result<(), ErrorCode>) {
    if authority != ws.authority {
        (entry, Err(ErrorCode::NotAuthorized))
    } else {
        (SPAccount { sp, enabled }, Ok(()))
    }
}

/// One-time bootstrap of the global configuration. The host guarantees this
/// can succeed only once (the record already existing makes a re-invocation
/// fail at its boundary).
pub fn initialize(authority: u64, withdraw_delay: i64) -> (r: WalletState)
    requires
        withdraw_delay >= 0,
    ensures
        r == (WalletState { authority, withdraw_delay }),
        r.wf(),
{
    WalletState { authority, withdraw_delay }
}

/// Credit a deposit the host has already collected into the custodied pool.
/// On success the balance grows by exactly `amount` and the returned event
/// names the depositor, the asset and the amount.
pub fn deposit(user_account: &mut UserAccount, user: u64, token: u64, amount: u64) -> (r: Result<
    Deposited,
    ErrorCode,
>)
    ensures
        ({
            let (m, res) = spec_credit(old(user_account)@, amount);
            &&& final(user_account)@ =~= m
            &&& match r {
                Ok(ev) => res == Ok::<(), ErrorCode>(()) && ev == (Deposited { user, token, amount }),
                Err(e) => res == Err::<(), ErrorCode>(e),
            }
        }),
        old(user_account).wf() ==> final(user_account).wf(),
{
    match user_account.credit(amount) {
        Ok(()) => Ok(Deposited { user, token, amount }),
        Err(e) => Err(e),
    }
}

/// Enter the withdrawal cooling-off period: reserve `amount` out of the
/// spendable balance under a lock that opens `withdraw_delay` seconds from
/// `now`. At most one withdrawal may be outstanding per account.
pub fn request_withdraw(
    user_account: &mut UserAccount,
    wallet_state: &WalletState,
    user: u64,
    token: u64,
    amount: u64,
    now: i64,
) -> (r: Result<WithdrawalRequested, ErrorCode>)
    requires
        wallet_state.wf(),
        now + wallet_state.withdraw_delay <= i64::MAX,
    ensures
        ({
            let (m, res) = spec_request_withdraw(
                old(user_account)@,
                wallet_state.withdraw_delay,
                amount,
                now,
            );
            &&& final(user_account)@ =~= m
            &&& match r {
                Ok(ev) => {
                    &&& res == Ok::<i64, ErrorCode>(ev.unlock_at)
                    &&& ev == (WithdrawalRequested { user, token, amount, unlock_at: ev.unlock_at })
                },
                Err(e) => res == Err::<i64, ErrorCode>(e),
            }
        }),
        old(user_account).wf() ==> final(user_account).wf(),
{
    if amount == 0 {
        return Err(ErrorCode::InvalidAmount);
    }
    if user_account.balance < amount {
        return Err(ErrorCode::InsufficientBalance);
    }
    if user_account.withdraw_lock.locked != 0 {
        return Err(ErrorCode::WithdrawalPending);
    }
    match user_account.debit(amount) {
        Ok(()) => {},
        Err(e) => {
            return Err(e);
        },
    }
    let unlock_at: i64 = now + wallet_state.withdraw_delay;
    user_account.withdraw_lock.locked = amount;
    user_account.withdraw_lock.unlock_at = unlock_at;
    Ok(WithdrawalRequested { user, token, amount, unlock_at })
}

/// Release a matured withdrawal: once `now` has reached the stamped unlock
/// time, clear the lock and hand the host the event instructing it to move
/// the reserved amount to the user's own account under custody authority.
pub fn execute_withdraw(user_account: &mut UserAccount, user: u64, token: u64, now: i64) -> (r:
    Result<WithdrawalExecuted, ErrorCode>)
    ensures
        ({
            let (m, res) = spec_execute_withdraw(old(user_account)@, now);
            &&& final(user_account)@ =~= m
            &&& match r {
                Ok(ev) => {
                    &&& res == Ok::<u64, ErrorCode>(ev.amount)
                    &&& ev == (WithdrawalExecuted { user, token, amount: old(user_account)@.locked })
                },
                Err(e) => res == Err::<u64, ErrorCode>(e),
            }
        }),
        old(user_account).wf() ==> final(user_account).wf(),
{
    if user_account.withdraw_lock.locked == 0 {
        return Err(ErrorCode::NoWithdrawalPending);
    }
    if now < user_account.withdraw_lock.unlock_at {
        return Err(ErrorCode::WithdrawalNotReady);
    }
    let amount: u64 = user_account.withdraw_lock.locked;
    user_account.withdraw_lock.locked = 0;
    user_account.withdraw_lock.unlock_at = 0;
    Ok(WithdrawalExecuted { user, token, amount })
}

/// Settle a mandate presented by agent `sp` on behalf of `payer`, directing
/// `amount` to `payee`. The nonce is consumed together with the debit; the
/// returned event carries the mandate's opaque reference through unchanged
/// and instructs the host's transfer to the payee.
pub fn settle(
    payer_account: &mut UserAccount,
    sp_account: Option<&SPAccount>,
    sp: u64,
    payer: u64,
    token: u64,
    payee: u64,
    amount: u64,
    nonce: u64,
    deadline: i64,
    reference: [u8; 32],
    now: i64,
) -> (r: Result<Settled, ErrorCode>)
    requires
        old(payer_account).wf(),
    ensures
        final(payer_account).wf(),
        ({
            let (m, res) = spec_settle(
                old(payer_account)@,
                entry_of(sp_account),
                sp,
                amount,
                nonce,
                deadline,
                now,
            );
            &&& final(payer_account)@ =~= m
            &&& match r {
                Ok(ev) => {
                    &&& res == Ok::<(), ErrorCode>(())
                    &&& ev == (Settled { payer, token, payee, amount, nonce, reference })
                },
                Err(e) => res == Err::<(), ErrorCode>(e),
            }
        }),
{
    match sp_account {
        None => {
            return Err(ErrorCode::NotAuthorizedSP);
        },
        Some(entry) => {
            if entry.sp != sp || !entry.enabled {
                return Err(ErrorCode::NotAuthorizedSP);
            }
        },
    }
    if now > deadline {
        return Err(ErrorCode::MandateExpired);
    }
    if payer_account.is_nonce_used(nonce) {
        return Err(ErrorCode::NonceUsed);
    }
    if payer_account.balance < amount {
        return Err(ErrorCode::InsufficientBalance);
    }
    match payer_account.mark_nonce_used(nonce) {
        Ok(()) => {},
        Err(e) => {
            return Err(e);
        },
    }
    match payer_account.debit(amount) {
        Ok(()) => {},
        Err(e) => {
            return Err(e);
        },
    }
    Ok(Settled { payer, token, payee, amount, nonce, reference })
}

/// Create or rewrite the registry entry for agent `sp`. Only the configured
/// administrator may do so; disabling is re-enableable, never a deletion.
pub fn set_sp(
    wallet_state: &WalletState,
    authority: u64,
    sp_account: &mut SPAccount,
    sp: u64,
    enabled: bool,
) -> (r: Result<SPSet, ErrorCode>)
    ensures
        ({
            let (e, res) = spec_set_sp(*wallet_state, authority, *old(sp_account), sp, enabled);
            &&& *final(sp_account) == e
            &&& match r {
                Ok(ev) => res == Ok::<(), ErrorCode>(()) && ev == (SPSet { sp, enabled }),
                Err(err) => res == Err::<(), ErrorCode>(err),
            }
        }),
{
    if authority != wallet_state.authority {
        return Err(ErrorCode::NotAuthorized);
    }
    sp_account.sp = sp;
    sp_account.enabled = enabled;
    Ok(SPSet { sp, enabled })
}

} // verus!
