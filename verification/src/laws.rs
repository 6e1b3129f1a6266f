use crate::account::{spec_credit, spec_debit, spec_mark_nonce, AccountModel, NONCE_WINDOW};
use crate::errors::ErrorCode;
use crate::state::{sp_authorized, SPAccount};
use crate::wallet::{spec_execute_withdraw, spec_request_withdraw, spec_settle};
use vstd::prelude::*;

verus! {

/// One ledger primitive, for stating laws over arbitrary balance histories.
pub enum LedgerOp {
    Credit(u64),
    Debit(u64),
}

/// The record after one primitive; a failing primitive leaves it unchanged.
pub open spec fn apply_op(a: AccountModel, op: LedgerOp) -> AccountModel {
    match op {
        LedgerOp::Credit(x) => spec_credit(a, x).0,
        LedgerOp::Debit(x) => spec_debit(a, x).0,
    }
}

/// Whether one primitive succeeds on the given record.
pub open spec fn op_succeeds(a: AccountModel, op: LedgerOp) -> bool {
    match op {
        LedgerOp::Credit(x) => spec_credit(a, x).1 is Ok,
        LedgerOp::Debit(x) => spec_debit(a, x).1 is Ok,
    }
}

/// The record after a whole history of primitives, applied oldest first.
pub open spec fn apply_ops(a: AccountModel, ops: Seq<LedgerOp>) -> AccountModel
    decreases ops.len(),
{
    if ops.len() == 0 {
        a
    } else {
        apply_ops(apply_op(a, ops[0]), ops.drop_first())
    }
}

/// Whether every primitive of the history succeeds when run in order.
pub open spec fn ops_admissible(a: AccountModel, ops: Seq<LedgerOp>) -> bool
    decreases ops.len(),
{
    ops.len() == 0 || (op_succeeds(a, ops[0]) && ops_admissible(apply_op(a, ops[0]), ops.drop_first()))
}

/// Total amount credited over a history.
pub open spec fn credit_sum(ops: Seq<LedgerOp>) -> int
    decreases ops.len(),
{
    if ops.len() == 0 {
        0
    } else {
        (match ops[0] {
            LedgerOp::Credit(x) => x as int,
            LedgerOp::Debit(_) => 0,
        }) + credit_sum(ops.drop_first())
    }
}

/// Total amount debited over a history.
pub open spec fn debit_sum(ops: Seq<LedgerOp>) -> int
    decreases ops.len(),
{
    if ops.len() == 0 {
        0
    } else {
        (match ops[0] {
            LedgerOp::Credit(_) => 0,
            LedgerOp::Debit(x) => x as int,
        }) + debit_sum(ops.drop_first())
    }
}

/// Balance conservation: over any history of credits and debits that all
/// succeed, the balance lands exactly on its starting point plus the credit
/// total minus the debit total — so it never exceeds `sum(credits) -
/// sum(debits)` above where it began, and, being unsigned, never goes
/// negative (the net change is bounded below by the starting balance).
pub proof fn lemma_balance_conservation(a: AccountModel, ops: Seq<LedgerOp>)
    requires
        ops_admissible(a, ops),
    ensures
        apply_ops(a, ops).balance == a.balance + credit_sum(ops) - debit_sum(ops),
        apply_ops(a, ops).balance >= 0,
        credit_sum(ops) - debit_sum(ops) >= -(a.balance as int),
    decreases ops.len(),
{
    if ops.len() > 0 {
        lemma_balance_conservation(apply_op(a, ops[0]), ops.drop_first());
    }
}

/// Ledger primitives touch only the balance: the lock and the nonce window
/// ride through any history unchanged.
pub proof fn lemma_ops_preserve_lock_and_nonces(a: AccountModel, ops: Seq<LedgerOp>)
    ensures
        apply_ops(a, ops).locked == a.locked,
        apply_ops(a, ops).unlock_at == a.unlock_at,
        apply_ops(a, ops).nonces == a.nonces,
    decreases ops.len(),
{
    if ops.len() > 0 {
        lemma_ops_preserve_lock_and_nonces(apply_op(a, ops[0]), ops.drop_first());
    }
}

/// The two-phase withdrawal protocol: a request on an idle, covered account
/// succeeds and stamps `now + delay`; executing before that time fails with
/// `WithdrawalNotReady` and changes nothing; executing at or after it
/// succeeds exactly once — it releases the requested amount, returns the
/// lock to idle, and a repeated execution fails with `NoWithdrawalPending`.
pub proof fn lemma_withdraw_two_phase(
    a: AccountModel,
    delay: i64,
    amount: u64,
    now: i64,
    t_early: i64,
    t_ready: i64,
)
    requires
        0 < amount <= a.balance,
        a.locked == 0,
        delay >= 0,
        now + delay <= i64::MAX,
        t_early < now + delay,
        t_ready >= now + delay,
    ensures
        ({
            let (a1, r1) = spec_request_withdraw(a, delay, amount, now);
            let (a2, r2) = spec_execute_withdraw(a1, t_ready);
            &&& r1 == Ok::<i64, ErrorCode>((now + delay) as i64)
            &&& a1.locked == amount
            &&& spec_execute_withdraw(a1, t_early) == (a1, Err::<u64, ErrorCode>(ErrorCode::WithdrawalNotReady))
            &&& r2 == Ok::<u64, ErrorCode>(amount)
            &&& a2.locked == 0
            &&& a2.unlock_at == 0
            &&& a2.balance == a.balance - amount
            &&& spec_execute_withdraw(a2, t_ready).1 == Err::<u64, ErrorCode>(ErrorCode::NoWithdrawalPending)
        }),
{
}

/// While a withdrawal is pending, any further covered, non-zero request
/// fails with `WithdrawalPending` and changes nothing. (A zero amount or an
/// uncovered one is reported as `InvalidAmount` or `InsufficientBalance`
/// first, those checks running before the lock is consulted.)
pub proof fn lemma_second_request_rejected(a: AccountModel, delay: i64, amount: u64, now: i64)
    requires
        a.locked > 0,
        0 < amount <= a.balance,
    ensures
        spec_request_withdraw(a, delay, amount, now) == (a, Err::<i64, ErrorCode>(ErrorCode::WithdrawalPending)),
{
}

/// A mandate whose nonce is still inside the window fails with `NonceUsed`
/// and changes nothing, whatever the amount.
pub proof fn lemma_settle_replay_rejected(
    a: AccountModel,
    entry: Option<SPAccount>,
    sp: u64,
    amount: u64,
    nonce: u64,
    deadline: i64,
    now: i64,
)
    requires
        sp_authorized(entry, sp),
        now <= deadline,
        a.nonces.contains(nonce),
    ensures
        spec_settle(a, entry, sp, amount, nonce, deadline, now) == (a, Err::<(), ErrorCode>(ErrorCode::NonceUsed)),
{
}

/// A mandate past its deadline fails with `MandateExpired` and changes
/// nothing, even where the nonce and balance checks would have passed.
pub proof fn lemma_expired_mandate_rejected(
    a: AccountModel,
    entry: Option<SPAccount>,
    sp: u64,
    amount: u64,
    nonce: u64,
    deadline: i64,
    now: i64,
)
    requires
        sp_authorized(entry, sp),
        now > deadline,
    ensures
        spec_settle(a, entry, sp, amount, nonce, deadline, now) == (a, Err::<(), ErrorCode>(ErrorCode::MandateExpired)),
{
}

/// A settlement by an agent with no registry entry, a mismatched entry, or a
/// disabled one fails with `NotAuthorizedSP` and changes nothing, whatever
/// the mandate says.
pub proof fn lemma_unauthorized_sp_rejected(
    a: AccountModel,
    entry: Option<SPAccount>,
    sp: u64,
    amount: u64,
    nonce: u64,
    deadline: i64,
    now: i64,
)
    requires
        !sp_authorized(entry, sp),
    ensures
        spec_settle(a, entry, sp, amount, nonce, deadline, now) == (a, Err::<(), ErrorCode>(ErrorCode::NotAuthorizedSP)),
{
}

/// A mandate is single-use: a successful settlement debits exactly its
/// amount and consumes its nonce into the window, so any replay of that
/// nonce while it remains in the window — whatever the new amount, deadline
/// or time — fails with `NonceUsed`.
pub proof fn lemma_settle_consumes_nonce(
    a: AccountModel,
    entry: Option<SPAccount>,
    sp: u64,
    amount: u64,
    nonce: u64,
    deadline: i64,
    now: i64,
    amount2: u64,
    deadline2: i64,
    now2: i64,
)
    requires
        spec_settle(a, entry, sp, amount, nonce, deadline, now).1 is Ok,
        now2 <= deadline2,
    ensures
        ({
            let a1 = spec_settle(a, entry, sp, amount, nonce, deadline, now).0;
            &&& a1.balance == a.balance - amount
            &&& a1.nonces.contains(nonce)
            &&& spec_settle(a1, entry, sp, amount2, nonce, deadline2, now2) == (
                a1,
                Err::<(), ErrorCode>(ErrorCode::NonceUsed),
            )
        }),
{
    let a1 = spec_settle(a, entry, sp, amount, nonce, deadline, now).0;
    assert(a1.nonces[a1.nonces.len() - 1] == nonce);
    lemma_settle_replay_rejected(a1, entry, sp, amount2, nonce, deadline2, now2);
}

/// One whole wallet operation, for stating laws over operation histories.
/// Each carries the host-supplied inputs its transition reads.
pub enum WalletOp {
    Deposit { amount: u64 },
    RequestWithdraw { amount: u64, now: i64 },
    ExecuteWithdraw { now: i64 },
    Settle { entry: Option<SPAccount>, sp: u64, amount: u64, nonce: u64, deadline: i64, now: i64 },
}

/// The record after one wallet operation; a failing one leaves it unchanged.
pub open spec fn apply_wallet_op(a: AccountModel, delay: i64, op: WalletOp) -> AccountModel {
    match op {
        WalletOp::Deposit { amount } => spec_credit(a, amount).0,
        WalletOp::RequestWithdraw { amount, now } => spec_request_withdraw(a, delay, amount, now).0,
        WalletOp::ExecuteWithdraw { now } => spec_execute_withdraw(a, now).0,
        WalletOp::Settle { entry, sp, amount, nonce, deadline, now } => spec_settle(
            a,
            entry,
            sp,
            amount,
            nonce,
            deadline,
            now,
        ).0,
    }
}

/// The record after a whole history of wallet operations, oldest first.
pub open spec fn apply_wallet_ops(a: AccountModel, delay: i64, ops: Seq<WalletOp>) -> AccountModel
    decreases ops.len(),
{
    if ops.len() == 0 {
        a
    } else {
        apply_wallet_ops(apply_wallet_op(a, delay, ops[0]), delay, ops.drop_first())
    }
}

/// Total value a history successfully deposits into the record.
pub open spec fn inflow(a: AccountModel, delay: i64, ops: Seq<WalletOp>) -> int
    decreases ops.len(),
{
    if ops.len() == 0 {
        0
    } else {
        (match ops[0] {
            WalletOp::Deposit { amount } => if spec_credit(a, amount).1 is Ok {
                amount as int
            } else {
                0
            },
            _ => 0,
        }) + inflow(apply_wallet_op(a, delay, ops[0]), delay, ops.drop_first())
    }
}

/// Total value a history successfully releases out of custody, through
/// executed withdrawals and settlements.
pub open spec fn outflow(a: AccountModel, delay: i64, ops: Seq<WalletOp>) -> int
    decreases ops.len(),
{
    if ops.len() == 0 {
        0
    } else {
        (match ops[0] {
            WalletOp::ExecuteWithdraw { now } => match spec_execute_withdraw(a, now).1 {
                Ok(released) => released as int,
                Err(_) => 0,
            },
            WalletOp::Settle { entry, sp, amount, nonce, deadline, now } => if spec_settle(
                a,
                entry,
                sp,
                amount,
                nonce,
                deadline,
                now,
            ).1 is Ok {
                amount as int
            } else {
                0
            },
            _ => 0,
        }) + outflow(apply_wallet_op(a, delay, ops[0]), delay, ops.drop_first())
    }
}

/// Custody conservation, the ledger's global invariant: across any history
/// of operations, spendable plus reserved funds change by exactly what was
/// deposited minus what was released — a withdrawal request only moves value
/// from spendable to reserved, never creates or destroys it. Started from an
/// empty record, `balance + locked` therefore never exceeds the cumulative
/// net deposits.
pub proof fn lemma_custody_conservation(a: AccountModel, delay: i64, ops: Seq<WalletOp>)
    ensures
        ({
            let end = apply_wallet_ops(a, delay, ops);
            end.balance + end.locked == a.balance + a.locked + inflow(a, delay, ops) - outflow(
                a,
                delay,
                ops,
            )
        }),
        inflow(a, delay, ops) >= 0,
        outflow(a, delay, ops) >= 0,
        a.balance + a.locked == 0 ==> apply_wallet_ops(a, delay, ops).balance + apply_wallet_ops(
            a,
            delay,
            ops,
        ).locked <= inflow(a, delay, ops),
    decreases ops.len(),
{
    if ops.len() > 0 {
        lemma_custody_conservation(apply_wallet_op(a, delay, ops[0]), delay, ops.drop_first());
    }
}

/// The window after consuming a whole sequence of nonces, oldest first.
pub open spec fn mark_all(w: Seq<u64>, ns: Seq<u64>) -> Seq<u64>
    decreases ns.len(),
{
    if ns.len() == 0 {
        w
    } else {
        mark_all(spec_mark_nonce(w, ns[0]), ns.drop_first())
    }
}

/// The window is exactly the most recent `NONCE_WINDOW` entries of the
/// whole consumption history.
pub open spec fn window_suffix(all: Seq<u64>) -> Seq<u64> {
    if all.len() <= NONCE_WINDOW {
        all
    } else {
        all.subrange(all.len() - NONCE_WINDOW, all.len() as int)
    }
}

/// Characterization of the sliding window: consuming the nonces `ns` into a
/// bounded window `w` leaves exactly the last `NONCE_WINDOW` entries of
/// `w + ns` (all of them, if fewer).
pub proof fn lemma_mark_all_is_suffix(w: Seq<u64>, ns: Seq<u64>)
    requires
        w.len() <= NONCE_WINDOW,
    ensures
        mark_all(w, ns) == window_suffix(w + ns),
    decreases ns.len(),
{
    if ns.len() == 0 {
        assert(w + ns =~= w);
    } else {
        let w1 = spec_mark_nonce(w, ns[0]);
        lemma_mark_all_is_suffix(w1, ns.drop_first());
        if w.len() < NONCE_WINDOW {
            assert(w1 + ns.drop_first() =~= w + ns);
        } else {
            assert(w1 + ns.drop_first() =~= (w + ns).drop_first());
            assert(window_suffix((w + ns).drop_first()) =~= window_suffix(w + ns));
        }
    }
}

/// The sliding-window guarantee: after at least `NONCE_WINDOW` consumptions
/// none of which is `nonce`, the window no longer holds `nonce` — it has
/// fallen out of the 100-most-recent history.
pub proof fn lemma_nonce_window_slides(w: Seq<u64>, ns: Seq<u64>, nonce: u64)
    requires
        w.len() <= NONCE_WINDOW,
        ns.len() >= NONCE_WINDOW,
        forall|i: int| 0 <= i < ns.len() ==> ns[i] != nonce,
    ensures
        !mark_all(w, ns).contains(nonce),
{
    lemma_mark_all_is_suffix(w, ns);
    let all = w + ns;
    let res = mark_all(w, ns);
    assert forall|i: int| 0 <= i < res.len() implies res[i] != nonce by {
        if all.len() <= NONCE_WINDOW {
            assert(w.len() == 0);
            assert(res[i] == ns[i]);
        } else {
            let j = all.len() - NONCE_WINDOW + i;
            assert(res[i] == all[j]);
            assert(j >= w.len());
            assert(all[j] == ns[j - w.len()]);
        }
    };
}

/// Re-acceptance after the window slides: a nonce that `NONCE_WINDOW` later
/// distinct consumptions have evicted is accepted again — an otherwise valid
/// mandate presenting it settles successfully.
pub proof fn lemma_nonce_accepted_after_window(
    a: AccountModel,
    w: Seq<u64>,
    ns: Seq<u64>,
    entry: Option<SPAccount>,
    sp: u64,
    amount: u64,
    nonce: u64,
    deadline: i64,
    now: i64,
)
    requires
        a.nonces == mark_all(w, ns),
        w.len() <= NONCE_WINDOW,
        ns.len() >= NONCE_WINDOW,
        forall|i: int| 0 <= i < ns.len() ==> ns[i] != nonce,
        sp_authorized(entry, sp),
        now <= deadline,
        amount <= a.balance,
    ensures
        spec_settle(a, entry, sp, amount, nonce, deadline, now).1 == Ok::<(), ErrorCode>(()),
{
    lemma_nonce_window_slides(w, ns, nonce);
}

} // verus!
