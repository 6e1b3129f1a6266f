use aep2_debit_wallet::account::UserAccount;
use aep2_debit_wallet::errors::ErrorCode;
use aep2_debit_wallet::events::{Deposited, SPSet, Settled, WithdrawalExecuted, WithdrawalRequested};
use aep2_debit_wallet::state::{SPAccount, WalletState};
use aep2_debit_wallet::wallet::{
    deposit, execute_withdraw, initialize, request_withdraw, set_sp, settle,
};

const ADMIN: u64 = 1;
const USER: u64 = 7;
const TOKEN: u64 = 9;
const AGENT: u64 = 5;
const PAYEE: u64 = 11;

fn config() -> WalletState {
    initialize(ADMIN, 100)
}

fn funded_account(amount: u64) -> UserAccount {
    let mut acct = UserAccount::new();
    deposit(&mut acct, USER, TOKEN, amount).unwrap();
    acct
}

fn enabled_agent() -> SPAccount {
    SPAccount {
        sp: AGENT,
        enabled: true,
    }
}

#[test]
fn ledger_history_conserves_balance() {
    let mut acct = UserAccount::new();
    assert_eq!(acct.credit(100), Ok(()));
    assert_eq!(acct.credit(50), Ok(()));
    assert_eq!(acct.debit(30), Ok(()));
    assert_eq!(acct.credit(5), Ok(()));
    assert_eq!(acct.debit(25), Ok(()));
    // balance == sum(credits) - sum(debits)
    assert_eq!(acct.balance, 100 + 50 + 5 - 30 - 25);
    // a debit past the balance fails and changes nothing
    assert_eq!(acct.debit(101), Err(ErrorCode::InsufficientBalance));
    assert_eq!(acct.balance, 100);
}

#[test]
fn initialize_sets_config() {
    let ws = initialize(ADMIN, 10800);
    assert_eq!(ws.authority, ADMIN);
    assert_eq!(ws.withdraw_delay, 10800);
}

#[test]
fn deposit_credits_balance_and_reports_event() {
    let mut acct = UserAccount::new();
    let ev = deposit(&mut acct, USER, TOKEN, 250).unwrap();
    assert_eq!(
        ev,
        Deposited {
            user: USER,
            token: TOKEN,
            amount: 250
        }
    );
    assert_eq!(acct.balance, 250);
    let ev2 = deposit(&mut acct, USER, TOKEN, 750).unwrap();
    assert_eq!(ev2.amount, 750);
    assert_eq!(acct.balance, 1000);
}

#[test]
fn deposit_overflow_rejected() {
    let mut acct = funded_account(u64::MAX);
    let r = deposit(&mut acct, USER, TOKEN, 1);
    assert_eq!(r, Err(ErrorCode::ArithmeticOverflow));
    assert_eq!(acct.balance, u64::MAX);
}

#[test]
fn withdraw_lifecycle() {
    let ws = config();
    let mut acct = funded_account(1000);

    let ev = request_withdraw(&mut acct, &ws, USER, TOKEN, 400, 50).unwrap();
    assert_eq!(
        ev,
        WithdrawalRequested {
            user: USER,
            token: TOKEN,
            amount: 400,
            unlock_at: 150
        }
    );
    assert_eq!(acct.balance, 600);
    assert_eq!(acct.withdraw_lock.locked, 400);
    assert_eq!(acct.withdraw_lock.unlock_at, 150);

    let early = execute_withdraw(&mut acct, USER, TOKEN, 149);
    assert_eq!(early, Err(ErrorCode::WithdrawalNotReady));
    assert_eq!(acct.withdraw_lock.locked, 400);
    assert_eq!(acct.balance, 600);

    let done = execute_withdraw(&mut acct, USER, TOKEN, 150).unwrap();
    assert_eq!(
        done,
        WithdrawalExecuted {
            user: USER,
            token: TOKEN,
            amount: 400
        }
    );
    assert_eq!(acct.withdraw_lock.locked, 0);
    assert_eq!(acct.withdraw_lock.unlock_at, 0);
    assert_eq!(acct.balance, 600);

    let again = execute_withdraw(&mut acct, USER, TOKEN, 151);
    assert_eq!(again, Err(ErrorCode::NoWithdrawalPending));
}

#[test]
fn request_withdraw_zero_amount_rejected() {
    let ws = config();
    let mut acct = funded_account(1000);
    let r = request_withdraw(&mut acct, &ws, USER, TOKEN, 0, 50);
    assert_eq!(r, Err(ErrorCode::InvalidAmount));
    assert_eq!(acct.balance, 1000);
}

#[test]
fn request_withdraw_insufficient_balance_rejected() {
    let ws = config();
    let mut acct = funded_account(100);
    let r = request_withdraw(&mut acct, &ws, USER, TOKEN, 101, 50);
    assert_eq!(r, Err(ErrorCode::InsufficientBalance));
    assert_eq!(acct.balance, 100);
    assert_eq!(acct.withdraw_lock.locked, 0);
}

#[test]
fn second_request_while_pending_rejected() {
    let ws = config();
    let mut acct = funded_account(1000);
    request_withdraw(&mut acct, &ws, USER, TOKEN, 100, 50).unwrap();
    let r = request_withdraw(&mut acct, &ws, USER, TOKEN, 50, 60);
    assert_eq!(r, Err(ErrorCode::WithdrawalPending));
    assert_eq!(acct.balance, 900);
    assert_eq!(acct.withdraw_lock.locked, 100);
}

#[test]
fn execute_withdraw_without_request_rejected() {
    let mut acct = funded_account(1000);
    let r = execute_withdraw(&mut acct, USER, TOKEN, 500);
    assert_eq!(r, Err(ErrorCode::NoWithdrawalPending));
}

#[test]
fn settle_debits_payer_and_replay_is_rejected() {
    let mut acct = funded_account(600);
    let agent = enabled_agent();
    let reference: [u8; 32] = [3u8; 32];

    let ev = settle(
        &mut acct,
        Some(&agent),
        AGENT,
        USER,
        TOKEN,
        PAYEE,
        200,
        7,
        1000,
        reference,
        500,
    )
    .unwrap();
    assert_eq!(
        ev,
        Settled {
            payer: USER,
            token: TOKEN,
            payee: PAYEE,
            amount: 200,
            nonce: 7,
            reference
        }
    );
    assert_eq!(acct.balance, 400);
    assert!(acct.is_nonce_used(7));

    let replay = settle(
        &mut acct,
        Some(&agent),
        AGENT,
        USER,
        TOKEN,
        PAYEE,
        50,
        7,
        1000,
        [0u8; 32],
        501,
    );
    assert_eq!(replay, Err(ErrorCode::NonceUsed));
    assert_eq!(acct.balance, 400);
}

#[test]
fn settle_past_deadline_rejected() {
    let mut acct = funded_account(600);
    let agent = enabled_agent();
    let r = settle(
        &mut acct,
        Some(&agent),
        AGENT,
        USER,
        TOKEN,
        PAYEE,
        200,
        7,
        499,
        [0u8; 32],
        500,
    );
    assert_eq!(r, Err(ErrorCode::MandateExpired));
    assert_eq!(acct.balance, 600);
    assert!(!acct.is_nonce_used(7));
}

#[test]
fn settle_by_disabled_agent_rejected() {
    let ws = config();
    let mut acct = funded_account(600);
    let mut agent = enabled_agent();
    set_sp(&ws, ADMIN, &mut agent, AGENT, false).unwrap();

    let r = settle(
        &mut acct,
        Some(&agent),
        AGENT,
        USER,
        TOKEN,
        PAYEE,
        200,
        7,
        1000,
        [0u8; 32],
        500,
    );
    assert_eq!(r, Err(ErrorCode::NotAuthorizedSP));
    assert_eq!(acct.balance, 600);
    assert!(!acct.is_nonce_used(7));
}

#[test]
fn settle_by_unknown_or_mismatched_agent_rejected() {
    let mut acct = funded_account(600);
    let r = settle(
        &mut acct,
        None,
        AGENT,
        USER,
        TOKEN,
        PAYEE,
        200,
        7,
        1000,
        [0u8; 32],
        500,
    );
    assert_eq!(r, Err(ErrorCode::NotAuthorizedSP));

    let other = SPAccount {
        sp: AGENT + 1,
        enabled: true,
    };
    let r2 = settle(
        &mut acct,
        Some(&other),
        AGENT,
        USER,
        TOKEN,
        PAYEE,
        200,
        7,
        1000,
        [0u8; 32],
        500,
    );
    assert_eq!(r2, Err(ErrorCode::NotAuthorizedSP));
    assert_eq!(acct.balance, 600);
}

#[test]
fn settle_insufficient_balance_leaves_nonce_unused() {
    let mut acct = funded_account(100);
    let agent = enabled_agent();
    let r = settle(
        &mut acct,
        Some(&agent),
        AGENT,
        USER,
        TOKEN,
        PAYEE,
        200,
        7,
        1000,
        [0u8; 32],
        500,
    );
    assert_eq!(r, Err(ErrorCode::InsufficientBalance));
    assert_eq!(acct.balance, 100);
    assert!(!acct.is_nonce_used(7));
}

#[test]
fn nonce_window_slides_after_hundred_marks() {
    let mut acct = UserAccount::new();
    acct.mark_nonce_used(7).unwrap();
    assert!(acct.is_nonce_used(7));
    for n in 1000u64..1100u64 {
        acct.mark_nonce_used(n).unwrap();
    }
    assert_eq!(acct.used_nonces.len(), 100);
    assert!(!acct.is_nonce_used(7));
    assert!(acct.is_nonce_used(1000));
    assert!(acct.is_nonce_used(1099));
}

#[test]
fn nonce_window_evicts_oldest_first() {
    let mut acct = UserAccount::new();
    for n in 0u64..100u64 {
        acct.mark_nonce_used(n).unwrap();
    }
    assert_eq!(acct.used_nonces.len(), 100);
    assert!(acct.is_nonce_used(0));
    acct.mark_nonce_used(200).unwrap();
    assert_eq!(acct.used_nonces.len(), 100);
    assert!(!acct.is_nonce_used(0));
    assert!(acct.is_nonce_used(1));
    assert!(acct.is_nonce_used(200));
}

#[test]
fn nonce_reusable_after_window_slides() {
    let mut acct = funded_account(600);
    let agent = enabled_agent();

    let first = settle(
        &mut acct,
        Some(&agent),
        AGENT,
        USER,
        TOKEN,
        PAYEE,
        100,
        7,
        10_000,
        [0u8; 32],
        500,
    );
    assert!(first.is_ok());

    for n in 2000u64..2100u64 {
        settle(
            &mut acct,
            Some(&agent),
            AGENT,
            USER,
            TOKEN,
            PAYEE,
            1,
            n,
            10_000,
            [0u8; 32],
            500,
        )
        .unwrap();
    }
    assert!(!acct.is_nonce_used(7));

    let again = settle(
        &mut acct,
        Some(&agent),
        AGENT,
        USER,
        TOKEN,
        PAYEE,
        100,
        7,
        10_000,
        [0u8; 32],
        500,
    );
    assert!(again.is_ok());
    assert_eq!(acct.balance, 600 - 100 - 100 - 100);
}

#[test]
fn set_sp_creates_updates_and_rejects_non_admin() {
    let ws = config();
    let mut entry = SPAccount {
        sp: 0,
        enabled: false,
    };

    let ev = set_sp(&ws, ADMIN, &mut entry, AGENT, true).unwrap();
    assert_eq!(
        ev,
        SPSet {
            sp: AGENT,
            enabled: true
        }
    );
    assert_eq!(
        entry,
        SPAccount {
            sp: AGENT,
            enabled: true
        }
    );

    let denied = set_sp(&ws, ADMIN + 1, &mut entry, AGENT, false);
    assert_eq!(denied, Err(ErrorCode::NotAuthorized));
    assert!(entry.enabled);

    set_sp(&ws, ADMIN, &mut entry, AGENT, false).unwrap();
    assert!(!entry.enabled);
    set_sp(&ws, ADMIN, &mut entry, AGENT, true).unwrap();
    assert!(entry.enabled);
}
