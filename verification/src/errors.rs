use vstd::prelude::*;

verus! {

/// Typed failures. Every operation is atomic: on any of these it leaves all
/// of its inputs unchanged.
#[derive(Clone, Copy, Debug, PartialEq, Eq, Structural)]
pub enum ErrorCode {
    /// A requested amount was zero.
    InvalidAmount,
    /// The spendable balance does not cover the requested amount.
    InsufficientBalance,
    /// A withdrawal request is already outstanding for this account.
    WithdrawalPending,
    /// No withdrawal request is outstanding for this account.
    NoWithdrawalPending,
    /// The withdrawal delay has not yet elapsed.
    WithdrawalNotReady,
    /// The settlement mandate's deadline has passed.
    MandateExpired,
    /// The mandate's nonce is still inside the recent-nonce window.
    NonceUsed,
    /// An administrator-only action was attempted by another identity.
    NotAuthorized,
    /// Settlement was attempted by an unknown or disabled agent.
    NotAuthorizedSP,
    /// A credit would overflow the balance.
    ArithmeticOverflow,
    /// A debit would underflow the balance; unreachable after the balance
    /// guard, and kept only as the typed name of that internal breach.
    ArithmeticUnderflow,
}

} // verus!
