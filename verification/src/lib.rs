//! Custodial debit-wallet core: per-(user, asset) balance accounting with
//! overflow-checked arithmetic, a two-phase time-locked withdrawal protocol,
//! a replay-protected settlement protocol with a bounded nonce window, and an
//! authorization registry deciding which agents may settle on a user's behalf.
//!
//! The host runtime is responsible for persistence, signature checking, the
//! clock, and the actual movement of token value; this crate holds and proves
//! the bookkeeping and authorization decisions, and hands the host back the
//! events that describe what it must carry out.

pub mod account;
pub mod errors;
pub mod events;
pub mod laws;
pub mod state;
pub mod wallet;
