//! A minimal in-memory token ledger.
//!
//! The ledger tracks a non-negative `u64` balance per identity (an opaque
//! string supplied by the caller's environment), supports a validated
//! debit-and-credit transfer, an unconditional credit, and read-only
//! queries for one balance or a snapshot of all of them.

pub mod decimal;
pub mod engine;
pub mod laws;
pub mod outcome;
pub mod query;
pub mod store;

pub use outcome::ReceiveOutcome;
pub use outcome::SendOutcome;
pub use store::TokenWallet;
