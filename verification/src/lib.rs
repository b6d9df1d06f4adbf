//! A share-based custody vault: users deposit a principal asset and receive
//! shares whose backing grows as yield accrues. All amounts are integers with
//! seven decimal digits; nothing is ever computed in floating point.
//!
//! - [`amount`]: the scale, the conversions between principal and shares,
//!   and what holds of them under rounding.
//! - [`balances`]: the sum of a table of balances.
//! - [`error`]: why an operation is refused.
//! - [`sxlm_token`]: the share ledger: balances, allowances, supply.
//! - [`vault`]: the accounting engine: deposits, withdrawals, the exchange
//!   rate, the reentrancy guard.
//! - [`yield_strategy`]: the books of a strategy that puts the principal into
//!   a liquidity pool.
//!
//! The library holds no global state and does no input or output. A ledger,
//! a vault and a strategy are values; a host owns them, authenticates its
//! callers, moves the principal, and stores what must last. Every operation
//! is all or nothing: one that is refused leaves every value as it was.

pub mod amount;
pub mod balances;
pub mod error;
pub mod sxlm_token;
pub mod vault;
pub mod yield_strategy;
