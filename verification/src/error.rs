//! The ways an operation of the ledger or of the vault can fail.

use vstd::prelude::*;

verus! {

/// Why an operation was refused. A refused operation changes nothing.
#[derive(Clone, Copy, Debug, PartialEq, Eq, Structural)]
pub enum Error {
    /// The caller is not the principal the operation is reserved for.
    Unauthorized,
    /// The state was initialized before.
    AlreadyInitialized,
    /// An amount that must be positive (or, for an approval, non-negative) is not.
    InvalidAmount,
    /// An amount lies under the fixed floor.
    BelowMinimum,
    /// A deposit is larger than the largest single deposit allowed.
    ExceedsMaximum,
    /// A deposit would lift the total of deposits over the cap.
    ExceedsCap,
    /// A quantity left the range of a signed 128-bit integer.
    Overflow,
    /// A conversion would divide by an exchange rate of zero.
    DivisionError,
    /// An account holds less than is to be taken from it.
    InsufficientBalance,
    /// A spender is allowed less than it asks for.
    InsufficientAllowance,
    /// A user redeems more shares than it holds.
    InsufficientShares,
    /// Custody holds less principal than a withdrawal returns.
    InsufficientLiquidity,
    /// The vault is paused.
    Paused,
    /// A deposit or withdrawal is already under way.
    ReentrantCall,
    /// A deposit is so small that it buys no share.
    DepositTooSmall,
    /// A redemption is so small that it returns no principal.
    WithdrawalTooSmall,
    /// The result is under the least the caller would accept.
    Slippage { expected: i128, actual: i128 },
}

impl Error {
    /// The text that goes with each failure.
    pub open spec fn text(self) -> Seq<char> {
        match self {
            Error::Unauthorized => "Unauthorized"@,
            Error::AlreadyInitialized => "Already initialized"@,
            Error::InvalidAmount => "Amount must be positive"@,
            Error::BelowMinimum => "Amount below minimum"@,
            Error::ExceedsMaximum => "Amount exceeds maximum single deposit"@,
            Error::ExceedsCap => "Deposit would exceed total cap"@,
            Error::Overflow => "Overflow"@,
            Error::DivisionError => "Division error"@,
            Error::InsufficientBalance => "Insufficient balance"@,
            Error::InsufficientAllowance => "Insufficient allowance"@,
            Error::InsufficientShares => "Insufficient sXLM balance"@,
            Error::InsufficientLiquidity => "Insufficient vault liquidity"@,
            Error::Paused => "Vault is paused"@,
            Error::ReentrantCall => "Reentrant call detected"@,
            Error::DepositTooSmall => "Deposit too small"@,
            Error::WithdrawalTooSmall => "Withdrawal too small"@,
            Error::Slippage { .. } => "Slippage"@,
        }
    }

    /// A short description of the failure, for a host to report.
    pub fn message(&self) -> (s: &'static str)
        ensures
            s@ == self.text(),
    {
        match self {
            Error::Unauthorized => "Unauthorized",
            Error::AlreadyInitialized => "Already initialized",
            Error::InvalidAmount => "Amount must be positive",
            Error::BelowMinimum => "Amount below minimum",
            Error::ExceedsMaximum => "Amount exceeds maximum single deposit",
            Error::ExceedsCap => "Deposit would exceed total cap",
            Error::Overflow => "Overflow",
            Error::DivisionError => "Division error",
            Error::InsufficientBalance => "Insufficient balance",
            Error::InsufficientAllowance => "Insufficient allowance",
            Error::InsufficientShares => "Insufficient sXLM balance",
            Error::InsufficientLiquidity => "Insufficient vault liquidity",
            Error::Paused => "Vault is paused",
            Error::ReentrantCall => "Reentrant call detected",
            Error::DepositTooSmall => "Deposit too small",
            Error::WithdrawalTooSmall => "Withdrawal too small",
            Error::Slippage { .. } => "Slippage",
        }
    }
}

} // verus!
