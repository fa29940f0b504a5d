//! Error types.

use vstd::prelude::*;

verus! {

/// Errors specific to the pool program.
#[derive(Clone, Copy, Debug, PartialEq, Eq, Structural)]
pub enum ETFError {
    /// Invalid initialization custom data
    InvalidInitializationCustomData,
    /// Invalid instruction
    InvalidInstruction,
    /// Missing initialization data
    MissingInitializationData,
    /// Expected funds mismatch (reserved)
    ExpectedFundsMismatch,
    /// Unknown account (reserved)
    UnknownAccount,
    /// A ratio times a share count does not fit in 64 bits
    AmountOverflow,
}

impl ETFError {
    /// The numeric code of the error, in declaration order.
    pub fn code(&self) -> (r: u32)
        ensures
            r == self.spec_code(),
    {
        match self {
            ETFError::InvalidInitializationCustomData => 0,
            ETFError::InvalidInstruction => 1,
            ETFError::MissingInitializationData => 2,
            ETFError::ExpectedFundsMismatch => 3,
            ETFError::UnknownAccount => 4,
            ETFError::AmountOverflow => 5,
        }
    }

    pub open spec fn spec_code(&self) -> u32 {
        match self {
            ETFError::InvalidInitializationCustomData => 0,
            ETFError::InvalidInstruction => 1,
            ETFError::MissingInitializationData => 2,
            ETFError::ExpectedFundsMismatch => 3,
            ETFError::UnknownAccount => 4,
            ETFError::AmountOverflow => 5,
        }
    }
}

/// Every way a pool operation can fail: the pool's own errors, the generic
/// argument and account-data errors, and the failures of the token
/// collaborator.
#[derive(Clone, Copy, Debug, PartialEq, Eq, Structural)]
pub enum PoolError {
    /// An error of the pool program itself.
    Etf(ETFError),
    /// A missing or inconsistent account bundle, or a zero share count.
    InvalidArgument,
    /// Account data that cannot be read, or a share mint that already has supply.
    InvalidAccountData,
    /// A share mint account that was never initialized.
    UninitializedAccount,
    /// A transfer or burn from an account that holds less than the amount.
    InsufficientFunds,
    /// A balance or the share supply would leave the 64-bit range.
    TokenOverflow,
}

} // verus!
