//! The ways in which a request is refused.
use vstd::prelude::*;

verus! {

/// Why an instruction was refused.
#[derive(Debug, Clone, Copy, PartialEq, Eq, Structural)]
pub enum ErrorCode {
    InvalidAmounts,
    InvalidSwapsCount,
    DdcaIsPaused,
    InsufficientBalanceForSwap,
    InvalidSwapSchedule,
    InvalidSwapSlippage,
}

impl ErrorCode {
    /// The text that is shown for this error.
    pub open spec fn text(self) -> Seq<char> {
        match self {
            ErrorCode::InvalidAmounts =>
                "Deposit amount must be a multiple of the amount per swap"@,
            ErrorCode::InvalidSwapsCount =>
                "The number of recurring swaps must be greater than 1"@,
            ErrorCode::DdcaIsPaused => "This DDCA is paused"@,
            ErrorCode::InsufficientBalanceForSwap => "Insufficient balance for swap"@,
            ErrorCode::InvalidSwapSchedule =>
                "This DDCA is not schedule for the provided time"@,
            ErrorCode::InvalidSwapSlippage => "Invalid swap slippage"@,
        }
    }

    /// The text that is shown for this error.
    pub fn message(&self) -> (message: &'static str)
        ensures
            message@ == self.text(),
    {
        match self {
            ErrorCode::InvalidAmounts => "Deposit amount must be a multiple of the amount per swap",
            ErrorCode::InvalidSwapsCount => "The number of recurring swaps must be greater than 1",
            ErrorCode::DdcaIsPaused => "This DDCA is paused",
            ErrorCode::InsufficientBalanceForSwap => "Insufficient balance for swap",
            ErrorCode::InvalidSwapSchedule => "This DDCA is not schedule for the provided time",
            ErrorCode::InvalidSwapSlippage => "Invalid swap slippage",
        }
    }
}

/// Why the accounts handed to an instruction were refused.
#[derive(Debug, Clone, Copy, PartialEq, Eq, Structural)]
pub enum ConstraintError {
    /// A condition on the accounts and the arguments does not hold.
    Raw,
    /// An account that must have a fixed address has another one.
    Address,
}

} // verus!
