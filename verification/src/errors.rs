//! The ways an operation can be refused.

use vstd::prelude::*;

verus! {

/// Why an operation was refused. A refused operation has changed nothing.
#[derive(Clone, Copy, Debug, PartialEq, Eq, Structural)]
pub enum ErrorCode {
    /// A sum or product left the unsigned 64-bit range.
    MathOverflow,
    /// A debit asked for more than the spendable balance.
    InsufficientBalance,
    /// The stake is below the floor, or an unstake asked for more than is staked.
    InsufficientStake,
    /// The reported uptime is below the floor for node rewards.
    LowUptime,
}

impl ErrorCode {
    /// The text shown to a caller for this error.
    pub open spec fn text(self) -> Seq<char> {
        match self {
            ErrorCode::MathOverflow => "Mathematical operation overflow"@,
            ErrorCode::InsufficientBalance => "Insufficient balance"@,
            ErrorCode::InsufficientStake => "Insufficient stake amount"@,
            ErrorCode::LowUptime => "Node uptime too low"@,
        }
    }

    /// The text shown to a caller for this error.
    pub fn message(&self) -> (text: &'static str)
        ensures
            text@ == self.text(),
    {
        match self {
            ErrorCode::MathOverflow => "Mathematical operation overflow",
            ErrorCode::InsufficientBalance => "Insufficient balance",
            ErrorCode::InsufficientStake => "Insufficient stake amount",
            ErrorCode::LowUptime => "Node uptime too low",
        }
    }
}

} // verus!
