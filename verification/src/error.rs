//! The reasons for which a call is rejected.

use vstd::prelude::*;

verus! {

/// Why a call was rejected.
#[derive(Clone, Copy, Debug, PartialEq, Eq, Structural)]
pub enum EscrowError {
    AlreadyInitialized,
    FeeExceedsMaximum,
    NotInitialized,
    AmountNotPositive,
    TokenNotApproved,
    /// The token did not answer the question for the learner's balance.
    BalanceUnavailable,
    InsufficientBalance,
    SessionIdExists,
    CounterOverflow,
    EscrowNotFound,
    EscrowNotActive,
    AdminNotFound,
    CallerNotAuthorized,
    InvalidReleaseAmount,
    Overflow,
    TreasuryNotFound,
    TimestampOverflow,
    AutoReleaseTooEarly,
    CallerNotParty,
    EscrowNotDisputed,
    PercentageTooHigh,
    CannotRefund,
    TreasuryNotSet,
    ReviewerNotLearner,
    EscrowNotReleased,
}

impl EscrowError {
    /// The text that goes with each reason.
    pub open spec fn text(self) -> Seq<char> {
        match self {
            EscrowError::AlreadyInitialized => "Already initialized"@,
            EscrowError::FeeExceedsMaximum => "Fee exceeds maximum (1000 bps)"@,
            EscrowError::NotInitialized => "Not initialized"@,
            EscrowError::AmountNotPositive => "Amount must be greater than zero"@,
            EscrowError::TokenNotApproved => "Token not approved"@,
            EscrowError::BalanceUnavailable => "Token balance unavailable"@,
            EscrowError::InsufficientBalance => "Insufficient token balance"@,
            EscrowError::SessionIdExists => "Session ID already exists"@,
            EscrowError::CounterOverflow => "Counter overflow"@,
            EscrowError::EscrowNotFound => "Escrow not found"@,
            EscrowError::EscrowNotActive => "Escrow not active"@,
            EscrowError::AdminNotFound => "Admin not found"@,
            EscrowError::CallerNotAuthorized => "Caller not authorized"@,
            EscrowError::InvalidReleaseAmount => "Invalid release amount"@,
            EscrowError::Overflow => "Overflow"@,
            EscrowError::TreasuryNotFound => "Treasury not found"@,
            EscrowError::TimestampOverflow => "Timestamp overflow"@,
            EscrowError::AutoReleaseTooEarly => "Auto-release window has not elapsed"@,
            EscrowError::CallerNotParty => "Caller not authorized to dispute"@,
            EscrowError::EscrowNotDisputed => "Escrow is not in Disputed status"@,
            EscrowError::PercentageTooHigh => "Mentor percentage exceeds 100"@,
            EscrowError::CannotRefund => "Cannot refund"@,
            EscrowError::TreasuryNotSet => "Treasury not set"@,
            EscrowError::ReviewerNotLearner => "Only learner can submit review"@,
            EscrowError::EscrowNotReleased => "Can only review released escrows"@,
        }
    }

    /// Returns the text that goes with the reason.
    pub fn message(&self) -> (message: &'static str)
        ensures
            message@ == self.text(),
    {
        match self {
            EscrowError::AlreadyInitialized => "Already initialized",
            EscrowError::FeeExceedsMaximum => "Fee exceeds maximum (1000 bps)",
            EscrowError::NotInitialized => "Not initialized",
            EscrowError::AmountNotPositive => "Amount must be greater than zero",
            EscrowError::TokenNotApproved => "Token not approved",
            EscrowError::BalanceUnavailable => "Token balance unavailable",
            EscrowError::InsufficientBalance => "Insufficient token balance",
            EscrowError::SessionIdExists => "Session ID already exists",
            EscrowError::CounterOverflow => "Counter overflow",
            EscrowError::EscrowNotFound => "Escrow not found",
            EscrowError::EscrowNotActive => "Escrow not active",
            EscrowError::AdminNotFound => "Admin not found",
            EscrowError::CallerNotAuthorized => "Caller not authorized",
            EscrowError::InvalidReleaseAmount => "Invalid release amount",
            EscrowError::Overflow => "Overflow",
            EscrowError::TreasuryNotFound => "Treasury not found",
            EscrowError::TimestampOverflow => "Timestamp overflow",
            EscrowError::AutoReleaseTooEarly => "Auto-release window has not elapsed",
            EscrowError::CallerNotParty => "Caller not authorized to dispute",
            EscrowError::EscrowNotDisputed => "Escrow is not in Disputed status",
            EscrowError::PercentageTooHigh => "Mentor percentage exceeds 100",
            EscrowError::CannotRefund => "Cannot refund",
            EscrowError::TreasuryNotSet => "Treasury not set",
            EscrowError::ReviewerNotLearner => "Only learner can submit review",
            EscrowError::EscrowNotReleased => "Can only review released escrows",
        }
    }
}

} // verus!
