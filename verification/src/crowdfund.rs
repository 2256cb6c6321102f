//! Crowdfunding contract: error codes.

use vstd::prelude::*;

verus! {

/// Errors returned by the crowdfunding contract.
#[derive(Clone, Copy, Debug, PartialEq, Eq, Structural)]
pub enum CrowdfundError {
    /// The campaign was already initialized.
    AlreadyInitialized,
    /// An operation was attempted before initialization.
    NotInitialized,
    /// The campaign deadline has passed.
    DeadlinePassed,
    /// The campaign deadline has not been reached.
    DeadlineNotReached,
    /// The funding goal was already met.
    GoalAlreadyMet,
    /// The funding goal was not met.
    GoalNotMet,
    /// The funds were already claimed.
    AlreadyClaimed,
    /// There is nothing to pledge.
    NothingToPledge,
    /// There is nothing to withdraw.
    NothingToWithdraw,
    /// The amount is invalid.
    InvalidAmount,
    /// The deadline is invalid.
    InvalidDeadline,
    /// The goal is invalid.
    InvalidGoal,
    /// The caller is not authorized.
    NotAuthorized,
    /// The funding tier is invalid.
    InvalidTier,
    /// The pledge would exceed the per-address cap.
    PledgeCapExceeded,
    /// The deadline has already been extended once.
    DeadlineAlreadyExtended,
}

impl CrowdfundError {
    /// The numeric code of this error in the contract interface.
    pub open spec fn spec_code(self) -> u32 {
        match self {
            CrowdfundError::AlreadyInitialized => 1,
            CrowdfundError::NotInitialized => 2,
            CrowdfundError::DeadlinePassed => 3,
            CrowdfundError::DeadlineNotReached => 4,
            CrowdfundError::GoalAlreadyMet => 5,
            CrowdfundError::GoalNotMet => 6,
            CrowdfundError::AlreadyClaimed => 7,
            CrowdfundError::NothingToPledge => 8,
            CrowdfundError::NothingToWithdraw => 9,
            CrowdfundError::InvalidAmount => 10,
            CrowdfundError::InvalidDeadline => 11,
            CrowdfundError::InvalidGoal => 12,
            CrowdfundError::NotAuthorized => 13,
            CrowdfundError::InvalidTier => 14,
            CrowdfundError::PledgeCapExceeded => 15,
            CrowdfundError::DeadlineAlreadyExtended => 16,
        }
    }

    /// A short human-readable description of this error.
    pub open spec fn spec_message(self) -> Seq<char> {
        match self {
            CrowdfundError::AlreadyInitialized => "already initialized"@,
            CrowdfundError::NotInitialized => "not initialized"@,
            CrowdfundError::DeadlinePassed => "deadline has passed"@,
            CrowdfundError::DeadlineNotReached => "deadline not reached"@,
            CrowdfundError::GoalAlreadyMet => "goal already met"@,
            CrowdfundError::GoalNotMet => "goal not met"@,
            CrowdfundError::AlreadyClaimed => "funds already claimed"@,
            CrowdfundError::NothingToPledge => "nothing to pledge"@,
            CrowdfundError::NothingToWithdraw => "nothing to withdraw"@,
            CrowdfundError::InvalidAmount => "invalid amount"@,
            CrowdfundError::InvalidDeadline => "invalid deadline"@,
            CrowdfundError::InvalidGoal => "invalid goal"@,
            CrowdfundError::NotAuthorized => "not authorized"@,
            CrowdfundError::InvalidTier => "invalid funding tier"@,
            CrowdfundError::PledgeCapExceeded => "pledge would exceed the per-address cap"@,
            CrowdfundError::DeadlineAlreadyExtended => "deadline has already been extended once"@,
        }
    }

    /// Returns the numeric code of this error.
    pub fn code(&self) -> (c: u32)
        ensures
            c == self.spec_code(),
    {
        match self {
            CrowdfundError::AlreadyInitialized => 1,
            CrowdfundError::NotInitialized => 2,
            CrowdfundError::DeadlinePassed => 3,
            CrowdfundError::DeadlineNotReached => 4,
            CrowdfundError::GoalAlreadyMet => 5,
            CrowdfundError::GoalNotMet => 6,
            CrowdfundError::AlreadyClaimed => 7,
            CrowdfundError::NothingToPledge => 8,
            CrowdfundError::NothingToWithdraw => 9,
            CrowdfundError::InvalidAmount => 10,
            CrowdfundError::InvalidDeadline => 11,
            CrowdfundError::InvalidGoal => 12,
            CrowdfundError::NotAuthorized => 13,
            CrowdfundError::InvalidTier => 14,
            CrowdfundError::PledgeCapExceeded => 15,
            CrowdfundError::DeadlineAlreadyExtended => 16,
        }
    }

    /// Returns a short human-readable description of this error.
    pub fn message(&self) -> (m: &'static str)
        ensures
            m@ == self.spec_message(),
    {
        match self {
            CrowdfundError::AlreadyInitialized => "already initialized",
            CrowdfundError::NotInitialized => "not initialized",
            CrowdfundError::DeadlinePassed => "deadline has passed",
            CrowdfundError::DeadlineNotReached => "deadline not reached",
            CrowdfundError::GoalAlreadyMet => "goal already met",
            CrowdfundError::GoalNotMet => "goal not met",
            CrowdfundError::AlreadyClaimed => "funds already claimed",
            CrowdfundError::NothingToPledge => "nothing to pledge",
            CrowdfundError::NothingToWithdraw => "nothing to withdraw",
            CrowdfundError::InvalidAmount => "invalid amount",
            CrowdfundError::InvalidDeadline => "invalid deadline",
            CrowdfundError::InvalidGoal => "invalid goal",
            CrowdfundError::NotAuthorized => "not authorized",
            CrowdfundError::InvalidTier => "invalid funding tier",
            CrowdfundError::PledgeCapExceeded => "pledge would exceed the per-address cap",
            CrowdfundError::DeadlineAlreadyExtended => "deadline has already been extended once",
        }
    }
}

} // verus!
