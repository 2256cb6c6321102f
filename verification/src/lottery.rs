//! Commit-reveal lottery contract: error codes.

use vstd::prelude::*;

verus! {

/// Errors returned by the lottery contract.
#[derive(Clone, Copy, Debug, PartialEq, Eq, Structural)]
pub enum LotteryError {
    /// The lottery was already initialized.
    AlreadyInitialized,
    /// An operation was attempted before initialization.
    NotInitialized,
    /// The caller is not authorized.
    Unauthorized,
    /// The lottery is closed.
    LotteryClosed,
    /// The draw was already done.
    DrawAlreadyDone,
    /// The draw has not been done.
    DrawNotDone,
    /// The ticket price is invalid.
    InvalidTicketPrice,
    /// A commitment was already submitted.
    CommitAlreadySubmitted,
    /// The revealed value does not match the commitment.
    RevealMismatch,
    /// No tickets were sold.
    NoTickets,
    /// The ticket cap is invalid.
    InvalidTicketCap,
    /// The ticket cap would be exceeded.
    TicketCapExceeded,
}

impl LotteryError {
    /// The numeric code of this error in the contract interface.
    pub open spec fn spec_code(self) -> u32 {
        match self {
            LotteryError::AlreadyInitialized => 1,
            LotteryError::NotInitialized => 2,
            LotteryError::Unauthorized => 3,
            LotteryError::LotteryClosed => 4,
            LotteryError::DrawAlreadyDone => 5,
            LotteryError::DrawNotDone => 6,
            LotteryError::InvalidTicketPrice => 7,
            LotteryError::CommitAlreadySubmitted => 8,
            LotteryError::RevealMismatch => 9,
            LotteryError::NoTickets => 10,
            LotteryError::InvalidTicketCap => 11,
            LotteryError::TicketCapExceeded => 12,
        }
    }

    /// Returns the numeric code of this error.
    pub fn code(&self) -> (c: u32)
        ensures
            c == self.spec_code(),
    {
        match self {
            LotteryError::AlreadyInitialized => 1,
            LotteryError::NotInitialized => 2,
            LotteryError::Unauthorized => 3,
            LotteryError::LotteryClosed => 4,
            LotteryError::DrawAlreadyDone => 5,
            LotteryError::DrawNotDone => 6,
            LotteryError::InvalidTicketPrice => 7,
            LotteryError::CommitAlreadySubmitted => 8,
            LotteryError::RevealMismatch => 9,
            LotteryError::NoTickets => 10,
            LotteryError::InvalidTicketCap => 11,
            LotteryError::TicketCapExceeded => 12,
        }
    }
}

} // verus!
