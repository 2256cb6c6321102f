//! English auction contract: error codes.

use vstd::prelude::*;

verus! {

/// Errors returned by the English auction contract.
#[derive(Clone, Copy, Debug, PartialEq, Eq, Structural)]
pub enum AuctionError {
    /// The auction was already started.
    AlreadyInitialized,
    /// An operation was attempted before the auction was started.
    NotInitialized,
    /// The auction has ended.
    AuctionEnded,
    /// The auction has not ended yet.
    AuctionNotEnded,
    /// The bid does not exceed the current highest bid.
    BidTooLow,
    /// The auction was already settled.
    AlreadyEnded,
    /// No bids were placed.
    NoBids,
    /// The caller is not authorized.
    NotAuthorized,
    /// The amount is invalid.
    InvalidAmount,
    /// The deadline is invalid.
    InvalidDeadline,
    /// There is nothing to withdraw.
    NothingToWithdraw,
    /// The auction ended but the highest bid did not meet the reserve price.
    ReserveNotMet,
    /// `cancel` was called after at least one bid has been placed.
    BidAlreadyPlaced,
}

impl AuctionError {
    /// The numeric code of this error in the contract interface.
    pub open spec fn spec_code(self) -> u32 {
        match self {
            AuctionError::AlreadyInitialized => 1,
            AuctionError::NotInitialized => 2,
            AuctionError::AuctionEnded => 3,
            AuctionError::AuctionNotEnded => 4,
            AuctionError::BidTooLow => 5,
            AuctionError::AlreadyEnded => 6,
            AuctionError::NoBids => 7,
            AuctionError::NotAuthorized => 8,
            AuctionError::InvalidAmount => 9,
            AuctionError::InvalidDeadline => 10,
            AuctionError::NothingToWithdraw => 11,
            AuctionError::ReserveNotMet => 12,
            AuctionError::BidAlreadyPlaced => 13,
        }
    }

    /// A short human-readable description of this error.
    pub open spec fn spec_message(self) -> Seq<char> {
        match self {
            AuctionError::AlreadyInitialized => "already initialized"@,
            AuctionError::NotInitialized => "not initialized"@,
            AuctionError::AuctionEnded => "auction has ended"@,
            AuctionError::AuctionNotEnded => "auction has not ended"@,
            AuctionError::BidTooLow => "bid too low"@,
            AuctionError::AlreadyEnded => "auction already settled"@,
            AuctionError::NoBids => "no bids placed"@,
            AuctionError::NotAuthorized => "not authorized"@,
            AuctionError::InvalidAmount => "invalid amount"@,
            AuctionError::InvalidDeadline => "invalid deadline"@,
            AuctionError::NothingToWithdraw => "nothing to withdraw"@,
            AuctionError::ReserveNotMet => "reserve price not met"@,
            AuctionError::BidAlreadyPlaced => "cannot cancel after a bid has been placed"@,
        }
    }

    /// Returns the numeric code of this error.
    pub fn code(&self) -> (c: u32)
        ensures
            c == self.spec_code(),
    {
        match self {
            AuctionError::AlreadyInitialized => 1,
            AuctionError::NotInitialized => 2,
            AuctionError::AuctionEnded => 3,
            AuctionError::AuctionNotEnded => 4,
            AuctionError::BidTooLow => 5,
            AuctionError::AlreadyEnded => 6,
            AuctionError::NoBids => 7,
            AuctionError::NotAuthorized => 8,
            AuctionError::InvalidAmount => 9,
            AuctionError::InvalidDeadline => 10,
            AuctionError::NothingToWithdraw => 11,
            AuctionError::ReserveNotMet => 12,
            AuctionError::BidAlreadyPlaced => 13,
        }
    }

    /// Returns a short human-readable description of this error.
    pub fn message(&self) -> (m: &'static str)
        ensures
            m@ == self.spec_message(),
    {
        match self {
            AuctionError::AlreadyInitialized => "already initialized",
            AuctionError::NotInitialized => "not initialized",
            AuctionError::AuctionEnded => "auction has ended",
            AuctionError::AuctionNotEnded => "auction has not ended",
            AuctionError::BidTooLow => "bid too low",
            AuctionError::AlreadyEnded => "auction already settled",
            AuctionError::NoBids => "no bids placed",
            AuctionError::NotAuthorized => "not authorized",
            AuctionError::InvalidAmount => "invalid amount",
            AuctionError::InvalidDeadline => "invalid deadline",
            AuctionError::NothingToWithdraw => "nothing to withdraw",
            AuctionError::ReserveNotMet => "reserve price not met",
            AuctionError::BidAlreadyPlaced => "cannot cancel after a bid has been placed",
        }
    }
}

} // verus!
