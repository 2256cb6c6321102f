//! Merkle airdrop contract: error codes.

use vstd::prelude::*;

verus! {

/// Errors returned by the Merkle airdrop contract.
#[derive(Clone, Copy, Debug, PartialEq, Eq, Structural)]
pub enum AirdropError {
    /// The contract was already initialized.
    AlreadyInitialized,
    /// An operation was attempted before initialization.
    NotInitialized,
    /// The caller is not authorized.
    Unauthorized,
    /// No Merkle root has been set.
    RootNotSet,
    /// The supplied Merkle proof does not verify.
    InvalidProof,
    /// The allocation was already claimed.
    AlreadyClaimed,
    /// The amount is invalid.
    InvalidAmount,
    /// The claim window has closed.
    ClaimWindowClosed,
}

impl AirdropError {
    /// The numeric code of this error in the contract interface.
    pub open spec fn spec_code(self) -> u32 {
        match self {
            AirdropError::AlreadyInitialized => 1,
            AirdropError::NotInitialized => 2,
            AirdropError::Unauthorized => 3,
            AirdropError::RootNotSet => 4,
            AirdropError::InvalidProof => 5,
            AirdropError::AlreadyClaimed => 6,
            AirdropError::InvalidAmount => 7,
            AirdropError::ClaimWindowClosed => 8,
        }
    }

    /// A short human-readable description of this error.
    pub open spec fn spec_message(self) -> Seq<char> {
        match self {
            AirdropError::AlreadyInitialized => "already initialized"@,
            AirdropError::NotInitialized => "not initialized"@,
            AirdropError::Unauthorized => "not authorized"@,
            AirdropError::RootNotSet => "merkle root not set"@,
            AirdropError::InvalidProof => "invalid merkle proof"@,
            AirdropError::AlreadyClaimed => "already claimed"@,
            AirdropError::InvalidAmount => "invalid amount"@,
            AirdropError::ClaimWindowClosed => "claim window closed"@,
        }
    }

    /// Returns the numeric code of this error.
    pub fn code(&self) -> (c: u32)
        ensures
            c == self.spec_code(),
    {
        match self {
            AirdropError::AlreadyInitialized => 1,
            AirdropError::NotInitialized => 2,
            AirdropError::Unauthorized => 3,
            AirdropError::RootNotSet => 4,
            AirdropError::InvalidProof => 5,
            AirdropError::AlreadyClaimed => 6,
            AirdropError::InvalidAmount => 7,
            AirdropError::ClaimWindowClosed => 8,
        }
    }

    /// Returns a short human-readable description of this error.
    pub fn message(&self) -> (m: &'static str)
        ensures
            m@ == self.spec_message(),
    {
        match self {
            AirdropError::AlreadyInitialized => "already initialized",
            AirdropError::NotInitialized => "not initialized",
            AirdropError::Unauthorized => "not authorized",
            AirdropError::RootNotSet => "merkle root not set",
            AirdropError::InvalidProof => "invalid merkle proof",
            AirdropError::AlreadyClaimed => "already claimed",
            AirdropError::InvalidAmount => "invalid amount",
            AirdropError::ClaimWindowClosed => "claim window closed",
        }
    }
}

} // verus!
