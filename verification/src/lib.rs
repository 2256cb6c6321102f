//! Verified state machines of a family of on-chain contract templates:
//! ballots, a bonding curve, DAO governance, escrow, a marketplace, a
//! multisignature wallet, NFTs, a price oracle, staking and atomic swaps.
//!
//! Each contract is a plain value holding its ledger state; every entry
//! point is a method that checks its preconditions, updates the state and
//! returns the token movements the ledger must carry out.

pub mod airdrop;
pub mod auction;
pub mod ballot;
pub mod bonding_curve;
pub mod common;
pub mod crowdfund;
pub mod dao;
pub mod escrow;
pub mod lottery;
pub mod marketplace;
pub mod multisig;
pub mod nft;
pub mod oracle;
pub mod staking;
pub mod swap;
