//! The numeric error codes of every contract stay fixed.

use soroban_templates::airdrop::AirdropError;
use soroban_templates::bonding_curve::BondingCurveError;
use soroban_templates::crowdfund::CrowdfundError;
use soroban_templates::dao::DaoError;
use soroban_templates::escrow::EscrowError;
use soroban_templates::marketplace::MarketplaceError;
use soroban_templates::nft::NftError;
use soroban_templates::oracle::OracleError;
use soroban_templates::staking::StakingError;
use soroban_templates::auction::AuctionError;
use soroban_templates::ballot::BallotError;
use soroban_templates::lottery::LotteryError;
use soroban_templates::multisig::MultisigError;
use soroban_templates::swap::SwapError;

#[test]
fn airdrop_error_codes_match_snapshot() {
    let rendered = format!(
        "AirdropError::AlreadyInitialized = {}\nAirdropError::NotInitialized = {}\nAirdropError::Unauthorized = {}\nAirdropError::RootNotSet = {}\nAirdropError::InvalidProof = {}\nAirdropError::AlreadyClaimed = {}\nAirdropError::InvalidAmount = {}\nAirdropError::ClaimWindowClosed = {}\n",
        AirdropError::AlreadyInitialized.code(),
        AirdropError::NotInitialized.code(),
        AirdropError::Unauthorized.code(),
        AirdropError::RootNotSet.code(),
        AirdropError::InvalidProof.code(),
        AirdropError::AlreadyClaimed.code(),
        AirdropError::InvalidAmount.code(),
        AirdropError::ClaimWindowClosed.code(),
    );
    assert_eq!(rendered, "AirdropError::AlreadyInitialized = 1\nAirdropError::NotInitialized = 2\nAirdropError::Unauthorized = 3\nAirdropError::RootNotSet = 4\nAirdropError::InvalidProof = 5\nAirdropError::AlreadyClaimed = 6\nAirdropError::InvalidAmount = 7\nAirdropError::ClaimWindowClosed = 8\n");
}

#[test]
fn bonding_curve_error_codes_match_snapshot() {
    let rendered = format!(
        "BondingCurveError::AlreadyInitialized = {}\nBondingCurveError::NotInitialized = {}\nBondingCurveError::Unauthorized = {}\nBondingCurveError::InvalidAmount = {}\nBondingCurveError::InsufficientReserve = {}\nBondingCurveError::Overflow = {}\n",
        BondingCurveError::AlreadyInitialized.code(),
        BondingCurveError::NotInitialized.code(),
        BondingCurveError::Unauthorized.code(),
        BondingCurveError::InvalidAmount.code(),
        BondingCurveError::InsufficientReserve.code(),
        BondingCurveError::Overflow.code(),
    );
    assert_eq!(rendered, "BondingCurveError::AlreadyInitialized = 1\nBondingCurveError::NotInitialized = 2\nBondingCurveError::Unauthorized = 3\nBondingCurveError::InvalidAmount = 4\nBondingCurveError::InsufficientReserve = 5\nBondingCurveError::Overflow = 6\n");
}

#[test]
fn crowdfund_error_codes_match_snapshot() {
    let rendered = format!(
        "CrowdfundError::AlreadyInitialized = {}\nCrowdfundError::NotInitialized = {}\nCrowdfundError::DeadlinePassed = {}\nCrowdfundError::DeadlineNotReached = {}\nCrowdfundError::GoalAlreadyMet = {}\nCrowdfundError::GoalNotMet = {}\nCrowdfundError::AlreadyClaimed = {}\nCrowdfundError::NothingToPledge = {}\nCrowdfundError::NothingToWithdraw = {}\nCrowdfundError::InvalidAmount = {}\nCrowdfundError::InvalidDeadline = {}\nCrowdfundError::InvalidGoal = {}\nCrowdfundError::NotAuthorized = {}\nCrowdfundError::InvalidTier = {}\nCrowdfundError::PledgeCapExceeded = {}\nCrowdfundError::DeadlineAlreadyExtended = {}\n",
        CrowdfundError::AlreadyInitialized.code(),
        CrowdfundError::NotInitialized.code(),
        CrowdfundError::DeadlinePassed.code(),
        CrowdfundError::DeadlineNotReached.code(),
        CrowdfundError::GoalAlreadyMet.code(),
        CrowdfundError::GoalNotMet.code(),
        CrowdfundError::AlreadyClaimed.code(),
        CrowdfundError::NothingToPledge.code(),
        CrowdfundError::NothingToWithdraw.code(),
        CrowdfundError::InvalidAmount.code(),
        CrowdfundError::InvalidDeadline.code(),
        CrowdfundError::InvalidGoal.code(),
        CrowdfundError::NotAuthorized.code(),
        CrowdfundError::InvalidTier.code(),
        CrowdfundError::PledgeCapExceeded.code(),
        CrowdfundError::DeadlineAlreadyExtended.code(),
    );
    assert_eq!(rendered, "CrowdfundError::AlreadyInitialized = 1\nCrowdfundError::NotInitialized = 2\nCrowdfundError::DeadlinePassed = 3\nCrowdfundError::DeadlineNotReached = 4\nCrowdfundError::GoalAlreadyMet = 5\nCrowdfundError::GoalNotMet = 6\nCrowdfundError::AlreadyClaimed = 7\nCrowdfundError::NothingToPledge = 8\nCrowdfundError::NothingToWithdraw = 9\nCrowdfundError::InvalidAmount = 10\nCrowdfundError::InvalidDeadline = 11\nCrowdfundError::InvalidGoal = 12\nCrowdfundError::NotAuthorized = 13\nCrowdfundError::InvalidTier = 14\nCrowdfundError::PledgeCapExceeded = 15\nCrowdfundError::DeadlineAlreadyExtended = 16\n");
}

#[test]
fn dao_error_codes_match_snapshot() {
    let rendered = format!(
        "DaoError::NotAuthorized = {}\nDaoError::AlreadyInitialized = {}\nDaoError::NotInitialized = {}\nDaoError::ProposalNotFound = {}\nDaoError::InvalidState = {}\nDaoError::DeadlineNotReached = {}\nDaoError::AlreadyVoted = {}\nDaoError::QuorumNotMet = {}\nDaoError::ProposalRejected = {}\nDaoError::InsufficientVotingPower = {}\nDaoError::VotesAlreadyCast = {}\nDaoError::InvalidQuorumBps = {}\n",
        DaoError::NotAuthorized.code(),
        DaoError::AlreadyInitialized.code(),
        DaoError::NotInitialized.code(),
        DaoError::ProposalNotFound.code(),
        DaoError::InvalidState.code(),
        DaoError::DeadlineNotReached.code(),
        DaoError::AlreadyVoted.code(),
        DaoError::QuorumNotMet.code(),
        DaoError::ProposalRejected.code(),
        DaoError::InsufficientVotingPower.code(),
        DaoError::VotesAlreadyCast.code(),
        DaoError::InvalidQuorumBps.code(),
    );
    assert_eq!(rendered, "DaoError::NotAuthorized = 1\nDaoError::AlreadyInitialized = 2\nDaoError::NotInitialized = 3\nDaoError::ProposalNotFound = 4\nDaoError::InvalidState = 5\nDaoError::DeadlineNotReached = 6\nDaoError::AlreadyVoted = 7\nDaoError::QuorumNotMet = 8\nDaoError::ProposalRejected = 9\nDaoError::InsufficientVotingPower = 10\nDaoError::VotesAlreadyCast = 11\nDaoError::InvalidQuorumBps = 12\n");
}

#[test]
fn escrow_error_codes_match_snapshot() {
    let rendered = format!(
        "EscrowError::NotAuthorized = {}\nEscrowError::InvalidState = {}\nEscrowError::DeadlinePassed = {}\nEscrowError::DeadlineNotReached = {}\nEscrowError::AlreadyInitialized = {}\nEscrowError::NotInitialized = {}\nEscrowError::InsufficientFunds = {}\nEscrowError::InvalidAmount = {}\nEscrowError::InvalidParties = {}\n",
        EscrowError::NotAuthorized.code(),
        EscrowError::InvalidState.code(),
        EscrowError::DeadlinePassed.code(),
        EscrowError::DeadlineNotReached.code(),
        EscrowError::AlreadyInitialized.code(),
        EscrowError::NotInitialized.code(),
        EscrowError::InsufficientFunds.code(),
        EscrowError::InvalidAmount.code(),
        EscrowError::InvalidParties.code(),
    );
    assert_eq!(rendered, "EscrowError::NotAuthorized = 1\nEscrowError::InvalidState = 2\nEscrowError::DeadlinePassed = 3\nEscrowError::DeadlineNotReached = 4\nEscrowError::AlreadyInitialized = 5\nEscrowError::NotInitialized = 6\nEscrowError::InsufficientFunds = 7\nEscrowError::InvalidAmount = 8\nEscrowError::InvalidParties = 9\n");
}

#[test]
fn marketplace_error_codes_match_snapshot() {
    let rendered = format!(
        "MarketplaceError::AlreadyInitialized = {}\nMarketplaceError::NotInitialized = {}\nMarketplaceError::NotAuthorized = {}\nMarketplaceError::InvalidPrice = {}\nMarketplaceError::ListingNotFound = {}\nMarketplaceError::ListingInactive = {}\nMarketplaceError::InvalidRoyalty = {}\nMarketplaceError::InvalidExpiry = {}\nMarketplaceError::ListingExpired = {}\nMarketplaceError::ListingNotExpired = {}\nMarketplaceError::InvalidOfferAmount = {}\nMarketplaceError::OfferNotFound = {}\n",
        MarketplaceError::AlreadyInitialized.code(),
        MarketplaceError::NotInitialized.code(),
        MarketplaceError::NotAuthorized.code(),
        MarketplaceError::InvalidPrice.code(),
        MarketplaceError::ListingNotFound.code(),
        MarketplaceError::ListingInactive.code(),
        MarketplaceError::InvalidRoyalty.code(),
        MarketplaceError::InvalidExpiry.code(),
        MarketplaceError::ListingExpired.code(),
        MarketplaceError::ListingNotExpired.code(),
        MarketplaceError::InvalidOfferAmount.code(),
        MarketplaceError::OfferNotFound.code(),
    );
    assert_eq!(rendered, "MarketplaceError::AlreadyInitialized = 1\nMarketplaceError::NotInitialized = 2\nMarketplaceError::NotAuthorized = 3\nMarketplaceError::InvalidPrice = 4\nMarketplaceError::ListingNotFound = 5\nMarketplaceError::ListingInactive = 6\nMarketplaceError::InvalidRoyalty = 7\nMarketplaceError::InvalidExpiry = 8\nMarketplaceError::ListingExpired = 9\nMarketplaceError::ListingNotExpired = 10\nMarketplaceError::InvalidOfferAmount = 11\nMarketplaceError::OfferNotFound = 12\n");
}

#[test]
fn nft_error_codes_match_snapshot() {
    let rendered = format!(
        "NftError::NotAuthorized = {}\nNftError::AlreadyInitialized = {}\nNftError::NotInitialized = {}\nNftError::TokenNotFound = {}\nNftError::TokenAlreadyMinted = {}\nNftError::NotOwner = {}\nNftError::NotApproved = {}\nNftError::SupplyCapReached = {}\nNftError::InvalidTokenId = {}\nNftError::InvalidRoyalty = {}\nNftError::RoyaltyRecipientMissing = {}\n",
        NftError::NotAuthorized.code(),
        NftError::AlreadyInitialized.code(),
        NftError::NotInitialized.code(),
        NftError::TokenNotFound.code(),
        NftError::TokenAlreadyMinted.code(),
        NftError::NotOwner.code(),
        NftError::NotApproved.code(),
        NftError::SupplyCapReached.code(),
        NftError::InvalidTokenId.code(),
        NftError::InvalidRoyalty.code(),
        NftError::RoyaltyRecipientMissing.code(),
    );
    assert_eq!(rendered, "NftError::NotAuthorized = 1\nNftError::AlreadyInitialized = 2\nNftError::NotInitialized = 3\nNftError::TokenNotFound = 4\nNftError::TokenAlreadyMinted = 5\nNftError::NotOwner = 6\nNftError::NotApproved = 7\nNftError::SupplyCapReached = 8\nNftError::InvalidTokenId = 9\nNftError::InvalidRoyalty = 10\nNftError::RoyaltyRecipientMissing = 11\n");
}

#[test]
fn oracle_error_codes_match_snapshot() {
    let rendered = format!(
        "OracleError::AlreadyInitialized = {}\nOracleError::NotInitialized = {}\nOracleError::Unauthorized = {}\nOracleError::StalePrice = {}\nOracleError::InvalidStalenessThreshold = {}\nOracleError::NoPublisherData = {}\nOracleError::InsufficientHistory = {}\n",
        OracleError::AlreadyInitialized.code(),
        OracleError::NotInitialized.code(),
        OracleError::Unauthorized.code(),
        OracleError::StalePrice.code(),
        OracleError::InvalidStalenessThreshold.code(),
        OracleError::NoPublisherData.code(),
        OracleError::InsufficientHistory.code(),
    );
    assert_eq!(rendered, "OracleError::AlreadyInitialized = 1\nOracleError::NotInitialized = 2\nOracleError::Unauthorized = 3\nOracleError::StalePrice = 4\nOracleError::InvalidStalenessThreshold = 5\nOracleError::NoPublisherData = 6\nOracleError::InsufficientHistory = 7\n");
}

#[test]
fn staking_error_codes_match_snapshot() {
    let rendered = format!(
        "StakingError::AlreadyInitialized = {}\nStakingError::NotInitialized = {}\nStakingError::Unauthorized = {}\nStakingError::InvalidAmount = {}\nStakingError::NoStake = {}\nStakingError::InsufficientStake = {}\nStakingError::NoRewards = {}\nStakingError::CompoundTokenMismatch = {}\n",
        StakingError::AlreadyInitialized.code(),
        StakingError::NotInitialized.code(),
        StakingError::Unauthorized.code(),
        StakingError::InvalidAmount.code(),
        StakingError::NoStake.code(),
        StakingError::InsufficientStake.code(),
        StakingError::NoRewards.code(),
        StakingError::CompoundTokenMismatch.code(),
    );
    assert_eq!(rendered, "StakingError::AlreadyInitialized = 1\nStakingError::NotInitialized = 2\nStakingError::Unauthorized = 3\nStakingError::InvalidAmount = 4\nStakingError::NoStake = 5\nStakingError::InsufficientStake = 6\nStakingError::NoRewards = 7\nStakingError::CompoundTokenMismatch = 8\n");
}

#[test]
fn auction_error_codes_are_stable() {
    let codes = [
        (AuctionError::AlreadyInitialized.code(), 1),
        (AuctionError::NotInitialized.code(), 2),
        (AuctionError::AuctionEnded.code(), 3),
        (AuctionError::AuctionNotEnded.code(), 4),
        (AuctionError::BidTooLow.code(), 5),
        (AuctionError::AlreadyEnded.code(), 6),
        (AuctionError::NoBids.code(), 7),
        (AuctionError::NotAuthorized.code(), 8),
        (AuctionError::InvalidAmount.code(), 9),
        (AuctionError::InvalidDeadline.code(), 10),
        (AuctionError::NothingToWithdraw.code(), 11),
        (AuctionError::ReserveNotMet.code(), 12),
        (AuctionError::BidAlreadyPlaced.code(), 13),
    ];
    for (got, want) in codes {
        assert_eq!(got, want);
    }
}

#[test]
fn ballot_error_codes_are_stable() {
    let codes = [
        (BallotError::AlreadyInitialized.code(), 1),
        (BallotError::NotInitialized.code(), 2),
        (BallotError::Unauthorized.code(), 3),
        (BallotError::NotRegistered.code(), 4),
        (BallotError::AlreadyVoted.code(), 5),
        (BallotError::InvalidChoice.code(), 6),
        (BallotError::VotingClosed.code(), 7),
        (BallotError::VotingAlreadyStarted.code(), 8),
        (BallotError::InvalidWindow.code(), 9),
        (BallotError::VotingNotStarted.code(), 10),
        (BallotError::NoChoices.code(), 11),
    ];
    for (got, want) in codes {
        assert_eq!(got, want);
    }
}

#[test]
fn lottery_error_codes_are_stable() {
    let codes = [
        (LotteryError::AlreadyInitialized.code(), 1),
        (LotteryError::NotInitialized.code(), 2),
        (LotteryError::Unauthorized.code(), 3),
        (LotteryError::LotteryClosed.code(), 4),
        (LotteryError::DrawAlreadyDone.code(), 5),
        (LotteryError::DrawNotDone.code(), 6),
        (LotteryError::InvalidTicketPrice.code(), 7),
        (LotteryError::CommitAlreadySubmitted.code(), 8),
        (LotteryError::RevealMismatch.code(), 9),
        (LotteryError::NoTickets.code(), 10),
        (LotteryError::InvalidTicketCap.code(), 11),
        (LotteryError::TicketCapExceeded.code(), 12),
    ];
    for (got, want) in codes {
        assert_eq!(got, want);
    }
}

#[test]
fn multisig_error_codes_are_stable() {
    let codes = [
        (MultisigError::AlreadyInitialized.code(), 1),
        (MultisigError::NotInitialized.code(), 2),
        (MultisigError::InvalidThreshold.code(), 3),
        (MultisigError::InvalidSigners.code(), 4),
        (MultisigError::NotSigner.code(), 5),
        (MultisigError::TransactionNotFound.code(), 6),
        (MultisigError::AlreadyExecuted.code(), 7),
        (MultisigError::AlreadySigned.code(), 8),
        (MultisigError::ThresholdNotMet.code(), 9),
        (MultisigError::InsufficientApprovals.code(), 10),
        (MultisigError::ProposalExpired.code(), 11),
        (MultisigError::InvalidWeight.code(), 12),
        (MultisigError::ProposalNotExpired.code(), 13),
    ];
    for (got, want) in codes {
        assert_eq!(got, want);
    }
}

#[test]
fn swap_error_codes_are_stable() {
    let codes = [
        (SwapError::NotAuthorized.code(), 1),
        (SwapError::SwapNotFound.code(), 2),
        (SwapError::InvalidState.code(), 3),
        (SwapError::DeadlineExpired.code(), 4),
        (SwapError::InvalidAmount.code(), 5),
        (SwapError::InvalidDeadline.code(), 6),
        (SwapError::AlreadyCompleted.code(), 7),
        (SwapError::AlreadyCancelled.code(), 8),
        (SwapError::AlreadyInitialized.code(), 9),
        (SwapError::NotInitialized.code(), 10),
        (SwapError::InvalidFee.code(), 11),
    ];
    for (got, want) in codes {
        assert_eq!(got, want);
    }
}
