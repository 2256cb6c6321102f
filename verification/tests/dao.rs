use soroban_templates::common::AccountId;
use soroban_templates::dao::{DaoContract, DaoError, ProposalState};

const ADMIN: AccountId = 1;
const TOKEN: AccountId = 100;
const VOTER: AccountId = 5;

fn setup_with_quorum_bps(quorum: i128, quorum_bps: u32) -> DaoContract {
    let mut c = DaoContract::new();
    c.initialize(ADMIN, TOKEN, 100, quorum, quorum_bps).unwrap();
    c
}

fn setup() -> DaoContract {
    setup_with_quorum_bps(500, 0)
}

/// Creates a proposal by the admin, who holds `admin_balance` tokens while
/// the supply is `supply`, at ledger 0.
fn propose(c: &mut DaoContract, admin_balance: i128, supply: i128) -> u32 {
    c.create_proposal(ADMIN, "P".to_string(), "D".to_string(), admin_balance, supply, 0).unwrap()
}

#[test]
fn test_initialize() {
    let c = setup();
    assert_eq!(c.proposal_count(), 0);
}

#[test]
fn test_test_initialize_twice_fails() {
    let mut c = setup();
    assert_eq!(c.initialize(ADMIN, TOKEN, 100, 500, 0), Err(DaoError::AlreadyInitialized));
}

#[test]
fn test_create_proposal() {
    let mut c = setup();
    let id = c
        .create_proposal(ADMIN, "Upgrade Protocol".to_string(), "Upgrade to v2".to_string(), 1_000, 1_000, 0)
        .unwrap();
    assert_eq!(id, 0);
    assert_eq!(c.proposal_count(), 1);
    let p = c.get_proposal(0).unwrap();
    assert_eq!(p.state, ProposalState::Active);
    assert_eq!(p.yes_votes, 0);
    assert_eq!(p.no_votes, 0);
    assert_eq!(p.deadline, 100);
    assert_eq!(p.title, "Upgrade Protocol");
}

#[test]
fn test_create_proposal_no_tokens_fails() {
    let mut c = setup();
    let r = c.create_proposal(9, "Bad Proposal".to_string(), "no tokens".to_string(), 0, 1_000, 0);
    assert_eq!(r, Err(DaoError::InsufficientVotingPower));
}

#[test]
fn test_vote_yes() {
    let mut c = setup();
    let id = propose(&mut c, 1_000, 1_000);
    c.vote(VOTER, id, true, 600, 0).unwrap();
    let p = c.get_proposal(id).unwrap();
    assert_eq!(p.yes_votes, 600);
    assert_eq!(p.no_votes, 0);
}

#[test]
fn test_vote_no() {
    let mut c = setup();
    let id = propose(&mut c, 1_000, 1_000);
    c.vote(VOTER, id, false, 300, 0).unwrap();
    let p = c.get_proposal(id).unwrap();
    assert_eq!(p.yes_votes, 0);
    assert_eq!(p.no_votes, 300);
}

#[test]
fn test_vote_twice_fails() {
    let mut c = setup();
    let id = propose(&mut c, 1_000, 1_000);
    c.vote(VOTER, id, true, 100, 0).unwrap();
    assert_eq!(c.vote(VOTER, id, true, 100, 0), Err(DaoError::AlreadyVoted));
}

#[test]
fn test_execute_proposal_passes() {
    let mut c = setup();
    let id = propose(&mut c, 1_000, 1_000);
    c.vote(VOTER, id, true, 600, 0).unwrap();
    let deadline = c.get_proposal(id).unwrap().deadline;
    c.execute_proposal(id, deadline + 1).unwrap();
    assert_eq!(c.get_proposal(id).unwrap().state, ProposalState::Executed);
}

#[test]
fn test_execute_before_deadline_fails() {
    let mut c = setup();
    let id = propose(&mut c, 1_000, 1_000);
    c.vote(VOTER, id, true, 600, 0).unwrap();
    assert_eq!(c.execute_proposal(id, 0), Err(DaoError::DeadlineNotReached));
}

#[test]
fn test_execute_quorum_not_met_fails() {
    let mut c = setup();
    let id = propose(&mut c, 1_000, 1_000);
    c.vote(VOTER, id, true, 100, 0).unwrap();
    let deadline = c.get_proposal(id).unwrap().deadline;
    assert_eq!(c.execute_proposal(id, deadline + 1), Err(DaoError::QuorumNotMet));
}

#[test]
fn test_cancel_proposal() {
    let mut c = setup();
    let id = propose(&mut c, 1_000, 1_000);
    c.cancel_proposal(id).unwrap();
    assert_eq!(c.get_proposal(id).unwrap().state, ProposalState::Cancelled);
}

#[test]
fn test_cancel_already_executed_fails() {
    let mut c = setup();
    let id = propose(&mut c, 1_000, 1_000);
    c.vote(VOTER, id, true, 600, 0).unwrap();
    let deadline = c.get_proposal(id).unwrap().deadline;
    c.execute_proposal(id, deadline + 1).unwrap();
    assert_eq!(c.cancel_proposal(id), Err(DaoError::InvalidState));
}

#[test]
fn test_proposer_cancel_pre_vote_succeeds() {
    let mut c = setup();
    let id = propose(&mut c, 1_000, 1_000);
    c.proposer_cancel_proposal(ADMIN, id).unwrap();
    assert_eq!(c.get_proposal(id).unwrap().state, ProposalState::Cancelled);
}

#[test]
fn test_proposer_cancel_after_vote_fails() {
    let mut c = setup();
    let id = propose(&mut c, 1_000, 1_000);
    c.vote(VOTER, id, true, 100, 0).unwrap();
    assert_eq!(c.proposer_cancel_proposal(ADMIN, id), Err(DaoError::VotesAlreadyCast));
}

#[test]
fn test_proposer_cancel_wrong_caller_fails() {
    let mut c = setup();
    let id = propose(&mut c, 1_000, 1_000);
    assert_eq!(c.proposer_cancel_proposal(VOTER, id), Err(DaoError::NotAuthorized));
}

#[test]
fn test_proposer_cancel_already_cancelled_fails() {
    let mut c = setup();
    let id = propose(&mut c, 1_000, 1_000);
    c.proposer_cancel_proposal(ADMIN, id).unwrap();
    assert_eq!(c.proposer_cancel_proposal(ADMIN, id), Err(DaoError::InvalidState));
}

#[test]
fn test_execute_meets_quorum_bps() {
    let mut c = setup_with_quorum_bps(0, 5_000);
    let id = propose(&mut c, 1_000, 1_000);
    c.vote(VOTER, id, true, 600, 0).unwrap();
    let deadline = c.get_proposal(id).unwrap().deadline;
    c.execute_proposal(id, deadline + 1).unwrap();
    assert_eq!(c.get_proposal(id).unwrap().state, ProposalState::Executed);
}

#[test]
fn test_execute_below_quorum_bps_fails() {
    let mut c = setup_with_quorum_bps(0, 5_000);
    let id = propose(&mut c, 1_500, 1_500);
    c.vote(VOTER, id, true, 500, 0).unwrap();
    let deadline = c.get_proposal(id).unwrap().deadline;
    assert_eq!(c.execute_proposal(id, deadline + 1), Err(DaoError::QuorumNotMet));
}

#[test]
fn test_execute_both_quorums_met() {
    let mut c = setup_with_quorum_bps(300, 2_500);
    let id = propose(&mut c, 600, 600);
    c.vote(VOTER, id, true, 400, 0).unwrap();
    let deadline = c.get_proposal(id).unwrap().deadline;
    c.execute_proposal(id, deadline + 1).unwrap();
    assert_eq!(c.get_proposal(id).unwrap().state, ProposalState::Executed);
}

#[test]
fn test_initialize_invalid_quorum_bps_fails() {
    let mut c = DaoContract::new();
    assert_eq!(c.initialize(ADMIN, TOKEN, 100, 500, 10_001), Err(DaoError::InvalidQuorumBps));
}

#[test]
fn vote_weight_is_capped_at_supply_snapshot() {
    let mut c = setup();
    let id = propose(&mut c, 1_000, 1_000);
    c.vote(VOTER, id, true, 5_000, 0).unwrap();
    assert_eq!(c.get_proposal(id).unwrap().yes_votes, 1_000);
}

#[test]
fn vote_after_voting_period_fails() {
    let mut c = setup();
    let id = propose(&mut c, 1_000, 1_000);
    assert_eq!(c.vote(VOTER, id, true, 10, 101), Err(DaoError::VotingClosed));
    assert_eq!(c.vote(VOTER, 7, true, 10, 0), Err(DaoError::ProposalNotFound));
}

#[test]
fn rejected_proposal_is_not_executed() {
    let mut c = setup();
    let id = propose(&mut c, 1_000, 1_000);
    c.vote(VOTER, id, true, 300, 0).unwrap();
    c.vote(6, id, false, 300, 0).unwrap();
    assert_eq!(c.execute_proposal(id, 101), Err(DaoError::ProposalRejected));
    assert_eq!(c.get_proposal(id).unwrap().state, ProposalState::Active);
}

#[test]
fn uninitialized_dao_refuses_proposals() {
    let mut c = DaoContract::new();
    let r = c.create_proposal(ADMIN, "P".to_string(), "D".to_string(), 10, 10, 0);
    assert_eq!(r, Err(DaoError::NotInitialized));
    assert_eq!(c.get_proposal(0).err(), Some(DaoError::ProposalNotFound));
}
