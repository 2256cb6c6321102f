use soroban_templates::ballot::{BallotContract, BallotError};
use soroban_templates::common::AccountId;

const ADMIN: AccountId = 1;
const START_LEDGER: u32 = 10;
const VOTING_START: u32 = 20;
const VOTING_END: u32 = 100;

fn labels(names: &[&str]) -> Vec<String> {
    names.iter().map(|s| s.to_string()).collect()
}

fn setup() -> BallotContract {
    let mut c = BallotContract::new();
    c.initialize(ADMIN, VOTING_START, VOTING_END, labels(&["no", "yes"]), START_LEDGER).unwrap();
    c
}

fn setup_multi() -> BallotContract {
    let mut c = BallotContract::new();
    c.initialize(ADMIN, VOTING_START, VOTING_END, labels(&["red", "green", "blue"]), START_LEDGER).unwrap();
    c
}

#[test]
fn test_ballot_lifecycle() {
    let mut c = setup();
    c.register_voter(10).unwrap();
    c.register_voter(11).unwrap();
    c.vote(10, 1, VOTING_START).unwrap();
    c.vote(11, 0, VOTING_START).unwrap();
    assert_eq!(c.get_yes_votes(), 1);
    assert_eq!(c.get_no_votes(), 1);
    assert_eq!(c.tally(), Ok((1, 1)));
}

#[test]
fn test_double_vote_prevention() {
    let mut c = setup();
    c.register_voter(10).unwrap();
    c.vote(10, 1, VOTING_START).unwrap();
    assert_eq!(c.vote(10, 1, VOTING_START), Err(BallotError::AlreadyVoted));
}

#[test]
fn test_unregistered_voter_rejected() {
    let mut c = setup();
    assert_eq!(c.vote(10, 1, VOTING_START), Err(BallotError::NotRegistered));
}

#[test]
fn test_invalid_choice_rejected() {
    let mut c = setup();
    c.register_voter(10).unwrap();
    assert_eq!(c.vote(10, 2, VOTING_START), Err(BallotError::InvalidChoice));
}

#[test]
fn test_double_initialize_rejected() {
    let mut c = setup();
    let r = c.initialize(ADMIN, VOTING_START, VOTING_END, labels(&["no", "yes"]), START_LEDGER);
    assert_eq!(r, Err(BallotError::AlreadyInitialized));
}

#[test]
fn test_register_voter_extends_persistent_ttl() {
    let mut c = BallotContract::new();
    c.initialize(ADMIN, VOTING_START, 100_000, labels(&["no", "yes"]), START_LEDGER).unwrap();
    c.register_voter(10).unwrap();
    assert!(c.vote(10, 1, VOTING_START + 10_000).is_ok());
}

#[test]
fn test_vote_extends_persistent_ttl() {
    let mut c = setup();
    c.register_voter(10).unwrap();
    c.vote(10, 1, VOTING_START).unwrap();
    assert!(c.vote(10, 1, VOTING_START + 10_000).is_err());
}

#[test]
fn test_tally_closes_voting() {
    let mut c = setup();
    c.register_voter(10).unwrap();
    c.vote(10, 1, VOTING_START).unwrap();
    c.tally().unwrap();
    c.register_voter(11).unwrap();
    assert_eq!(c.vote(11, 0, VOTING_START + 1), Err(BallotError::VotingClosed));
}

#[test]
fn test_vote_before_window_rejected() {
    let mut c = setup();
    c.register_voter(10).unwrap();
    assert_eq!(c.vote(10, 1, START_LEDGER), Err(BallotError::VotingNotStarted));
}

#[test]
fn test_vote_after_window_rejected() {
    let mut c = setup();
    c.register_voter(10).unwrap();
    assert_eq!(c.vote(10, 1, VOTING_END + 1), Err(BallotError::VotingClosed));
}

#[test]
fn test_vote_at_window_start_accepted() {
    let mut c = setup();
    c.register_voter(10).unwrap();
    c.vote(10, 1, VOTING_START).unwrap();
    assert_eq!(c.get_yes_votes(), 1);
}

#[test]
fn test_vote_at_window_end_accepted() {
    let mut c = setup();
    c.register_voter(10).unwrap();
    c.vote(10, 1, VOTING_END).unwrap();
    assert_eq!(c.get_yes_votes(), 1);
}

#[test]
fn test_invalid_window_rejected() {
    let mut c = BallotContract::new();
    let r = c.initialize(ADMIN, 50, 50, labels(&["no", "yes"]), START_LEDGER);
    assert_eq!(r, Err(BallotError::InvalidWindow));
}

#[test]
fn test_deregister_voter_before_vote() {
    let mut c = setup();
    c.register_voter(10).unwrap();
    c.deregister_voter(10).unwrap();
    assert!(c.vote(10, 1, VOTING_START).is_err());
}

#[test]
fn test_deregister_voter_after_vote_rejected() {
    let mut c = setup();
    c.register_voter(10).unwrap();
    c.register_voter(11).unwrap();
    c.vote(10, 1, VOTING_START).unwrap();
    assert_eq!(c.deregister_voter(11), Err(BallotError::VotingAlreadyStarted));
}

#[test]
fn test_deregister_unregistered_voter_rejected() {
    let mut c = setup();
    assert_eq!(c.deregister_voter(42), Err(BallotError::NotRegistered));
}

#[test]
fn test_multi_choice_tally_all_returns_per_choice_counts() {
    let mut c = setup_multi();
    for v in 10..14 {
        c.register_voter(v).unwrap();
    }
    c.vote(10, 0, VOTING_START).unwrap();
    c.vote(11, 1, VOTING_START).unwrap();
    c.vote(12, 1, VOTING_START).unwrap();
    c.vote(13, 2, VOTING_START).unwrap();
    let counts = c.tally_all().unwrap();
    assert_eq!(counts, vec![1, 2, 1]);
}

#[test]
fn test_multi_choice_get_choice_votes() {
    let mut c = setup_multi();
    c.register_voter(10).unwrap();
    c.vote(10, 2, VOTING_START).unwrap();
    assert_eq!(c.get_choice_votes(2), 1);
    assert_eq!(c.get_choice_votes(0), 0);
    assert_eq!(c.get_choice_votes(1), 0);
}

#[test]
fn test_multi_choice_invalid_index_rejected() {
    let mut c = setup_multi();
    c.register_voter(10).unwrap();
    assert!(c.vote(10, 3, VOTING_START).is_err());
}

#[test]
fn test_multi_choice_tally_all_closes_voting() {
    let mut c = setup_multi();
    c.register_voter(10).unwrap();
    c.vote(10, 1, VOTING_START).unwrap();
    c.tally_all().unwrap();
    c.register_voter(11).unwrap();
    assert!(c.vote(11, 0, VOTING_START).is_err());
}

#[test]
fn test_get_choices_returns_labels() {
    let c = setup_multi();
    assert_eq!(c.get_choices(), labels(&["red", "green", "blue"]));
}

#[test]
fn test_no_choices_rejected() {
    let mut c = BallotContract::new();
    let r = c.initialize(ADMIN, VOTING_START, VOTING_END, Vec::new(), START_LEDGER);
    assert_eq!(r, Err(BallotError::NoChoices));
}

#[test]
fn test_five_choice_ballot() {
    let mut c = BallotContract::new();
    c.initialize(ADMIN, VOTING_START, VOTING_END, labels(&["a", "b", "c", "d", "e"]), START_LEDGER).unwrap();
    for i in 0u32..5 {
        let voter = 10 + i as AccountId;
        c.register_voter(voter).unwrap();
        c.vote(voter, i, VOTING_START).unwrap();
    }
    assert_eq!(c.tally_all().unwrap(), vec![1, 1, 1, 1, 1]);
}

#[test]
fn votes_never_exceed_registered_voters() {
    let mut c = setup();
    for v in 10..13 {
        c.register_voter(v).unwrap();
    }
    let mut successful = 0;
    for attempt in 0..20u64 {
        if c.vote(10 + attempt % 5, 0, VOTING_START).is_ok() {
            successful += 1;
        }
    }
    assert_eq!(successful, 3);
    assert_eq!(c.total_votes, 3);
}

#[test]
fn window_must_end_after_current_ledger() {
    let mut c = BallotContract::new();
    let r = c.initialize(ADMIN, 1, 5, labels(&["no", "yes"]), 5);
    assert_eq!(r, Err(BallotError::InvalidWindow));
    assert_eq!(c.register_voter(10), Err(BallotError::NotInitialized));
}
