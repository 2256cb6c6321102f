use soroban_templates::common::{AccountId, Transfer};
use soroban_templates::escrow::{validate_amount, EscrowContract, EscrowError, EscrowState, Milestone};

const ADMIN: AccountId = 1;
const BUYER: AccountId = 10;
const SELLER: AccountId = 11;
const ARBITER: AccountId = 12;
const TOKEN: AccountId = 100;
const TREASURY: AccountId = 50;

fn setup(amount: i128) -> EscrowContract {
    let mut c = EscrowContract::new();
    c.initialize(ADMIN, BUYER, SELLER, ARBITER, TOKEN, amount, 1_000, 100, None, 0).unwrap();
    c
}

fn funded(amount: i128) -> EscrowContract {
    let mut c = setup(amount);
    let t = c.fund(amount).unwrap();
    assert_eq!(t, vec![Transfer::Deposit { token: TOKEN, from: BUYER, amount }]);
    c
}

#[test]
fn happy_path_releases_to_seller() {
    let mut c = funded(1_000);
    c.mark_delivered().unwrap();
    let t = c.approve_delivery().unwrap();
    assert_eq!(t, vec![Transfer::Payout { token: TOKEN, to: SELLER, amount: 1_000 }]);
    assert_eq!(c.get_state(), Some(EscrowState::Completed));
}

#[test]
fn fee_is_routed_to_treasury() {
    let mut c = funded(1_000);
    c.set_fee_config(250, TREASURY).unwrap();
    assert_eq!(c.get_fee_config(), (250, Some(TREASURY)));
    c.mark_delivered().unwrap();
    let t = c.approve_delivery().unwrap();
    assert_eq!(
        t,
        vec![
            Transfer::Payout { token: TOKEN, to: SELLER, amount: 975 },
            Transfer::Payout { token: TOKEN, to: TREASURY, amount: 25 },
        ]
    );
}

#[test]
fn fee_above_full_amount_is_rejected() {
    let mut c = setup(1_000);
    assert_eq!(c.set_fee_config(10_001, TREASURY), Err(EscrowError::FeeTooHigh));
    let mut u = EscrowContract::new();
    assert_eq!(u.set_fee_config(10, TREASURY), Err(EscrowError::NotInitialized));
}

#[test]
fn initialize_checks_amount_parties_and_deadline() {
    let mut c = EscrowContract::new();
    assert_eq!(c.initialize(ADMIN, BUYER, SELLER, ARBITER, TOKEN, 0, 1_000, 100, None, 0), Err(EscrowError::InvalidAmount));
    assert_eq!(c.initialize(ADMIN, BUYER, BUYER, ARBITER, TOKEN, 5, 1_000, 100, None, 0), Err(EscrowError::InvalidParties));
    assert_eq!(c.initialize(ADMIN, BUYER, SELLER, ARBITER, TOKEN, 5, 5, 100, None, 0), Err(EscrowError::DeadlinePassed));
    c.initialize(ADMIN, BUYER, SELLER, ARBITER, TOKEN, 5, 1_000, 100, Some([7u8; 32]), 0).unwrap();
    assert_eq!(c.initialize(ADMIN, BUYER, SELLER, ARBITER, TOKEN, 5, 1_000, 100, None, 0), Err(EscrowError::AlreadyInitialized));
    assert_eq!(c.contract_version(), 2);
}

#[test]
fn fund_requires_balance() {
    let mut c = setup(1_000);
    assert_eq!(c.fund(999), Err(EscrowError::InsufficientFunds));
    assert_eq!(c.get_state(), Some(EscrowState::Created));
}

#[test]
fn update_amount_only_before_funding() {
    let mut c = setup(1_000);
    c.update_amount(2_000).unwrap();
    assert_eq!(c.get_escrow_info().unwrap().amount, 2_000);
    assert_eq!(c.update_amount(0), Err(EscrowError::InvalidAmount));
    c.fund(2_000).unwrap();
    assert_eq!(c.update_amount(3_000), Err(EscrowError::InvalidState));
}

#[test]
fn partial_release_then_partial_refund() {
    let mut c = funded(1_000);
    let t = c.release_partial(400).unwrap();
    assert_eq!(t, vec![Transfer::Payout { token: TOKEN, to: SELLER, amount: 400 }]);
    assert_eq!(c.release_partial(601), Err(EscrowError::InsufficientFunds));
    assert_eq!(c.release_partial(0), Err(EscrowError::InvalidAmount));
    let t = c.request_partial_refund().unwrap();
    assert_eq!(t, vec![Transfer::Payout { token: TOKEN, to: BUYER, amount: 600 }]);
    assert_eq!(c.get_state(), Some(EscrowState::Refunded));
}

#[test]
fn refund_only_after_deadline() {
    let mut c = funded(1_000);
    assert_eq!(c.request_refund(1_000), Err(EscrowError::DeadlineNotReached));
    assert!(!c.is_deadline_passed(1_000));
    assert!(c.is_deadline_passed(1_001));
    assert_eq!(c.get_remaining_ledgers(990), 10);
    assert_eq!(c.get_remaining_ledgers(1_010), -10);
    let t = c.request_refund(1_001).unwrap();
    assert_eq!(t, vec![Transfer::Payout { token: TOKEN, to: BUYER, amount: 1_000 }]);
}

#[test]
fn refund_of_delivered_escrow_is_refused() {
    let mut c = funded(1_000);
    c.mark_delivered().unwrap();
    assert_eq!(c.request_refund(2_000), Err(EscrowError::InvalidState));
}

#[test]
fn cancel_only_before_funding() {
    let mut c = setup(1_000);
    c.cancel().unwrap();
    assert_eq!(c.get_state(), Some(EscrowState::Cancelled));
    let mut f = funded(1_000);
    assert_eq!(f.cancel(), Err(EscrowError::InvalidState));
}

#[test]
fn terminal_states_refuse_everything() {
    let mut c = setup(1_000);
    c.cancel().unwrap();
    assert_eq!(c.fund(5_000), Err(EscrowError::InvalidState));
    assert_eq!(c.mark_delivered(), Err(EscrowError::InvalidState));
    assert_eq!(c.raise_dispute(BUYER), Err(EscrowError::InvalidState));
    assert_eq!(c.release_partial(1), Err(EscrowError::InvalidState));
    assert_eq!(c.request_refund(5_000), Err(EscrowError::DeadlineNotReached));
    assert_eq!(c.resolve_dispute(ARBITER, true).err(), Some(EscrowError::InvalidState));
}

#[test]
fn extend_deadline_rules() {
    let mut c = setup(1_000);
    assert_eq!(c.extend_deadline(2_000, 0), Err(EscrowError::InvalidState));
    c.fund(1_000).unwrap();
    assert_eq!(c.extend_deadline(900, 0), Err(EscrowError::DeadlinePassed));
    assert_eq!(c.extend_deadline(1_005, 1_000), Err(EscrowError::DeadlinePassed));
    c.extend_deadline(2_000, 0).unwrap();
    assert_eq!(c.get_escrow_info().unwrap().deadline, 2_000);
}

#[test]
fn single_arbiter_resolves_dispute() {
    let mut c = funded(1_000);
    assert_eq!(c.raise_dispute(ARBITER), Err(EscrowError::NotAuthorized));
    c.raise_dispute(SELLER).unwrap();
    assert_eq!(c.get_state(), Some(EscrowState::Disputed));
    let t = c.resolve_dispute(ARBITER, false).unwrap();
    assert_eq!(t, vec![Transfer::Payout { token: TOKEN, to: BUYER, amount: 1_000 }]);
    assert_eq!(c.get_state(), Some(EscrowState::Refunded));
}

#[test]
fn arbiter_panel_needs_quorum() {
    let mut c = EscrowContract::new();
    c.initialize_with_arbiters(ADMIN, BUYER, SELLER, vec![20, 21, 22], TOKEN, 1_000, 1_000, 2, 100, None, 0).unwrap();
    assert_eq!(c.get_escrow_info().unwrap().arbiter, 20);
    c.fund(1_000).unwrap();
    c.raise_dispute(BUYER).unwrap();
    assert_eq!(c.resolve_dispute(ARBITER, true).err(), Some(EscrowError::NotAuthorized));
    assert_eq!(c.resolve_dispute(20, true), Ok(vec![]));
    assert_eq!(c.resolve_dispute(20, true), Ok(vec![]));
    assert_eq!(c.get_state(), Some(EscrowState::Disputed));
    let t = c.resolve_dispute(21, true).unwrap();
    assert_eq!(t, vec![Transfer::Payout { token: TOKEN, to: SELLER, amount: 1_000 }]);
    assert_eq!(c.get_state(), Some(EscrowState::Completed));
}

#[test]
fn arbiter_panel_validation() {
    let mut c = EscrowContract::new();
    assert_eq!(c.initialize_with_arbiters(ADMIN, BUYER, SELLER, vec![], TOKEN, 5, 1_000, 1, 100, None, 0), Err(EscrowError::InvalidParties));
    assert_eq!(c.initialize_with_arbiters(ADMIN, BUYER, SELLER, vec![20], TOKEN, 5, 1_000, 2, 100, None, 0), Err(EscrowError::InvalidParties));
    assert_eq!(c.initialize_with_arbiters(ADMIN, BUYER, SELLER, vec![20, BUYER], TOKEN, 5, 1_000, 1, 100, None, 0), Err(EscrowError::InvalidParties));
}

#[test]
fn milestones_release_one_by_one() {
    let mut c = EscrowContract::new();
    let ms = vec![Milestone { amount: 300, released: false }, Milestone { amount: 700, released: false }];
    c.initialize_with_milestones(ADMIN, BUYER, SELLER, ARBITER, TOKEN, ms, 1_000, 100, None, 0).unwrap();
    assert_eq!(c.get_escrow_info().unwrap().amount, 1_000);
    c.fund(1_000).unwrap();
    assert_eq!(c.release_milestone(SELLER, 0), Err(EscrowError::NotAuthorized));
    assert_eq!(c.release_milestone(BUYER, 2), Err(EscrowError::MilestoneNotFound));
    let t = c.release_milestone(ARBITER, 1).unwrap();
    assert_eq!(t, vec![Transfer::Payout { token: TOKEN, to: SELLER, amount: 700 }]);
    assert_eq!(c.release_milestone(BUYER, 1), Err(EscrowError::InvalidState));
    assert_eq!(c.get_state(), Some(EscrowState::Funded));
    c.release_milestone(BUYER, 0).unwrap();
    assert_eq!(c.get_state(), Some(EscrowState::Completed));
    assert_eq!(c.get_escrow_info().unwrap().amount, 0);
    assert!(c.get_milestones().iter().all(|m| m.released));
}

#[test]
fn milestone_validation_scans_in_order() {
    let mut c = EscrowContract::new();
    assert_eq!(c.initialize_with_milestones(ADMIN, BUYER, SELLER, ARBITER, TOKEN, vec![], 1_000, 100, None, 0), Err(EscrowError::InvalidAmount));
    let bad = vec![Milestone { amount: 5, released: false }, Milestone { amount: 0, released: false }];
    assert_eq!(c.initialize_with_milestones(ADMIN, BUYER, SELLER, ARBITER, TOKEN, bad, 1_000, 100, None, 0), Err(EscrowError::InvalidAmount));
    let huge = vec![Milestone { amount: i128::MAX, released: false }, Milestone { amount: 1, released: false }, Milestone { amount: -1, released: false }];
    assert_eq!(c.initialize_with_milestones(ADMIN, BUYER, SELLER, ARBITER, TOKEN, huge, 1_000, 100, None, 0), Err(EscrowError::InsufficientFunds));
    assert!(c.get_milestones().is_empty());
}

#[test]
fn uninitialized_escrow_reports_not_initialized() {
    let mut c = EscrowContract::new();
    assert_eq!(c.fund(10), Err(EscrowError::NotInitialized));
    assert_eq!(c.get_escrow_info(), Err(EscrowError::NotInitialized));
    assert_eq!(c.get_state(), None);
    assert_eq!(c.contract_version(), 0);
    assert_eq!(validate_amount(1), Ok(()));
    assert_eq!(validate_amount(0), Err(EscrowError::InvalidAmount));
}

#[test]
fn milestone_larger_than_what_is_left_is_still_released() {
    let mut c = EscrowContract::new();
    let ms = vec![Milestone { amount: 300, released: false }, Milestone { amount: 700, released: false }];
    c.initialize_with_milestones(ADMIN, BUYER, SELLER, ARBITER, TOKEN, ms, 1_000, 100, None, 0).unwrap();
    c.fund(1_000).unwrap();
    c.set_fee_config(1_000, TREASURY).unwrap();
    c.release_partial(500).unwrap();
    assert_eq!(c.get_escrow_info().unwrap().amount, 500);
    let t = c.release_milestone(BUYER, 1).unwrap();
    assert_eq!(
        t,
        vec![
            Transfer::Payout { token: TOKEN, to: SELLER, amount: 630 },
            Transfer::Payout { token: TOKEN, to: TREASURY, amount: 70 },
        ]
    );
    assert_eq!(c.get_escrow_info().unwrap().amount, -200);
    assert_eq!(c.get_state(), Some(EscrowState::Funded));
    c.mark_delivered().unwrap();
    let t = c.approve_delivery().unwrap();
    assert_eq!(t, vec![Transfer::Payout { token: TOKEN, to: SELLER, amount: -180 }]);
}
