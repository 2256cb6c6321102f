use soroban_templates::common::AccountId;
use soroban_templates::multisig::{validate_threshold, MultisigContract, MultisigError, SignerWeight};

const ALICE: AccountId = 1;
const BOB: AccountId = 2;
const CAROL: AccountId = 3;
const DAVE: AccountId = 4;
const TARGET: AccountId = 77;

/// A counter contract that an executed transaction increments by its call
/// payload.
struct Counter {
    value: u32,
}

fn create_multisig() -> MultisigContract<u32> {
    let mut c = MultisigContract::new();
    c.initialize(vec![ALICE, BOB, CAROL], 2, None).unwrap();
    c
}

fn create_weighted_multisig() -> MultisigContract<u32> {
    let mut c = MultisigContract::new();
    let weights = vec![
        SignerWeight { signer: ALICE, weight: 3 },
        SignerWeight { signer: BOB, weight: 2 },
        SignerWeight { signer: CAROL, weight: 1 },
    ];
    c.initialize(vec![ALICE, BOB, CAROL], 4, Some(weights)).unwrap();
    c
}

fn execute(c: &mut MultisigContract<u32>, counter: &mut Counter, tx_id: u64, ledger: u32) -> Result<u32, MultisigError> {
    c.execute_transaction(tx_id, ledger)?;
    let amount = c.get_transaction(tx_id).unwrap().call;
    counter.value += amount;
    Ok(counter.value)
}

#[test]
fn initialize_stores_signers_and_threshold() {
    let c = create_multisig();
    assert_eq!(c.get_threshold(), Some(2));
    assert_eq!(c.get_signers(), &vec![ALICE, BOB, CAROL]);
    assert_eq!(c.contract_version(), 1);
}

#[test]
fn initialize_rejects_zero_threshold() {
    let mut c: MultisigContract<u32> = MultisigContract::new();
    assert_eq!(c.initialize(vec![ALICE], 0, None), Err(MultisigError::InvalidThreshold));
}

#[test]
fn initialize_rejects_duplicate_signers() {
    let mut c: MultisigContract<u32> = MultisigContract::new();
    assert_eq!(c.initialize(vec![ALICE, ALICE], 1, None), Err(MultisigError::InvalidSigners));
}

#[test]
fn add_signer_with_threshold_approvals_updates_signer_set() {
    let mut c = create_multisig();
    c.add_signer(vec![ALICE, BOB], DAVE, 3).unwrap();
    assert_eq!(c.get_threshold(), Some(3));
    assert_eq!(c.get_signers(), &vec![ALICE, BOB, CAROL, DAVE]);
}

#[test]
fn add_signer_rejects_insufficient_approvals() {
    let mut c = create_multisig();
    assert_eq!(c.add_signer(vec![ALICE], DAVE, 2), Err(MultisigError::InsufficientApprovals));
}

#[test]
fn remove_signer_with_threshold_approvals_updates_signer_set() {
    let mut c = create_multisig();
    c.remove_signer(vec![ALICE, BOB], CAROL, 2).unwrap();
    assert_eq!(c.get_threshold(), Some(2));
    assert_eq!(c.get_signers(), &vec![ALICE, BOB]);
    assert!(!c.is_signer(CAROL));
}

#[test]
fn remove_signer_rejects_threshold_above_remaining_signers() {
    let mut c = create_multisig();
    assert_eq!(c.remove_signer(vec![ALICE, BOB], CAROL, 3), Err(MultisigError::InvalidThreshold));
}

#[test]
fn propose_transaction_stores_transaction_and_auto_signature() {
    let mut c = create_multisig();
    let tx_id = c.propose_transaction(ALICE, TARGET, 7, 100, 0).unwrap();
    let tx = c.get_transaction(tx_id).expect("transaction exists");
    assert_eq!(tx_id, 0);
    assert_eq!(tx.proposer, ALICE);
    assert_eq!(tx.target, TARGET);
    assert_eq!(tx.signatures, vec![ALICE]);
    assert!(!tx.executed);
    assert_eq!(c.signature_count(tx_id), Some(1));
}

#[test]
fn non_signer_cannot_propose_transaction() {
    let mut c = create_multisig();
    assert_eq!(c.propose_transaction(DAVE, TARGET, 1, 100, 0), Err(MultisigError::NotSigner));
}

#[test]
fn signer_cannot_sign_same_transaction_twice() {
    let mut c = create_multisig();
    let tx_id = c.propose_transaction(ALICE, TARGET, 1, 100, 0).unwrap();
    assert_eq!(c.sign_transaction(ALICE, tx_id, 0), Err(MultisigError::AlreadySigned));
}

#[test]
fn execute_rejects_when_threshold_not_met() {
    let mut c = create_multisig();
    let tx_id = c.propose_transaction(ALICE, TARGET, 1, 100, 0).unwrap();
    assert_eq!(c.execute_transaction(tx_id, 0), Err(MultisigError::ThresholdNotMet));
}

#[test]
fn execute_runs_target_call_once_when_threshold_met() {
    let mut c = create_multisig();
    let mut counter = Counter { value: 0 };
    let tx_id = c.propose_transaction(ALICE, TARGET, 5, 100, 0).unwrap();
    c.sign_transaction(BOB, tx_id, 0).unwrap();
    let value = execute(&mut c, &mut counter, tx_id, 0).unwrap();
    assert_eq!(value, 5);
    assert_eq!(counter.value, 5);
    assert!(c.get_transaction(tx_id).expect("transaction exists").executed);
}

#[test]
fn execute_rejects_second_execution() {
    let mut c = create_multisig();
    let tx_id = c.propose_transaction(ALICE, TARGET, 5, 100, 0).unwrap();
    c.sign_transaction(BOB, tx_id, 0).unwrap();
    c.execute_transaction(tx_id, 0).unwrap();
    assert_eq!(c.execute_transaction(tx_id, 0), Err(MultisigError::AlreadyExecuted));
}

#[test]
fn proposal_stores_expiry_ledger() {
    let mut c = create_multisig();
    let tx_id = c.propose_transaction(ALICE, TARGET, 1, 50, 0).unwrap();
    assert_eq!(c.get_transaction(tx_id).expect("transaction exists").expiry_ledger, 50);
}

#[test]
fn sign_after_expiry_fails() {
    let mut c = create_multisig();
    let tx_id = c.propose_transaction(ALICE, TARGET, 1, 10, 0).unwrap();
    assert_eq!(c.sign_transaction(BOB, tx_id, 11), Err(MultisigError::ProposalExpired));
}

#[test]
fn execute_after_expiry_fails() {
    let mut c = create_multisig();
    let tx_id = c.propose_transaction(ALICE, TARGET, 1, 10, 0).unwrap();
    c.sign_transaction(BOB, tx_id, 0).unwrap();
    assert_eq!(c.execute_transaction(tx_id, 11), Err(MultisigError::ProposalExpired));
}

#[test]
fn cleanup_expired_removes_proposal_and_emits_event() {
    let mut c = create_multisig();
    let tx_id = c.propose_transaction(ALICE, TARGET, 1, 10, 0).unwrap();
    c.cleanup_expired(tx_id, 11).unwrap();
    assert!(c.get_transaction(tx_id).is_none());
}

#[test]
fn cleanup_not_yet_expired_fails() {
    let mut c = create_multisig();
    let tx_id = c.propose_transaction(ALICE, TARGET, 1, 100, 0).unwrap();
    assert_eq!(c.cleanup_expired(tx_id, 0), Err(MultisigError::ProposalNotExpired));
}

#[test]
fn weighted_initialize_stores_weights() {
    let c = create_weighted_multisig();
    assert_eq!(c.get_signer_weight(ALICE), 3);
    assert_eq!(c.get_signer_weight(BOB), 2);
    assert_eq!(c.get_signer_weight(CAROL), 1);
    assert_eq!(c.get_threshold(), Some(4));
}

#[test]
fn weighted_threshold_met_with_two_heavy_signers() {
    let mut c = create_weighted_multisig();
    let mut counter = Counter { value: 0 };
    let tx_id = c.propose_transaction(ALICE, TARGET, 10, 100, 0).unwrap();
    c.sign_transaction(BOB, tx_id, 0).unwrap();
    execute(&mut c, &mut counter, tx_id, 0).unwrap();
    assert_eq!(counter.value, 10);
}

#[test]
fn weighted_threshold_not_met_with_single_heavy_signer() {
    let mut c = create_weighted_multisig();
    let tx_id = c.propose_transaction(ALICE, TARGET, 1, 100, 0).unwrap();
    assert_eq!(c.execute_transaction(tx_id, 0), Err(MultisigError::ThresholdNotMet));
}

#[test]
fn weighted_accumulated_weight_stored_on_proposal() {
    let mut c = create_weighted_multisig();
    let tx_id = c.propose_transaction(ALICE, TARGET, 1, 100, 0).unwrap();
    assert_eq!(c.get_transaction(tx_id).unwrap().accumulated_weight, 3);
    c.sign_transaction(BOB, tx_id, 0).unwrap();
    assert_eq!(c.get_transaction(tx_id).unwrap().accumulated_weight, 5);
}

#[test]
fn initialize_rejects_zero_weight() {
    let mut c: MultisigContract<u32> = MultisigContract::new();
    let weights = vec![SignerWeight { signer: ALICE, weight: 0 }, SignerWeight { signer: BOB, weight: 1 }];
    assert_eq!(c.initialize(vec![ALICE, BOB], 1, Some(weights)), Err(MultisigError::InvalidWeight));
}

#[test]
fn execute_batch_executes_all_ready_proposals() {
    let mut c = create_multisig();
    let tx0 = c.propose_transaction(ALICE, TARGET, 1, 100, 0).unwrap();
    c.sign_transaction(BOB, tx0, 0).unwrap();
    let tx1 = c.propose_transaction(ALICE, TARGET, 2, 100, 0).unwrap();
    c.sign_transaction(BOB, tx1, 0).unwrap();
    let (executed, skipped) = c.execute_batch(&vec![tx0, tx1], 0);
    assert_eq!(executed.len(), 2);
    assert_eq!(skipped, 0);
    let total: u32 = executed.iter().map(|id| c.get_transaction(*id).unwrap().call).sum();
    assert_eq!(total, 3);
}

#[test]
fn execute_batch_skips_already_executed_proposal() {
    let mut c = create_multisig();
    let tx_id = c.propose_transaction(ALICE, TARGET, 5, 100, 0).unwrap();
    c.sign_transaction(BOB, tx_id, 0).unwrap();
    c.execute_transaction(tx_id, 0).unwrap();
    let tx1 = c.propose_transaction(ALICE, TARGET, 1, 100, 0).unwrap();
    c.sign_transaction(BOB, tx1, 0).unwrap();
    let (executed, skipped) = c.execute_batch(&vec![tx_id, tx1], 0);
    assert_eq!(executed, vec![tx1]);
    assert_eq!(skipped, 1);
}

#[test]
fn execute_batch_skips_nonexistent_proposal() {
    let mut c = create_multisig();
    let tx_id = c.propose_transaction(ALICE, TARGET, 7, 100, 0).unwrap();
    c.sign_transaction(BOB, tx_id, 0).unwrap();
    let (executed, _) = c.execute_batch(&vec![999, tx_id], 0);
    assert_eq!(executed, vec![tx_id]);
}

#[test]
fn execute_batch_skips_threshold_not_met_proposal() {
    let mut c = create_multisig();
    let tx0 = c.propose_transaction(ALICE, TARGET, 1, 100, 0).unwrap();
    let tx1 = c.propose_transaction(ALICE, TARGET, 3, 100, 0).unwrap();
    c.sign_transaction(BOB, tx1, 0).unwrap();
    let (executed, _) = c.execute_batch(&vec![tx0, tx1], 0);
    assert_eq!(executed, vec![tx1]);
}

#[test]
fn execute_batch_emits_batch_executed_event() {
    let mut c = create_multisig();
    let tx_id = c.propose_transaction(ALICE, TARGET, 1, 100, 0).unwrap();
    c.sign_transaction(BOB, tx_id, 0).unwrap();
    let (executed, skipped) = c.execute_batch(&vec![tx_id], 0);
    assert_eq!((executed.len(), skipped), (1, 0));
    assert!(c.get_transaction(tx_id).unwrap().executed);
}

#[test]
fn sign_returns_signature_count() {
    let mut c = create_multisig();
    let tx_id = c.propose_transaction(ALICE, TARGET, 1, 100, 0).unwrap();
    assert_eq!(c.sign_transaction(BOB, tx_id, 0), Ok(2));
    assert_eq!(c.sign_transaction(CAROL, tx_id, 0), Ok(3));
    assert_eq!(c.sign_transaction(DAVE, tx_id, 0), Err(MultisigError::NotSigner));
}

#[test]
fn multisig_threshold_validation() {
    assert_eq!(validate_threshold(0, 3), Err(MultisigError::InvalidThreshold));
    assert_eq!(validate_threshold(4, 3), Err(MultisigError::InvalidThreshold));
    assert_eq!(validate_threshold(3, 3), Ok(()));
}
