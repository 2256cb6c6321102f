use std::collections::HashMap;

use soroban_templates::common::{AccountId, Transfer};
use soroban_templates::swap::{SwapContract, SwapError, SwapState};

const CONTRACT: AccountId = 999;
const PARTY_A: AccountId = 10;
const PARTY_B: AccountId = 11;
const TOKEN_A: AccountId = 100;
const TOKEN_B: AccountId = 101;

struct Bank {
    balances: HashMap<(AccountId, AccountId), i128>,
}

impl Bank {
    fn new() -> Self {
        let mut b = Bank { balances: HashMap::new() };
        b.mint(TOKEN_A, PARTY_A, 10_000);
        b.mint(TOKEN_B, PARTY_B, 10_000);
        b
    }

    fn mint(&mut self, token: AccountId, to: AccountId, amount: i128) {
        *self.balances.entry((token, to)).or_insert(0) += amount;
    }

    fn balance(&self, token: AccountId, who: AccountId) -> i128 {
        *self.balances.get(&(token, who)).unwrap_or(&0)
    }

    fn move_tokens(&mut self, token: AccountId, from: AccountId, to: AccountId, amount: i128) {
        assert!(self.balance(token, from) >= amount, "insufficient balance");
        self.mint(token, from, -amount);
        self.mint(token, to, amount);
    }

    fn apply(&mut self, transfers: &[Transfer]) {
        for t in transfers {
            match *t {
                Transfer::Deposit { token, from, amount } => self.move_tokens(token, from, CONTRACT, amount),
                Transfer::Payout { token, to, amount } => self.move_tokens(token, CONTRACT, to, amount),
                Transfer::Direct { token, from, to, amount } => self.move_tokens(token, from, to, amount),
            }
        }
    }
}

fn propose(c: &mut SwapContract, bank: &mut Bank, amount_a: i128, amount_b: i128, expires_at: u32) -> u32 {
    let (id, t) = c.propose_swap(PARTY_A, TOKEN_A, amount_a, TOKEN_B, amount_b, expires_at, 0).unwrap();
    bank.apply(&t);
    id
}

#[test]
fn test_propose_swap() {
    let mut c = SwapContract::new();
    let mut bank = Bank::new();
    let id = propose(&mut c, &mut bank, 1_000, 500, 100);
    assert_eq!(id, 0);
    assert_eq!(c.swap_count(), 1);
    let s = c.get_swap(0).unwrap();
    assert_eq!(s.party_a, PARTY_A);
    assert_eq!(s.state, SwapState::Open);
    assert_eq!(s.amount_a, 1_000);
    assert_eq!(s.amount_b, 500);
}

#[test]
fn test_propose_swap_zero_amount_fails() {
    let mut c = SwapContract::new();
    let r = c.propose_swap(PARTY_A, TOKEN_A, 0, TOKEN_B, 500, 100, 0);
    assert_eq!(r.err(), Some(SwapError::InvalidAmount));
}

#[test]
fn test_propose_swap_past_expiry_fails() {
    let mut c = SwapContract::new();
    let r = c.propose_swap(PARTY_A, TOKEN_A, 1_000, TOKEN_B, 500, 100, 200);
    assert_eq!(r.err(), Some(SwapError::InvalidDeadline));
}

#[test]
fn test_accept_swap() {
    let mut c = SwapContract::new();
    let mut bank = Bank::new();
    let id = propose(&mut c, &mut bank, 1_000, 500, 100);
    let (_, t) = c.accept_swap(id, PARTY_B, 0).unwrap();
    bank.apply(&t);
    assert_eq!(c.get_swap(id).unwrap().state, SwapState::Completed);
    assert_eq!(bank.balance(TOKEN_A, PARTY_B), 1_000);
    assert_eq!(bank.balance(TOKEN_B, PARTY_A), 500);
}

#[test]
fn test_accept_swap_after_expiry_fails() {
    let mut c = SwapContract::new();
    let mut bank = Bank::new();
    let id = propose(&mut c, &mut bank, 1_000, 500, 10);
    assert_eq!(c.accept_swap(id, PARTY_B, 11).err(), Some(SwapError::DeadlineExpired));
}

#[test]
fn test_cancel_swap_by_party_a() {
    let mut c = SwapContract::new();
    let mut bank = Bank::new();
    let id = propose(&mut c, &mut bank, 1_000, 500, 100);
    assert!(c.cancel_needs_proposer_auth(id, 0));
    let t = c.cancel_swap(id).unwrap();
    bank.apply(&t);
    assert_eq!(c.get_swap(id).unwrap().state, SwapState::Cancelled);
}

#[test]
fn test_cancel_swap_after_deadline_by_anyone() {
    let mut c = SwapContract::new();
    let mut bank = Bank::new();
    let id = propose(&mut c, &mut bank, 1_000, 500, 10);
    assert!(!c.cancel_needs_proposer_auth(id, 11));
    c.cancel_swap(id).unwrap();
    assert_eq!(c.get_swap(id).unwrap().state, SwapState::Cancelled);
}

#[test]
fn test_proposer_reclaims_escrowed_assets_after_expiry() {
    let mut c = SwapContract::new();
    let mut bank = Bank::new();
    let initial = bank.balance(TOKEN_A, PARTY_A);
    let id = propose(&mut c, &mut bank, 1_000, 500, 10);
    assert_eq!(bank.balance(TOKEN_A, CONTRACT), 1_000);
    assert_eq!(bank.balance(TOKEN_A, PARTY_A), initial - 1_000);
    let t = c.cancel_swap(id).unwrap();
    bank.apply(&t);
    assert_eq!(bank.balance(TOKEN_A, CONTRACT), 0);
    assert_eq!(bank.balance(TOKEN_A, PARTY_A), initial);
    assert_eq!(c.get_swap(id).unwrap().state, SwapState::Cancelled);
}

#[test]
fn test_accept_completed_swap_fails() {
    let mut c = SwapContract::new();
    let mut bank = Bank::new();
    let id = propose(&mut c, &mut bank, 1_000, 500, 100);
    c.accept_swap(id, PARTY_B, 0).unwrap();
    assert_eq!(c.accept_swap(id, PARTY_B, 0).err(), Some(SwapError::AlreadyCompleted));
}

#[test]
fn test_cancel_already_cancelled_fails() {
    let mut c = SwapContract::new();
    let mut bank = Bank::new();
    let id = propose(&mut c, &mut bank, 1_000, 500, 100);
    c.cancel_swap(id).unwrap();
    assert_eq!(c.cancel_swap(id).err(), Some(SwapError::AlreadyCancelled));
}

#[test]
fn test_configuration_getters_work() {
    let mut c = SwapContract::new();
    c.initialize(PARTY_A, 77, 50).unwrap();
    assert_eq!(c.get_admin(), Ok(PARTY_A));
    assert_eq!(c.get_treasury(), Ok(77));
    assert_eq!(c.get_fee_bps(), Ok(50));
}

#[test]
fn test_fee_deducted_when_swap_accepted() {
    let mut c = SwapContract::new();
    let mut bank = Bank::new();
    let treasury = 77;
    c.initialize(PARTY_A, treasury, 50).unwrap();
    let b0 = bank.balance(TOKEN_B, PARTY_B);
    let a0 = bank.balance(TOKEN_B, PARTY_A);
    let t0 = bank.balance(TOKEN_B, treasury);
    let amount_b = 500;
    let id = propose(&mut c, &mut bank, 1_000, amount_b, 100);
    let (_, t) = c.accept_swap(id, PARTY_B, 0).unwrap();
    bank.apply(&t);
    let fee = (amount_b * 50) / 10_000;
    let party_a_receives = amount_b - fee;
    assert_eq!(bank.balance(TOKEN_B, PARTY_B), b0 - amount_b);
    assert_eq!(bank.balance(TOKEN_B, PARTY_A), a0 + party_a_receives);
    assert_eq!(bank.balance(TOKEN_B, treasury), t0 + fee);
    assert_eq!(bank.balance(TOKEN_B, CONTRACT), 0);
}

#[test]
fn test_admin_can_update_configuration() {
    let mut c = SwapContract::new();
    c.initialize(PARTY_A, 77, 50).unwrap();
    c.set_treasury(78).unwrap();
    assert_eq!(c.get_treasury(), Ok(78));
    c.set_fee_bps(100).unwrap();
    assert_eq!(c.get_fee_bps(), Ok(100));
    c.set_admin(12).unwrap();
    assert_eq!(c.get_admin(), Ok(12));
}

#[test]
fn test_multiple_swaps_increment_id() {
    let mut c = SwapContract::new();
    let mut bank = Bank::new();
    let id0 = propose(&mut c, &mut bank, 100, 50, 100);
    let id1 = propose(&mut c, &mut bank, 200, 100, 100);
    assert_eq!(id0, 0);
    assert_eq!(id1, 1);
    assert_eq!(c.swap_count(), 2);
}

#[test]
fn swap_configuration_errors() {
    let mut c = SwapContract::new();
    assert_eq!(c.set_treasury(1), Err(SwapError::NotInitialized));
    assert_eq!(c.get_fee_bps(), Err(SwapError::NotInitialized));
    assert_eq!(c.initialize(1, 2, 10_001), Err(SwapError::InvalidFee));
    c.initialize(1, 2, 10).unwrap();
    assert_eq!(c.initialize(1, 2, 10), Err(SwapError::AlreadyInitialized));
    assert_eq!(c.set_fee_bps(10_001), Err(SwapError::InvalidFee));
    assert_eq!(c.get_swap(5).err(), Some(SwapError::SwapNotFound));
}
