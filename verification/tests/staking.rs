use std::collections::HashMap;

use soroban_templates::common::{AccountId, Transfer};
use soroban_templates::staking::{calculate_earned, StakingContract, StakingError, REWARD_SCALE};

const CONTRACT: AccountId = 999;
const ADMIN: AccountId = 1;
const STAKE_TOKEN: AccountId = 100;
const REWARD_TOKEN: AccountId = 101;
const SLASH_DEST: AccountId = 50;

/// Token balances that follow the movements a contract asks for.
struct Bank {
    balances: HashMap<(AccountId, AccountId), i128>,
}

impl Bank {
    fn new() -> Self {
        Bank { balances: HashMap::new() }
    }

    fn mint(&mut self, token: AccountId, to: AccountId, amount: i128) {
        *self.balances.entry((token, to)).or_insert(0) += amount;
    }

    fn balance(&self, token: AccountId, who: AccountId) -> i128 {
        *self.balances.get(&(token, who)).unwrap_or(&0)
    }

    fn move_tokens(&mut self, token: AccountId, from: AccountId, to: AccountId, amount: i128) {
        assert!(self.balance(token, from) >= amount, "insufficient balance");
        self.mint(token, from, -amount);
        self.mint(token, to, amount);
    }

    fn apply(&mut self, transfers: &[Transfer]) {
        for t in transfers {
            match *t {
                Transfer::Deposit { token, from, amount } => self.move_tokens(token, from, CONTRACT, amount),
                Transfer::Payout { token, to, amount } => self.move_tokens(token, CONTRACT, to, amount),
                Transfer::Direct { token, from, to, amount } => self.move_tokens(token, from, to, amount),
            }
        }
    }
}

fn setup_with(period: u32, reward_token: AccountId) -> (StakingContract, Bank) {
    let mut c = StakingContract::new();
    c.initialize(ADMIN, STAKE_TOKEN, reward_token, period, SLASH_DEST).unwrap();
    let mut bank = Bank::new();
    bank.mint(reward_token, ADMIN, 1_000_000_000);
    (c, bank)
}

fn setup() -> (StakingContract, Bank) {
    setup_with(0, REWARD_TOKEN)
}

fn stake(c: &mut StakingContract, bank: &mut Bank, who: AccountId, amount: i128) {
    let t = c.stake(who, amount).unwrap();
    bank.apply(&t);
}

fn add_rewards(c: &mut StakingContract, bank: &mut Bank, amount: i128) {
    let t = c.add_rewards(amount).unwrap();
    bank.apply(&t);
}

#[test]
fn test_initialize_stores_state() {
    let (c, _) = setup();
    assert_eq!(c.get_total_staked(), 0);
    assert_eq!(c.get_total_rewards(), 0);
    assert_eq!(c.contract_version(), 1);
}

#[test]
fn test_initialize_twice_fails() {
    let (mut c, _) = setup();
    let result = c.initialize(ADMIN, STAKE_TOKEN, REWARD_TOKEN, 0, SLASH_DEST);
    assert_eq!(result, Err(StakingError::AlreadyInitialized));
}

#[test]
fn test_stake_increases_balance() {
    let (mut c, mut bank) = setup();
    let staker = 10;
    bank.mint(STAKE_TOKEN, staker, 1_000);
    stake(&mut c, &mut bank, staker, 500);
    assert_eq!(c.get_stake(staker), 500);
    assert_eq!(c.get_total_staked(), 500);
}

#[test]
fn test_stake_zero_fails() {
    let (mut c, _) = setup();
    let result = c.stake(10, 0);
    assert_eq!(result, Err(StakingError::InvalidAmount));
}

#[test]
fn test_unstake_returns_tokens_immediately_when_no_unbonding_period() {
    let (mut c, mut bank) = setup();
    let staker = 10;
    bank.mint(STAKE_TOKEN, staker, 1_000);
    stake(&mut c, &mut bank, staker, 1_000);
    let t = c.unstake(staker, 400, 1).unwrap();
    bank.apply(&t);
    assert_eq!(c.get_stake(staker), 600);
    assert_eq!(c.get_total_staked(), 600);
    assert_eq!(bank.balance(STAKE_TOKEN, staker), 400);
}

#[test]
fn test_unstake_more_than_staked_fails() {
    let (mut c, mut bank) = setup();
    let staker = 10;
    bank.mint(STAKE_TOKEN, staker, 1_000);
    stake(&mut c, &mut bank, staker, 500);
    let result = c.unstake(staker, 501, 1);
    assert_eq!(result, Err(StakingError::InsufficientStake));
}

#[test]
fn test_unstake_with_no_stake_fails() {
    let (mut c, _) = setup();
    let result = c.unstake(10, 100, 1);
    assert_eq!(result, Err(StakingError::NoStake));
}

#[test]
fn test_add_rewards_unauthorized_fails() {
    let (mut c, _) = setup();
    let result = c.add_rewards(0);
    assert_eq!(result, Err(StakingError::InvalidAmount));
}

#[test]
fn test_rewards_distributed_proportionally() {
    let (mut c, mut bank) = setup();
    let alice = 10;
    let bob = 11;
    bank.mint(STAKE_TOKEN, alice, 1_000);
    bank.mint(STAKE_TOKEN, bob, 3_000);
    stake(&mut c, &mut bank, alice, 1_000);
    stake(&mut c, &mut bank, bob, 3_000);
    add_rewards(&mut c, &mut bank, 4_000);
    assert_eq!(c.get_rewards(alice), Ok(1_000));
    assert_eq!(c.get_rewards(bob), Ok(3_000));
}

#[test]
fn test_claim_rewards_transfers_tokens() {
    let (mut c, mut bank) = setup();
    let staker = 10;
    bank.mint(STAKE_TOKEN, staker, 1_000);
    stake(&mut c, &mut bank, staker, 1_000);
    add_rewards(&mut c, &mut bank, 500);
    let (claimed, t) = c.claim_rewards(staker).unwrap();
    bank.apply(&t);
    assert_eq!(claimed, 500);
    assert_eq!(bank.balance(REWARD_TOKEN, staker), 500);
    assert_eq!(c.get_rewards(staker), Ok(0));
}

#[test]
fn test_claim_rewards_with_no_rewards_fails() {
    let (mut c, mut bank) = setup();
    let staker = 10;
    bank.mint(STAKE_TOKEN, staker, 100);
    stake(&mut c, &mut bank, staker, 100);
    let result = c.claim_rewards(staker);
    assert_eq!(result.err(), Some(StakingError::NoRewards));
}

#[test]
fn test_rewards_accrue_incrementally() {
    let (mut c, mut bank) = setup();
    let staker = 10;
    bank.mint(STAKE_TOKEN, staker, 1_000);
    stake(&mut c, &mut bank, staker, 1_000);
    add_rewards(&mut c, &mut bank, 200);
    add_rewards(&mut c, &mut bank, 300);
    assert_eq!(c.get_rewards(staker), Ok(500));
}

#[test]
fn test_late_staker_does_not_receive_prior_rewards() {
    let (mut c, mut bank) = setup();
    let alice = 10;
    let bob = 11;
    bank.mint(STAKE_TOKEN, alice, 1_000);
    bank.mint(STAKE_TOKEN, bob, 1_000);
    stake(&mut c, &mut bank, alice, 1_000);
    add_rewards(&mut c, &mut bank, 1_000);
    stake(&mut c, &mut bank, bob, 1_000);
    assert_eq!(c.get_rewards(alice), Ok(1_000));
    assert_eq!(c.get_rewards(bob), Ok(0));
}

#[test]
fn test_full_unstake_then_restake_accrues_correctly() {
    let (mut c, mut bank) = setup();
    let staker = 10;
    bank.mint(STAKE_TOKEN, staker, 1_000);
    stake(&mut c, &mut bank, staker, 1_000);
    add_rewards(&mut c, &mut bank, 500);
    let t = c.unstake(staker, 1_000, 1).unwrap();
    bank.apply(&t);
    assert_eq!(c.get_rewards(staker), Ok(500));
    let (claimed, t) = c.claim_rewards(staker).unwrap();
    bank.apply(&t);
    assert_eq!(claimed, 500);
    bank.mint(STAKE_TOKEN, staker, 1_000);
    stake(&mut c, &mut bank, staker, 1_000);
    add_rewards(&mut c, &mut bank, 300);
    assert_eq!(c.get_rewards(staker), Ok(300));
}

#[test]
fn test_compound_adds_rewards_to_stake() {
    let (mut c, mut bank) = setup_with(0, STAKE_TOKEN);
    let staker = 10;
    bank.mint(STAKE_TOKEN, staker, 1_000);
    stake(&mut c, &mut bank, staker, 1_000);
    add_rewards(&mut c, &mut bank, 500);
    let compounded = c.compound(staker).unwrap();
    assert_eq!(compounded, 500);
    assert_eq!(c.get_stake(staker), 1_500);
    assert_eq!(c.get_rewards(staker), Ok(0));
    assert_eq!(bank.balance(STAKE_TOKEN, staker), 0);
}

#[test]
fn test_compound_vs_claim_same_value() {
    let (mut a, mut bank_a) = setup_with(0, STAKE_TOKEN);
    let (mut b, mut bank_b) = setup_with(0, STAKE_TOKEN);
    let staker_a = 10;
    let staker_b = 11;
    bank_a.mint(STAKE_TOKEN, staker_a, 1_000);
    bank_b.mint(STAKE_TOKEN, staker_b, 1_000);
    stake(&mut a, &mut bank_a, staker_a, 1_000);
    stake(&mut b, &mut bank_b, staker_b, 1_000);
    add_rewards(&mut a, &mut bank_a, 700);
    add_rewards(&mut b, &mut bank_b, 700);
    let compounded = a.compound(staker_a).unwrap();
    let (claimed, t) = b.claim_rewards(staker_b).unwrap();
    bank_b.apply(&t);
    assert_eq!(compounded, claimed);
    assert_eq!(a.get_stake(staker_a), 1_000 + compounded);
    assert_eq!(b.get_stake(staker_b), 1_000);
    assert_eq!(bank_b.balance(STAKE_TOKEN, staker_b), claimed);
}

#[test]
fn test_compound_requires_same_token() {
    let (mut c, mut bank) = setup();
    let staker = 10;
    bank.mint(STAKE_TOKEN, staker, 1_000);
    stake(&mut c, &mut bank, staker, 1_000);
    add_rewards(&mut c, &mut bank, 500);
    assert_eq!(c.compound(staker), Err(StakingError::CompoundTokenMismatch));
}

#[test]
fn test_compound_no_rewards_fails() {
    let (mut c, mut bank) = setup_with(0, STAKE_TOKEN);
    let staker = 10;
    bank.mint(STAKE_TOKEN, staker, 1_000);
    stake(&mut c, &mut bank, staker, 1_000);
    assert_eq!(c.compound(staker), Err(StakingError::NoRewards));
}

#[test]
fn test_unstake_queues_unbond_request() {
    let (mut c, mut bank) = setup_with(100, REWARD_TOKEN);
    let staker = 10;
    bank.mint(STAKE_TOKEN, staker, 1_000);
    stake(&mut c, &mut bank, staker, 1_000);
    let t = c.unstake(staker, 600, 5).unwrap();
    bank.apply(&t);
    assert_eq!(c.get_stake(staker), 400);
    assert_eq!(bank.balance(STAKE_TOKEN, staker), 0);
    let req = c.get_unbond_request(staker).unwrap();
    assert_eq!(req.amount, 600);
    assert_eq!(req.available_at, 105);
}

#[test]
fn test_withdraw_before_period_fails() {
    let (mut c, mut bank) = setup_with(100, REWARD_TOKEN);
    let staker = 10;
    bank.mint(STAKE_TOKEN, staker, 1_000);
    stake(&mut c, &mut bank, staker, 1_000);
    c.unstake(staker, 1_000, 0).unwrap();
    let result = c.withdraw(staker, 99);
    assert_eq!(result.err(), Some(StakingError::UnbondingNotComplete));
}

#[test]
fn test_withdraw_after_period_succeeds() {
    let (mut c, mut bank) = setup_with(100, REWARD_TOKEN);
    let staker = 10;
    bank.mint(STAKE_TOKEN, staker, 1_000);
    stake(&mut c, &mut bank, staker, 1_000);
    c.unstake(staker, 1_000, 0).unwrap();
    let (withdrawn, t) = c.withdraw(staker, 100).unwrap();
    bank.apply(&t);
    assert_eq!(withdrawn, 1_000);
    assert_eq!(bank.balance(STAKE_TOKEN, staker), 1_000);
    assert!(c.get_unbond_request(staker).is_none());
}

#[test]
fn test_withdraw_no_request_fails() {
    let (mut c, mut bank) = setup_with(100, REWARD_TOKEN);
    let staker = 10;
    bank.mint(STAKE_TOKEN, staker, 1_000);
    stake(&mut c, &mut bank, staker, 1_000);
    let result = c.withdraw(staker, 500);
    assert_eq!(result.err(), Some(StakingError::NoUnbondRequest));
}

#[test]
fn test_second_unstake_before_withdraw_fails() {
    let (mut c, mut bank) = setup_with(50, REWARD_TOKEN);
    let staker = 10;
    bank.mint(STAKE_TOKEN, staker, 2_000);
    stake(&mut c, &mut bank, staker, 2_000);
    c.unstake(staker, 500, 0).unwrap();
    assert_eq!(c.get_stake(staker), 1_500);
    assert_eq!(c.get_unbond_request(staker).unwrap().amount, 500);
    let result = c.unstake(staker, 300, 0);
    assert_eq!(result.err(), Some(StakingError::UnbondRequestPending));
    assert_eq!(c.get_unbond_request(staker).unwrap().amount, 500);
    let (withdrawn, t) = c.withdraw(staker, 50).unwrap();
    bank.apply(&t);
    assert_eq!(withdrawn, 500);
    assert_eq!(bank.balance(STAKE_TOKEN, staker), 500);
}

#[test]
fn test_slash_accounting_and_balance() {
    let (mut c, mut bank) = setup();
    let staker = 10;
    bank.mint(STAKE_TOKEN, staker, 1_000);
    stake(&mut c, &mut bank, staker, 1_000);
    let (slashed, t) = c.slash(staker, 300).unwrap();
    bank.apply(&t);
    assert_eq!(slashed, 300);
    assert_eq!(c.get_stake(staker), 700);
    assert_eq!(c.get_total_staked(), 700);
    assert_eq!(bank.balance(STAKE_TOKEN, SLASH_DEST), 300);
}

#[test]
fn test_slash_capped_at_balance() {
    let (mut c, mut bank) = setup();
    let staker = 10;
    bank.mint(STAKE_TOKEN, staker, 200);
    stake(&mut c, &mut bank, staker, 200);
    let (slashed, t) = c.slash(staker, 500).unwrap();
    bank.apply(&t);
    assert_eq!(slashed, 200);
    assert_eq!(c.get_stake(staker), 0);
    assert_eq!(bank.balance(STAKE_TOKEN, SLASH_DEST), 200);
}

#[test]
fn test_slash_no_stake_fails() {
    let (mut c, _) = setup();
    assert_eq!(c.slash(10, 100).err(), Some(StakingError::NoStake));
}

#[test]
fn test_slash_zero_amount_fails() {
    let (mut c, mut bank) = setup();
    let staker = 10;
    bank.mint(STAKE_TOKEN, staker, 1_000);
    stake(&mut c, &mut bank, staker, 1_000);
    assert_eq!(c.slash(staker, 0).err(), Some(StakingError::InvalidAmount));
}

#[test]
fn single_staker_receives_all_rewards_within_rounding() {
    for (stake_amount, reward) in [(1i128, 1i128), (3, 10), (7, 1_000_000), (999_983, 12_345), (1_000_000, 1)] {
        let (mut c, mut bank) = setup();
        let staker = 10;
        bank.mint(STAKE_TOKEN, staker, stake_amount);
        stake(&mut c, &mut bank, staker, stake_amount);
        add_rewards(&mut c, &mut bank, reward);
        let (claimed, t) = c.claim_rewards(staker).unwrap();
        bank.apply(&t);
        assert!(claimed >= reward - 1 && claimed <= reward);
        assert_eq!(bank.balance(REWARD_TOKEN, staker), claimed);
    }
}

#[test]
fn two_stakers_rewards_never_exceed_deposit() {
    for (a, b, reward) in [(1i128, 2i128, 2i128), (333, 667, 1_000), (500_000, 1, 999_999), (7, 13, 5)] {
        let (mut c, mut bank) = setup();
        bank.mint(STAKE_TOKEN, 10, a);
        bank.mint(STAKE_TOKEN, 11, b);
        stake(&mut c, &mut bank, 10, a);
        stake(&mut c, &mut bank, 11, b);
        add_rewards(&mut c, &mut bank, reward);
        let total = c.get_rewards(10).unwrap() + c.get_rewards(11).unwrap();
        assert!(total <= reward);
    }
}

#[test]
fn stake_then_unstake_returns_principal() {
    for amount in [1i128, 17, 1_000_000] {
        let (mut c, mut bank) = setup();
        let staker = 10;
        bank.mint(STAKE_TOKEN, staker, amount);
        stake(&mut c, &mut bank, staker, amount);
        let t = c.unstake(staker, amount, 3).unwrap();
        bank.apply(&t);
        assert_eq!(bank.balance(STAKE_TOKEN, staker), amount);
        assert_eq!(c.get_stake(staker), 0);
        assert_eq!(c.get_total_staked(), 0);
    }
}

#[test]
fn calculate_earned_exact_values() {
    assert_eq!(calculate_earned(1_000, 5 * REWARD_SCALE / 10, 0, 7), Some(507));
    assert_eq!(calculate_earned(-3, REWARD_SCALE / 2, 0, 0), Some(-1));
    assert_eq!(calculate_earned(i128::MAX, 2, 0, 0), None);
    assert_eq!(calculate_earned(1, 0, i128::MIN, 0), None);
}

#[test]
fn reward_overflow_is_reported() {
    let (mut c, mut bank) = setup();
    bank.mint(STAKE_TOKEN, 10, 10);
    stake(&mut c, &mut bank, 10, 10);
    assert_eq!(c.add_rewards(i128::MAX / 2).err(), Some(StakingError::Overflow));
    assert_eq!(c.get_total_rewards(), 0);
}

#[test]
fn operations_before_initialize_fail() {
    let mut c = StakingContract::new();
    assert_eq!(c.stake(1, 10).err(), Some(StakingError::NotInitialized));
    assert_eq!(c.unstake(1, 10, 0).err(), Some(StakingError::NotInitialized));
    assert_eq!(c.withdraw(1, 0).err(), Some(StakingError::NotInitialized));
    assert_eq!(c.claim_rewards(1).err(), Some(StakingError::NotInitialized));
    assert_eq!(c.add_rewards(10).err(), Some(StakingError::NotInitialized));
    assert_eq!(c.slash(1, 10).err(), Some(StakingError::NotInitialized));
    assert_eq!(c.compound(1).err(), Some(StakingError::NotInitialized));
    assert_eq!(c.set_compounding(1, true).err(), Some(StakingError::NotInitialized));
    assert_eq!(c.get_rewards(1), Ok(0));
    assert_eq!(c.contract_version(), 0);
}

#[test]
fn rewards_paid_out_never_exceed_rewards_added_over_many_calls() {
    let (mut c, mut bank) = setup_with(0, STAKE_TOKEN);
    bank.mint(STAKE_TOKEN, ADMIN, 1_000_000);
    let stakers: [(AccountId, i128); 4] = [(10, 101), (11, 3_333), (12, 7), (13, 9_999)];
    for (who, amount) in stakers {
        bank.mint(STAKE_TOKEN, who, amount);
        stake(&mut c, &mut bank, who, amount);
    }
    let mut added = 0i128;
    let mut paid_out = 0i128;
    for (round, reward) in [997i128, 13, 100_003, 1].into_iter().enumerate() {
        add_rewards(&mut c, &mut bank, reward);
        added += reward;
        for (i, (who, _)) in stakers.iter().enumerate() {
            if (i + round) % 2 == 0 {
                if let Ok((amount, t)) = c.claim_rewards(*who) {
                    bank.apply(&t);
                    paid_out += amount;
                }
            } else if let Ok(amount) = c.compound(*who) {
                paid_out += amount;
            }
        }
        let owed: i128 = stakers.iter().map(|(who, _)| c.get_rewards(*who).unwrap()).sum();
        assert!(owed <= c.get_total_rewards());
        assert_eq!(paid_out + c.get_total_rewards(), added);
        let staked: i128 = stakers.iter().map(|(who, _)| c.get_stake(*who)).sum();
        assert_eq!(staked, c.get_total_staked());
    }
    assert!(paid_out <= added);
    assert!(bank.balance(STAKE_TOKEN, CONTRACT) >= c.get_total_staked() + c.get_total_rewards());
}

#[test]
fn initialize_on_fresh_contract_succeeds() {
    let mut c = StakingContract::new();
    assert_eq!(c.initialize(ADMIN, STAKE_TOKEN, REWARD_TOKEN, 5, SLASH_DEST), Ok(()));
    assert_eq!(c.contract_version(), 1);
    assert_eq!(c.get_total_staked(), 0);
    assert_eq!(c.get_total_rewards(), 0);
}
