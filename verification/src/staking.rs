//! Staking rewards: stakers deposit a token and earn a share of reward
//! deposits proportional to their stake (reward-per-token accumulator),
//! with optional unbonding delay, compounding and admin slashing.

use std::collections::HashMap;
use vstd::prelude::*;

use crate::common::{div_trunc, fits_i128, AccountId, Transfer};

verus! {

broadcast use vstd::std_specs::hash::group_hash_axioms;

/// Errors returned by the staking contract.
#[derive(Clone, Copy, Debug, PartialEq, Eq, Structural)]
pub enum StakingError {
    /// `initialize` was called on an already-initialized contract.
    AlreadyInitialized,
    /// An operation was attempted before the contract was initialized.
    NotInitialized,
    /// Caller is not the admin.
    Unauthorized,
    /// Amount is zero or negative.
    InvalidAmount,
    /// Staker has no stake to unstake or slash.
    NoStake,
    /// Requested unstake amount exceeds the staker's current stake.
    InsufficientStake,
    /// No rewards are available to claim.
    NoRewards,
    /// Stake and reward token must be the same to compound.
    CompoundTokenMismatch,
    /// There is no pending unbond request to withdraw.
    NoUnbondRequest,
    /// The unbonding period has not elapsed yet.
    UnbondingNotComplete,
    /// An earlier unbond request is still pending withdrawal.
    UnbondRequestPending,
    /// An amount or accumulator would leave the range of `i128`.
    Overflow,
}

impl StakingError {
    /// The numeric code of this error in the contract interface.
    pub open spec fn spec_code(self) -> u32 {
        match self {
            StakingError::AlreadyInitialized => 1,
            StakingError::NotInitialized => 2,
            StakingError::Unauthorized => 3,
            StakingError::InvalidAmount => 4,
            StakingError::NoStake => 5,
            StakingError::InsufficientStake => 6,
            StakingError::NoRewards => 7,
            StakingError::CompoundTokenMismatch => 8,
            StakingError::NoUnbondRequest => 9,
            StakingError::UnbondingNotComplete => 10,
            StakingError::UnbondRequestPending => 11,
            StakingError::Overflow => 12,
        }
    }

    /// Returns the numeric code of this error.
    pub fn code(&self) -> (c: u32)
        ensures
            c == self.spec_code(),
    {
        match self {
            StakingError::AlreadyInitialized => 1,
            StakingError::NotInitialized => 2,
            StakingError::Unauthorized => 3,
            StakingError::InvalidAmount => 4,
            StakingError::NoStake => 5,
            StakingError::InsufficientStake => 6,
            StakingError::NoRewards => 7,
            StakingError::CompoundTokenMismatch => 8,
            StakingError::NoUnbondRequest => 9,
            StakingError::UnbondingNotComplete => 10,
            StakingError::UnbondRequestPending => 11,
            StakingError::Overflow => 12,
        }
    }
}

/// Scaling factor of the reward-per-token accumulator.
pub const REWARD_SCALE: i128 = 1_000_000_000_000;

/// A pending unbond request.
#[derive(Clone, Copy, Debug, PartialEq, Eq, Structural)]
pub struct UnbondRequest {
    /// Amount of stake tokens queued for withdrawal.
    pub amount: i128,
    /// Ledger sequence from which `withdraw` is allowed.
    pub available_at: u32,
}

/// Rewards earned by `stake` since the accumulator stood at `paid`, on top
/// of `accrued`: `accrued + stake * (rpt - paid) / REWARD_SCALE`, or `None`
/// when an intermediate value leaves `i128`.
pub open spec fn earned_value(stake: int, rpt: int, paid: int, accrued: int) -> int {
    accrued + div_trunc(stake * (rpt - paid), REWARD_SCALE as int)
}

/// The computation of [`earned_value`] stays in `i128`.
pub open spec fn earned_fits(stake: int, rpt: int, paid: int, accrued: int) -> bool {
    &&& fits_i128(rpt - paid)
    &&& fits_i128(stake * (rpt - paid))
    &&& fits_i128(earned_value(stake, rpt, paid, accrued))
}

/// Computes `accrued + stake * (rpt - paid) / REWARD_SCALE` (division
/// rounding toward zero), or `None` on overflow.
pub fn calculate_earned(stake: i128, rpt: i128, paid: i128, accrued: i128) -> (r: Option<i128>)
    ensures
        r == (if earned_fits(stake as int, rpt as int, paid as int, accrued as int) {
            Some(earned_value(stake as int, rpt as int, paid as int, accrued as int) as i128)
        } else {
            None::<i128>
        }),
{
    let diff = match rpt.checked_sub(paid) {
        Some(d) => d,
        None => return None,
    };
    let prod = match stake.checked_mul(diff) {
        Some(p) => p,
        None => return None,
    };
    let share = match prod.checked_div(REWARD_SCALE) {
        Some(q) => q,
        None => return None,
    };
    accrued.checked_add(share)
}

/// Value of `k` in `m`, or zero.
pub open spec fn get_or_zero(m: Map<AccountId, i128>, k: AccountId) -> int {
    if m.contains_key(k) {
        m[k] as int
    } else {
        0
    }
}

/// Sum of `g` over the finite set `d` (zero for an infinite set).
pub open spec fn sum_over(d: Set<AccountId>, g: spec_fn(AccountId) -> int) -> int
    decreases d.len(),
{
    if d.finite() && d.len() > 0 {
        let x = d.choose();
        g(x) + sum_over(d.remove(x), g)
    } else {
        0
    }
}

/// Taking out any member `x` of a finite set splits `g(x)` off its sum.
proof fn lemma_sum_remove(d: Set<AccountId>, g: spec_fn(AccountId) -> int, x: AccountId)
    requires
        d.finite(),
        d.contains(x),
    ensures
        sum_over(d, g) == g(x) + sum_over(d.remove(x), g),
    decreases d.len(),
{
    assert(d.len() > 0) by {
        if d.len() == 0 {
            assert(d =~= Set::empty());
        }
    }
    let y = d.choose();
    if y != x {
        lemma_sum_remove(d.remove(y), g, x);
        lemma_sum_remove(d.remove(x), g, y);
        assert(d.remove(y).remove(x) =~= d.remove(x).remove(y));
    }
}

/// Adding a new member `x` adds `g(x)` to the sum.
proof fn lemma_sum_insert(d: Set<AccountId>, g: spec_fn(AccountId) -> int, x: AccountId)
    requires
        d.finite(),
        !d.contains(x),
    ensures
        sum_over(d.insert(x), g) == g(x) + sum_over(d, g),
{
    lemma_sum_remove(d.insert(x), g, x);
    assert(d.insert(x).remove(x) =~= d);
}

/// Functions that agree on `d` have the same sum over `d`.
proof fn lemma_sum_ext(d: Set<AccountId>, g1: spec_fn(AccountId) -> int, g2: spec_fn(AccountId) -> int)
    requires
        d.finite(),
        forall|a: AccountId| d.contains(a) ==> g1(a) == g2(a),
    ensures
        sum_over(d, g1) == sum_over(d, g2),
    decreases d.len(),
{
    if d.len() > 0 {
        let x = d.choose();
        lemma_sum_ext(d.remove(x), g1, g2);
    }
}

/// The sum of a pointwise sum is the sum of the sums.
proof fn lemma_sum_add(
    d: Set<AccountId>,
    h: spec_fn(AccountId) -> int,
    g1: spec_fn(AccountId) -> int,
    g2: spec_fn(AccountId) -> int,
)
    requires
        d.finite(),
        forall|a: AccountId| d.contains(a) ==> h(a) == g1(a) + g2(a),
    ensures
        sum_over(d, h) == sum_over(d, g1) + sum_over(d, g2),
    decreases d.len(),
{
    if d.len() > 0 {
        let x = d.choose();
        lemma_sum_add(d.remove(x), h, g1, g2);
    }
}

/// A constant factor comes out of the sum.
proof fn lemma_sum_scale(d: Set<AccountId>, h: spec_fn(AccountId) -> int, g: spec_fn(AccountId) -> int, c: int)
    requires
        d.finite(),
        forall|a: AccountId| d.contains(a) ==> h(a) == c * g(a),
    ensures
        sum_over(d, h) == c * sum_over(d, g),
    decreases d.len(),
{
    if d.len() > 0 {
        let x = d.choose();
        lemma_sum_scale(d.remove(x), h, g, c);
        let rest = sum_over(d.remove(x), g);
        assert(c * g(x) + c * rest == c * (g(x) + rest)) by (nonlinear_arith);
    }
}

/// Sums respect a pointwise bound.
proof fn lemma_sum_le(d: Set<AccountId>, g1: spec_fn(AccountId) -> int, g2: spec_fn(AccountId) -> int)
    requires
        d.finite(),
        forall|a: AccountId| d.contains(a) ==> g1(a) <= g2(a),
    ensures
        sum_over(d, g1) <= sum_over(d, g2),
    decreases d.len(),
{
    if d.len() > 0 {
        let x = d.choose();
        lemma_sum_le(d.remove(x), g1, g2);
    }
}

/// Changing `g` at one member `x` only changes that term of the sum.
proof fn lemma_sum_update(
    d: Set<AccountId>,
    g1: spec_fn(AccountId) -> int,
    g2: spec_fn(AccountId) -> int,
    x: AccountId,
)
    requires
        d.finite(),
        d.contains(x),
        forall|a: AccountId| d.contains(a) && a != x ==> g1(a) == g2(a),
    ensures
        sum_over(d, g2) == sum_over(d, g1) - g1(x) + g2(x),
{
    lemma_sum_remove(d, g1, x);
    lemma_sum_remove(d, g2, x);
    lemma_sum_ext(d.remove(x), g1, g2);
}

fn lookup(m: &HashMap<AccountId, i128>, k: AccountId) -> (v: i128)
    ensures
        v == get_or_zero(m@, k),
{
    match m.get(&k) {
        Some(v) => *v,
        None => 0,
    }
}

/// Sum of the stakes in `stakes` over the accounts `d`.
pub open spec fn stake_total(stakes: Map<AccountId, i128>, d: Set<AccountId>) -> int {
    sum_over(d, stake_fn(stakes))
}

/// The stake of each account in `stakes`.
pub open spec fn stake_fn(stakes: Map<AccountId, i128>) -> spec_fn(AccountId) -> int {
    |a: AccountId| get_or_zero(stakes, a)
}

/// Rewards owed to `a`, scaled by [`REWARD_SCALE`] and not rounded:
/// `REWARD_SCALE * rewards + stake * (rpt - paid)`.
pub open spec fn owed_scaled(
    stakes: Map<AccountId, i128>,
    paid: Map<AccountId, i128>,
    rewards: Map<AccountId, i128>,
    rpt: int,
    a: AccountId,
) -> int {
    REWARD_SCALE * get_or_zero(rewards, a) + get_or_zero(stakes, a) * (rpt - get_or_zero(paid, a))
}

/// Sum of [`owed_scaled`] over the accounts `d`.
pub open spec fn owed_total(
    stakes: Map<AccountId, i128>,
    paid: Map<AccountId, i128>,
    rewards: Map<AccountId, i128>,
    rpt: int,
    d: Set<AccountId>,
) -> int {
    sum_over(d, owed_fn(stakes, paid, rewards, rpt))
}

/// [`owed_scaled`] of each account.
pub open spec fn owed_fn(
    stakes: Map<AccountId, i128>,
    paid: Map<AccountId, i128>,
    rewards: Map<AccountId, i128>,
    rpt: int,
) -> spec_fn(AccountId) -> int {
    |a: AccountId| owed_scaled(stakes, paid, rewards, rpt, a)
}

/// State of the staking contract.
pub struct StakingContract {
    /// The admin, once initialized.
    pub admin: Option<AccountId>,
    /// Token that is staked.
    pub stake_token: AccountId,
    /// Token paid as rewards (may equal the stake token).
    pub reward_token: AccountId,
    /// Total currently staked.
    pub total_staked: i128,
    /// Reward tokens deposited and not yet claimed.
    pub total_rewards: i128,
    /// Reward-per-token accumulator, scaled by [`REWARD_SCALE`].
    pub reward_per_token: i128,
    /// Ledgers between `unstake` and `withdraw`; zero pays out at once.
    pub unbonding_period: u32,
    /// Receiver of slashed stake.
    pub slash_destination: AccountId,
    /// Stake of each staker.
    pub stakes: HashMap<AccountId, i128>,
    /// Accumulator value at each staker's last update.
    pub reward_per_token_paid: HashMap<AccountId, i128>,
    /// Accrued, unclaimed rewards of each staker as of their last update.
    pub rewards: HashMap<AccountId, i128>,
    /// Auto-compounding preference of each staker.
    pub compounding: HashMap<AccountId, bool>,
    /// Pending unbond request of each staker.
    pub unbond_requests: HashMap<AccountId, UnbondRequest>,
}

/// Abstract state of the staking contract.
pub struct StakingModel {
    pub admin: Option<AccountId>,
    pub stake_token: AccountId,
    pub reward_token: AccountId,
    pub total_staked: i128,
    pub total_rewards: i128,
    pub reward_per_token: i128,
    pub unbonding_period: u32,
    pub slash_destination: AccountId,
    pub stakes: Map<AccountId, i128>,
    pub paid: Map<AccountId, i128>,
    pub rewards: Map<AccountId, i128>,
    pub compounding: Map<AccountId, bool>,
    pub unbond_requests: Map<AccountId, UnbondRequest>,
}

impl View for StakingContract {
    type V = StakingModel;

    open spec fn view(&self) -> StakingModel {
        StakingModel {
            admin: self.admin,
            stake_token: self.stake_token,
            reward_token: self.reward_token,
            total_staked: self.total_staked,
            total_rewards: self.total_rewards,
            reward_per_token: self.reward_per_token,
            unbonding_period: self.unbonding_period,
            slash_destination: self.slash_destination,
            stakes: self.stakes@,
            paid: self.reward_per_token_paid@,
            rewards: self.rewards@,
            compounding: self.compounding@,
            unbond_requests: self.unbond_requests@,
        }
    }
}

impl StakingModel {
    /// The contract has been initialized.
    pub open spec fn initialized(self) -> bool {
        self.admin is Some
    }

    /// Stake of `s`.
    pub open spec fn stake_of(self, s: AccountId) -> int {
        get_or_zero(self.stakes, s)
    }

    /// Rewards `s` has earned and not claimed.
    pub open spec fn earned(self, s: AccountId) -> int {
        earned_value(
            self.stake_of(s),
            self.reward_per_token as int,
            get_or_zero(self.paid, s),
            get_or_zero(self.rewards, s),
        )
    }

    /// Computing the earned rewards of `s` stays in `i128`.
    pub open spec fn earned_ok(self, s: AccountId) -> bool {
        earned_fits(
            self.stake_of(s),
            self.reward_per_token as int,
            get_or_zero(self.paid, s),
            get_or_zero(self.rewards, s),
        )
    }

    /// Accounts with reward bookkeeping: every account that ever staked or
    /// had its rewards settled.
    pub open spec fn accounts(self) -> Set<AccountId> {
        self.paid.dom()
    }

    /// Sum of all stakes.
    pub open spec fn stake_sum(self) -> int {
        stake_total(self.stakes, self.accounts())
    }

    /// Scaled rewards owed to all accounts together.
    pub open spec fn owed_sum(self) -> int {
        owed_total(self.stakes, self.paid, self.rewards, self.reward_per_token as int, self.accounts())
    }

    /// Earned rewards of all accounts together.
    pub open spec fn earned_sum(self) -> int {
        sum_over(self.accounts(), |a: AccountId| self.earned(a))
    }

    /// The books of the pool balance: stakes and accrued rewards are never
    /// negative, no account was paid up beyond the accumulator,
    /// `total_staked` is the sum of the stakes, and the rewards owed to all
    /// stakers, before rounding, are covered by `total_rewards`. Before
    /// initialization nothing is booked.
    pub open spec fn solvent(self) -> bool {
        &&& self.accounts().finite()
        &&& self.stakes.dom().subset_of(self.accounts())
        &&& self.rewards.dom().subset_of(self.accounts())
        &&& forall|a: AccountId| #[trigger]
            self.paid.dom().contains(a) ==> {
                &&& self.stake_of(a) >= 0
                &&& get_or_zero(self.rewards, a) >= 0
                &&& get_or_zero(self.paid, a) <= self.reward_per_token
            }
        &&& self.total_staked == self.stake_sum()
        &&& self.owed_sum() <= REWARD_SCALE * self.total_rewards
        &&& !self.initialized() ==> self.accounts() == Set::<AccountId>::empty()
    }

    /// The state after snapshotting the earned rewards of `s`.
    pub open spec fn settled(self, s: AccountId) -> Self {
        StakingModel {
            rewards: self.rewards.insert(s, self.earned(s) as i128),
            paid: self.paid.insert(s, self.reward_per_token),
            ..self
        }
    }

    /// The state after `s` staked `amount` (once the checks passed).
    pub open spec fn after_stake(self, s: AccountId, amount: int) -> Self {
        self.settled(s).with_stake(s, self.stake_of(s) + amount, amount)
    }

    /// The first check of `unstake` that fails, if any.
    pub open spec fn unstake_error(self, s: AccountId, amount: int, ledger: int) -> Option<StakingError> {
        if !self.initialized() {
            Some(StakingError::NotInitialized)
        } else if amount <= 0 {
            Some(StakingError::InvalidAmount)
        } else if self.stake_of(s) == 0 {
            Some(StakingError::NoStake)
        } else if amount > self.stake_of(s) {
            Some(StakingError::InsufficientStake)
        } else if self.unbond_requests.contains_key(s) {
            Some(StakingError::UnbondRequestPending)
        } else if !self.earned_ok(s) || !fits_i128(self.total_staked - amount) || (
        self.unbonding_period > 0 && ledger + self.unbonding_period > u32::MAX) {
            Some(StakingError::Overflow)
        } else {
            None
        }
    }

    /// The state after `s` unstaked `amount` at ledger `ledger` (once the
    /// checks passed): with an unbonding period the amount is queued.
    pub open spec fn after_unstake(self, s: AccountId, amount: int, ledger: int) -> Self {
        let m = self.settled(s).with_stake(s, self.stake_of(s) - amount, -amount);
        if self.unbonding_period == 0 {
            m
        } else {
            StakingModel {
                unbond_requests: m.unbond_requests.insert(
                    s,
                    UnbondRequest {
                        amount: amount as i128,
                        available_at: (ledger + self.unbonding_period) as u32,
                    },
                ),
                ..m
            }
        }
    }

    /// The first check of `withdraw` that fails, if any.
    pub open spec fn withdraw_error(self, s: AccountId, ledger: int) -> Option<StakingError> {
        if !self.initialized() {
            Some(StakingError::NotInitialized)
        } else if !self.unbond_requests.contains_key(s) {
            Some(StakingError::NoUnbondRequest)
        } else if ledger < self.unbond_requests[s].available_at {
            Some(StakingError::UnbondingNotComplete)
        } else {
            None
        }
    }

    /// The first check of `claim_rewards` that fails, if any.
    pub open spec fn claim_error(self, s: AccountId) -> Option<StakingError> {
        if !self.initialized() {
            Some(StakingError::NotInitialized)
        } else if !self.earned_ok(s) {
            Some(StakingError::Overflow)
        } else if self.earned(s) <= 0 {
            Some(StakingError::NoRewards)
        } else if !fits_i128(self.total_rewards - self.earned(s)) {
            Some(StakingError::Overflow)
        } else {
            None
        }
    }

    /// The state after `s` took out all earned rewards.
    pub open spec fn after_claim(self, s: AccountId) -> Self {
        StakingModel {
            rewards: self.rewards.insert(s, 0),
            paid: self.paid.insert(s, self.reward_per_token),
            total_rewards: (self.total_rewards - self.earned(s)) as i128,
            ..self
        }
    }

    /// Increase of the accumulator when `amount` rewards are added.
    pub open spec fn rpt_increase(self, amount: int) -> int {
        if self.total_staked > 0 {
            amount * REWARD_SCALE / (self.total_staked as int)
        } else {
            0
        }
    }

    /// The first check of `add_rewards` that fails, if any.
    pub open spec fn add_rewards_error(self, amount: int) -> Option<StakingError> {
        if !self.initialized() {
            Some(StakingError::NotInitialized)
        } else if amount <= 0 {
            Some(StakingError::InvalidAmount)
        } else if !fits_i128(amount * REWARD_SCALE) || !fits_i128(
            self.reward_per_token + self.rpt_increase(amount),
        ) || !fits_i128(self.total_rewards + amount) {
            Some(StakingError::Overflow)
        } else {
            None
        }
    }

    /// The state after `amount` rewards were added.
    pub open spec fn after_add_rewards(self, amount: int) -> Self {
        StakingModel {
            reward_per_token: (self.reward_per_token + self.rpt_increase(amount)) as i128,
            total_rewards: (self.total_rewards + amount) as i128,
            ..self
        }
    }

    /// The part of a slash of `amount` that is taken from `s`.
    pub open spec fn slash_amount(self, s: AccountId, amount: int) -> int {
        if amount > self.stake_of(s) {
            self.stake_of(s)
        } else {
            amount
        }
    }

    /// The first check of `slash` that fails, if any.
    pub open spec fn slash_error(self, s: AccountId, amount: int) -> Option<StakingError> {
        if !self.initialized() {
            Some(StakingError::NotInitialized)
        } else if amount <= 0 {
            Some(StakingError::InvalidAmount)
        } else if self.stake_of(s) == 0 {
            Some(StakingError::NoStake)
        } else if !self.earned_ok(s) || !fits_i128(self.stake_of(s) - self.slash_amount(s, amount))
            || !fits_i128(self.total_staked - self.slash_amount(s, amount)) {
            Some(StakingError::Overflow)
        } else {
            None
        }
    }

    /// The state after slashing `amount` from `s`.
    pub open spec fn after_slash(self, s: AccountId, amount: int) -> Self {
        let sa = self.slash_amount(s, amount);
        self.settled(s).with_stake(s, self.stake_of(s) - sa, -sa)
    }

    /// The first check of `compound` that fails, if any.
    pub open spec fn compound_error(self, s: AccountId) -> Option<StakingError> {
        if !self.initialized() {
            Some(StakingError::NotInitialized)
        } else if self.stake_token != self.reward_token {
            Some(StakingError::CompoundTokenMismatch)
        } else if !self.earned_ok(s) {
            Some(StakingError::Overflow)
        } else if self.earned(s) <= 0 {
            Some(StakingError::NoRewards)
        } else if !fits_i128(self.total_rewards - self.earned(s)) || !fits_i128(
            self.stake_of(s) + self.earned(s),
        ) || !fits_i128(self.total_staked + self.earned(s)) {
            Some(StakingError::Overflow)
        } else {
            None
        }
    }

    /// The state after `s` re-staked all earned rewards.
    pub open spec fn after_compound(self, s: AccountId) -> Self {
        let e = self.earned(s);
        self.after_claim(s).with_stake(s, self.stake_of(s) + e, e)
    }

    /// The state with the stake of `s` set to `v` and the total adjusted by
    /// `delta`.
    pub open spec fn with_stake(self, s: AccountId, v: int, delta: int) -> Self {
        StakingModel {
            stakes: self.stakes.insert(s, v as i128),
            total_staked: (self.total_staked + delta) as i128,
            ..self
        }
    }
}

impl StakingContract {
    /// A contract with empty storage.
    pub fn new() -> (c: Self)
        ensures
            c@ == (StakingModel {
                admin: None,
                stake_token: 0,
                reward_token: 0,
                total_staked: 0,
                total_rewards: 0,
                reward_per_token: 0,
                unbonding_period: 0,
                slash_destination: 0,
                stakes: Map::empty(),
                paid: Map::empty(),
                rewards: Map::empty(),
                compounding: Map::empty(),
                unbond_requests: Map::empty(),
            }),
            c@.solvent(),
    {
        StakingContract {
            admin: None,
            stake_token: 0,
            reward_token: 0,
            total_staked: 0,
            total_rewards: 0,
            reward_per_token: 0,
            unbonding_period: 0,
            slash_destination: 0,
            stakes: HashMap::new(),
            reward_per_token_paid: HashMap::new(),
            rewards: HashMap::new(),
            compounding: HashMap::new(),
            unbond_requests: HashMap::new(),
        }
    }

    /// Initializes the contract. The admin authorizes the call.
    pub fn initialize(
        &mut self,
        admin: AccountId,
        stake_token: AccountId,
        reward_token: AccountId,
        unbonding_period: u32,
        slash_destination: AccountId,
    ) -> (r: Result<(), StakingError>)
        ensures
            old(self)@.initialized() <==> r == Err::<(), _>(StakingError::AlreadyInitialized),
            r is Ok <==> !old(self)@.initialized(),
            r is Err ==> final(self)@ == old(self)@,
            r is Ok ==> final(self)@ == (StakingModel {
                admin: Some(admin),
                stake_token,
                reward_token,
                total_staked: 0,
                total_rewards: 0,
                reward_per_token: 0,
                unbonding_period,
                slash_destination,
                ..old(self)@
            }),
            old(self)@.solvent() ==> final(self)@.solvent(),
    {
        if self.admin.is_some() {
            return Err(StakingError::AlreadyInitialized);
        }
        self.admin = Some(admin);
        self.stake_token = stake_token;
        self.reward_token = reward_token;
        self.total_staked = 0;
        self.total_rewards = 0;
        self.reward_per_token = 0;
        self.unbonding_period = unbonding_period;
        self.slash_destination = slash_destination;
        Ok(())
    }

    /// Rewards `staker` has earned and not claimed, or `None` on overflow.
    fn earned(&self, staker: AccountId) -> (r: Option<i128>)
        ensures
            r == (if self@.earned_ok(staker) {
                Some(self@.earned(staker) as i128)
            } else {
                None::<i128>
            }),
    {
        calculate_earned(
            lookup(&self.stakes, staker),
            self.reward_per_token,
            lookup(&self.reward_per_token_paid, staker),
            lookup(&self.rewards, staker),
        )
    }

    /// Snapshots the rewards `staker` has earned so far.
    fn update_reward(&mut self, staker: AccountId) -> (r: Result<(), StakingError>)
        ensures
            r is Ok <==> old(self)@.earned_ok(staker),
            r is Err ==> r == Err::<(), _>(StakingError::Overflow) && final(self)@ == old(self)@,
            r is Ok ==> final(self)@ == old(self)@.settled(staker),
    {
        let e = match self.earned(staker) {
            Some(e) => e,
            None => return Err(StakingError::Overflow),
        };
        self.rewards.insert(staker, e);
        self.reward_per_token_paid.insert(staker, self.reward_per_token);
        Ok(())
    }

    /// Deposits `amount` stake tokens from `staker`, who authorizes the
    /// call. Returns the token movement to perform.
    pub fn stake(&mut self, staker: AccountId, amount: i128) -> (r: Result<Vec<Transfer>, StakingError>)
        ensures
            ({
                let m = old(self)@;
                let s = m.settled(staker);
                r.is_ok() == (m.initialized() && amount > 0 && m.earned_ok(staker) && fits_i128(
                    m.stake_of(staker) + amount,
                ) && fits_i128(m.total_staked + amount))
            }),
            !old(self)@.initialized() ==> r == Err::<Vec<Transfer>, _>(StakingError::NotInitialized),
            old(self)@.initialized() && amount <= 0 ==> r == Err::<Vec<Transfer>, _>(
                StakingError::InvalidAmount,
            ),
            r is Err ==> final(self)@ == old(self)@,
            r is Err && old(self)@.initialized() && amount > 0 ==> r == Err::<Vec<Transfer>, _>(
                StakingError::Overflow,
            ),
            r is Ok ==> final(self)@ == old(self)@.settled(staker).with_stake(
                staker,
                old(self)@.stake_of(staker) + amount,
                amount as int,
            ),
            r is Ok ==> r.unwrap()@ == seq![
                Transfer::Deposit { token: old(self)@.stake_token, from: staker, amount },
            ],
            old(self)@.solvent() ==> final(self)@.solvent(),
            final(self)@ == call_effect(old(self)@, (StakingCall::Stake { staker, amount })).0,
    {
        if self.admin.is_none() {
            return Err(StakingError::NotInitialized);
        }
        if amount <= 0 {
            return Err(StakingError::InvalidAmount);
        }
        let prev = lookup(&self.stakes, staker);
        let new_stake = match prev.checked_add(amount) {
            Some(v) => v,
            None => return Err(StakingError::Overflow),
        };
        let new_total = match self.total_staked.checked_add(amount) {
            Some(v) => v,
            None => return Err(StakingError::Overflow),
        };
        let ghost m0 = self@;
        self.update_reward(staker)?;
        proof {
            if m0.solvent() {
                lemma_stake_solvent(m0, staker, amount as int);
            }
        }
        self.stakes.insert(staker, new_stake);
        self.total_staked = new_total;
        let mut out: Vec<Transfer> = Vec::new();
        out.push(Transfer::Deposit { token: self.stake_token, from: staker, amount });
        Ok(out)
    }

    /// Starts withdrawing `amount` of the stake of `staker`, who authorizes
    /// the call, at ledger sequence `ledger`. Without an unbonding period the
    /// tokens are paid out at once; otherwise an unbond request is recorded
    /// for `withdraw`. Earned rewards are snapshotted, not paid.
    pub fn unstake(&mut self, staker: AccountId, amount: i128, ledger: u32) -> (r: Result<
        Vec<Transfer>,
        StakingError,
    >)
        ensures
            match old(self)@.unstake_error(staker, amount as int, ledger as int) {
                Some(e) => r == Err::<Vec<Transfer>, _>(e) && final(self)@ == old(self)@,
                None => r is Ok && final(self)@ == old(self)@.after_unstake(
                    staker,
                    amount as int,
                    ledger as int,
                ) && r.unwrap()@ == (if old(self)@.unbonding_period == 0 {
                    seq![Transfer::Payout { token: old(self)@.stake_token, to: staker, amount }]
                } else {
                    Seq::<Transfer>::empty()
                }),
            },
            old(self)@.solvent() ==> final(self)@.solvent(),
            final(self)@ == call_effect(old(self)@, (StakingCall::Unstake { staker, amount, ledger })).0,
    {
        if self.admin.is_none() {
            return Err(StakingError::NotInitialized);
        }
        if amount <= 0 {
            return Err(StakingError::InvalidAmount);
        }
        let current = lookup(&self.stakes, staker);
        if current == 0 {
            return Err(StakingError::NoStake);
        }
        if amount > current {
            return Err(StakingError::InsufficientStake);
        }
        if self.unbond_requests.contains_key(&staker) {
            return Err(StakingError::UnbondRequestPending);
        }
        if self.earned(staker).is_none() {
            return Err(StakingError::Overflow);
        }
        let new_total = match self.total_staked.checked_sub(amount) {
            Some(v) => v,
            None => return Err(StakingError::Overflow),
        };
        let period = self.unbonding_period;
        let mut available_at: u32 = 0;
        if period > 0 {
            available_at = match ledger.checked_add(period) {
                Some(v) => v,
                None => return Err(StakingError::Overflow),
            };
        }
        proof {
            if self@.solvent() {
                lemma_unstake_solvent(self@, staker, amount as int, ledger as int);
            }
        }
        let _ = self.update_reward(staker);
        self.stakes.insert(staker, current - amount);
        self.total_staked = new_total;
        let mut out: Vec<Transfer> = Vec::new();
        if period == 0 {
            out.push(Transfer::Payout { token: self.stake_token, to: staker, amount });
        } else {
            self.unbond_requests.insert(staker, UnbondRequest { amount, available_at });
        }
        Ok(out)
    }

    /// Pays out the pending unbond request of `staker`, who authorizes the
    /// call, once ledger sequence `ledger` has reached its release point.
    /// Returns the amount withdrawn and the token movement.
    pub fn withdraw(&mut self, staker: AccountId, ledger: u32) -> (r: Result<
        (i128, Vec<Transfer>),
        StakingError,
    >)
        ensures
            match old(self)@.withdraw_error(staker, ledger as int) {
                Some(e) => r == Err::<(i128, Vec<Transfer>), _>(e) && final(self)@ == old(self)@,
                None => {
                    let req = old(self)@.unbond_requests[staker];
                    &&& r is Ok
                    &&& r.unwrap().0 == req.amount
                    &&& r.unwrap().1@ == seq![
                        Transfer::Payout {
                            token: old(self)@.stake_token,
                            to: staker,
                            amount: req.amount,
                        },
                    ]
                    &&& final(self)@ == (StakingModel {
                        unbond_requests: old(self)@.unbond_requests.remove(staker),
                        ..old(self)@
                    })
                },
            },
            old(self)@.solvent() ==> final(self)@.solvent(),
            final(self)@ == call_effect(old(self)@, (StakingCall::Withdraw { staker, ledger })).0,
    {
        if self.admin.is_none() {
            return Err(StakingError::NotInitialized);
        }
        let req = match self.unbond_requests.get(&staker) {
            Some(q) => *q,
            None => return Err(StakingError::NoUnbondRequest),
        };
        if ledger < req.available_at {
            return Err(StakingError::UnbondingNotComplete);
        }
        self.unbond_requests.remove(&staker);
        let mut out: Vec<Transfer> = Vec::new();
        out.push(Transfer::Payout { token: self.stake_token, to: staker, amount: req.amount });
        Ok((req.amount, out))
    }

    /// Pays all earned rewards to `staker`, who authorizes the call.
    /// Returns the amount claimed and the token movement.
    pub fn claim_rewards(&mut self, staker: AccountId) -> (r: Result<
        (i128, Vec<Transfer>),
        StakingError,
    >)
        ensures
            match old(self)@.claim_error(staker) {
                Some(e) => r == Err::<(i128, Vec<Transfer>), _>(e) && final(self)@ == old(self)@,
                None => {
                    &&& r is Ok
                    &&& r.unwrap().0 == old(self)@.earned(staker)
                    &&& r.unwrap().1@ == seq![
                        Transfer::Payout {
                            token: old(self)@.reward_token,
                            to: staker,
                            amount: old(self)@.earned(staker) as i128,
                        },
                    ]
                    &&& final(self)@ == old(self)@.after_claim(staker)
                },
            },
            old(self)@.solvent() ==> final(self)@.solvent(),
            final(self)@ == call_effect(old(self)@, (StakingCall::ClaimRewards { staker })).0,
            r is Ok ==> r.unwrap().0 == call_effect(old(self)@, (StakingCall::ClaimRewards { staker })).2,
    {
        if self.admin.is_none() {
            return Err(StakingError::NotInitialized);
        }
        let reward = match self.earned(staker) {
            Some(e) => e,
            None => return Err(StakingError::Overflow),
        };
        if reward <= 0 {
            return Err(StakingError::NoRewards);
        }
        let new_total = match self.total_rewards.checked_sub(reward) {
            Some(v) => v,
            None => return Err(StakingError::Overflow),
        };
        proof {
            if self@.solvent() {
                lemma_claim_solvent(self@, staker);
            }
        }
        self.rewards.insert(staker, 0);
        self.reward_per_token_paid.insert(staker, self.reward_per_token);
        self.total_rewards = new_total;
        let mut out: Vec<Transfer> = Vec::new();
        out.push(Transfer::Payout { token: self.reward_token, to: staker, amount: reward });
        Ok((reward, out))
    }

    /// The admin, who authorizes the call, adds `amount` reward tokens to the
    /// pool; the accumulator grows by `amount * REWARD_SCALE / total_staked`
    /// when anything is staked.
    pub fn add_rewards(&mut self, amount: i128) -> (r: Result<Vec<Transfer>, StakingError>)
        ensures
            match old(self)@.add_rewards_error(amount as int) {
                Some(e) => r == Err::<Vec<Transfer>, _>(e) && final(self)@ == old(self)@,
                None => r is Ok && final(self)@ == old(self)@.after_add_rewards(amount as int)
                    && r.unwrap()@ == seq![
                    Transfer::Deposit {
                        token: old(self)@.reward_token,
                        from: old(self)@.admin.unwrap(),
                        amount,
                    },
                ],
            },
            old(self)@.solvent() ==> final(self)@.solvent(),
            final(self)@ == call_effect(old(self)@, (StakingCall::AddRewards { amount })).0,
    {
        let admin = match self.admin {
            Some(a) => a,
            None => return Err(StakingError::NotInitialized),
        };
        if amount <= 0 {
            return Err(StakingError::InvalidAmount);
        }
        let scaled = match amount.checked_mul(REWARD_SCALE) {
            Some(v) => v,
            None => return Err(StakingError::Overflow),
        };
        let mut new_rpt = self.reward_per_token;
        if self.total_staked > 0 {
            let inc = scaled / self.total_staked;
            new_rpt = match self.reward_per_token.checked_add(inc) {
                Some(v) => v,
                None => return Err(StakingError::Overflow),
            };
        }
        let new_total = match self.total_rewards.checked_add(amount) {
            Some(v) => v,
            None => return Err(StakingError::Overflow),
        };
        proof {
            if self@.solvent() {
                lemma_add_rewards_solvent(self@, amount as int);
            }
        }
        self.reward_per_token = new_rpt;
        self.total_rewards = new_total;
        let mut out: Vec<Transfer> = Vec::new();
        out.push(Transfer::Deposit { token: self.reward_token, from: admin, amount });
        Ok(out)
    }

    /// The admin, who authorizes the call, takes up to `amount` from the
    /// stake of `staker` and sends it to the slash destination. Returns the
    /// amount taken and the token movement.
    pub fn slash(&mut self, staker: AccountId, amount: i128) -> (r: Result<
        (i128, Vec<Transfer>),
        StakingError,
    >)
        ensures
            match old(self)@.slash_error(staker, amount as int) {
                Some(e) => r == Err::<(i128, Vec<Transfer>), _>(e) && final(self)@ == old(self)@,
                None => {
                    let sa = old(self)@.slash_amount(staker, amount as int);
                    &&& r is Ok
                    &&& r.unwrap().0 == sa
                    &&& r.unwrap().1@ == seq![
                        Transfer::Payout {
                            token: old(self)@.stake_token,
                            to: old(self)@.slash_destination,
                            amount: sa as i128,
                        },
                    ]
                    &&& final(self)@ == old(self)@.after_slash(staker, amount as int)
                },
            },
            old(self)@.solvent() ==> final(self)@.solvent(),
            final(self)@ == call_effect(old(self)@, (StakingCall::Slash { staker, amount })).0,
    {
        if self.admin.is_none() {
            return Err(StakingError::NotInitialized);
        }
        if amount <= 0 {
            return Err(StakingError::InvalidAmount);
        }
        let current = lookup(&self.stakes, staker);
        if current == 0 {
            return Err(StakingError::NoStake);
        }
        let sa = if amount > current {
            current
        } else {
            amount
        };
        if self.earned(staker).is_none() {
            return Err(StakingError::Overflow);
        }
        let remaining = match current.checked_sub(sa) {
            Some(v) => v,
            None => return Err(StakingError::Overflow),
        };
        let new_total = match self.total_staked.checked_sub(sa) {
            Some(v) => v,
            None => return Err(StakingError::Overflow),
        };
        proof {
            if self@.solvent() {
                lemma_slash_solvent(self@, staker, amount as int);
            }
        }
        let _ = self.update_reward(staker);
        self.stakes.insert(staker, remaining);
        self.total_staked = new_total;
        let mut out: Vec<Transfer> = Vec::new();
        out.push(Transfer::Payout { token: self.stake_token, to: self.slash_destination, amount: sa });
        Ok((sa, out))
    }

    /// Re-stakes all rewards earned by `staker`, who authorizes the call;
    /// only when the stake and reward tokens are the same. Returns the
    /// amount compounded; no tokens move.
    pub fn compound(&mut self, staker: AccountId) -> (r: Result<i128, StakingError>)
        ensures
            match old(self)@.compound_error(staker) {
                Some(e) => r == Err::<i128, _>(e) && final(self)@ == old(self)@,
                None => r == Ok::<i128, StakingError>(old(self)@.earned(staker) as i128)
                    && final(self)@ == old(self)@.after_compound(staker),
            },
            old(self)@.solvent() ==> final(self)@.solvent(),
            final(self)@ == call_effect(old(self)@, (StakingCall::Compound { staker })).0,
            r is Ok ==> r.unwrap() == call_effect(old(self)@, (StakingCall::Compound { staker })).2,
    {
        if self.admin.is_none() {
            return Err(StakingError::NotInitialized);
        }
        if self.stake_token != self.reward_token {
            return Err(StakingError::CompoundTokenMismatch);
        }
        let reward = match self.earned(staker) {
            Some(e) => e,
            None => return Err(StakingError::Overflow),
        };
        if reward <= 0 {
            return Err(StakingError::NoRewards);
        }
        let new_total_rewards = match self.total_rewards.checked_sub(reward) {
            Some(v) => v,
            None => return Err(StakingError::Overflow),
        };
        let prev = lookup(&self.stakes, staker);
        let new_stake = match prev.checked_add(reward) {
            Some(v) => v,
            None => return Err(StakingError::Overflow),
        };
        let new_total = match self.total_staked.checked_add(reward) {
            Some(v) => v,
            None => return Err(StakingError::Overflow),
        };
        proof {
            if self@.solvent() {
                lemma_compound_solvent(self@, staker);
            }
        }
        self.rewards.insert(staker, 0);
        self.reward_per_token_paid.insert(staker, self.reward_per_token);
        self.total_rewards = new_total_rewards;
        self.stakes.insert(staker, new_stake);
        self.total_staked = new_total;
        Ok(reward)
    }

    /// Records whether `staker`, who authorizes the call, wants to compound.
    pub fn set_compounding(&mut self, staker: AccountId, enabled: bool) -> (r: Result<(), StakingError>)
        ensures
            !old(self)@.initialized() ==> r == Err::<(), _>(StakingError::NotInitialized)
                && final(self)@ == old(self)@,
            old(self)@.initialized() ==> r is Ok && final(self)@ == (StakingModel {
                compounding: old(self)@.compounding.insert(staker, enabled),
                ..old(self)@
            }),
            old(self)@.solvent() ==> final(self)@.solvent(),
            final(self)@ == call_effect(old(self)@, (StakingCall::SetCompounding { staker, enabled })).0,
    {
        if self.admin.is_none() {
            return Err(StakingError::NotInitialized);
        }
        self.compounding.insert(staker, enabled);
        Ok(())
    }

    /// Current stake of `staker`.
    pub fn get_stake(&self, staker: AccountId) -> (v: i128)
        ensures
            v == self@.stake_of(staker),
    {
        lookup(&self.stakes, staker)
    }

    /// Rewards `staker` has earned and not claimed: zero before
    /// initialization, `Overflow` when the amount leaves `i128`.
    pub fn get_rewards(&self, staker: AccountId) -> (r: Result<i128, StakingError>)
        ensures
            !self@.initialized() ==> r == Ok::<i128, StakingError>(0),
            self@.initialized() && self@.earned_ok(staker) ==> r == Ok::<i128, StakingError>(
                self@.earned(staker) as i128,
            ),
            self@.initialized() && !self@.earned_ok(staker) ==> r == Err::<i128, _>(
                StakingError::Overflow,
            ),
    {
        if self.admin.is_none() {
            return Ok(0);
        }
        match self.earned(staker) {
            Some(e) => Ok(e),
            None => Err(StakingError::Overflow),
        }
    }

    /// Total currently staked.
    pub fn get_total_staked(&self) -> (v: i128)
        ensures
            v == self@.total_staked,
    {
        self.total_staked
    }

    /// Reward tokens deposited and not yet claimed.
    pub fn get_total_rewards(&self) -> (v: i128)
        ensures
            v == self@.total_rewards,
    {
        self.total_rewards
    }

    /// Version of the contract interface: 1 once initialized, 0 before.
    pub fn contract_version(&self) -> (v: u32)
        ensures
            v == (if self@.initialized() { 1u32 } else { 0u32 }),
    {
        if self.admin.is_some() {
            1
        } else {
            0
        }
    }

    /// Pending unbond request of `staker`, if any.
    pub fn get_unbond_request(&self, staker: AccountId) -> (r: Option<UnbondRequest>)
        ensures
            r == (if self@.unbond_requests.contains_key(staker) {
                Some(self@.unbond_requests[staker])
            } else {
                None::<UnbondRequest>
            }),
    {
        match self.unbond_requests.get(&staker) {
            Some(q) => Some(*q),
            None => None,
        }
    }
}


/// In a solvent state the stake of `s` is not negative, and when `s` has
/// bookkeeping its accrued rewards are not negative and it was paid up to at
/// most the accumulator; otherwise it has neither stake nor rewards.
proof fn lemma_solvent_account(m: StakingModel, s: AccountId)
    requires
        m.solvent(),
    ensures
        m.stake_of(s) >= 0,
        get_or_zero(m.rewards, s) >= 0,
        m.accounts().contains(s) ==> get_or_zero(m.paid, s) <= m.reward_per_token,
        !m.accounts().contains(s) ==> m.stake_of(s) == 0 && get_or_zero(m.rewards, s) == 0
            && get_or_zero(m.paid, s) == 0 && m.earned(s) == 0,
        m.earned(s) >= 0,
        REWARD_SCALE * m.earned(s) <= owed_scaled(
            m.stakes,
            m.paid,
            m.rewards,
            m.reward_per_token as int,
            s,
        ),
{
    if m.accounts().contains(s) {
        assert(m.paid.dom().contains(s));
    }
    let x = m.stake_of(s);
    let d = m.reward_per_token - get_or_zero(m.paid, s);
    let r = get_or_zero(m.rewards, s);
    let sc = REWARD_SCALE as int;
    if m.accounts().contains(s) {
        assert(x * d >= 0) by (nonlinear_arith)
            requires x >= 0, d >= 0;
    } else {
        assert(x * d == 0) by (nonlinear_arith)
            requires x == 0;
    }
    let p = x * d;
    assert(0 <= p / sc && sc * (p / sc) <= p) by (nonlinear_arith)
        requires p >= 0, sc > 0;
    if !m.accounts().contains(s) {
        assert(p / sc == 0);
    }
}

/// Snapshotting the earned rewards of `s` keeps the books balanced.
proof fn lemma_settled_solvent(m: StakingModel, s: AccountId)
    requires
        m.solvent(),
        m.initialized(),
        m.earned_ok(s),
    ensures
        m.settled(s).solvent(),
        m.settled(s).accounts().contains(s),
        m.settled(s).accounts() == m.accounts().insert(s),
{
    let m1 = m.settled(s);
    let d = m.accounts();
    let rpt = m.reward_per_token as int;
    lemma_solvent_account(m, s);
    assert(m1.accounts() =~= d.insert(s));
    assert forall|a: AccountId| #[trigger] m1.paid.dom().contains(a) implies {
        &&& m1.stake_of(a) >= 0
        &&& get_or_zero(m1.rewards, a) >= 0
        &&& get_or_zero(m1.paid, a) <= m1.reward_per_token
    } by {
        if a != s {
            assert(m.paid.dom().contains(a));
        }
    }
    let g0 = owed_fn(m.stakes, m.paid, m.rewards, rpt);
    let g1 = owed_fn(m1.stakes, m1.paid, m1.rewards, rpt);
    assert(g1(s) == REWARD_SCALE * m.earned(s)) by {
        assert(m1.stake_of(s) * (rpt - rpt) == 0) by (nonlinear_arith);
    }
    let gs = stake_fn(m.stakes);
    assert forall|a: AccountId| d.contains(a) && a != s implies g0(a) == g1(a) by {
        assert(get_or_zero(m1.rewards, a) == get_or_zero(m.rewards, a));
        assert(get_or_zero(m1.paid, a) == get_or_zero(m.paid, a));
    }
    assert(g1(s) <= g0(s));
    assert(m.owed_sum() == sum_over(d, g0));
    assert(m1.owed_sum() == sum_over(m1.accounts(), g1));
    if d.contains(s) {
        lemma_sum_update(d, g0, g1, s);
        assert(m1.accounts() =~= d);
        assert(sum_over(d, g1) <= sum_over(d, g0));
    } else {
        lemma_sum_insert(d, gs, s);
        lemma_sum_ext(d, g0, g1);
        lemma_sum_insert(d, g1, s);
        assert(g1(s) == 0);
    }
    assert(m1.owed_sum() <= m.owed_sum());
}

/// Setting the stake of a settled account `s` to `v`, with the total moved
/// by the same amount, keeps the books balanced.
proof fn lemma_with_stake_solvent(m: StakingModel, s: AccountId, v: int, delta: int)
    requires
        m.solvent(),
        m.accounts().contains(s),
        get_or_zero(m.paid, s) == m.reward_per_token,
        0 <= v,
        fits_i128(v),
        v == m.stake_of(s) + delta,
        fits_i128(m.total_staked + delta),
    ensures
        m.with_stake(s, v, delta).solvent(),
        m.with_stake(s, v, delta).accounts() == m.accounts(),
{
    let m1 = m.with_stake(s, v, delta);
    let d = m.accounts();
    let rpt = m.reward_per_token as int;
    assert(m1.accounts() =~= d);
    assert forall|a: AccountId| #[trigger] m1.paid.dom().contains(a) implies {
        &&& m1.stake_of(a) >= 0
        &&& get_or_zero(m1.rewards, a) >= 0
        &&& get_or_zero(m1.paid, a) <= m1.reward_per_token
    } by {
        assert(m.paid.dom().contains(a));
    }
    let gs0 = stake_fn(m.stakes);
    let gs1 = stake_fn(m1.stakes);
    lemma_sum_update(d, gs0, gs1, s);
    let g0 = owed_fn(m.stakes, m.paid, m.rewards, rpt);
    let g1 = owed_fn(m1.stakes, m1.paid, m1.rewards, rpt);
    let old_stake = m.stake_of(s);
    assert(g0(s) == g1(s)) by {
        assert(old_stake * (rpt - rpt) == 0) by (nonlinear_arith);
        assert(v * (rpt - rpt) == 0) by (nonlinear_arith);
    }
    lemma_sum_update(d, g0, g1, s);
}

/// Paying out all earned rewards of `s` keeps the books balanced.
proof fn lemma_claim_solvent(m: StakingModel, s: AccountId)
    requires
        m.solvent(),
        m.initialized(),
        m.claim_error(s) is None,
    ensures
        m.after_claim(s).solvent(),
        m.after_claim(s).accounts().contains(s),
        get_or_zero(m.after_claim(s).paid, s) == m.reward_per_token,
{
    let m1 = m.after_claim(s);
    let d = m.accounts();
    let rpt = m.reward_per_token as int;
    lemma_solvent_account(m, s);
    assert(m1.accounts() =~= d.insert(s));
    assert forall|a: AccountId| #[trigger] m1.paid.dom().contains(a) implies {
        &&& m1.stake_of(a) >= 0
        &&& get_or_zero(m1.rewards, a) >= 0
        &&& get_or_zero(m1.paid, a) <= m1.reward_per_token
    } by {
        if a != s {
            assert(m.paid.dom().contains(a));
        }
    }
    let g0 = owed_fn(m.stakes, m.paid, m.rewards, rpt);
    let g1 = owed_fn(m1.stakes, m1.paid, m1.rewards, rpt);
    assert(g1(s) == 0) by {
        assert(m1.stake_of(s) * (rpt - rpt) == 0) by (nonlinear_arith);
    }
    let gs = stake_fn(m.stakes);
    if d.contains(s) {
        lemma_sum_update(d, g0, g1, s);
        assert(m1.accounts() =~= d);
    } else {
        lemma_sum_insert(d, gs, s);
        lemma_sum_ext(d, g0, g1);
        lemma_sum_insert(d, g1, s);
    }
    let e = m.earned(s);
    assert(REWARD_SCALE * (m.total_rewards - e) == REWARD_SCALE * m.total_rewards - REWARD_SCALE
        * e) by (nonlinear_arith);
}

/// A reward deposit keeps the books balanced: the accumulator grows by at
/// most `amount * REWARD_SCALE` spread over `total_staked`.
proof fn lemma_add_rewards_solvent(m: StakingModel, amount: int)
    requires
        m.solvent(),
        m.add_rewards_error(amount) is None,
    ensures
        m.after_add_rewards(amount).solvent(),
{
    let m1 = m.after_add_rewards(amount);
    let d = m.accounts();
    let rpt = m.reward_per_token as int;
    let q = m.rpt_increase(amount);
    let t = m.total_staked as int;
    let sc = REWARD_SCALE as int;
    assert(0 <= q && q * t <= amount * sc) by {
        if t > 0 {
            assert(0 <= q && t * q <= amount * sc) by (nonlinear_arith)
                requires t > 0, amount > 0, sc > 0, q == amount * sc / t;
        }
    }
    assert forall|a: AccountId| #[trigger] m1.paid.dom().contains(a) implies {
        &&& m1.stake_of(a) >= 0
        &&& get_or_zero(m1.rewards, a) >= 0
        &&& get_or_zero(m1.paid, a) <= m1.reward_per_token
    } by {
        assert(m.paid.dom().contains(a));
    }
    let g0 = owed_fn(m.stakes, m.paid, m.rewards, rpt);
    let g1 = owed_fn(m1.stakes, m1.paid, m1.rewards, rpt + q);
    let gs = stake_fn(m.stakes);
    let gq = |a: AccountId| q * get_or_zero(m.stakes, a);
    assert forall|a: AccountId| d.contains(a) implies g1(a) == g0(a) + gq(a) by {
        let x = get_or_zero(m.stakes, a);
        let p = get_or_zero(m.paid, a);
        assert(x * (rpt + q - p) == x * (rpt - p) + q * x) by (nonlinear_arith);
    }
    lemma_sum_add(d, g1, g0, gq);
    lemma_sum_scale(d, gq, gs, q);
    assert(m1.owed_sum() == m.owed_sum() + q * t);
    assert(sc * (m.total_rewards + amount) == sc * m.total_rewards + amount * sc) by (nonlinear_arith);
}


/// A successful stake keeps the books balanced.
proof fn lemma_stake_solvent(m: StakingModel, s: AccountId, amount: int)
    requires
        m.solvent(),
        m.initialized(),
        amount > 0,
        m.earned_ok(s),
        fits_i128(m.stake_of(s) + amount),
        fits_i128(m.total_staked + amount),
    ensures
        m.after_stake(s, amount).solvent(),
{
    lemma_solvent_account(m, s);
    lemma_settled_solvent(m, s);
    lemma_with_stake_solvent(m.settled(s), s, m.stake_of(s) + amount, amount);
}

/// A successful unstake keeps the books balanced.
proof fn lemma_unstake_solvent(m: StakingModel, s: AccountId, amount: int, ledger: int)
    requires
        m.solvent(),
        m.unstake_error(s, amount, ledger) is None,
    ensures
        m.after_unstake(s, amount, ledger).solvent(),
{
    lemma_settled_solvent(m, s);
    lemma_with_stake_solvent(m.settled(s), s, m.stake_of(s) - amount, -amount);
}

/// A successful slash keeps the books balanced.
proof fn lemma_slash_solvent(m: StakingModel, s: AccountId, amount: int)
    requires
        m.solvent(),
        m.slash_error(s, amount) is None,
    ensures
        m.after_slash(s, amount).solvent(),
{
    let sa = m.slash_amount(s, amount);
    lemma_solvent_account(m, s);
    lemma_settled_solvent(m, s);
    lemma_with_stake_solvent(m.settled(s), s, m.stake_of(s) - sa, -sa);
}

/// A successful compound keeps the books balanced.
proof fn lemma_compound_solvent(m: StakingModel, s: AccountId)
    requires
        m.solvent(),
        m.compound_error(s) is None,
    ensures
        m.after_compound(s).solvent(),
{
    let e = m.earned(s);
    lemma_solvent_account(m, s);
    lemma_claim_solvent(m, s);
    lemma_with_stake_solvent(m.after_claim(s), s, m.stake_of(s) + e, e);
}


/// Dropping members on which `g` is zero leaves the sum unchanged.
proof fn lemma_sum_zero_outside(d: Set<AccountId>, sub: Set<AccountId>, g: spec_fn(AccountId) -> int)
    requires
        d.finite(),
        sub.subset_of(d),
        forall|a: AccountId| d.contains(a) && !sub.contains(a) ==> g(a) == 0,
    ensures
        sum_over(d, g) == sum_over(sub, g),
    decreases d.len(),
{
    vstd::set_lib::lemma_len_subset(sub, d);
    if d.len() > 0 {
        let x = d.choose();
        if sub.contains(x) {
            lemma_sum_zero_outside(d.remove(x), sub.remove(x), g);
            lemma_sum_remove(sub, g, x);
        } else {
            lemma_sum_zero_outside(d.remove(x), sub, g);
        }
    } else {
        assert(sub.len() == 0);
    }
}

/// Rewards out never exceed rewards in. In a state whose books balance,
/// which `new` establishes and every entry point keeps, the rewards earned
/// by all accounts together, and so what any one account can claim or
/// compound, never exceed the reward tokens the pool holds; an account
/// without bookkeeping has earned nothing; and `total_staked` is the sum of
/// all stakes.
pub proof fn law_rewards_out_never_exceed_rewards_in(m: StakingModel)
    requires
        m.solvent(),
    ensures
        m.earned_sum() <= m.total_rewards,
        forall|s: AccountId| #[trigger] m.earned(s) <= m.total_rewards,
        forall|s: AccountId| !m.accounts().contains(s) ==> #[trigger] m.earned(s) == 0,
        m.total_rewards >= 0,
        m.total_staked == sum_over(m.stakes.dom(), stake_fn(m.stakes)),
{
    let d = m.accounts();
    let sc = REWARD_SCALE as int;
    let e = |a: AccountId| m.earned(a);
    let se = |a: AccountId| sc * m.earned(a);
    let zero = |a: AccountId| 0int;
    let g = owed_fn(m.stakes, m.paid, m.rewards, m.reward_per_token as int);
    assert forall|a: AccountId| d.contains(a) implies se(a) <= g(a) && zero(a) <= e(a) by {
        lemma_solvent_account(m, a);
    }
    lemma_sum_le(d, se, g);
    lemma_sum_scale(d, se, e, sc);
    lemma_sum_le(d, zero, e);
    lemma_sum_scale(d, zero, zero, 0);
    let es = m.earned_sum();
    let tr = m.total_rewards as int;
    assert(es <= tr && 0 <= tr) by (nonlinear_arith)
        requires sc * es <= sc * tr, sc > 0, 0 <= es;
    assert forall|s: AccountId| #[trigger] m.earned(s) <= m.total_rewards by {
        lemma_solvent_account(m, s);
        if d.contains(s) {
            lemma_sum_remove(d, e, s);
            lemma_sum_le(d.remove(s), zero, e);
            lemma_sum_scale(d.remove(s), zero, zero, 0);
        }
    }
    assert forall|s: AccountId| !m.accounts().contains(s) implies #[trigger] m.earned(s) == 0 by {
        lemma_solvent_account(m, s);
    }
    assert forall|a: AccountId| d.contains(a) && !m.stakes.dom().contains(a) implies stake_fn(m.stakes)(a) == 0 by {}
    lemma_sum_zero_outside(d, m.stakes.dom(), stake_fn(m.stakes));
}


/// A call of an entry point of the pool, with its arguments.
pub enum StakingCall {
    /// [`StakingContract::stake`].
    Stake { staker: AccountId, amount: i128 },
    /// [`StakingContract::unstake`] at ledger sequence `ledger`.
    Unstake { staker: AccountId, amount: i128, ledger: u32 },
    /// [`StakingContract::withdraw`] at ledger sequence `ledger`.
    Withdraw { staker: AccountId, ledger: u32 },
    /// [`StakingContract::claim_rewards`].
    ClaimRewards { staker: AccountId },
    /// [`StakingContract::add_rewards`].
    AddRewards { amount: i128 },
    /// [`StakingContract::slash`].
    Slash { staker: AccountId, amount: i128 },
    /// [`StakingContract::compound`].
    Compound { staker: AccountId },
    /// [`StakingContract::set_compounding`].
    SetCompounding { staker: AccountId, enabled: bool },
}

/// What a call does to the pool, as the contract of its entry point states
/// it: the next state, the reward tokens it adds to the pool and the reward
/// tokens it takes out (claimed, or compounded into stake). A refused call
/// changes nothing.
pub open spec fn call_effect(m: StakingModel, c: StakingCall) -> (StakingModel, int, int) {
    match c {
        StakingCall::Stake { staker, amount } => {
            if m.initialized() && amount > 0 && m.earned_ok(staker) && fits_i128(
                m.stake_of(staker) + amount,
            ) && fits_i128(m.total_staked + amount) {
                (m.after_stake(staker, amount as int), 0, 0)
            } else {
                (m, 0, 0)
            }
        },
        StakingCall::Unstake { staker, amount, ledger } => {
            if m.unstake_error(staker, amount as int, ledger as int) is None {
                (m.after_unstake(staker, amount as int, ledger as int), 0, 0)
            } else {
                (m, 0, 0)
            }
        },
        StakingCall::Withdraw { staker, ledger } => {
            if m.withdraw_error(staker, ledger as int) is None {
                (StakingModel { unbond_requests: m.unbond_requests.remove(staker), ..m }, 0, 0)
            } else {
                (m, 0, 0)
            }
        },
        StakingCall::ClaimRewards { staker } => {
            if m.claim_error(staker) is None {
                (m.after_claim(staker), 0, m.earned(staker))
            } else {
                (m, 0, 0)
            }
        },
        StakingCall::AddRewards { amount } => {
            if m.add_rewards_error(amount as int) is None {
                (m.after_add_rewards(amount as int), amount as int, 0)
            } else {
                (m, 0, 0)
            }
        },
        StakingCall::Slash { staker, amount } => {
            if m.slash_error(staker, amount as int) is None {
                (m.after_slash(staker, amount as int), 0, 0)
            } else {
                (m, 0, 0)
            }
        },
        StakingCall::Compound { staker } => {
            if m.compound_error(staker) is None {
                (m.after_compound(staker), 0, m.earned(staker))
            } else {
                (m, 0, 0)
            }
        },
        StakingCall::SetCompounding { staker, enabled } => {
            if m.initialized() {
                (StakingModel { compounding: m.compounding.insert(staker, enabled), ..m }, 0, 0)
            } else {
                (m, 0, 0)
            }
        },
    }
}

/// The effect of a sequence of calls: the final state, the reward tokens
/// added in all and the reward tokens taken out in all.
pub open spec fn calls_effect(m: StakingModel, calls: Seq<StakingCall>) -> (StakingModel, int, int)
    decreases calls.len(),
{
    if calls.len() == 0 {
        (m, 0, 0)
    } else {
        let (m1, added, taken) = calls_effect(m, calls.drop_last());
        let (m2, a, t) = call_effect(m1, calls.last());
        (m2, added + a, taken + t)
    }
}

/// Every call keeps the books balanced, and moves the pool's reward
/// balance by exactly what it adds less what it pays out.
proof fn lemma_call_effect(m: StakingModel, c: StakingCall)
    requires
        m.solvent(),
    ensures
        call_effect(m, c).0.solvent(),
        call_effect(m, c).0.total_rewards + call_effect(m, c).2 == m.total_rewards + call_effect(
            m,
            c,
        ).1,
        call_effect(m, c).1 >= 0,
        call_effect(m, c).2 >= 0,
{
    match c {
        StakingCall::Stake { staker, amount } => {
            if m.initialized() && amount > 0 && m.earned_ok(staker) && fits_i128(
                m.stake_of(staker) + amount,
            ) && fits_i128(m.total_staked + amount) {
                lemma_stake_solvent(m, staker, amount as int);
            }
        },
        StakingCall::Unstake { staker, amount, ledger } => {
            if m.unstake_error(staker, amount as int, ledger as int) is None {
                lemma_unstake_solvent(m, staker, amount as int, ledger as int);
            }
        },
        StakingCall::Withdraw { staker, ledger } => {},
        StakingCall::ClaimRewards { staker } => {
            if m.claim_error(staker) is None {
                lemma_claim_solvent(m, staker);
            }
        },
        StakingCall::AddRewards { amount } => {
            if m.add_rewards_error(amount as int) is None {
                lemma_add_rewards_solvent(m, amount as int);
            }
        },
        StakingCall::Slash { staker, amount } => {
            if m.slash_error(staker, amount as int) is None {
                lemma_slash_solvent(m, staker, amount as int);
            }
        },
        StakingCall::Compound { staker } => {
            if m.compound_error(staker) is None {
                lemma_compound_solvent(m, staker);
            }
        },
        StakingCall::SetCompounding { staker, enabled } => {},
    }
}

/// Over any sequence of calls, starting from a state whose books balance
/// (such as a new contract): the books still balance afterwards; the reward
/// tokens claimed and compounded plus those left in the pool equal those
/// the pool held at the start plus those added; and so no more is ever
/// taken out than was put in.
pub proof fn law_reward_flow(m: StakingModel, calls: Seq<StakingCall>)
    requires
        m.solvent(),
    ensures
        calls_effect(m, calls).0.solvent(),
        calls_effect(m, calls).2 + calls_effect(m, calls).0.total_rewards == m.total_rewards
            + calls_effect(m, calls).1,
        calls_effect(m, calls).2 <= m.total_rewards + calls_effect(m, calls).1,
    decreases calls.len(),
{
    if calls.len() > 0 {
        law_reward_flow(m, calls.drop_last());
        lemma_call_effect(calls_effect(m, calls.drop_last()).0, calls.last());
    }
    law_rewards_out_never_exceed_rewards_in(calls_effect(m, calls).0);
}


/// A sole staker whose rewards are settled receives the whole of a reward
/// deposit, less at most one unit of rounding, as long as the stake does
/// not exceed `REWARD_SCALE`; the result can then be claimed without
/// overflow.
pub proof fn law_single_staker_reward_share(m: StakingModel, s: AccountId, amount: int)
    requires
        m.initialized(),
        0 < m.stake_of(s) <= REWARD_SCALE,
        m.total_staked == m.stake_of(s),
        get_or_zero(m.paid, s) == m.reward_per_token,
        get_or_zero(m.rewards, s) == 0,
        m.add_rewards_error(amount) is None,
    ensures
        amount - 1 <= m.after_add_rewards(amount).earned(s) <= amount,
        m.after_add_rewards(amount).earned_ok(s),
{
    let x = m.stake_of(s);
    let sc = REWARD_SCALE as int;
    let q = amount * sc / x;
    let m2 = m.after_add_rewards(amount);
    assert(amount > 0);
    assert(m2.reward_per_token - m.reward_per_token == q);
    assert(0 <= q) by (nonlinear_arith)
        requires x > 0, amount > 0, sc > 0, q == amount * sc / x;
    assert(x * q <= amount * sc && amount * sc - x < x * q) by (nonlinear_arith)
        requires x > 0, amount > 0, sc > 0, q == amount * sc / x;
    assert(0 <= x * q) by (nonlinear_arith)
        requires x > 0, q >= 0;
    assert((x * q) / sc <= amount) by (nonlinear_arith)
        requires x * q <= amount * sc, sc > 0, x * q >= 0;
    assert((x * q) / sc >= amount - 1) by (nonlinear_arith)
        requires amount * sc - x < x * q, x <= sc, sc > 0;
    assert(m2.earned(s) == (x * q) / sc);
}

/// When two stakers with settled rewards hold everything that is staked, a
/// reward deposit never credits them more than was deposited.
pub proof fn law_two_stakers_rewards_bounded(m: StakingModel, a: AccountId, b: AccountId, amount: int)
    requires
        m.initialized(),
        a != b,
        m.stake_of(a) >= 0,
        m.stake_of(b) >= 0,
        m.total_staked == m.stake_of(a) + m.stake_of(b),
        m.total_staked > 0,
        get_or_zero(m.paid, a) == m.reward_per_token,
        get_or_zero(m.paid, b) == m.reward_per_token,
        get_or_zero(m.rewards, a) == 0,
        get_or_zero(m.rewards, b) == 0,
        m.add_rewards_error(amount) is None,
    ensures
        m.after_add_rewards(amount).earned(a) + m.after_add_rewards(amount).earned(b) <= amount,
{
    let xa = m.stake_of(a);
    let xb = m.stake_of(b);
    let t = m.total_staked as int;
    let sc = REWARD_SCALE as int;
    let q = amount * sc / t;
    let m2 = m.after_add_rewards(amount);
    assert(amount > 0);
    assert(m2.reward_per_token - m.reward_per_token == q);
    assert(0 <= q && t * q <= amount * sc) by (nonlinear_arith)
        requires t > 0, amount > 0, sc > 0, q == amount * sc / t;
    assert(0 <= xa * q && 0 <= xb * q && xa * q + xb * q == t * q) by (nonlinear_arith)
        requires xa >= 0, xb >= 0, q >= 0, t == xa + xb;
    assert((xa * q) / sc + (xb * q) / sc <= (t * q) / sc) by (nonlinear_arith)
        requires xa * q >= 0, xb * q >= 0, xa * q + xb * q == t * q, sc > 0;
    assert((t * q) / sc <= amount) by (nonlinear_arith)
        requires t * q <= amount * sc, sc > 0, t * q >= 0;
    assert(m2.earned(a) == (xa * q) / sc);
    assert(m2.earned(b) == (xb * q) / sc);
}

/// Without an unbonding period, staking `amount` and unstaking it again
/// always succeeds and leaves the stake, the total staked and the earned
/// rewards of the staker as they were.
pub proof fn law_stake_unstake_round_trip(m: StakingModel, s: AccountId, amount: int, ledger: int)
    requires
        m.initialized(),
        m.unbonding_period == 0,
        amount > 0,
        m.stake_of(s) >= 0,
        !m.unbond_requests.contains_key(s),
        m.earned_ok(s),
        fits_i128(m.stake_of(s) + amount),
        fits_i128(m.total_staked + amount),
    ensures
        m.after_stake(s, amount).unstake_error(s, amount, ledger) is None,
        m.after_stake(s, amount).after_unstake(s, amount, ledger).stake_of(s) == m.stake_of(s),
        m.after_stake(s, amount).after_unstake(s, amount, ledger).total_staked == m.total_staked,
        m.after_stake(s, amount).after_unstake(s, amount, ledger).earned(s) == m.earned(s),
{
    let m1 = m.after_stake(s, amount);
    assert(m1.stake_of(s) == m.stake_of(s) + amount);
    assert(get_or_zero(m1.paid, s) == m1.reward_per_token);
    assert(get_or_zero(m1.rewards, s) == m.earned(s));
    assert(m1.earned(s) == m.earned(s)) by {
        assert(m1.stake_of(s) * 0 == 0) by (nonlinear_arith);
    }
    let m2 = m1.after_unstake(s, amount, ledger);
    assert(m2.earned(s) == m.earned(s)) by {
        assert(m2.stake_of(s) * 0 == 0) by (nonlinear_arith);
    }
}

} // verus!
