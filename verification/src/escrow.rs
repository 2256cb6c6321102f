//! Two-party escrow: a buyer funds, a seller delivers, and the funds are
//! released to the seller, refunded to the buyer after the deadline, or
//! settled by one arbiter or a quorum of arbiters after a dispute. An
//! escrow may also be split into milestones released one by one, and a
//! platform fee may be routed to a treasury on every release.

use vstd::prelude::*;

use crate::common::{
    bps_fee_exact, contains_account, deadline_ok, div_trunc, fits_i128, validate_deadline, AccountId,
    Transfer,
};

verus! {

/// Error codes returned by the escrow contract.
#[derive(Clone, Copy, Debug, PartialEq, Eq, Structural)]
pub enum EscrowError {
    /// The caller is not permitted to perform this action.
    NotAuthorized,
    /// The escrow is not in the required lifecycle state for this operation.
    InvalidState,
    /// The operation cannot proceed because the deadline has already passed.
    DeadlinePassed,
    /// A refund was requested but the deadline has not yet been reached.
    DeadlineNotReached,
    /// `initialize` was called on an already-initialized contract.
    AlreadyInitialized,
    /// An operation was attempted before the contract was initialized.
    NotInitialized,
    /// The requested amount exceeds the escrowed or available balance.
    InsufficientFunds,
    /// The escrow amount must be greater than zero.
    InvalidAmount,
    /// The parties of the escrow are not distinct or the arbiter set is invalid.
    InvalidParties,
    /// The fee exceeds 10 000 basis points.
    FeeTooHigh,
    /// The milestone does not exist.
    MilestoneNotFound,
}

impl EscrowError {
    /// The numeric code of this error in the contract interface.
    pub open spec fn spec_code(self) -> u32 {
        match self {
            EscrowError::NotAuthorized => 1,
            EscrowError::InvalidState => 2,
            EscrowError::DeadlinePassed => 3,
            EscrowError::DeadlineNotReached => 4,
            EscrowError::AlreadyInitialized => 5,
            EscrowError::NotInitialized => 6,
            EscrowError::InsufficientFunds => 7,
            EscrowError::InvalidAmount => 8,
            EscrowError::InvalidParties => 9,
            EscrowError::FeeTooHigh => 10,
            EscrowError::MilestoneNotFound => 11,
        }
    }

    /// A short human-readable description of this error.
    pub open spec fn spec_message(self) -> Seq<char> {
        match self {
            EscrowError::NotAuthorized => "not authorized"@,
            EscrowError::InvalidState => "invalid state"@,
            EscrowError::DeadlinePassed => "deadline passed"@,
            EscrowError::DeadlineNotReached => "deadline not reached"@,
            EscrowError::AlreadyInitialized => "already initialized"@,
            EscrowError::NotInitialized => "not initialized"@,
            EscrowError::InsufficientFunds => "insufficient funds"@,
            EscrowError::InvalidAmount => "invalid amount"@,
            EscrowError::InvalidParties => "invalid parties"@,
            EscrowError::FeeTooHigh => "fee too high"@,
            EscrowError::MilestoneNotFound => "milestone not found"@,
        }
    }

    /// Returns the numeric code of this error.
    pub fn code(&self) -> (c: u32)
        ensures
            c == self.spec_code(),
    {
        match self {
            EscrowError::NotAuthorized => 1,
            EscrowError::InvalidState => 2,
            EscrowError::DeadlinePassed => 3,
            EscrowError::DeadlineNotReached => 4,
            EscrowError::AlreadyInitialized => 5,
            EscrowError::NotInitialized => 6,
            EscrowError::InsufficientFunds => 7,
            EscrowError::InvalidAmount => 8,
            EscrowError::InvalidParties => 9,
            EscrowError::FeeTooHigh => 10,
            EscrowError::MilestoneNotFound => 11,
        }
    }

    /// Returns a short human-readable description of this error.
    pub fn message(&self) -> (m: &'static str)
        ensures
            m@ == self.spec_message(),
    {
        match self {
            EscrowError::NotAuthorized => "not authorized",
            EscrowError::InvalidState => "invalid state",
            EscrowError::DeadlinePassed => "deadline passed",
            EscrowError::DeadlineNotReached => "deadline not reached",
            EscrowError::AlreadyInitialized => "already initialized",
            EscrowError::NotInitialized => "not initialized",
            EscrowError::InsufficientFunds => "insufficient funds",
            EscrowError::InvalidAmount => "invalid amount",
            EscrowError::InvalidParties => "invalid parties",
            EscrowError::FeeTooHigh => "fee too high",
            EscrowError::MilestoneNotFound => "milestone not found",
        }
    }
}

/// Lifecycle state of an escrow.
#[derive(Clone, Copy, Debug, PartialEq, Eq, Structural)]
pub enum EscrowState {
    /// Set up, not funded yet.
    Created,
    /// The buyer paid the amount into the contract.
    Funded,
    /// The seller reported delivery.
    Delivered,
    /// The funds went to the seller.
    Completed,
    /// The funds went back to the buyer.
    Refunded,
    /// Called off before funding.
    Cancelled,
    /// Awaiting an arbiter's decision.
    Disputed,
}

/// One separately releasable part of an escrow.
#[derive(Clone, Copy, Debug, PartialEq, Eq, Structural)]
pub struct Milestone {
    /// Amount paid to the seller when the milestone is released.
    pub amount: i128,
    /// Whether the milestone has been released.
    pub released: bool,
}

/// Summary of an escrow.
#[derive(Clone, Copy, Debug, PartialEq, Eq, Structural)]
pub struct EscrowInfo {
    /// The paying party.
    pub buyer: AccountId,
    /// The receiving party.
    pub seller: AccountId,
    /// The (primary) arbiter.
    pub arbiter: AccountId,
    /// Token held in escrow.
    pub token: AccountId,
    /// Amount still held for the parties.
    pub amount: i128,
    /// Ledger after which the buyer may ask for a refund.
    pub deadline: u32,
    /// Lifecycle state.
    pub state: EscrowState,
}

/// State of the escrow contract.
pub struct EscrowContract {
    /// Platform admin, who configures the fee.
    pub admin: AccountId,
    /// The paying party.
    pub buyer: AccountId,
    /// The receiving party.
    pub seller: AccountId,
    /// The (primary) arbiter.
    pub arbiter: AccountId,
    /// Token held in escrow.
    pub token: AccountId,
    /// Amount still held for the parties.
    pub amount: i128,
    /// Ledger after which the buyer may ask for a refund.
    pub deadline: u32,
    /// Lifecycle state; `None` before initialization.
    pub state: Option<EscrowState>,
    /// Arbiter votes needed to settle a dispute.
    pub required_signatures: u32,
    /// Ledgers a dispute may stay open.
    pub dispute_timeout_ledgers: u32,
    /// The arbiter panel, for an escrow with several arbiters.
    pub arbiters: Option<Vec<AccountId>>,
    /// Arbiters who voted on the open dispute.
    pub arbiter_votes: Vec<AccountId>,
    /// The milestones, for a milestone escrow.
    pub milestones: Option<Vec<Milestone>>,
    /// Fee on every release, in basis points.
    pub fee_bps: u32,
    /// Receiver of the fee.
    pub treasury: Option<AccountId>,
    /// Hash of off-chain terms.
    pub metadata_hash: Option<[u8; 32]>,
}

/// Abstract state of the escrow contract.
pub struct EscrowModel {
    pub admin: AccountId,
    pub buyer: AccountId,
    pub seller: AccountId,
    pub arbiter: AccountId,
    pub token: AccountId,
    pub amount: i128,
    pub deadline: u32,
    pub state: Option<EscrowState>,
    pub required_signatures: u32,
    pub dispute_timeout_ledgers: u32,
    pub arbiters: Option<Seq<AccountId>>,
    pub arbiter_votes: Seq<AccountId>,
    pub milestones: Option<Seq<Milestone>>,
    pub fee_bps: u32,
    pub treasury: Option<AccountId>,
    pub metadata_hash: Option<[u8; 32]>,
}

impl View for EscrowContract {
    type V = EscrowModel;

    open spec fn view(&self) -> EscrowModel {
        EscrowModel {
            admin: self.admin,
            buyer: self.buyer,
            seller: self.seller,
            arbiter: self.arbiter,
            token: self.token,
            amount: self.amount,
            deadline: self.deadline,
            state: self.state,
            required_signatures: self.required_signatures,
            dispute_timeout_ledgers: self.dispute_timeout_ledgers,
            arbiters: match self.arbiters {
                Some(v) => Some(v@),
                None => None,
            },
            arbiter_votes: self.arbiter_votes@,
            milestones: match self.milestones {
                Some(v) => Some(v@),
                None => None,
            },
            fee_bps: self.fee_bps,
            treasury: self.treasury,
            metadata_hash: self.metadata_hash,
        }
    }
}

/// Sum of the milestone amounts, scanning left to right: the first
/// non-positive amount gives `InvalidAmount`, the first sum that leaves
/// `i128` gives `InsufficientFunds`.
pub open spec fn milestone_total(ms: Seq<Milestone>) -> Result<int, EscrowError>
    decreases ms.len(),
{
    if ms.len() == 0 {
        Ok(0)
    } else {
        match milestone_total(ms.drop_last()) {
            Err(e) => Err(e),
            Ok(t) => if ms.last().amount <= 0 {
                Err(EscrowError::InvalidAmount)
            } else if !fits_i128(t + ms.last().amount) {
                Err(EscrowError::InsufficientFunds)
            } else {
                Ok(t + ms.last().amount)
            },
        }
    }
}

/// All milestones have been released.
pub open spec fn all_released(ms: Seq<Milestone>) -> bool {
    forall|i: int| 0 <= i < ms.len() ==> #[trigger] ms[i].released
}

/// Buyer, seller and arbiter are three different accounts.
pub open spec fn distinct_parties(buyer: AccountId, seller: AccountId, arbiter: AccountId) -> bool {
    buyer != seller && buyer != arbiter && seller != arbiter
}

/// The panel is non-empty, the quorum is between one and its size, and no
/// arbiter is the buyer or the seller.
pub open spec fn valid_panel(buyer: AccountId, seller: AccountId, arbiters: Seq<AccountId>, required: int) -> bool {
    &&& arbiters.len() > 0
    &&& required != 0
    &&& required <= arbiters.len()
    &&& !arbiters.contains(buyer)
    &&& !arbiters.contains(seller)
}

impl EscrowModel {
    /// The escrow has been set up.
    pub open spec fn initialized(self) -> bool {
        self.state is Some
    }

    /// Whether the escrow is in state `s`.
    pub open spec fn in_state(self, s: EscrowState) -> bool {
        self.state == Some(s)
    }

    /// The fee is at most 100 %, the held amount lies above the least
    /// `i128` (it falls below zero when a milestone larger than what is left
    /// is released) and every milestone amount is positive.
    pub open spec fn wf(self) -> bool {
        &&& self.fee_bps <= 10_000
        &&& self.amount > i128::MIN
        &&& self.milestones matches Some(ms) ==> forall|i: int|
            0 <= i < ms.len() ==> #[trigger] ms[i].amount > 0
    }

    /// The escrow can be settled: it is funded or delivered.
    pub open spec fn active(self) -> bool {
        self.in_state(EscrowState::Funded) || self.in_state(EscrowState::Delivered)
    }

    /// Fee taken from a release of `gross`: its `fee_bps` share, rounded
    /// toward zero.
    pub open spec fn fee_of(self, gross: int) -> int {
        div_trunc(gross * self.fee_bps, 10_000)
    }

    /// Token movements of a release of `gross` to `to`: the amount less the
    /// fee to `to`, and the fee to the treasury when there is one and the
    /// fee is positive.
    pub open spec fn release_transfers(self, to: AccountId, gross: int) -> Seq<Transfer> {
        let fee = self.fee_of(gross);
        seq![Transfer::Payout { token: self.token, to, amount: (gross - fee) as i128 }] + (if fee > 0
            && self.treasury is Some {
            seq![Transfer::Payout { token: self.token, to: self.treasury->Some_0, amount: fee as i128 }]
        } else {
            Seq::<Transfer>::empty()
        })
    }

    /// The state right after a successful set-up.
    pub open spec fn set_up(
        self,
        admin: AccountId,
        buyer: AccountId,
        seller: AccountId,
        arbiter: AccountId,
        token: AccountId,
        amount: int,
        deadline: u32,
        required: u32,
        timeout: u32,
        hash: Option<[u8; 32]>,
        arbiters: Option<Seq<AccountId>>,
        milestones: Option<Seq<Milestone>>,
    ) -> Self {
        EscrowModel {
            admin,
            buyer,
            seller,
            arbiter,
            token,
            amount: amount as i128,
            deadline,
            state: Some(EscrowState::Created),
            required_signatures: required,
            dispute_timeout_ledgers: timeout,
            arbiters,
            milestones,
            metadata_hash: hash,
            ..self
        }
    }

    /// This state with the lifecycle state set to `s`.
    pub open spec fn with_state(self, s: EscrowState) -> Self {
        EscrowModel { state: Some(s), ..self }
    }

    /// The first check of `initialize` that fails, if any.
    pub open spec fn initialize_error(
        self,
        buyer: AccountId,
        seller: AccountId,
        arbiter: AccountId,
        amount: int,
        deadline: int,
        ledger: int,
    ) -> Option<EscrowError> {
        if self.initialized() {
            Some(EscrowError::AlreadyInitialized)
        } else if amount <= 0 {
            Some(EscrowError::InvalidAmount)
        } else if !distinct_parties(buyer, seller, arbiter) {
            Some(EscrowError::InvalidParties)
        } else if !deadline_ok(deadline, ledger) {
            Some(EscrowError::DeadlinePassed)
        } else {
            None
        }
    }

    /// The first check of `initialize_with_arbiters` that fails, if any.
    pub open spec fn initialize_panel_error(
        self,
        buyer: AccountId,
        seller: AccountId,
        arbiters: Seq<AccountId>,
        amount: int,
        deadline: int,
        required: int,
        ledger: int,
    ) -> Option<EscrowError> {
        if self.initialized() {
            Some(EscrowError::AlreadyInitialized)
        } else if amount <= 0 {
            Some(EscrowError::InvalidAmount)
        } else if !valid_panel(buyer, seller, arbiters, required) {
            Some(EscrowError::InvalidParties)
        } else if !deadline_ok(deadline, ledger) {
            Some(EscrowError::DeadlinePassed)
        } else {
            None
        }
    }

    /// The first check of `initialize_with_milestones` that fails, if any.
    pub open spec fn initialize_milestones_error(
        self,
        buyer: AccountId,
        seller: AccountId,
        arbiter: AccountId,
        milestones: Seq<Milestone>,
        deadline: int,
        ledger: int,
    ) -> Option<EscrowError> {
        if self.initialized() {
            Some(EscrowError::AlreadyInitialized)
        } else if milestones.len() == 0 {
            Some(EscrowError::InvalidAmount)
        } else if milestone_total(milestones) is Err {
            Some(milestone_total(milestones)->Err_0)
        } else if !distinct_parties(buyer, seller, arbiter) {
            Some(EscrowError::InvalidParties)
        } else if !deadline_ok(deadline, ledger) {
            Some(EscrowError::DeadlinePassed)
        } else {
            None
        }
    }

    /// The first check of `update_amount` that fails, if any.
    pub open spec fn update_amount_error(self, new_amount: int) -> Option<EscrowError> {
        if !self.initialized() {
            Some(EscrowError::NotInitialized)
        } else if new_amount <= 0 {
            Some(EscrowError::InvalidAmount)
        } else if !self.in_state(EscrowState::Created) {
            Some(EscrowError::InvalidState)
        } else {
            None
        }
    }

    /// The first check of `fund` that fails, if any.
    pub open spec fn fund_error(self, buyer_balance: int) -> Option<EscrowError> {
        if !self.initialized() {
            Some(EscrowError::NotInitialized)
        } else if !self.in_state(EscrowState::Created) {
            Some(EscrowError::InvalidState)
        } else if buyer_balance < self.amount {
            Some(EscrowError::InsufficientFunds)
        } else {
            None
        }
    }

    /// The first check of a call that needs state `s` that fails, if any.
    pub open spec fn state_error(self, s: EscrowState) -> Option<EscrowError> {
        if !self.initialized() {
            Some(EscrowError::NotInitialized)
        } else if !self.in_state(s) {
            Some(EscrowError::InvalidState)
        } else {
            None
        }
    }

    /// The first check of `release_partial` that fails, if any.
    pub open spec fn release_partial_error(self, amount: int) -> Option<EscrowError> {
        if !self.initialized() {
            Some(EscrowError::NotInitialized)
        } else if !self.in_state(EscrowState::Funded) {
            Some(EscrowError::InvalidState)
        } else if amount <= 0 {
            Some(EscrowError::InvalidAmount)
        } else if amount > self.amount {
            Some(EscrowError::InsufficientFunds)
        } else {
            None
        }
    }

    /// The first check of `request_refund` that fails, if any.
    pub open spec fn request_refund_error(self, ledger: int) -> Option<EscrowError> {
        if !self.initialized() {
            Some(EscrowError::NotInitialized)
        } else if !(self.active() && ledger > self.deadline) {
            Some(EscrowError::DeadlineNotReached)
        } else if !self.in_state(EscrowState::Funded) {
            Some(EscrowError::InvalidState)
        } else {
            None
        }
    }

    /// The first check of `request_partial_refund` that fails, if any.
    pub open spec fn partial_refund_error(self) -> Option<EscrowError> {
        if !self.initialized() {
            Some(EscrowError::NotInitialized)
        } else if !self.in_state(EscrowState::Funded) {
            Some(EscrowError::InvalidState)
        } else if self.amount <= 0 {
            Some(EscrowError::InvalidAmount)
        } else {
            None
        }
    }

    /// The first check of `extend_deadline` that fails, if any.
    pub open spec fn extend_deadline_error(self, new_deadline: int, ledger: int) -> Option<EscrowError> {
        if !self.initialized() {
            Some(EscrowError::NotInitialized)
        } else if !deadline_ok(new_deadline, ledger) || new_deadline <= self.deadline {
            Some(EscrowError::DeadlinePassed)
        } else if !self.active() {
            Some(EscrowError::InvalidState)
        } else {
            None
        }
    }

    /// The first check of `raise_dispute` that fails, if any.
    pub open spec fn raise_dispute_error(self, caller: AccountId) -> Option<EscrowError> {
        if !self.initialized() {
            Some(EscrowError::NotInitialized)
        } else if caller != self.buyer && caller != self.seller {
            Some(EscrowError::NotAuthorized)
        } else if !self.active() {
            Some(EscrowError::InvalidState)
        } else {
            None
        }
    }

    /// The first check of `resolve_dispute` that fails, if any.
    pub open spec fn resolve_error(self, caller: AccountId) -> Option<EscrowError> {
        if !self.initialized() {
            Some(EscrowError::NotInitialized)
        } else if !self.in_state(EscrowState::Disputed) {
            Some(EscrowError::InvalidState)
        } else if self.arbiters is Some && !self.arbiters->Some_0.contains(caller) {
            Some(EscrowError::NotAuthorized)
        } else {
            None
        }
    }

    /// Arbiter votes after `caller` voted.
    pub open spec fn votes_with(self, caller: AccountId) -> Seq<AccountId> {
        if self.arbiter_votes.contains(caller) {
            self.arbiter_votes
        } else {
            self.arbiter_votes.push(caller)
        }
    }

    /// A vote by `caller` settles the dispute.
    pub open spec fn resolve_settles(self, caller: AccountId) -> bool {
        self.arbiters is None || self.votes_with(caller).len() >= self.required_signatures
    }

    /// The state after a dispute is settled in favour of the seller or the
    /// buyer.
    pub open spec fn settled(self, to_seller: bool) -> Self {
        EscrowModel {
            state: Some(if to_seller { EscrowState::Completed } else { EscrowState::Refunded }),
            arbiter_votes: Seq::<AccountId>::empty(),
            ..self
        }
    }

    /// Token movements of settling in favour of the seller or the buyer.
    pub open spec fn settle_transfers(self, to_seller: bool) -> Seq<Transfer> {
        if to_seller {
            self.release_transfers(self.seller, self.amount as int)
        } else {
            seq![Transfer::Payout { token: self.token, to: self.buyer, amount: self.amount }]
        }
    }

    /// The first check of `set_fee_config` that fails, if any.
    pub open spec fn fee_config_error(self, fee_bps: int) -> Option<EscrowError> {
        if !self.initialized() {
            Some(EscrowError::NotInitialized)
        } else if fee_bps > 10_000 {
            Some(EscrowError::FeeTooHigh)
        } else {
            None
        }
    }

    /// The first check of `release_milestone` that fails, if any.
    pub open spec fn release_milestone_error(self, caller: AccountId, index: int) -> Option<EscrowError> {
        if !self.initialized() {
            Some(EscrowError::NotInitialized)
        } else if caller != self.buyer && caller != self.arbiter {
            Some(EscrowError::NotAuthorized)
        } else if !self.in_state(EscrowState::Funded) {
            Some(EscrowError::InvalidState)
        } else if self.milestones is None || index >= self.milestones->Some_0.len() {
            Some(EscrowError::MilestoneNotFound)
        } else if self.milestones->Some_0[index].released {
            Some(EscrowError::InvalidState)
        } else {
            None
        }
    }

    /// The state after milestone `index` was released.
    pub open spec fn after_milestone(self, index: int) -> Self {
        let ms = self.milestones->Some_0;
        let m = ms[index];
        let ms2 = ms.update(index, Milestone { amount: m.amount, released: true });
        EscrowModel {
            milestones: Some(ms2),
            amount: (self.amount - m.amount) as i128,
            state: if all_released(ms2) {
                Some(EscrowState::Completed)
            } else {
                self.state
            },
            ..self
        }
    }
}

/// `Ok` for a positive amount, `InvalidAmount` otherwise.
pub fn validate_amount(amount: i128) -> (r: Result<(), EscrowError>)
    ensures
        r == (if amount > 0 { Ok::<(), EscrowError>(()) } else { Err(EscrowError::InvalidAmount) }),
{
    if amount <= 0 {
        return Err(EscrowError::InvalidAmount);
    }
    Ok(())
}

impl EscrowContract {
    /// A contract with empty storage.
    pub fn new() -> (c: Self)
        ensures
            c@ == (EscrowModel {
                admin: 0,
                buyer: 0,
                seller: 0,
                arbiter: 0,
                token: 0,
                amount: 0,
                deadline: 0,
                state: None,
                required_signatures: 0,
                dispute_timeout_ledgers: 0,
                arbiters: None,
                arbiter_votes: Seq::empty(),
                milestones: None,
                fee_bps: 0,
                treasury: None,
                metadata_hash: None,
            }),
            !c@.initialized(),
            c@.wf(),
    {
        EscrowContract {
            admin: 0,
            buyer: 0,
            seller: 0,
            arbiter: 0,
            token: 0,
            amount: 0,
            deadline: 0,
            state: None,
            required_signatures: 0,
            dispute_timeout_ledgers: 0,
            arbiters: None,
            arbiter_votes: Vec::new(),
            milestones: None,
            fee_bps: 0,
            treasury: None,
            metadata_hash: None,
        }
    }

    fn release_transfers(&self, to: AccountId, gross: i128) -> (out: Vec<Transfer>)
        requires
            self@.wf(),
            gross > i128::MIN,
        ensures
            out@ == self@.release_transfers(to, gross as int),
    {
        let fee: i128 = if gross >= 0 {
            bps_fee_exact(gross, self.fee_bps)
        } else {
            let f = bps_fee_exact(-gross, self.fee_bps);
            proof {
                let g = gross as int;
                let b = self.fee_bps as int;
                assert((-g) * b == -(g * b)) by (nonlinear_arith);
            }
            -f
        };
        let mut out: Vec<Transfer> = Vec::new();
        out.push(Transfer::Payout { token: self.token, to, amount: gross - fee });
        if fee > 0 {
            match self.treasury {
                Some(t) => {
                    out.push(Transfer::Payout { token: self.token, to: t, amount: fee });
                },
                None => {},
            }
        }
        proof {
            let spec_out = self@.release_transfers(to, gross as int);
            assert(out@ =~= spec_out);
        }
        out
    }

    /// Sets up an escrow of `amount` between three distinct parties, due by
    /// `deadline`, at ledger sequence `ledger`. The admin configures fees.
    pub fn initialize(
        &mut self,
        admin: AccountId,
        buyer: AccountId,
        seller: AccountId,
        arbiter: AccountId,
        token: AccountId,
        amount: i128,
        deadline: u32,
        dispute_timeout_ledgers: u32,
        metadata_hash: Option<[u8; 32]>,
        ledger: u32,
    ) -> (r: Result<(), EscrowError>)
        requires
            old(self)@.wf(),
        ensures
            final(self)@.wf(),
            match old(self)@.initialize_error(buyer, seller, arbiter, amount as int, deadline as int, ledger as int) {
                Some(e) => r == Err::<(), _>(e) && final(self)@ == old(self)@,
                None => r is Ok && final(self)@ == old(self)@.set_up(
                    admin, buyer, seller, arbiter, token, amount as int, deadline, 1, dispute_timeout_ledgers,
                    metadata_hash, None, None,
                ),
            },
    {
        if self.state.is_some() {
            return Err(EscrowError::AlreadyInitialized);
        }
        validate_amount(amount)?;
        if buyer == seller || buyer == arbiter || seller == arbiter {
            return Err(EscrowError::InvalidParties);
        }
        if !validate_deadline(deadline, ledger) {
            return Err(EscrowError::DeadlinePassed);
        }
        self.set_up(admin, buyer, seller, arbiter, token, amount, deadline, 1, dispute_timeout_ledgers, metadata_hash);
        self.arbiters = None;
        self.milestones = None;
        Ok(())
    }

    fn set_up(
        &mut self,
        admin: AccountId,
        buyer: AccountId,
        seller: AccountId,
        arbiter: AccountId,
        token: AccountId,
        amount: i128,
        deadline: u32,
        required: u32,
        timeout: u32,
        hash: Option<[u8; 32]>,
    )
        ensures
            final(self)@ == (EscrowModel {
                admin,
                buyer,
                seller,
                arbiter,
                token,
                amount,
                deadline,
                state: Some(EscrowState::Created),
                required_signatures: required,
                dispute_timeout_ledgers: timeout,
                metadata_hash: hash,
                ..old(self)@
            }),
    {
        self.admin = admin;
        self.buyer = buyer;
        self.seller = seller;
        self.arbiter = arbiter;
        self.token = token;
        self.amount = amount;
        self.deadline = deadline;
        self.state = Some(EscrowState::Created);
        self.required_signatures = required;
        self.dispute_timeout_ledgers = timeout;
        self.metadata_hash = hash;
    }

    /// Sets up an escrow settled by a panel of arbiters, `required` of whom
    /// must vote to settle a dispute; the first arbiter is the primary one.
    pub fn initialize_with_arbiters(
        &mut self,
        admin: AccountId,
        buyer: AccountId,
        seller: AccountId,
        arbiters: Vec<AccountId>,
        token: AccountId,
        amount: i128,
        deadline: u32,
        required_signatures: u32,
        dispute_timeout_ledgers: u32,
        metadata_hash: Option<[u8; 32]>,
        ledger: u32,
    ) -> (r: Result<(), EscrowError>)
        requires
            old(self)@.wf(),
        ensures
            final(self)@.wf(),
            match old(self)@.initialize_panel_error(buyer, seller, arbiters@, amount as int, deadline as int, required_signatures as int, ledger as int) {
                Some(e) => r == Err::<(), _>(e) && final(self)@ == old(self)@,
                None => r is Ok && final(self)@ == old(self)@.set_up(
                    admin, buyer, seller, arbiters@[0], token, amount as int, deadline, required_signatures,
                    dispute_timeout_ledgers, metadata_hash, Some(arbiters@), None,
                ),
            },
    {
        if self.state.is_some() {
            return Err(EscrowError::AlreadyInitialized);
        }
        if amount <= 0 {
            return Err(EscrowError::InvalidAmount);
        }
        if arbiters.len() == 0 || required_signatures == 0 || required_signatures as usize > arbiters.len() {
            return Err(EscrowError::InvalidParties);
        }
        if contains_account(&arbiters, buyer) || contains_account(&arbiters, seller) {
            return Err(EscrowError::InvalidParties);
        }
        if !validate_deadline(deadline, ledger) {
            return Err(EscrowError::DeadlinePassed);
        }
        let primary = arbiters[0];
        self.set_up(admin, buyer, seller, primary, token, amount, deadline, required_signatures, dispute_timeout_ledgers, metadata_hash);
        self.arbiters = Some(arbiters);
        self.milestones = None;
        Ok(())
    }

    /// Sets up an escrow whose amount is the sum of `milestones`, each
    /// released on its own.
    pub fn initialize_with_milestones(
        &mut self,
        admin: AccountId,
        buyer: AccountId,
        seller: AccountId,
        arbiter: AccountId,
        token: AccountId,
        milestones: Vec<Milestone>,
        deadline: u32,
        dispute_timeout_ledgers: u32,
        metadata_hash: Option<[u8; 32]>,
        ledger: u32,
    ) -> (r: Result<(), EscrowError>)
        requires
            old(self)@.wf(),
        ensures
            final(self)@.wf(),
            match old(self)@.initialize_milestones_error(buyer, seller, arbiter, milestones@, deadline as int, ledger as int) {
                Some(e) => r == Err::<(), _>(e) && final(self)@ == old(self)@,
                None => r is Ok && final(self)@ == old(self)@.set_up(
                    admin, buyer, seller, arbiter, token, milestone_total(milestones@)->Ok_0, deadline, 1,
                    dispute_timeout_ledgers, metadata_hash, None, Some(milestones@),
                ),
            },
    {
        if self.state.is_some() {
            return Err(EscrowError::AlreadyInitialized);
        }
        if milestones.len() == 0 {
            return Err(EscrowError::InvalidAmount);
        }
        let mut total: i128 = 0;
        let mut i: usize = 0;
        while i < milestones.len()
            invariant
                0 <= i <= milestones@.len(),
                milestone_total(milestones@.take(i as int)) == Ok::<int, EscrowError>(total as int),
                total >= 0,
                *self == *old(self),
                old(self)@.wf(),
                !old(self)@.initialized(),
                milestones@.len() > 0,
            decreases milestones@.len() - i,
        {
            assert(milestones@.take(i + 1).drop_last() =~= milestones@.take(i as int));
            let a = milestones[i].amount;
            if a <= 0 {
                proof { lemma_total_err_extends(milestones@, i as int + 1); }
                return Err(EscrowError::InvalidAmount);
            }
            total = match total.checked_add(a) {
                Some(t) => t,
                None => {
                    proof { lemma_total_err_extends(milestones@, i as int + 1); }
                    return Err(EscrowError::InsufficientFunds);
                },
            };
            i = i + 1;
        }
        assert(milestones@.take(milestones@.len() as int) =~= milestones@);
        proof {
            lemma_total_ok_positive(milestones@);
        }
        if buyer == seller || buyer == arbiter || seller == arbiter {
            return Err(EscrowError::InvalidParties);
        }
        if !validate_deadline(deadline, ledger) {
            return Err(EscrowError::DeadlinePassed);
        }
        self.set_up(admin, buyer, seller, arbiter, token, total, deadline, 1, dispute_timeout_ledgers, metadata_hash);
        self.arbiters = None;
        self.milestones = Some(milestones);
        Ok(())
    }

    /// The buyer changes the amount before funding.
    pub fn update_amount(&mut self, new_amount: i128) -> (r: Result<(), EscrowError>)
        requires
            old(self)@.wf(),
        ensures
            final(self)@.wf(),
            match old(self)@.update_amount_error(new_amount as int) {
                Some(e) => r == Err::<(), _>(e) && final(self)@ == old(self)@,
                None => r is Ok && final(self)@ == (EscrowModel { amount: new_amount, ..old(self)@ }),
            },
    {
        if self.state.is_none() {
            return Err(EscrowError::NotInitialized);
        }
        if new_amount <= 0 {
            return Err(EscrowError::InvalidAmount);
        }
        if self.state != Some(EscrowState::Created) {
            return Err(EscrowError::InvalidState);
        }
        self.amount = new_amount;
        Ok(())
    }

    /// The buyer, holding `buyer_balance` of the token, pays the amount in.
    pub fn fund(&mut self, buyer_balance: i128) -> (r: Result<Vec<Transfer>, EscrowError>)
        requires
            old(self)@.wf(),
        ensures
            final(self)@.wf(),
            match old(self)@.fund_error(buyer_balance as int) {
                Some(e) => r == Err::<Vec<Transfer>, _>(e) && final(self)@ == old(self)@,
                None => r is Ok && final(self)@ == old(self)@.with_state(EscrowState::Funded)
                    && r.unwrap()@ == seq![Transfer::Deposit { token: old(self)@.token, from: old(self)@.buyer, amount: old(self)@.amount }],
            },
    {
        if self.state.is_none() {
            return Err(EscrowError::NotInitialized);
        }
        if self.state != Some(EscrowState::Created) {
            return Err(EscrowError::InvalidState);
        }
        if buyer_balance < self.amount {
            return Err(EscrowError::InsufficientFunds);
        }
        self.state = Some(EscrowState::Funded);
        let mut out: Vec<Transfer> = Vec::new();
        out.push(Transfer::Deposit { token: self.token, from: self.buyer, amount: self.amount });
        Ok(out)
    }

    /// The seller reports delivery.
    pub fn mark_delivered(&mut self) -> (r: Result<(), EscrowError>)
        requires
            old(self)@.wf(),
        ensures
            final(self)@.wf(),
            match old(self)@.state_error(EscrowState::Funded) {
                Some(e) => r == Err::<(), _>(e) && final(self)@ == old(self)@,
                None => r is Ok && final(self)@ == old(self)@.with_state(EscrowState::Delivered),
            },
    {
        if self.state.is_none() {
            return Err(EscrowError::NotInitialized);
        }
        if self.state != Some(EscrowState::Funded) {
            return Err(EscrowError::InvalidState);
        }
        self.state = Some(EscrowState::Delivered);
        Ok(())
    }

    /// The buyer accepts the delivery: the amount, less the fee, goes to the
    /// seller.
    pub fn approve_delivery(&mut self) -> (r: Result<Vec<Transfer>, EscrowError>)
        requires
            old(self)@.wf(),
        ensures
            final(self)@.wf(),
            match old(self)@.state_error(EscrowState::Delivered) {
                Some(e) => r == Err::<Vec<Transfer>, _>(e) && final(self)@ == old(self)@,
                None => r is Ok && final(self)@ == old(self)@.with_state(EscrowState::Completed)
                    && r.unwrap()@ == old(self)@.release_transfers(old(self)@.seller, old(self)@.amount as int),
            },
    {
        if self.state.is_none() {
            return Err(EscrowError::NotInitialized);
        }
        if self.state != Some(EscrowState::Delivered) {
            return Err(EscrowError::InvalidState);
        }
        self.state = Some(EscrowState::Completed);
        Ok(self.release_transfers(self.seller, self.amount))
    }

    /// The buyer releases part of the funded amount to the seller early.
    pub fn release_partial(&mut self, amount: i128) -> (r: Result<Vec<Transfer>, EscrowError>)
        requires
            old(self)@.wf(),
        ensures
            final(self)@.wf(),
            match old(self)@.release_partial_error(amount as int) {
                Some(e) => r == Err::<Vec<Transfer>, _>(e) && final(self)@ == old(self)@,
                None => r is Ok && final(self)@ == (EscrowModel { amount: (old(self)@.amount - amount) as i128, ..old(self)@ })
                    && r.unwrap()@ == old(self)@.release_transfers(old(self)@.seller, amount as int),
            },
    {
        if self.state.is_none() {
            return Err(EscrowError::NotInitialized);
        }
        if self.state != Some(EscrowState::Funded) {
            return Err(EscrowError::InvalidState);
        }
        if amount <= 0 {
            return Err(EscrowError::InvalidAmount);
        }
        if amount > self.amount {
            return Err(EscrowError::InsufficientFunds);
        }
        let out = self.release_transfers(self.seller, amount);
        self.amount = self.amount - amount;
        Ok(out)
    }

    fn refund_transfers(&self) -> (out: Vec<Transfer>)
        ensures
            out@ == seq![Transfer::Payout { token: self.token, to: self.buyer, amount: self.amount }],
    {
        let mut out: Vec<Transfer> = Vec::new();
        out.push(Transfer::Payout { token: self.token, to: self.buyer, amount: self.amount });
        out
    }

    /// The buyer takes the funds back once ledger `ledger` is past the
    /// deadline.
    pub fn request_refund(&mut self, ledger: u32) -> (r: Result<Vec<Transfer>, EscrowError>)
        requires
            old(self)@.wf(),
        ensures
            final(self)@.wf(),
            match old(self)@.request_refund_error(ledger as int) {
                Some(e) => r == Err::<Vec<Transfer>, _>(e) && final(self)@ == old(self)@,
                None => r is Ok && final(self)@ == old(self)@.with_state(EscrowState::Refunded)
                    && r.unwrap()@ == old(self)@.settle_transfers(false),
            },
    {
        if self.state.is_none() {
            return Err(EscrowError::NotInitialized);
        }
        let active = self.state == Some(EscrowState::Funded) || self.state == Some(EscrowState::Delivered);
        if !(active && ledger > self.deadline) {
            return Err(EscrowError::DeadlineNotReached);
        }
        if self.state != Some(EscrowState::Funded) {
            return Err(EscrowError::InvalidState);
        }
        self.state = Some(EscrowState::Refunded);
        Ok(self.refund_transfers())
    }

    /// The buyer takes back what is left of a funded escrow at any time.
    pub fn request_partial_refund(&mut self) -> (r: Result<Vec<Transfer>, EscrowError>)
        requires
            old(self)@.wf(),
        ensures
            final(self)@.wf(),
            match old(self)@.partial_refund_error() {
                Some(e) => r == Err::<Vec<Transfer>, _>(e) && final(self)@ == old(self)@,
                None => r is Ok && final(self)@ == old(self)@.with_state(EscrowState::Refunded)
                    && r.unwrap()@ == old(self)@.settle_transfers(false),
            },
    {
        if self.state.is_none() {
            return Err(EscrowError::NotInitialized);
        }
        if self.state != Some(EscrowState::Funded) {
            return Err(EscrowError::InvalidState);
        }
        if self.amount <= 0 {
            return Err(EscrowError::InvalidAmount);
        }
        self.state = Some(EscrowState::Refunded);
        Ok(self.refund_transfers())
    }

    /// The buyer calls the escrow off before funding it.
    pub fn cancel(&mut self) -> (r: Result<(), EscrowError>)
        requires
            old(self)@.wf(),
        ensures
            final(self)@.wf(),
            match old(self)@.state_error(EscrowState::Created) {
                Some(e) => r == Err::<(), _>(e) && final(self)@ == old(self)@,
                None => r is Ok && final(self)@ == old(self)@.with_state(EscrowState::Cancelled),
            },
    {
        if self.state.is_none() {
            return Err(EscrowError::NotInitialized);
        }
        if self.state != Some(EscrowState::Created) {
            return Err(EscrowError::InvalidState);
        }
        self.state = Some(EscrowState::Cancelled);
        Ok(())
    }

    /// Buyer and seller together move the deadline later, at ledger
    /// sequence `ledger`.
    pub fn extend_deadline(&mut self, new_deadline: u32, ledger: u32) -> (r: Result<(), EscrowError>)
        requires
            old(self)@.wf(),
        ensures
            final(self)@.wf(),
            match old(self)@.extend_deadline_error(new_deadline as int, ledger as int) {
                Some(e) => r == Err::<(), _>(e) && final(self)@ == old(self)@,
                None => r is Ok && final(self)@ == (EscrowModel { deadline: new_deadline, ..old(self)@ }),
            },
    {
        if self.state.is_none() {
            return Err(EscrowError::NotInitialized);
        }
        if !validate_deadline(new_deadline, ledger) || new_deadline <= self.deadline {
            return Err(EscrowError::DeadlinePassed);
        }
        if !(self.state == Some(EscrowState::Funded) || self.state == Some(EscrowState::Delivered)) {
            return Err(EscrowError::InvalidState);
        }
        self.deadline = new_deadline;
        Ok(())
    }

    /// The buyer or the seller, as `caller`, opens a dispute.
    pub fn raise_dispute(&mut self, caller: AccountId) -> (r: Result<(), EscrowError>)
        requires
            old(self)@.wf(),
        ensures
            final(self)@.wf(),
            match old(self)@.raise_dispute_error(caller) {
                Some(e) => r == Err::<(), _>(e) && final(self)@ == old(self)@,
                None => r is Ok && final(self)@ == old(self)@.with_state(EscrowState::Disputed),
            },
    {
        if self.state.is_none() {
            return Err(EscrowError::NotInitialized);
        }
        if caller != self.buyer && caller != self.seller {
            return Err(EscrowError::NotAuthorized);
        }
        if !(self.state == Some(EscrowState::Funded) || self.state == Some(EscrowState::Delivered)) {
            return Err(EscrowError::InvalidState);
        }
        self.state = Some(EscrowState::Disputed);
        Ok(())
    }

    /// Settles an open dispute for the seller (`release_to_seller`) or the
    /// buyer. With a single arbiter, that arbiter decides at once; with a
    /// panel, `caller` casts a vote and the dispute is settled once the
    /// votes reach the quorum.
    pub fn resolve_dispute(&mut self, caller: AccountId, release_to_seller: bool) -> (r: Result<
        Vec<Transfer>,
        EscrowError,
    >)
        requires
            old(self)@.wf(),
        ensures
            final(self)@.wf(),
            match old(self)@.resolve_error(caller) {
                Some(e) => r == Err::<Vec<Transfer>, _>(e) && final(self)@ == old(self)@,
                None => r is Ok && if old(self)@.resolve_settles(caller) {
                    final(self)@ == old(self)@.settled(release_to_seller)
                        && r.unwrap()@ == old(self)@.settle_transfers(release_to_seller)
                } else {
                    final(self)@ == (EscrowModel { arbiter_votes: old(self)@.votes_with(caller), ..old(self)@ })
                        && r.unwrap()@.len() == 0
                },
            },
    {
        if self.state.is_none() {
            return Err(EscrowError::NotInitialized);
        }
        if self.state != Some(EscrowState::Disputed) {
            return Err(EscrowError::InvalidState);
        }
        let settles = match &self.arbiters {
            Some(panel) => {
                if !contains_account(panel, caller) {
                    return Err(EscrowError::NotAuthorized);
                }
                if !contains_account(&self.arbiter_votes, caller) {
                    self.arbiter_votes.push(caller);
                }
                self.arbiter_votes.len() >= self.required_signatures as usize
            },
            None => true,
        };
        if !settles {
            return Ok(Vec::new());
        }
        self.arbiter_votes = Vec::new();
        if release_to_seller {
            self.state = Some(EscrowState::Completed);
            Ok(self.release_transfers(self.seller, self.amount))
        } else {
            self.state = Some(EscrowState::Refunded);
            Ok(self.refund_transfers())
        }
    }

    /// The admin sets the fee, in basis points, and the treasury it goes to.
    pub fn set_fee_config(&mut self, fee_bps: u32, treasury: AccountId) -> (r: Result<(), EscrowError>)
        requires
            old(self)@.wf(),
        ensures
            final(self)@.wf(),
            match old(self)@.fee_config_error(fee_bps as int) {
                Some(e) => r == Err::<(), _>(e) && final(self)@ == old(self)@,
                None => r is Ok && final(self)@ == (EscrowModel { fee_bps, treasury: Some(treasury), ..old(self)@ }),
            },
    {
        if self.state.is_none() {
            return Err(EscrowError::NotInitialized);
        }
        if fee_bps > 10_000 {
            return Err(EscrowError::FeeTooHigh);
        }
        self.fee_bps = fee_bps;
        self.treasury = Some(treasury);
        Ok(())
    }

    /// The buyer or the arbiter, as `caller`, releases milestone `index` to
    /// the seller; the escrow completes when every milestone is released.
    pub fn release_milestone(&mut self, caller: AccountId, index: u32) -> (r: Result<Vec<Transfer>, EscrowError>)
        requires
            old(self)@.wf(),
            old(self)@.milestones is Some && index < old(self)@.milestones->Some_0.len() ==> old(
                self,
            )@.amount - old(self)@.milestones->Some_0[index as int].amount > i128::MIN,
        ensures
            final(self)@.wf(),
            match old(self)@.release_milestone_error(caller, index as int) {
                Some(e) => r == Err::<Vec<Transfer>, _>(e) && final(self)@ == old(self)@,
                None => r is Ok && final(self)@ == old(self)@.after_milestone(index as int)
                    && r.unwrap()@ == old(self)@.release_transfers(
                        old(self)@.seller,
                        old(self)@.milestones->Some_0[index as int].amount as int,
                    ),
            },
    {
        if self.state.is_none() {
            return Err(EscrowError::NotInitialized);
        }
        if caller != self.buyer && caller != self.arbiter {
            return Err(EscrowError::NotAuthorized);
        }
        if self.state != Some(EscrowState::Funded) {
            return Err(EscrowError::InvalidState);
        }
        let idx = index as usize;
        let m = match &self.milestones {
            Some(ms) => {
                if idx >= ms.len() {
                    return Err(EscrowError::MilestoneNotFound);
                }
                ms[idx]
            },
            None => return Err(EscrowError::MilestoneNotFound),
        };
        if m.released {
            return Err(EscrowError::InvalidState);
        }
        proof {
            assert(m == old(self)@.milestones->Some_0[index as int]);
        }
        let out = self.release_transfers(self.seller, m.amount);
        let mut ms = self.milestones.take().unwrap();
        ms.set(idx, Milestone { amount: m.amount, released: true });
        let mut all_done = true;
        let mut j: usize = 0;
        while j < ms.len()
            invariant
                0 <= j <= ms@.len(),
                all_done == (forall|k: int| 0 <= k < j ==> #[trigger] ms@[k].released),
            decreases ms@.len() - j,
        {
            if !ms[j].released {
                all_done = false;
            }
            j = j + 1;
        }
        self.milestones = Some(ms);
        self.amount = self.amount - m.amount;
        if all_done {
            self.state = Some(EscrowState::Completed);
        }
        Ok(out)
    }

    /// Fee in basis points and the treasury, if configured.
    pub fn get_fee_config(&self) -> (r: (u32, Option<AccountId>))
        ensures
            r == (self@.fee_bps, self@.treasury),
    {
        (self.fee_bps, self.treasury)
    }

    /// The milestones, or none for an escrow without milestones.
    pub fn get_milestones(&self) -> (r: Vec<Milestone>)
        ensures
            r@ == (match self@.milestones {
                Some(ms) => ms,
                None => Seq::<Milestone>::empty(),
            }),
    {
        match &self.milestones {
            Some(ms) => ms.clone(),
            None => Vec::new(),
        }
    }

    /// Summary of the escrow.
    pub fn get_escrow_info(&self) -> (r: Result<EscrowInfo, EscrowError>)
        ensures
            !self@.initialized() ==> r == Err::<EscrowInfo, _>(EscrowError::NotInitialized),
            self@.initialized() ==> r == Ok::<EscrowInfo, EscrowError>(EscrowInfo {
                buyer: self@.buyer,
                seller: self@.seller,
                arbiter: self@.arbiter,
                token: self@.token,
                amount: self@.amount,
                deadline: self@.deadline,
                state: self@.state->Some_0,
            }),
    {
        match self.state {
            Some(s) => Ok(EscrowInfo {
                buyer: self.buyer,
                seller: self.seller,
                arbiter: self.arbiter,
                token: self.token,
                amount: self.amount,
                deadline: self.deadline,
                state: s,
            }),
            None => Err(EscrowError::NotInitialized),
        }
    }

    /// Lifecycle state, if set up.
    pub fn get_state(&self) -> (r: Option<EscrowState>)
        ensures
            r == self@.state,
    {
        self.state
    }

    /// Whether ledger `ledger` is past the deadline of a set-up escrow.
    pub fn is_deadline_passed(&self, ledger: u32) -> (b: bool)
        ensures
            b == (self@.initialized() && ledger > self@.deadline),
    {
        self.state.is_some() && ledger > self.deadline
    }

    /// Ledgers from `ledger` to the deadline (negative once passed; zero
    /// before set-up).
    pub fn get_remaining_ledgers(&self, ledger: u32) -> (v: i64)
        ensures
            v == (if self@.initialized() { self@.deadline - ledger } else { 0 }),
    {
        if self.state.is_none() {
            return 0;
        }
        self.deadline as i64 - ledger as i64
    }

    /// Version of the contract interface: 2 once set up, 0 before.
    pub fn contract_version(&self) -> (v: u32)
        ensures
            v == (if self@.initialized() { 2u32 } else { 0u32 }),
    {
        if self.state.is_some() {
            2
        } else {
            0
        }
    }
}

/// Once an escrow is completed, refunded or cancelled, no operation that
/// moves funds or changes its lifecycle succeeds any more.
pub proof fn law_terminal_state_is_final(
    m: EscrowModel,
    caller: AccountId,
    amount: int,
    ledger: int,
    new_deadline: int,
    index: int,
)
    requires
        m.in_state(EscrowState::Completed) || m.in_state(EscrowState::Refunded) || m.in_state(
            EscrowState::Cancelled,
        ),
    ensures
        m.update_amount_error(amount) is Some,
        m.fund_error(amount) is Some,
        m.state_error(EscrowState::Funded) is Some,
        m.state_error(EscrowState::Delivered) is Some,
        m.state_error(EscrowState::Created) is Some,
        m.release_partial_error(amount) is Some,
        m.request_refund_error(ledger) is Some,
        m.partial_refund_error() is Some,
        m.extend_deadline_error(new_deadline, ledger) is Some,
        m.raise_dispute_error(caller) is Some,
        m.resolve_error(caller) is Some,
        m.release_milestone_error(caller, index) is Some,
{
}

/// A release of a non-negative `gross` pays out non-negative amounts that
/// add up to at most `gross`, and to exactly `gross` when a treasury is
/// configured.
pub proof fn law_release_split(m: EscrowModel, to: AccountId, gross: int)
    requires
        m.wf(),
        0 <= gross <= i128::MAX,
    ensures
        ({
            let t = m.release_transfers(to, gross);
            let paid = |k: int| (match t[k] { Transfer::Payout { amount, .. } => amount as int, _ => 0 });
            &&& forall|k: int| 0 <= k < t.len() ==> #[trigger] t[k] is Payout && paid(k) >= 0
            &&& (t.len() == 1 ==> paid(0) <= gross)
            &&& (t.len() == 2 ==> paid(0) + paid(1) == gross)
            &&& (m.treasury is Some ==> paid(0) + (if t.len() == 2 { paid(1) } else { 0 }) == gross)
            &&& 1 <= t.len() <= 2
        }),
{
    let b = m.fee_bps as int;
    assert(0 <= gross * b <= gross * 10_000) by (nonlinear_arith)
        requires 0 <= gross, 0 <= b <= 10_000;
    assert(0 <= gross * b / 10_000 <= gross) by (nonlinear_arith)
        requires 0 <= gross * b <= gross * 10_000;
}

/// Once the running sum of a prefix of the milestones fails, the sum of
/// the whole list fails the same way.
proof fn lemma_total_err_extends(ms: Seq<Milestone>, n: int)
    requires
        0 <= n <= ms.len(),
        milestone_total(ms.take(n)) is Err,
    ensures
        milestone_total(ms) == milestone_total(ms.take(n)),
    decreases ms.len() - n,
{
    if n < ms.len() {
        assert(ms.take(n + 1).drop_last() =~= ms.take(n));
        lemma_total_err_extends(ms, n + 1);
    } else {
        assert(ms.take(n) =~= ms);
    }
}

/// When the milestone sum succeeds, every milestone amount is positive.
proof fn lemma_total_ok_positive(ms: Seq<Milestone>)
    requires
        milestone_total(ms) is Ok,
    ensures
        forall|i: int| 0 <= i < ms.len() ==> #[trigger] ms[i].amount > 0,
        milestone_total(ms)->Ok_0 >= 0,
    decreases ms.len(),
{
    if ms.len() > 0 {
        lemma_total_ok_positive(ms.drop_last());
        assert forall|i: int| 0 <= i < ms.len() implies #[trigger] ms[i].amount > 0 by {
            if i < ms.len() - 1 {
                assert(ms[i] == ms.drop_last()[i]);
            }
        }
    }
}

} // verus!
