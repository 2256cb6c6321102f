//! DAO governance: token holders open proposals and cast token-weighted
//! votes; a proposal passes after its voting period when it reaches the
//! absolute quorum, the participation quorum and a strict majority.
//!
//! Voting weight is the voter's balance capped at the token supply recorded
//! when the proposal was created.

use std::collections::HashMap;
use vstd::prelude::*;

use crate::common::{fits_i128, AccountId};

verus! {

broadcast use vstd::std_specs::hash::group_hash_axioms;

/// Errors returned by the DAO governance contract.
#[derive(Clone, Copy, Debug, PartialEq, Eq, Structural)]
pub enum DaoError {
    /// The caller is not authorized.
    NotAuthorized,
    /// The DAO was already initialized.
    AlreadyInitialized,
    /// An operation was attempted before initialization.
    NotInitialized,
    /// The proposal does not exist.
    ProposalNotFound,
    /// The proposal is not in the required state.
    InvalidState,
    /// The voting deadline has not been reached.
    DeadlineNotReached,
    /// The voter already voted on this proposal.
    AlreadyVoted,
    /// The quorum was not met.
    QuorumNotMet,
    /// The proposal was rejected by majority.
    ProposalRejected,
    /// The caller holds no voting power.
    InsufficientVotingPower,
    /// Proposer self-cancel rejected because votes have already been cast.
    VotesAlreadyCast,
    /// `quorum_bps` must be in the range [0, 10_000].
    InvalidQuorumBps,
    /// The voting period of the proposal has ended.
    VotingClosed,
}

impl DaoError {
    /// The numeric code of this error in the contract interface.
    pub open spec fn spec_code(self) -> u32 {
        match self {
            DaoError::NotAuthorized => 1,
            DaoError::AlreadyInitialized => 2,
            DaoError::NotInitialized => 3,
            DaoError::ProposalNotFound => 4,
            DaoError::InvalidState => 5,
            DaoError::DeadlineNotReached => 6,
            DaoError::AlreadyVoted => 7,
            DaoError::QuorumNotMet => 8,
            DaoError::ProposalRejected => 9,
            DaoError::InsufficientVotingPower => 10,
            DaoError::VotesAlreadyCast => 11,
            DaoError::InvalidQuorumBps => 12,
            DaoError::VotingClosed => 13,
        }
    }

    /// A short human-readable description of this error.
    pub open spec fn spec_message(self) -> Seq<char> {
        match self {
            DaoError::NotAuthorized => "not authorized"@,
            DaoError::AlreadyInitialized => "already initialized"@,
            DaoError::NotInitialized => "not initialized"@,
            DaoError::ProposalNotFound => "proposal not found"@,
            DaoError::InvalidState => "invalid proposal state"@,
            DaoError::DeadlineNotReached => "voting deadline not yet reached"@,
            DaoError::AlreadyVoted => "already voted on this proposal"@,
            DaoError::QuorumNotMet => "quorum not met"@,
            DaoError::ProposalRejected => "proposal rejected by majority"@,
            DaoError::InsufficientVotingPower => "insufficient voting power"@,
            DaoError::VotesAlreadyCast => "votes have already been cast; proposer cannot cancel"@,
            DaoError::InvalidQuorumBps => "quorum_bps must be between 0 and 10_000"@,
            DaoError::VotingClosed => "voting period has ended"@,
        }
    }

    /// Returns the numeric code of this error.
    pub fn code(&self) -> (c: u32)
        ensures
            c == self.spec_code(),
    {
        match self {
            DaoError::NotAuthorized => 1,
            DaoError::AlreadyInitialized => 2,
            DaoError::NotInitialized => 3,
            DaoError::ProposalNotFound => 4,
            DaoError::InvalidState => 5,
            DaoError::DeadlineNotReached => 6,
            DaoError::AlreadyVoted => 7,
            DaoError::QuorumNotMet => 8,
            DaoError::ProposalRejected => 9,
            DaoError::InsufficientVotingPower => 10,
            DaoError::VotesAlreadyCast => 11,
            DaoError::InvalidQuorumBps => 12,
            DaoError::VotingClosed => 13,
        }
    }

    /// Returns a short human-readable description of this error.
    pub fn message(&self) -> (m: &'static str)
        ensures
            m@ == self.spec_message(),
    {
        match self {
            DaoError::NotAuthorized => "not authorized",
            DaoError::AlreadyInitialized => "already initialized",
            DaoError::NotInitialized => "not initialized",
            DaoError::ProposalNotFound => "proposal not found",
            DaoError::InvalidState => "invalid proposal state",
            DaoError::DeadlineNotReached => "voting deadline not yet reached",
            DaoError::AlreadyVoted => "already voted on this proposal",
            DaoError::QuorumNotMet => "quorum not met",
            DaoError::ProposalRejected => "proposal rejected by majority",
            DaoError::InsufficientVotingPower => "insufficient voting power",
            DaoError::VotesAlreadyCast => "votes have already been cast; proposer cannot cancel",
            DaoError::InvalidQuorumBps => "quorum_bps must be between 0 and 10_000",
            DaoError::VotingClosed => "voting period has ended",
        }
    }
}

/// Lifecycle state of a proposal.
#[derive(Clone, Copy, Debug, PartialEq, Eq, Structural)]
pub enum ProposalState {
    /// Open for votes until its deadline, then executable if it passed.
    Active,
    /// Carried out.
    Executed,
    /// Withdrawn by the admin or the proposer.
    Cancelled,
}

/// A governance proposal.
#[derive(Clone, Debug)]
pub struct Proposal {
    /// Position of the proposal in creation order.
    pub id: u32,
    /// Account that created the proposal.
    pub proposer: AccountId,
    /// Short title.
    pub title: String,
    /// Full text.
    pub description: String,
    /// Last ledger at which votes are accepted.
    pub deadline: u32,
    /// Weight voted in favour.
    pub yes_votes: i128,
    /// Weight voted against.
    pub no_votes: i128,
    /// Lifecycle state.
    pub state: ProposalState,
    /// Token supply when the proposal was created.
    pub total_supply_at_creation: i128,
}

fn duplicate(p: &Proposal) -> (q: Proposal)
    ensures
        q == *p,
{
    Proposal {
        id: p.id,
        proposer: p.proposer,
        title: p.title.clone(),
        description: p.description.clone(),
        deadline: p.deadline,
        yes_votes: p.yes_votes,
        no_votes: p.no_votes,
        state: p.state,
        total_supply_at_creation: p.total_supply_at_creation,
    }
}

/// Key under which the vote of `voter` on proposal `pid` is recorded.
pub open spec fn vote_key(pid: int, voter: AccountId) -> u128 {
    (pid * 0x1_0000_0000_0000_0000 + voter) as u128
}

fn vote_key_exec(pid: u32, voter: AccountId) -> (k: u128)
    ensures
        k == vote_key(pid as int, voter),
{
    (pid as u128) * 0x1_0000_0000_0000_0000u128 + (voter as u128)
}

/// Voting weight of a balance against a supply snapshot.
pub open spec fn vote_weight(balance: int, supply: int) -> int {
    if balance > supply {
        supply
    } else {
        balance
    }
}

/// State of the DAO contract.
pub struct DaoContract {
    /// The admin, once initialized.
    pub admin: Option<AccountId>,
    /// Governance token.
    pub token: AccountId,
    /// Ledgers a proposal stays open for votes.
    pub voting_period: u32,
    /// Least total vote weight for a valid result.
    pub quorum: i128,
    /// Least participation, in basis points of the supply snapshot (0 turns
    /// the check off).
    pub quorum_bps: u32,
    /// Proposals in creation order; a proposal's id is its position.
    pub proposals: Vec<Proposal>,
    /// Recorded vote weights, keyed by [`vote_key`].
    pub votes: HashMap<u128, i128>,
}

/// Abstract state of the DAO contract.
pub struct DaoModel {
    pub admin: Option<AccountId>,
    pub token: AccountId,
    pub voting_period: u32,
    pub quorum: i128,
    pub quorum_bps: u32,
    pub proposals: Seq<Proposal>,
    pub votes: Map<u128, i128>,
}

impl View for DaoContract {
    type V = DaoModel;

    open spec fn view(&self) -> DaoModel {
        DaoModel {
            admin: self.admin,
            token: self.token,
            voting_period: self.voting_period,
            quorum: self.quorum,
            quorum_bps: self.quorum_bps,
            proposals: self.proposals@,
            votes: self.votes@,
        }
    }
}

impl DaoModel {
    /// The DAO has been initialized.
    pub open spec fn initialized(self) -> bool {
        self.admin is Some
    }

    /// Each proposal's id is its position.
    pub open spec fn wf(self) -> bool {
        &&& self.proposals.len() <= u32::MAX
        &&& forall|i: int| 0 <= i < self.proposals.len() ==> #[trigger] self.proposals[i].id == i
    }

    /// Whether `voter` has voted on proposal `pid`.
    pub open spec fn voted(self, pid: int, voter: AccountId) -> bool {
        self.votes.contains_key(vote_key(pid, voter))
    }

    /// The first check of `create_proposal` that fails, if any.
    pub open spec fn create_error(self, balance: int) -> Option<DaoError> {
        if !self.initialized() {
            Some(DaoError::NotInitialized)
        } else if balance <= 0 {
            Some(DaoError::InsufficientVotingPower)
        } else {
            None
        }
    }

    /// The first check of `vote` that fails, if any.
    pub open spec fn vote_error(self, voter: AccountId, pid: int, balance: int, ledger: int) -> Option<DaoError> {
        if !self.initialized() {
            Some(DaoError::NotInitialized)
        } else if !(0 <= pid < self.proposals.len()) {
            Some(DaoError::ProposalNotFound)
        } else if self.proposals[pid].state != ProposalState::Active {
            Some(DaoError::InvalidState)
        } else if ledger > self.proposals[pid].deadline {
            Some(DaoError::VotingClosed)
        } else if self.voted(pid, voter) {
            Some(DaoError::AlreadyVoted)
        } else if balance <= 0 {
            Some(DaoError::InsufficientVotingPower)
        } else {
            None
        }
    }

    /// The tally of proposal `pid` after a vote of weight `w` stays in
    /// `i128`.
    pub open spec fn vote_fits(self, pid: int, support: bool, w: int) -> bool {
        if support {
            fits_i128(self.proposals[pid].yes_votes + w)
        } else {
            fits_i128(self.proposals[pid].no_votes + w)
        }
    }

    /// The state after `voter` cast a vote of weight `w` on `pid`.
    pub open spec fn after_vote(self, voter: AccountId, pid: int, support: bool, w: int) -> Self {
        let p = self.proposals[pid];
        let p2 = if support {
            Proposal { yes_votes: (p.yes_votes + w) as i128, ..p }
        } else {
            Proposal { no_votes: (p.no_votes + w) as i128, ..p }
        };
        DaoModel {
            proposals: self.proposals.update(pid, p2),
            votes: self.votes.insert(vote_key(pid, voter), w as i128),
            ..self
        }
    }

    /// Total vote weight cast on `p`.
    pub open spec fn total_votes(p: Proposal) -> int {
        p.yes_votes + p.no_votes
    }

    /// The first check of `execute_proposal` that fails, if any.
    pub open spec fn execute_error(self, pid: int, ledger: int) -> Option<DaoError> {
        if !self.initialized() {
            Some(DaoError::NotInitialized)
        } else if !(0 <= pid < self.proposals.len()) {
            Some(DaoError::ProposalNotFound)
        } else if self.proposals[pid].state != ProposalState::Active {
            Some(DaoError::InvalidState)
        } else if ledger <= self.proposals[pid].deadline {
            Some(DaoError::DeadlineNotReached)
        } else if Self::total_votes(self.proposals[pid]) < self.quorum {
            Some(DaoError::QuorumNotMet)
        } else if self.quorum_bps > 0 && Self::total_votes(self.proposals[pid]) * 10_000
            < self.quorum_bps * self.proposals[pid].total_supply_at_creation {
            Some(DaoError::QuorumNotMet)
        } else if self.proposals[pid].yes_votes <= self.proposals[pid].no_votes {
            Some(DaoError::ProposalRejected)
        } else {
            None
        }
    }

    /// The quorum arithmetic of `execute_proposal` on `pid` stays in `i128`
    /// wherever it is reached.
    pub open spec fn execute_fits(self, pid: int) -> bool {
        let p = self.proposals[pid];
        &&& fits_i128(Self::total_votes(p))
        &&& (Self::total_votes(p) >= self.quorum && self.quorum_bps > 0) ==> (fits_i128(
            Self::total_votes(p) * 10_000,
        ) && fits_i128(self.quorum_bps * p.total_supply_at_creation))
    }

    /// This state with proposal `pid` moved to state `s`.
    pub open spec fn with_proposal_state(self, pid: int, s: ProposalState) -> Self {
        DaoModel {
            proposals: self.proposals.update(pid, Proposal { state: s, ..self.proposals[pid] }),
            ..self
        }
    }

    /// The first check of `cancel_proposal` that fails, if any.
    pub open spec fn cancel_error(self, pid: int) -> Option<DaoError> {
        if !self.initialized() {
            Some(DaoError::NotInitialized)
        } else if !(0 <= pid < self.proposals.len()) {
            Some(DaoError::ProposalNotFound)
        } else if self.proposals[pid].state != ProposalState::Active {
            Some(DaoError::InvalidState)
        } else {
            None
        }
    }

    /// The first check of `proposer_cancel_proposal` that fails, if any.
    pub open spec fn proposer_cancel_error(self, proposer: AccountId, pid: int) -> Option<DaoError> {
        if !self.initialized() {
            Some(DaoError::NotInitialized)
        } else if !(0 <= pid < self.proposals.len()) {
            Some(DaoError::ProposalNotFound)
        } else if self.proposals[pid].proposer != proposer {
            Some(DaoError::NotAuthorized)
        } else if self.proposals[pid].state != ProposalState::Active {
            Some(DaoError::InvalidState)
        } else if self.proposals[pid].yes_votes > 0 || self.proposals[pid].no_votes > 0 {
            Some(DaoError::VotesAlreadyCast)
        } else {
            None
        }
    }
}

impl DaoContract {
    /// A contract with empty storage.
    pub fn new() -> (c: Self)
        ensures
            c@ == (DaoModel {
                admin: None,
                token: 0,
                voting_period: 0,
                quorum: 0,
                quorum_bps: 0,
                proposals: Seq::empty(),
                votes: Map::empty(),
            }),
            !c@.initialized(),
            c@.wf(),
    {
        DaoContract {
            admin: None,
            token: 0,
            voting_period: 0,
            quorum: 0,
            quorum_bps: 0,
            proposals: Vec::new(),
            votes: HashMap::new(),
        }
    }

    /// Initializes the DAO. The admin authorizes the call.
    pub fn initialize(
        &mut self,
        admin: AccountId,
        token: AccountId,
        voting_period: u32,
        quorum: i128,
        quorum_bps: u32,
    ) -> (r: Result<(), DaoError>)
        ensures
            old(self)@.initialized() ==> r == Err::<(), _>(DaoError::AlreadyInitialized)
                && final(self)@ == old(self)@,
            !old(self)@.initialized() && quorum_bps > 10_000 ==> r == Err::<(), _>(
                DaoError::InvalidQuorumBps,
            ) && final(self)@ == old(self)@,
            !old(self)@.initialized() && quorum_bps <= 10_000 ==> r is Ok && final(self)@ == (DaoModel {
                admin: Some(admin),
                token,
                voting_period,
                quorum,
                quorum_bps,
                ..old(self)@
            }),
    {
        if self.admin.is_some() {
            return Err(DaoError::AlreadyInitialized);
        }
        if quorum_bps > 10_000 {
            return Err(DaoError::InvalidQuorumBps);
        }
        self.admin = Some(admin);
        self.token = token;
        self.voting_period = voting_period;
        self.quorum = quorum;
        self.quorum_bps = quorum_bps;
        Ok(())
    }

    /// `proposer`, who authorizes the call and holds `balance` tokens while
    /// the supply is `total_supply`, opens a proposal at ledger `ledger`.
    /// Returns the new proposal's id.
    pub fn create_proposal(
        &mut self,
        proposer: AccountId,
        title: String,
        description: String,
        balance: i128,
        total_supply: i128,
        ledger: u32,
    ) -> (r: Result<u32, DaoError>)
        requires
            old(self)@.wf(),
            old(self)@.create_error(balance as int) is None ==> old(self)@.proposals.len() < u32::MAX
                && ledger + old(self)@.voting_period <= u32::MAX,
        ensures
            final(self)@.wf(),
            match old(self)@.create_error(balance as int) {
                Some(e) => r == Err::<u32, _>(e) && final(self)@ == old(self)@,
                None => r == Ok::<u32, DaoError>(old(self)@.proposals.len() as u32) && final(self)@ == (DaoModel {
                    proposals: old(self)@.proposals.push(
                        Proposal {
                            id: old(self)@.proposals.len() as u32,
                            proposer,
                            title,
                            description,
                            deadline: (ledger + old(self)@.voting_period) as u32,
                            yes_votes: 0,
                            no_votes: 0,
                            state: ProposalState::Active,
                            total_supply_at_creation: total_supply,
                        },
                    ),
                    ..old(self)@
                }),
            },
    {
        if self.admin.is_none() {
            return Err(DaoError::NotInitialized);
        }
        if balance <= 0 {
            return Err(DaoError::InsufficientVotingPower);
        }
        let id = self.proposals.len() as u32;
        let p = Proposal {
            id,
            proposer,
            title,
            description,
            deadline: ledger + self.voting_period,
            yes_votes: 0,
            no_votes: 0,
            state: ProposalState::Active,
            total_supply_at_creation: total_supply,
        };
        self.proposals.push(p);
        Ok(id)
    }

    /// `voter`, who authorizes the call and holds `balance` tokens, votes on
    /// proposal `pid` at ledger `ledger`, with weight `balance` capped at
    /// the proposal's supply snapshot.
    pub fn vote(&mut self, voter: AccountId, pid: u32, support: bool, balance: i128, ledger: u32) -> (r: Result<
        (),
        DaoError,
    >)
        requires
            old(self)@.wf(),
            old(self)@.vote_error(voter, pid as int, balance as int, ledger as int) is None
                ==> old(self)@.vote_fits(
                pid as int,
                support,
                vote_weight(balance as int, old(self)@.proposals[pid as int].total_supply_at_creation as int),
            ),
        ensures
            final(self)@.wf(),
            match old(self)@.vote_error(voter, pid as int, balance as int, ledger as int) {
                Some(e) => r == Err::<(), _>(e) && final(self)@ == old(self)@,
                None => r is Ok && final(self)@ == old(self)@.after_vote(
                    voter,
                    pid as int,
                    support,
                    vote_weight(balance as int, old(self)@.proposals[pid as int].total_supply_at_creation as int),
                ),
            },
    {
        if self.admin.is_none() {
            return Err(DaoError::NotInitialized);
        }
        let i = pid as usize;
        if i >= self.proposals.len() {
            return Err(DaoError::ProposalNotFound);
        }
        if self.proposals[i].state != ProposalState::Active {
            return Err(DaoError::InvalidState);
        }
        if ledger > self.proposals[i].deadline {
            return Err(DaoError::VotingClosed);
        }
        let key = vote_key_exec(pid, voter);
        if self.votes.contains_key(&key) {
            return Err(DaoError::AlreadyVoted);
        }
        if balance <= 0 {
            return Err(DaoError::InsufficientVotingPower);
        }
        let supply = self.proposals[i].total_supply_at_creation;
        let weight = if balance > supply {
            supply
        } else {
            balance
        };
        let mut p = duplicate(&self.proposals[i]);
        if support {
            p.yes_votes = p.yes_votes + weight;
        } else {
            p.no_votes = p.no_votes + weight;
        }
        self.proposals.set(i, p);
        self.votes.insert(key, weight);
        Ok(())
    }

    /// Executes proposal `pid` at ledger `ledger`, after its deadline, when
    /// both quorums and a strict majority are met.
    pub fn execute_proposal(&mut self, pid: u32, ledger: u32) -> (r: Result<(), DaoError>)
        requires
            old(self)@.wf(),
            0 <= pid < old(self)@.proposals.len() ==> old(self)@.execute_fits(pid as int),
        ensures
            final(self)@.wf(),
            match old(self)@.execute_error(pid as int, ledger as int) {
                Some(e) => r == Err::<(), _>(e) && final(self)@ == old(self)@,
                None => r is Ok && final(self)@ == old(self)@.with_proposal_state(
                    pid as int,
                    ProposalState::Executed,
                ),
            },
    {
        if self.admin.is_none() {
            return Err(DaoError::NotInitialized);
        }
        let i = pid as usize;
        if i >= self.proposals.len() {
            return Err(DaoError::ProposalNotFound);
        }
        if self.proposals[i].state != ProposalState::Active {
            return Err(DaoError::InvalidState);
        }
        if ledger <= self.proposals[i].deadline {
            return Err(DaoError::DeadlineNotReached);
        }
        let total = self.proposals[i].yes_votes + self.proposals[i].no_votes;
        if total < self.quorum {
            return Err(DaoError::QuorumNotMet);
        }
        if self.quorum_bps > 0 {
            let bps = self.quorum_bps as i128;
            if total * 10_000 < bps * self.proposals[i].total_supply_at_creation {
                return Err(DaoError::QuorumNotMet);
            }
        }
        if self.proposals[i].yes_votes <= self.proposals[i].no_votes {
            return Err(DaoError::ProposalRejected);
        }
        self.set_state(i, ProposalState::Executed);
        Ok(())
    }

    fn set_state(&mut self, i: usize, s: ProposalState)
        requires
            i < old(self)@.proposals.len(),
            old(self)@.wf(),
        ensures
            final(self)@ == old(self)@.with_proposal_state(i as int, s),
            final(self)@.wf(),
    {
        let mut p = duplicate(&self.proposals[i]);
        p.state = s;
        self.proposals.set(i, p);
    }

    /// The admin, who authorizes the call, cancels an active proposal.
    pub fn cancel_proposal(&mut self, pid: u32) -> (r: Result<(), DaoError>)
        requires
            old(self)@.wf(),
        ensures
            final(self)@.wf(),
            match old(self)@.cancel_error(pid as int) {
                Some(e) => r == Err::<(), _>(e) && final(self)@ == old(self)@,
                None => r is Ok && final(self)@ == old(self)@.with_proposal_state(
                    pid as int,
                    ProposalState::Cancelled,
                ),
            },
    {
        if self.admin.is_none() {
            return Err(DaoError::NotInitialized);
        }
        let i = pid as usize;
        if i >= self.proposals.len() {
            return Err(DaoError::ProposalNotFound);
        }
        if self.proposals[i].state != ProposalState::Active {
            return Err(DaoError::InvalidState);
        }
        self.set_state(i, ProposalState::Cancelled);
        Ok(())
    }

    /// The proposer, who authorizes the call, withdraws an active proposal
    /// on which no vote was cast.
    pub fn proposer_cancel_proposal(&mut self, proposer: AccountId, pid: u32) -> (r: Result<(), DaoError>)
        requires
            old(self)@.wf(),
        ensures
            final(self)@.wf(),
            match old(self)@.proposer_cancel_error(proposer, pid as int) {
                Some(e) => r == Err::<(), _>(e) && final(self)@ == old(self)@,
                None => r is Ok && final(self)@ == old(self)@.with_proposal_state(
                    pid as int,
                    ProposalState::Cancelled,
                ),
            },
    {
        if self.admin.is_none() {
            return Err(DaoError::NotInitialized);
        }
        let i = pid as usize;
        if i >= self.proposals.len() {
            return Err(DaoError::ProposalNotFound);
        }
        if self.proposals[i].proposer != proposer {
            return Err(DaoError::NotAuthorized);
        }
        if self.proposals[i].state != ProposalState::Active {
            return Err(DaoError::InvalidState);
        }
        if self.proposals[i].yes_votes > 0 || self.proposals[i].no_votes > 0 {
            return Err(DaoError::VotesAlreadyCast);
        }
        self.set_state(i, ProposalState::Cancelled);
        Ok(())
    }

    /// Proposal `pid`, or `ProposalNotFound`.
    pub fn get_proposal(&self, pid: u32) -> (r: Result<Proposal, DaoError>)
        ensures
            (pid as int) < self@.proposals.len() ==> r == Ok::<Proposal, DaoError>(self@.proposals[pid as int]),
            (pid as int) >= self@.proposals.len() ==> r == Err::<Proposal, _>(DaoError::ProposalNotFound),
    {
        let i = pid as usize;
        if i >= self.proposals.len() {
            return Err(DaoError::ProposalNotFound);
        }
        Ok(duplicate(&self.proposals[i]))
    }

    /// Number of proposals created.
    pub fn proposal_count(&self) -> (n: u32)
        requires
            self@.wf(),
        ensures
            n == self@.proposals.len(),
    {
        self.proposals.len() as u32
    }
}

/// A voter can vote on a proposal only once: right after a successful vote,
/// the same voter's next vote on the same proposal at the same ledger is
/// refused with `AlreadyVoted`.
pub proof fn law_vote_once(m: DaoModel, voter: AccountId, pid: int, support: bool, balance: int, balance2: int, ledger: int)
    requires
        m.vote_error(voter, pid, balance, ledger) is None,
    ensures
        m.after_vote(voter, pid, support, vote_weight(balance, m.proposals[pid].total_supply_at_creation as int))
            .vote_error(voter, pid, balance2, ledger) == Some(DaoError::AlreadyVoted),
{
}

/// A recorded vote weight is positive and never exceeds the supply snapshot
/// of the proposal when that snapshot is positive.
pub proof fn law_vote_weight_bounded(balance: int, supply: int)
    requires
        balance > 0,
        supply > 0,
    ensures
        0 < vote_weight(balance, supply) <= supply,
        vote_weight(balance, supply) <= balance,
{
}

/// A proposal is executed at most once, and an executed or cancelled
/// proposal takes no more votes, executions or cancellations.
pub proof fn law_settled_proposal_is_final(m: DaoModel, pid: int, voter: AccountId, balance: int, ledger: int, s: ProposalState)
    requires
        m.initialized(),
        0 <= pid < m.proposals.len(),
        s != ProposalState::Active,
    ensures
        m.with_proposal_state(pid, s).execute_error(pid, ledger) == Some(DaoError::InvalidState),
        m.with_proposal_state(pid, s).vote_error(voter, pid, balance, ledger) == Some(DaoError::InvalidState),
        m.with_proposal_state(pid, s).cancel_error(pid) == Some(DaoError::InvalidState),
{
}

/// The quorum of `execute_proposal` is on participation. Once a
/// proposal is active and its voting has ended, it is refused for lack of
/// quorum exactly when the votes cast on either side together fall short
/// of the absolute quorum or, with a quorum in basis points, of that share
/// of the supply at creation; otherwise it is executed when more votes are
/// for it than against it, and rejected when not.
pub proof fn law_execute_quorum_on_votes_cast(m: DaoModel, pid: int, ledger: int)
    requires
        m.initialized(),
        0 <= pid < m.proposals.len(),
        m.proposals[pid].state == ProposalState::Active,
        ledger > m.proposals[pid].deadline,
    ensures
        ({
            let p = m.proposals[pid];
            let cast = p.yes_votes + p.no_votes;
            let short = cast < m.quorum || (m.quorum_bps > 0 && cast * 10_000 < m.quorum_bps
                * p.total_supply_at_creation);
            &&& short ==> m.execute_error(pid, ledger) == Some(DaoError::QuorumNotMet)
            &&& !short && p.yes_votes > p.no_votes ==> m.execute_error(pid, ledger) is None
            &&& !short && p.yes_votes <= p.no_votes ==> m.execute_error(pid, ledger) == Some(
                DaoError::ProposalRejected,
            )
        }),
{
}

/// Whether an ended, active proposal is executed depends on the votes only
/// through their total and through which side has more: moving weight
/// between yes and no without changing the total or the winning side
/// changes nothing.
pub proof fn law_execute_depends_on_total_and_winner(
    m: DaoModel,
    pid: int,
    ledger: int,
    yes2: i128,
    no2: i128,
)
    requires
        0 <= pid < m.proposals.len(),
        yes2 + no2 == m.proposals[pid].yes_votes + m.proposals[pid].no_votes,
        (yes2 > no2) == (m.proposals[pid].yes_votes > m.proposals[pid].no_votes),
    ensures
        m.execute_error(pid, ledger) == (DaoModel {
            proposals: m.proposals.update(
                pid,
                Proposal { yes_votes: yes2, no_votes: no2, ..m.proposals[pid] },
            ),
            ..m
        }).execute_error(pid, ledger),
{
}

} // verus!
