//! Ballot: an admin registers voters, each registered voter casts one vote
//! for one of the declared choices inside a ledger window, and a tally
//! closes the vote.

use std::collections::HashMap;
use vstd::prelude::*;

use crate::common::AccountId;

verus! {

broadcast use vstd::std_specs::hash::group_hash_axioms;

/// Errors returned by the ballot contract.
#[derive(Clone, Copy, Debug, PartialEq, Eq, Structural)]
pub enum BallotError {
    /// `initialize` was called on an already-initialized contract.
    AlreadyInitialized,
    /// An operation was attempted before the contract was initialized.
    NotInitialized,
    /// Caller is not the admin.
    Unauthorized,
    /// Voter is not registered.
    NotRegistered,
    /// Voter has already voted.
    AlreadyVoted,
    /// Invalid vote choice index (out of range).
    InvalidChoice,
    /// Voting is closed, or the voting window has passed.
    VotingClosed,
    /// `deregister_voter` was called after at least one vote has been cast.
    VotingAlreadyStarted,
    /// Voting window is invalid: start >= end or the window is in the past.
    InvalidWindow,
    /// Current ledger is before the start of the voting window.
    VotingNotStarted,
    /// `initialize` was called with an empty choices list.
    NoChoices,
}

impl BallotError {
    /// The numeric code of this error in the contract interface.
    pub open spec fn spec_code(self) -> u32 {
        match self {
            BallotError::AlreadyInitialized => 1,
            BallotError::NotInitialized => 2,
            BallotError::Unauthorized => 3,
            BallotError::NotRegistered => 4,
            BallotError::AlreadyVoted => 5,
            BallotError::InvalidChoice => 6,
            BallotError::VotingClosed => 7,
            BallotError::VotingAlreadyStarted => 8,
            BallotError::InvalidWindow => 9,
            BallotError::VotingNotStarted => 10,
            BallotError::NoChoices => 11,
        }
    }

    /// Returns the numeric code of this error.
    pub fn code(&self) -> (c: u32)
        ensures
            c == self.spec_code(),
    {
        match self {
            BallotError::AlreadyInitialized => 1,
            BallotError::NotInitialized => 2,
            BallotError::Unauthorized => 3,
            BallotError::NotRegistered => 4,
            BallotError::AlreadyVoted => 5,
            BallotError::InvalidChoice => 6,
            BallotError::VotingClosed => 7,
            BallotError::VotingAlreadyStarted => 8,
            BallotError::InvalidWindow => 9,
            BallotError::VotingNotStarted => 10,
            BallotError::NoChoices => 11,
        }
    }
}

/// Sum of the vote counts.
pub open spec fn sum_counts(s: Seq<i128>) -> int
    decreases s.len(),
{
    if s.len() == 0 {
        0
    } else {
        sum_counts(s.drop_last()) + s.last()
    }
}

/// Adding one to an entry adds one to the sum.
proof fn lemma_sum_increment(s: Seq<i128>, i: int)
    requires
        0 <= i < s.len(),
        s[i] < i128::MAX,
    ensures
        sum_counts(s.update(i, (s[i] + 1) as i128)) == sum_counts(s) + 1,
    decreases s.len(),
{
    let t = s.update(i, (s[i] + 1) as i128);
    if i == s.len() - 1 {
        assert(t.drop_last() =~= s.drop_last());
    } else {
        assert(t.drop_last() =~= s.drop_last().update(i, (s[i] + 1) as i128));
        lemma_sum_increment(s.drop_last(), i);
    }
}

/// With non-negative entries, each entry is at most the sum.
proof fn lemma_entry_le_sum(s: Seq<i128>, i: int)
    requires
        0 <= i < s.len(),
        forall|k: int| 0 <= k < s.len() ==> #[trigger] s[k] >= 0,
    ensures
        s[i] <= sum_counts(s),
        sum_counts(s) >= 0,
    decreases s.len(),
{
    lemma_sum_nonneg(s.drop_last());
    if i < s.len() - 1 {
        lemma_entry_le_sum(s.drop_last(), i);
    }
}

proof fn lemma_sum_nonneg(s: Seq<i128>)
    requires
        forall|k: int| 0 <= k < s.len() ==> #[trigger] s[k] >= 0,
    ensures
        sum_counts(s) >= 0,
    decreases s.len(),
{
    if s.len() > 0 {
        lemma_sum_nonneg(s.drop_last());
    }
}

/// State of the ballot contract.
pub struct BallotContract {
    /// The admin, once initialized.
    pub admin: Option<AccountId>,
    /// Whether votes are still accepted (a tally closes the vote).
    pub voting_active: bool,
    /// First ledger of the voting window.
    pub voting_start: u32,
    /// Last ledger of the voting window.
    pub voting_end: u32,
    /// Labels of the choices, in declaration order.
    pub choices: Vec<String>,
    /// Votes received by each choice.
    pub choice_votes: Vec<i128>,
    /// Votes cast.
    pub total_votes: i128,
    /// Registered voters.
    pub registered: HashMap<AccountId, bool>,
    /// Voters who have voted.
    pub voted: HashMap<AccountId, bool>,
}

/// Abstract state of the ballot contract.
pub struct BallotModel {
    pub admin: Option<AccountId>,
    pub voting_active: bool,
    pub voting_start: u32,
    pub voting_end: u32,
    pub choices: Seq<String>,
    pub counts: Seq<i128>,
    pub total_votes: i128,
    pub registered: Set<AccountId>,
    pub voted: Set<AccountId>,
}

impl View for BallotContract {
    type V = BallotModel;

    open spec fn view(&self) -> BallotModel {
        BallotModel {
            admin: self.admin,
            voting_active: self.voting_active,
            voting_start: self.voting_start,
            voting_end: self.voting_end,
            choices: self.choices@,
            counts: self.choice_votes@,
            total_votes: self.total_votes,
            registered: self.registered@.dom(),
            voted: self.voted@.dom(),
        }
    }
}

impl BallotModel {
    /// The ballot has been initialized.
    pub open spec fn initialized(self) -> bool {
        self.admin is Some
    }

    /// Every choice has a count, the counts are non-negative and add up to
    /// the votes cast, which is the number of voters who voted, all of them
    /// registered.
    pub open spec fn wf(self) -> bool {
        &&& self.counts.len() == self.choices.len()
        &&& forall|k: int| 0 <= k < self.counts.len() ==> #[trigger] self.counts[k] >= 0
        &&& sum_counts(self.counts) == self.total_votes
        &&& self.total_votes == self.voted.len()
        &&& self.voted.finite()
        &&& self.registered.finite()
        &&& self.voted.subset_of(self.registered)
        &&& !self.initialized() ==> self.total_votes == 0
    }

    /// Votes received by choice `i`, or zero when there is no such choice.
    pub open spec fn count_of(self, i: int) -> i128 {
        if 0 <= i < self.counts.len() {
            self.counts[i]
        } else {
            0
        }
    }

    /// The first check of `vote` that fails, if any.
    pub open spec fn vote_error(self, voter: AccountId, choice: int, ledger: int) -> Option<BallotError> {
        if !self.initialized() {
            Some(BallotError::NotInitialized)
        } else if !self.voting_active {
            Some(BallotError::VotingClosed)
        } else if ledger < self.voting_start {
            Some(BallotError::VotingNotStarted)
        } else if ledger > self.voting_end {
            Some(BallotError::VotingClosed)
        } else if !self.registered.contains(voter) {
            Some(BallotError::NotRegistered)
        } else if self.voted.contains(voter) {
            Some(BallotError::AlreadyVoted)
        } else if choice >= self.choices.len() {
            Some(BallotError::InvalidChoice)
        } else {
            None
        }
    }

    /// The state after `voter` voted for `choice`.
    pub open spec fn after_vote(self, voter: AccountId, choice: int) -> Self {
        BallotModel {
            voted: self.voted.insert(voter),
            total_votes: (self.total_votes + 1) as i128,
            counts: self.counts.update(choice, (self.counts[choice] + 1) as i128),
            ..self
        }
    }

    /// The first check of `deregister_voter` that fails, if any.
    pub open spec fn deregister_error(self, voter: AccountId) -> Option<BallotError> {
        if !self.initialized() {
            Some(BallotError::NotInitialized)
        } else if self.total_votes > 0 {
            Some(BallotError::VotingAlreadyStarted)
        } else if !self.registered.contains(voter) {
            Some(BallotError::NotRegistered)
        } else {
            None
        }
    }
}

impl BallotContract {
    /// A contract with empty storage.
    pub fn new() -> (c: Self)
        ensures
            c@ == (BallotModel {
                admin: None,
                voting_active: false,
                voting_start: 0,
                voting_end: 0,
                choices: Seq::empty(),
                counts: Seq::empty(),
                total_votes: 0,
                registered: Set::empty(),
                voted: Set::empty(),
            }),
            c@.wf(),
    {
        let c = BallotContract {
            admin: None,
            voting_active: false,
            voting_start: 0,
            voting_end: 0,
            choices: Vec::new(),
            choice_votes: Vec::new(),
            total_votes: 0,
            registered: HashMap::new(),
            voted: HashMap::new(),
        };
        proof {
            assert(c@.voted =~= Set::<AccountId>::empty());
            assert(c@.registered =~= Set::<AccountId>::empty());
        }
        c
    }

    /// Opens a ballot over `choices` with voting window
    /// `voting_start..=voting_end`, at ledger sequence `ledger`. The admin
    /// authorizes the call.
    pub fn initialize(
        &mut self,
        admin: AccountId,
        voting_start: u32,
        voting_end: u32,
        choices: Vec<String>,
        ledger: u32,
    ) -> (r: Result<(), BallotError>)
        requires
            old(self)@.wf(),
        ensures
            final(self)@.wf(),
            old(self)@.initialized() ==> r == Err::<(), _>(BallotError::AlreadyInitialized),
            !old(self)@.initialized() && (voting_start >= voting_end || voting_end <= ledger) ==> r
                == Err::<(), _>(BallotError::InvalidWindow),
            !old(self)@.initialized() && voting_start < voting_end && voting_end > ledger
                && choices@.len() == 0 ==> r == Err::<(), _>(BallotError::NoChoices),
            r is Err ==> final(self)@ == old(self)@,
            r is Ok ==> !old(self)@.initialized() && final(self)@ == (BallotModel {
                admin: Some(admin),
                voting_active: true,
                voting_start,
                voting_end,
                choices: choices@,
                counts: Seq::new(choices@.len(), |i: int| 0i128),
                total_votes: 0,
                ..old(self)@
            }),
            r is Ok <==> !old(self)@.initialized() && voting_start < voting_end && voting_end > ledger
                && choices@.len() > 0,
    {
        if self.admin.is_some() {
            return Err(BallotError::AlreadyInitialized);
        }
        if voting_start >= voting_end || voting_end <= ledger {
            return Err(BallotError::InvalidWindow);
        }
        if choices.len() == 0 {
            return Err(BallotError::NoChoices);
        }
        let mut counts: Vec<i128> = Vec::new();
        let mut i: usize = 0;
        while i < choices.len()
            invariant
                i <= choices@.len(),
                counts@ == Seq::new(i as nat, |k: int| 0i128),
            decreases choices@.len() - i,
        {
            counts.push(0);
            i = i + 1;
        }
        proof {
            assert(sum_counts(counts@) == 0) by {
                lemma_sum_nonneg(counts@);
                lemma_sum_zero(counts@);
            }
        }
        self.admin = Some(admin);
        self.voting_active = true;
        self.voting_start = voting_start;
        self.voting_end = voting_end;
        self.choices = choices;
        self.choice_votes = counts;
        self.total_votes = 0;
        Ok(())
    }

    /// The admin, who authorizes the call, registers `voter`.
    pub fn register_voter(&mut self, voter: AccountId) -> (r: Result<(), BallotError>)
        requires
            old(self)@.wf(),
        ensures
            final(self)@.wf(),
            !old(self)@.initialized() ==> r == Err::<(), _>(BallotError::NotInitialized)
                && final(self)@ == old(self)@,
            old(self)@.initialized() ==> r is Ok && final(self)@ == (BallotModel {
                registered: old(self)@.registered.insert(voter),
                ..old(self)@
            }),
    {
        if self.admin.is_none() {
            return Err(BallotError::NotInitialized);
        }
        self.registered.insert(voter, true);
        Ok(())
    }

    /// The admin, who authorizes the call, removes `voter` from the
    /// register; only before the first vote.
    pub fn deregister_voter(&mut self, voter: AccountId) -> (r: Result<(), BallotError>)
        requires
            old(self)@.wf(),
        ensures
            final(self)@.wf(),
            match old(self)@.deregister_error(voter) {
                Some(e) => r == Err::<(), _>(e) && final(self)@ == old(self)@,
                None => r is Ok && final(self)@ == (BallotModel {
                    registered: old(self)@.registered.remove(voter),
                    ..old(self)@
                }),
            },
    {
        if self.admin.is_none() {
            return Err(BallotError::NotInitialized);
        }
        if self.total_votes > 0 {
            return Err(BallotError::VotingAlreadyStarted);
        }
        if !self.registered.contains_key(&voter) {
            return Err(BallotError::NotRegistered);
        }
        self.registered.remove(&voter);
        proof {
            assert(self@.voted.len() == 0);
            vstd::set_lib::lemma_set_empty_equivalency_len(self@.voted);
        }
        Ok(())
    }

    /// Registered `voter`, who authorizes the call, votes for choice
    /// `choice` at ledger sequence `ledger`.
    pub fn vote(&mut self, voter: AccountId, choice: u32, ledger: u32) -> (r: Result<(), BallotError>)
        requires
            old(self)@.wf(),
            old(self)@.vote_error(voter, choice as int, ledger as int) is None ==> old(self)@.total_votes
                < i128::MAX,
        ensures
            final(self)@.wf(),
            match old(self)@.vote_error(voter, choice as int, ledger as int) {
                Some(e) => r == Err::<(), _>(e) && final(self)@ == old(self)@,
                None => r is Ok && final(self)@ == old(self)@.after_vote(voter, choice as int),
            },
    {
        if self.admin.is_none() {
            return Err(BallotError::NotInitialized);
        }
        if !self.voting_active {
            return Err(BallotError::VotingClosed);
        }
        if ledger < self.voting_start {
            return Err(BallotError::VotingNotStarted);
        }
        if ledger > self.voting_end {
            return Err(BallotError::VotingClosed);
        }
        if !self.registered.contains_key(&voter) {
            return Err(BallotError::NotRegistered);
        }
        if self.voted.contains_key(&voter) {
            return Err(BallotError::AlreadyVoted);
        }
        let i = choice as usize;
        if i >= self.choices.len() {
            return Err(BallotError::InvalidChoice);
        }
        proof {
            lemma_entry_le_sum(self.choice_votes@, i as int);
            lemma_sum_increment(self.choice_votes@, i as int);
        }
        self.voted.insert(voter, true);
        self.total_votes = self.total_votes + 1;
        let c = self.choice_votes[i];
        self.choice_votes.set(i, c + 1);
        Ok(())
    }

    /// The admin, who authorizes the call, closes the vote and returns the
    /// votes of choice 1 (yes) and choice 0 (no).
    pub fn tally(&mut self) -> (r: Result<(i128, i128), BallotError>)
        requires
            old(self)@.wf(),
        ensures
            final(self)@.wf(),
            !old(self)@.initialized() ==> r == Err::<(i128, i128), _>(BallotError::NotInitialized)
                && final(self)@ == old(self)@,
            old(self)@.initialized() ==> r == Ok::<(i128, i128), BallotError>(
                (old(self)@.count_of(1), old(self)@.count_of(0)),
            ) && final(self)@ == (BallotModel { voting_active: false, ..old(self)@ }),
    {
        if self.admin.is_none() {
            return Err(BallotError::NotInitialized);
        }
        self.voting_active = false;
        Ok((self.get_choice_votes(1), self.get_choice_votes(0)))
    }

    /// The admin, who authorizes the call, closes the vote and returns the
    /// votes of every choice.
    pub fn tally_all(&mut self) -> (r: Result<Vec<i128>, BallotError>)
        requires
            old(self)@.wf(),
        ensures
            final(self)@.wf(),
            !old(self)@.initialized() ==> r is Err && r == Err::<Vec<i128>, _>(BallotError::NotInitialized)
                && final(self)@ == old(self)@,
            old(self)@.initialized() ==> r is Ok && r.unwrap()@ == old(self)@.counts
                && final(self)@ == (BallotModel { voting_active: false, ..old(self)@ }),
    {
        if self.admin.is_none() {
            return Err(BallotError::NotInitialized);
        }
        self.voting_active = false;
        Ok(self.choice_votes.clone())
    }

    /// Votes received by choice `index` (zero for no such choice).
    pub fn get_choice_votes(&self, index: u32) -> (v: i128)
        ensures
            v == self@.count_of(index as int),
    {
        let i = index as usize;
        if i < self.choice_votes.len() {
            self.choice_votes[i]
        } else {
            0
        }
    }

    /// Votes received by choice 1.
    pub fn get_yes_votes(&self) -> (v: i128)
        ensures
            v == self@.count_of(1),
    {
        self.get_choice_votes(1)
    }

    /// Votes received by choice 0.
    pub fn get_no_votes(&self) -> (v: i128)
        ensures
            v == self@.count_of(0),
    {
        self.get_choice_votes(0)
    }

    /// Labels of the choices, in declaration order.
    pub fn get_choices(&self) -> (v: Vec<String>)
        ensures
            v@ == self@.choices,
    {
        self.choices.clone()
    }
}

proof fn lemma_sum_zero(s: Seq<i128>)
    requires
        forall|k: int| 0 <= k < s.len() ==> #[trigger] s[k] == 0,
    ensures
        sum_counts(s) == 0,
    decreases s.len(),
{
    if s.len() > 0 {
        lemma_sum_zero(s.drop_last());
    }
}

/// The votes cast never exceed the number of registered voters, and each
/// voter's vote is counted once.
pub proof fn law_votes_bounded_by_voters(m: BallotModel)
    requires
        m.wf(),
    ensures
        m.total_votes <= m.registered.len(),
        sum_counts(m.counts) == m.voted.len(),
{
    vstd::set_lib::lemma_len_subset(m.voted, m.registered);
}

/// A voter who has voted cannot vote again.
pub proof fn law_vote_once(m: BallotModel, voter: AccountId, choice: int, choice2: int, ledger: int)
    requires
        m.vote_error(voter, choice, ledger) is None,
    ensures
        m.after_vote(voter, choice).vote_error(voter, choice2, ledger) == Some(BallotError::AlreadyVoted),
{
}

/// After a tally closes the vote, every vote is refused.
pub proof fn law_closed_ballot_refuses_votes(m: BallotModel, voter: AccountId, choice: int, ledger: int)
    requires
        m.initialized(),
    ensures
        (BallotModel { voting_active: false, ..m }).vote_error(voter, choice, ledger) == Some(
            BallotError::VotingClosed,
        ),
{
}

} // verus!
