//! Atomic swaps: a proposer escrows an amount of one token and asks for an
//! amount of another; a counterparty accepts before the expiry and both
//! sides are paid at once, less a platform fee on the asked side, or the
//! proposer takes the escrow back.

use vstd::prelude::*;

use crate::common::{bps_fee_or_zero, split_bps, AccountId, Transfer};

verus! {

/// Errors returned by the swap contract.
#[derive(Clone, Copy, Debug, PartialEq, Eq, Structural)]
pub enum SwapError {
    /// The caller is not authorized.
    NotAuthorized,
    /// The swap does not exist.
    SwapNotFound,
    /// The swap is not in the required state.
    InvalidState,
    /// The swap deadline has expired.
    DeadlineExpired,
    /// An amount is zero or negative.
    InvalidAmount,
    /// The expiry ledger is not in the future.
    InvalidDeadline,
    /// The swap was already completed.
    AlreadyCompleted,
    /// The swap was already cancelled.
    AlreadyCancelled,
    /// The contract was already initialized.
    AlreadyInitialized,
    /// The contract has not been initialized.
    NotInitialized,
    /// The fee exceeds 10 000 basis points.
    InvalidFee,
}

impl SwapError {
    /// The numeric code of this error in the contract interface.
    pub open spec fn spec_code(self) -> u32 {
        match self {
            SwapError::NotAuthorized => 1,
            SwapError::SwapNotFound => 2,
            SwapError::InvalidState => 3,
            SwapError::DeadlineExpired => 4,
            SwapError::InvalidAmount => 5,
            SwapError::InvalidDeadline => 6,
            SwapError::AlreadyCompleted => 7,
            SwapError::AlreadyCancelled => 8,
            SwapError::AlreadyInitialized => 9,
            SwapError::NotInitialized => 10,
            SwapError::InvalidFee => 11,
        }
    }

    /// A short human-readable description of this error.
    pub open spec fn spec_message(self) -> Seq<char> {
        match self {
            SwapError::NotAuthorized => "not authorized"@,
            SwapError::SwapNotFound => "swap not found"@,
            SwapError::InvalidState => "invalid swap state"@,
            SwapError::DeadlineExpired => "swap deadline has expired"@,
            SwapError::InvalidAmount => "invalid amount"@,
            SwapError::InvalidDeadline => "invalid deadline"@,
            SwapError::AlreadyCompleted => "swap already completed"@,
            SwapError::AlreadyCancelled => "swap already cancelled"@,
            SwapError::AlreadyInitialized => "already initialized"@,
            SwapError::NotInitialized => "not initialized"@,
            SwapError::InvalidFee => "fee exceeds 10 000 basis points"@,
        }
    }

    /// Returns the numeric code of this error.
    pub fn code(&self) -> (c: u32)
        ensures
            c == self.spec_code(),
    {
        match self {
            SwapError::NotAuthorized => 1,
            SwapError::SwapNotFound => 2,
            SwapError::InvalidState => 3,
            SwapError::DeadlineExpired => 4,
            SwapError::InvalidAmount => 5,
            SwapError::InvalidDeadline => 6,
            SwapError::AlreadyCompleted => 7,
            SwapError::AlreadyCancelled => 8,
            SwapError::AlreadyInitialized => 9,
            SwapError::NotInitialized => 10,
            SwapError::InvalidFee => 11,
        }
    }

    /// Returns a short human-readable description of this error.
    pub fn message(&self) -> (m: &'static str)
        ensures
            m@ == self.spec_message(),
    {
        match self {
            SwapError::NotAuthorized => "not authorized",
            SwapError::SwapNotFound => "swap not found",
            SwapError::InvalidState => "invalid swap state",
            SwapError::DeadlineExpired => "swap deadline has expired",
            SwapError::InvalidAmount => "invalid amount",
            SwapError::InvalidDeadline => "invalid deadline",
            SwapError::AlreadyCompleted => "swap already completed",
            SwapError::AlreadyCancelled => "swap already cancelled",
            SwapError::AlreadyInitialized => "already initialized",
            SwapError::NotInitialized => "not initialized",
            SwapError::InvalidFee => "fee exceeds 10 000 basis points",
        }
    }
}

/// Lifecycle state of a swap.
#[derive(Clone, Copy, Debug, PartialEq, Eq, Structural)]
pub enum SwapState {
    /// Waiting for a counterparty.
    Open,
    /// Both sides were paid.
    Completed,
    /// The escrow went back to the proposer.
    Cancelled,
}

/// A proposed swap.
#[derive(Clone, Copy, Debug, PartialEq, Eq, Structural)]
pub struct SwapInfo {
    /// The proposer.
    pub party_a: AccountId,
    /// Token the proposer gives.
    pub token_a: AccountId,
    /// Amount the proposer gives (held in escrow).
    pub amount_a: i128,
    /// Token the proposer asks for.
    pub token_b: AccountId,
    /// Amount the proposer asks for.
    pub amount_b: i128,
    /// Last ledger at which the swap can be accepted.
    pub expires_at: u32,
    /// Lifecycle state.
    pub state: SwapState,
}

/// State of the swap contract.
pub struct SwapContract {
    /// The admin, once initialized.
    pub admin: Option<AccountId>,
    /// Receiver of the fee.
    pub treasury: Option<AccountId>,
    /// Fee on the asked side, in basis points.
    pub fee_bps: u32,
    /// Swaps in proposal order; a swap's id is its position.
    pub swaps: Vec<SwapInfo>,
}

/// Abstract state of the swap contract.
pub struct SwapModel {
    pub admin: Option<AccountId>,
    pub treasury: Option<AccountId>,
    pub fee_bps: u32,
    pub swaps: Seq<SwapInfo>,
}

impl View for SwapContract {
    type V = SwapModel;

    open spec fn view(&self) -> SwapModel {
        SwapModel { admin: self.admin, treasury: self.treasury, fee_bps: self.fee_bps, swaps: self.swaps@ }
    }
}

impl SwapModel {
    /// The fee is at most 100 %, a fee is only charged with a treasury, an
    /// initialized contract has a treasury, and every swap asks for and
    /// offers positive amounts.
    pub open spec fn wf(self) -> bool {
        &&& self.fee_bps <= 10_000
        &&& self.fee_bps > 0 ==> self.treasury is Some
        &&& self.admin is Some ==> self.treasury is Some
        &&& forall|i: int| 0 <= i < self.swaps.len() ==> #[trigger] self.swaps[i].amount_a > 0
            && self.swaps[i].amount_b > 0
    }

    /// The first check of `propose_swap` that fails, if any.
    pub open spec fn propose_error(self, amount_a: int, amount_b: int, expires_at: int, ledger: int) -> Option<SwapError> {
        if amount_a <= 0 || amount_b <= 0 {
            Some(SwapError::InvalidAmount)
        } else if expires_at <= ledger {
            Some(SwapError::InvalidDeadline)
        } else {
            None
        }
    }

    /// The error for a swap that is no longer open.
    pub open spec fn settled_error(s: SwapState) -> Option<SwapError> {
        match s {
            SwapState::Open => None,
            SwapState::Completed => Some(SwapError::AlreadyCompleted),
            SwapState::Cancelled => Some(SwapError::AlreadyCancelled),
        }
    }

    /// The first check of `accept_swap` that fails, if any.
    pub open spec fn accept_error(self, id: int, ledger: int) -> Option<SwapError> {
        if !(0 <= id < self.swaps.len()) {
            Some(SwapError::SwapNotFound)
        } else if Self::settled_error(self.swaps[id].state) is Some {
            Self::settled_error(self.swaps[id].state)
        } else if ledger > self.swaps[id].expires_at {
            Some(SwapError::DeadlineExpired)
        } else {
            None
        }
    }

    /// The first check of `cancel_swap` that fails, if any.
    pub open spec fn cancel_error(self, id: int) -> Option<SwapError> {
        if !(0 <= id < self.swaps.len()) {
            Some(SwapError::SwapNotFound)
        } else {
            Self::settled_error(self.swaps[id].state)
        }
    }

    /// This state with swap `id` moved to state `s`.
    pub open spec fn with_swap_state(self, id: int, s: SwapState) -> Self {
        SwapModel { swaps: self.swaps.update(id, SwapInfo { state: s, ..self.swaps[id] }), ..self }
    }

    /// Fee charged when swap `id` is accepted.
    pub open spec fn fee_of(self, id: int) -> int {
        bps_fee_or_zero(self.swaps[id].amount_b as int, self.fee_bps as int)
    }

    /// Token movements when `party_b` accepts swap `id`: the counterparty
    /// pays the asked amount in, the proposer receives it less the fee, the
    /// treasury receives the fee, and the counterparty receives the escrow.
    pub open spec fn accept_transfers(self, id: int, party_b: AccountId) -> Seq<Transfer> {
        let s = self.swaps[id];
        let fee = self.fee_of(id);
        seq![
            Transfer::Deposit { token: s.token_b, from: party_b, amount: s.amount_b },
            Transfer::Payout { token: s.token_b, to: s.party_a, amount: (s.amount_b - fee) as i128 },
        ] + (if fee > 0 {
            seq![Transfer::Payout { token: s.token_b, to: self.treasury->Some_0, amount: fee as i128 }]
        } else {
            Seq::<Transfer>::empty()
        }) + seq![Transfer::Payout { token: s.token_a, to: party_b, amount: s.amount_a }]
    }
}

impl SwapContract {
    /// A contract with empty storage.
    pub fn new() -> (c: Self)
        ensures
            c@ == (SwapModel { admin: None, treasury: None, fee_bps: 0, swaps: Seq::empty() }),
            c@.wf(),
    {
        SwapContract { admin: None, treasury: None, fee_bps: 0, swaps: Vec::new() }
    }

    /// Sets the admin, the treasury and the fee. The admin authorizes the
    /// call.
    pub fn initialize(&mut self, admin: AccountId, treasury: AccountId, fee_bps: u32) -> (r: Result<(), SwapError>)
        requires
            old(self)@.wf(),
        ensures
            final(self)@.wf(),
            old(self)@.admin is Some ==> r == Err::<(), _>(SwapError::AlreadyInitialized)
                && final(self)@ == old(self)@,
            old(self)@.admin is None && fee_bps > 10_000 ==> r == Err::<(), _>(SwapError::InvalidFee)
                && final(self)@ == old(self)@,
            old(self)@.admin is None && fee_bps <= 10_000 ==> r is Ok && final(self)@ == (SwapModel {
                admin: Some(admin),
                treasury: Some(treasury),
                fee_bps,
                ..old(self)@
            }),
    {
        if self.admin.is_some() {
            return Err(SwapError::AlreadyInitialized);
        }
        if fee_bps > 10_000 {
            return Err(SwapError::InvalidFee);
        }
        self.admin = Some(admin);
        self.treasury = Some(treasury);
        self.fee_bps = fee_bps;
        Ok(())
    }

    /// The admin, who authorizes the call, changes the treasury.
    pub fn set_treasury(&mut self, new_treasury: AccountId) -> (r: Result<(), SwapError>)
        requires
            old(self)@.wf(),
        ensures
            final(self)@.wf(),
            old(self)@.admin is None ==> r == Err::<(), _>(SwapError::NotInitialized)
                && final(self)@ == old(self)@,
            old(self)@.admin is Some ==> r is Ok && final(self)@ == (SwapModel {
                treasury: Some(new_treasury),
                ..old(self)@
            }),
    {
        if self.admin.is_none() {
            return Err(SwapError::NotInitialized);
        }
        self.treasury = Some(new_treasury);
        Ok(())
    }

    /// The admin, who authorizes the call, changes the fee.
    pub fn set_fee_bps(&mut self, new_fee_bps: u32) -> (r: Result<(), SwapError>)
        requires
            old(self)@.wf(),
        ensures
            final(self)@.wf(),
            old(self)@.admin is None ==> r == Err::<(), _>(SwapError::NotInitialized)
                && final(self)@ == old(self)@,
            old(self)@.admin is Some && new_fee_bps > 10_000 ==> r == Err::<(), _>(SwapError::InvalidFee)
                && final(self)@ == old(self)@,
            old(self)@.admin is Some && new_fee_bps <= 10_000 ==> r is Ok && final(self)@ == (SwapModel {
                fee_bps: new_fee_bps,
                ..old(self)@
            }),
    {
        if self.admin.is_none() {
            return Err(SwapError::NotInitialized);
        }
        if new_fee_bps > 10_000 {
            return Err(SwapError::InvalidFee);
        }
        self.fee_bps = new_fee_bps;
        Ok(())
    }

    /// The admin, who authorizes the call, hands the role to `new_admin`.
    pub fn set_admin(&mut self, new_admin: AccountId) -> (r: Result<(), SwapError>)
        requires
            old(self)@.wf(),
        ensures
            final(self)@.wf(),
            old(self)@.admin is None ==> r == Err::<(), _>(SwapError::NotInitialized)
                && final(self)@ == old(self)@,
            old(self)@.admin is Some ==> r is Ok && final(self)@ == (SwapModel {
                admin: Some(new_admin),
                ..old(self)@
            }),
    {
        if self.admin.is_none() {
            return Err(SwapError::NotInitialized);
        }
        self.admin = Some(new_admin);
        Ok(())
    }

    /// The admin.
    pub fn get_admin(&self) -> (r: Result<AccountId, SwapError>)
        ensures
            r == (match self@.admin {
                Some(a) => Ok(a),
                None => Err(SwapError::NotInitialized),
            }),
    {
        match self.admin {
            Some(a) => Ok(a),
            None => Err(SwapError::NotInitialized),
        }
    }

    /// The treasury.
    pub fn get_treasury(&self) -> (r: Result<AccountId, SwapError>)
        ensures
            r == (match self@.treasury {
                Some(a) => Ok(a),
                None => Err(SwapError::NotInitialized),
            }),
    {
        match self.treasury {
            Some(a) => Ok(a),
            None => Err(SwapError::NotInitialized),
        }
    }

    /// The fee in basis points.
    pub fn get_fee_bps(&self) -> (r: Result<u32, SwapError>)
        ensures
            self@.admin is Some ==> r == Ok::<u32, SwapError>(self@.fee_bps),
            self@.admin is None ==> r == Err::<u32, _>(SwapError::NotInitialized),
    {
        if self.admin.is_none() {
            return Err(SwapError::NotInitialized);
        }
        Ok(self.fee_bps)
    }

    /// `party_a`, who authorizes the call, offers `amount_a` of `token_a`
    /// (escrowed now) for `amount_b` of `token_b`, until ledger
    /// `expires_at`; `ledger` is the current ledger sequence. Returns the
    /// new swap's id and the token movement.
    pub fn propose_swap(
        &mut self,
        party_a: AccountId,
        token_a: AccountId,
        amount_a: i128,
        token_b: AccountId,
        amount_b: i128,
        expires_at: u32,
        ledger: u32,
    ) -> (r: Result<(u32, Vec<Transfer>), SwapError>)
        requires
            old(self)@.wf(),
            old(self)@.propose_error(amount_a as int, amount_b as int, expires_at as int, ledger as int) is None
                ==> old(self)@.swaps.len() < u32::MAX,
        ensures
            final(self)@.wf(),
            match old(self)@.propose_error(amount_a as int, amount_b as int, expires_at as int, ledger as int) {
                Some(e) => r == Err::<(u32, Vec<Transfer>), _>(e) && final(self)@ == old(self)@,
                None => {
                    &&& r is Ok
                    &&& r.unwrap().0 == old(self)@.swaps.len()
                    &&& r.unwrap().1@ == seq![Transfer::Deposit { token: token_a, from: party_a, amount: amount_a }]
                    &&& final(self)@ == (SwapModel {
                        swaps: old(self)@.swaps.push(
                            SwapInfo {
                                party_a,
                                token_a,
                                amount_a,
                                token_b,
                                amount_b,
                                expires_at,
                                state: SwapState::Open,
                            },
                        ),
                        ..old(self)@
                    })
                },
            },
    {
        if amount_a <= 0 || amount_b <= 0 {
            return Err(SwapError::InvalidAmount);
        }
        if expires_at <= ledger {
            return Err(SwapError::InvalidDeadline);
        }
        let id = self.swaps.len() as u32;
        self.swaps.push(
            SwapInfo { party_a, token_a, amount_a, token_b, amount_b, expires_at, state: SwapState::Open },
        );
        let mut out: Vec<Transfer> = Vec::new();
        out.push(Transfer::Deposit { token: token_a, from: party_a, amount: amount_a });
        Ok((id, out))
    }

    /// `party_b`, who authorizes the call, accepts swap `swap_id` at ledger
    /// `ledger`. Returns the id and the token movements.
    pub fn accept_swap(&mut self, swap_id: u32, party_b: AccountId, ledger: u32) -> (r: Result<
        (u32, Vec<Transfer>),
        SwapError,
    >)
        requires
            old(self)@.wf(),
        ensures
            final(self)@.wf(),
            match old(self)@.accept_error(swap_id as int, ledger as int) {
                Some(e) => r == Err::<(u32, Vec<Transfer>), _>(e) && final(self)@ == old(self)@,
                None => {
                    &&& r is Ok
                    &&& r.unwrap().0 == swap_id
                    &&& r.unwrap().1@ == old(self)@.accept_transfers(swap_id as int, party_b)
                    &&& final(self)@ == old(self)@.with_swap_state(swap_id as int, SwapState::Completed)
                },
            },
    {
        let i = swap_id as usize;
        if i >= self.swaps.len() {
            return Err(SwapError::SwapNotFound);
        }
        let s = self.swaps[i];
        match s.state {
            SwapState::Completed => return Err(SwapError::AlreadyCompleted),
            SwapState::Cancelled => return Err(SwapError::AlreadyCancelled),
            SwapState::Open => {},
        }
        if ledger > s.expires_at {
            return Err(SwapError::DeadlineExpired);
        }
        assert(s == old(self)@.swaps[i as int]);
        let (net, fee) = split_bps(s.amount_b, self.fee_bps);
        proof {
            let a = s.amount_b as int;
            assert(a * 0 == 0) by (nonlinear_arith);
            assert(fee > 0 ==> self.fee_bps > 0);
        }
        let mut out: Vec<Transfer> = Vec::new();
        out.push(Transfer::Deposit { token: s.token_b, from: party_b, amount: s.amount_b });
        out.push(Transfer::Payout { token: s.token_b, to: s.party_a, amount: net });
        if fee > 0 {
            match self.treasury {
                Some(t) => {
                    out.push(Transfer::Payout { token: s.token_b, to: t, amount: fee });
                },
                None => {},
            }
        }
        out.push(Transfer::Payout { token: s.token_a, to: party_b, amount: s.amount_a });
        self.swaps.set(i, SwapInfo { state: SwapState::Completed, ..s });
        proof {
            let spec_out = old(self)@.accept_transfers(swap_id as int, party_b);
            assert(out@ =~= spec_out);
        }
        Ok((swap_id, out))
    }

    /// Whether cancelling swap `swap_id` at ledger `ledger` needs the
    /// proposer's authorization: before the expiry only the proposer may
    /// cancel, afterwards anyone may.
    pub fn cancel_needs_proposer_auth(&self, swap_id: u32, ledger: u32) -> (b: bool)
        ensures
            b == ((swap_id as int) < self@.swaps.len() && ledger <= self@.swaps[swap_id as int].expires_at),
    {
        let i = swap_id as usize;
        i < self.swaps.len() && ledger <= self.swaps[i].expires_at
    }

    /// Cancels open swap `swap_id` and returns the escrow to the proposer
    /// (who must authorize the call until the expiry). Returns the token
    /// movement.
    pub fn cancel_swap(&mut self, swap_id: u32) -> (r: Result<Vec<Transfer>, SwapError>)
        requires
            old(self)@.wf(),
        ensures
            final(self)@.wf(),
            match old(self)@.cancel_error(swap_id as int) {
                Some(e) => r == Err::<Vec<Transfer>, _>(e) && final(self)@ == old(self)@,
                None => {
                    let s = old(self)@.swaps[swap_id as int];
                    &&& r is Ok
                    &&& r.unwrap()@ == seq![Transfer::Payout { token: s.token_a, to: s.party_a, amount: s.amount_a }]
                    &&& final(self)@ == old(self)@.with_swap_state(swap_id as int, SwapState::Cancelled)
                },
            },
    {
        let i = swap_id as usize;
        if i >= self.swaps.len() {
            return Err(SwapError::SwapNotFound);
        }
        let s = self.swaps[i];
        match s.state {
            SwapState::Completed => return Err(SwapError::AlreadyCompleted),
            SwapState::Cancelled => return Err(SwapError::AlreadyCancelled),
            SwapState::Open => {},
        }
        self.swaps.set(i, SwapInfo { state: SwapState::Cancelled, ..s });
        let mut out: Vec<Transfer> = Vec::new();
        out.push(Transfer::Payout { token: s.token_a, to: s.party_a, amount: s.amount_a });
        Ok(out)
    }

    /// Swap `swap_id`.
    pub fn get_swap(&self, swap_id: u32) -> (r: Result<SwapInfo, SwapError>)
        ensures
            (swap_id as int) < self@.swaps.len() ==> r == Ok::<SwapInfo, SwapError>(self@.swaps[swap_id as int]),
            (swap_id as int) >= self@.swaps.len() ==> r == Err::<SwapInfo, _>(SwapError::SwapNotFound),
    {
        let i = swap_id as usize;
        if i >= self.swaps.len() {
            return Err(SwapError::SwapNotFound);
        }
        Ok(self.swaps[i])
    }

    /// Number of swaps proposed.
    pub fn swap_count(&self) -> (n: u32)
        requires
            self@.swaps.len() <= u32::MAX,
        ensures
            n == self@.swaps.len(),
    {
        self.swaps.len() as u32
    }
}

/// A completed or cancelled swap can be neither accepted nor cancelled
/// again.
pub proof fn law_settled_swap_is_final(m: SwapModel, id: int, s: SwapState, ledger: int)
    requires
        0 <= id < m.swaps.len(),
        s != SwapState::Open,
    ensures
        m.with_swap_state(id, s).accept_error(id, ledger) is Some,
        m.with_swap_state(id, s).cancel_error(id) is Some,
        s == SwapState::Completed ==> m.with_swap_state(id, s).accept_error(id, ledger) == Some(
            SwapError::AlreadyCompleted,
        ),
        s == SwapState::Cancelled ==> m.with_swap_state(id, s).cancel_error(id) == Some(
            SwapError::AlreadyCancelled,
        ),
{
}

/// On acceptance the asked amount is split exactly between the proposer and
/// the treasury, both shares non-negative, and the counterparty receives the
/// whole escrowed amount.
pub proof fn law_accept_conserves(m: SwapModel, id: int, party_b: AccountId)
    requires
        m.wf(),
        0 <= id < m.swaps.len(),
    ensures
        ({
            let s = m.swaps[id];
            let fee = m.fee_of(id);
            &&& 0 <= fee <= s.amount_b
            &&& (s.amount_b - fee) + fee == s.amount_b
            &&& m.accept_transfers(id, party_b).last() == Transfer::Payout {
                token: s.token_a,
                to: party_b,
                amount: s.amount_a,
            }
        }),
{
    let s = m.swaps[id];
    crate::common::lemma_bps_share_bounds(s.amount_b as int, m.fee_bps as int);
}

} // verus!
