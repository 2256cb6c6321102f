//! M-of-N multisignature wallet: signers (optionally weighted) propose
//! transactions, sign them, and execute them once the accumulated weight
//! of signatures reaches the threshold. Signer management itself needs
//! approvals worth the threshold.

use std::collections::HashMap;
use vstd::prelude::*;

use crate::common::{contains_account, is_unique_nonempty, no_duplicates, AccountId};

verus! {

broadcast use vstd::std_specs::hash::group_hash_axioms;

/// Error codes returned by the multisig contract.
#[derive(Clone, Copy, Debug, PartialEq, Eq, Structural)]
pub enum MultisigError {
    /// The contract has already been initialized.
    AlreadyInitialized,
    /// The contract has not been initialized.
    NotInitialized,
    /// The threshold must be greater than zero and no greater than total weight.
    InvalidThreshold,
    /// Signer lists cannot be empty or contain duplicates.
    InvalidSigners,
    /// The caller or approver is not a signer.
    NotSigner,
    /// The transaction does not exist.
    TransactionNotFound,
    /// The transaction has already been executed.
    AlreadyExecuted,
    /// The signer has already signed the transaction.
    AlreadySigned,
    /// The transaction has too little accumulated weight to execute.
    ThresholdNotMet,
    /// Signer-management approval list does not satisfy the threshold.
    InsufficientApprovals,
    /// The proposal has expired and can no longer be signed or executed.
    ProposalExpired,
    /// A signer weight of zero is not permitted.
    InvalidWeight,
    /// The proposal has not expired yet and cannot be cleaned up.
    ProposalNotExpired,
}

impl MultisigError {
    /// The numeric code of this error in the contract interface.
    pub open spec fn spec_code(self) -> u32 {
        match self {
            MultisigError::AlreadyInitialized => 1,
            MultisigError::NotInitialized => 2,
            MultisigError::InvalidThreshold => 3,
            MultisigError::InvalidSigners => 4,
            MultisigError::NotSigner => 5,
            MultisigError::TransactionNotFound => 6,
            MultisigError::AlreadyExecuted => 7,
            MultisigError::AlreadySigned => 8,
            MultisigError::ThresholdNotMet => 9,
            MultisigError::InsufficientApprovals => 10,
            MultisigError::ProposalExpired => 11,
            MultisigError::InvalidWeight => 12,
            MultisigError::ProposalNotExpired => 13,
        }
    }

    /// A short human-readable description of this error.
    pub open spec fn spec_message(self) -> Seq<char> {
        match self {
            MultisigError::AlreadyInitialized => "already initialized"@,
            MultisigError::NotInitialized => "not initialized"@,
            MultisigError::InvalidThreshold => "invalid threshold"@,
            MultisigError::InvalidSigners => "invalid signers"@,
            MultisigError::NotSigner => "not signer"@,
            MultisigError::TransactionNotFound => "transaction not found"@,
            MultisigError::AlreadyExecuted => "already executed"@,
            MultisigError::AlreadySigned => "already signed"@,
            MultisigError::ThresholdNotMet => "threshold not met"@,
            MultisigError::InsufficientApprovals => "insufficient approvals"@,
            MultisigError::ProposalExpired => "proposal expired"@,
            MultisigError::InvalidWeight => "invalid weight"@,
            MultisigError::ProposalNotExpired => "proposal not expired"@,
        }
    }

    /// Returns the numeric code of this error.
    pub fn code(&self) -> (c: u32)
        ensures
            c == self.spec_code(),
    {
        match self {
            MultisigError::AlreadyInitialized => 1,
            MultisigError::NotInitialized => 2,
            MultisigError::InvalidThreshold => 3,
            MultisigError::InvalidSigners => 4,
            MultisigError::NotSigner => 5,
            MultisigError::TransactionNotFound => 6,
            MultisigError::AlreadyExecuted => 7,
            MultisigError::AlreadySigned => 8,
            MultisigError::ThresholdNotMet => 9,
            MultisigError::InsufficientApprovals => 10,
            MultisigError::ProposalExpired => 11,
            MultisigError::InvalidWeight => 12,
            MultisigError::ProposalNotExpired => 13,
        }
    }

    /// Returns a short human-readable description of this error.
    pub fn message(&self) -> (m: &'static str)
        ensures
            m@ == self.spec_message(),
    {
        match self {
            MultisigError::AlreadyInitialized => "already initialized",
            MultisigError::NotInitialized => "not initialized",
            MultisigError::InvalidThreshold => "invalid threshold",
            MultisigError::InvalidSigners => "invalid signers",
            MultisigError::NotSigner => "not signer",
            MultisigError::TransactionNotFound => "transaction not found",
            MultisigError::AlreadyExecuted => "already executed",
            MultisigError::AlreadySigned => "already signed",
            MultisigError::ThresholdNotMet => "threshold not met",
            MultisigError::InsufficientApprovals => "insufficient approvals",
            MultisigError::ProposalExpired => "proposal expired",
            MultisigError::InvalidWeight => "invalid weight",
            MultisigError::ProposalNotExpired => "proposal not expired",
        }
    }
}

/// A per-signer weight supplied at initialization.
#[derive(Clone, Copy, Debug, PartialEq, Eq, Structural)]
pub struct SignerWeight {
    /// The signer.
    pub signer: AccountId,
    /// The signer's vote weight (at least 1).
    pub weight: u32,
}

/// A proposed transaction. `C` is the call to make on `target` once the
/// transaction executes; the wallet carries it without reading it.
pub struct Transaction<C> {
    /// Transaction id.
    pub id: u64,
    /// The signer who proposed it.
    pub proposer: AccountId,
    /// The contract to call.
    pub target: AccountId,
    /// The call to make.
    pub call: C,
    /// Signers that have signed, in signing order.
    pub signatures: Vec<AccountId>,
    /// Accumulated weight of all signatures collected so far (saturating).
    pub accumulated_weight: u32,
    /// Whether the transaction has been executed.
    pub executed: bool,
    /// Ledger sequence after which the proposal is expired.
    pub expiry_ledger: u32,
}

/// State of the multisig wallet.
pub struct MultisigContract<C> {
    /// Whether the wallet has been initialized.
    pub initialized: bool,
    /// The signer list, in insertion order.
    pub signers: Vec<AccountId>,
    /// Per-signer weights; a signer without an entry weighs 1.
    pub weights: HashMap<AccountId, u32>,
    /// Accumulated-weight threshold needed to execute.
    pub threshold: u32,
    /// Id of the next proposed transaction.
    pub next_transaction_id: u64,
    /// Stored transactions by id.
    pub transactions: HashMap<u64, Transaction<C>>,
}

/// Weight of `who` under `weights`: its entry, or 1 without one.
pub open spec fn weight_of(weights: Map<AccountId, u32>, who: AccountId) -> u32 {
    if weights.contains_key(who) {
        weights[who]
    } else {
        1
    }
}

/// `x` clamped to the range of `u32`.
pub open spec fn sat_u32(x: int) -> int {
    if x > u32::MAX {
        u32::MAX as int
    } else {
        x
    }
}

/// Saturating sum of the weights of the first `n` accounts of `list`.
pub open spec fn weight_sum(list: Seq<AccountId>, weights: Map<AccountId, u32>, n: nat) -> int
    decreases n,
{
    if n == 0 {
        0
    } else {
        sat_u32(weight_sum(list, weights, (n - 1) as nat) + weight_of(weights, list[n - 1]))
    }
}

/// Saturating total weight of `list`.
pub open spec fn total_weight_of(list: Seq<AccountId>, weights: Map<AccountId, u32>) -> int {
    weight_sum(list, weights, list.len())
}

/// The weights map given explicit `ws` entries (later entries win), with
/// weight 1 for every signer not listed.
pub open spec fn explicit_weights(ws: Seq<SignerWeight>, n: nat) -> Map<AccountId, u32>
    decreases n,
{
    if n == 0 {
        Map::empty()
    } else {
        explicit_weights(ws, (n - 1) as nat).insert(ws[n - 1].signer, ws[n - 1].weight)
    }
}

/// `m` extended with weight 1 for each signer it lacks.
pub open spec fn with_default_weights(m: Map<AccountId, u32>, signers: Seq<AccountId>) -> Map<
    AccountId,
    u32,
> {
    Map::new(
        |k: AccountId| m.contains_key(k) || signers.contains(k),
        |k: AccountId|
            if m.contains_key(k) {
                m[k]
            } else {
                1u32
            },
    )
}

/// The weights map `initialize` builds from its arguments.
pub open spec fn initial_weights(signers: Seq<AccountId>, weights: Option<Seq<SignerWeight>>) -> Map<
    AccountId,
    u32,
> {
    match weights {
        None => with_default_weights(Map::empty(), signers),
        Some(ws) => with_default_weights(explicit_weights(ws, ws.len()), signers),
    }
}

/// The supplied weights as a sequence.
pub open spec fn weights_view(weights: Option<Vec<SignerWeight>>) -> Option<Seq<SignerWeight>> {
    match weights {
        Some(w) => Some(w@),
        None => None,
    }
}

/// Every supplied weight is at least 1.
pub open spec fn all_weights_positive(ws: Seq<SignerWeight>) -> bool {
    forall|i: int| 0 <= i < ws.len() ==> #[trigger] ws[i].weight > 0
}

/// Some supplied weight is zero.
pub open spec fn has_zero_weight(weights: Option<Seq<SignerWeight>>) -> bool {
    match weights {
        None => false,
        Some(ws) => !all_weights_positive(ws),
    }
}

/// `list` without any occurrence of `who`, order kept.
pub open spec fn without(list: Seq<AccountId>, who: AccountId) -> Seq<AccountId> {
    list.filter(differs_from(who))
}

/// The predicate "is not `who`".
pub open spec fn differs_from(who: AccountId) -> spec_fn(AccountId) -> bool {
    |a: AccountId| a != who
}

/// Abstract state of the wallet.
pub struct MultisigModel<C> {
    pub initialized: bool,
    pub signers: Seq<AccountId>,
    pub weights: Map<AccountId, u32>,
    pub threshold: u32,
    pub next_transaction_id: u64,
    pub transactions: Map<u64, Transaction<C>>,
}

impl<C> View for MultisigContract<C> {
    type V = MultisigModel<C>;

    open spec fn view(&self) -> MultisigModel<C> {
        MultisigModel {
            initialized: self.initialized,
            signers: self.signers@,
            weights: self.weights@,
            threshold: self.threshold,
            next_transaction_id: self.next_transaction_id,
            transactions: self.transactions@,
        }
    }
}

impl<C> MultisigModel<C> {
    /// Invariant: an initialized wallet has a non-empty duplicate-free
    /// signer list whose every member weighs at least 1, and a threshold
    /// between 1 and the total weight; every stored transaction carries its
    /// own id, is below the next id, and was signed by distinct accounts.
    pub open spec fn wf(self) -> bool {
        &&& !self.initialized ==> self.transactions == Map::<u64, Transaction<C>>::empty()
        &&& self.initialized ==> {
            &&& self.signers.len() > 0
            &&& no_duplicates(self.signers)
            &&& forall|k: AccountId| #[trigger]
                self.weights.contains_key(k) ==> self.weights[k] >= 1
            &&& 0 < self.threshold <= total_weight_of(self.signers, self.weights)
        }
        &&& forall|id: u64| #[trigger]
            self.transactions.contains_key(id) ==> {
                &&& self.transactions[id].id == id
                &&& id < self.next_transaction_id
                &&& no_duplicates(self.transactions[id].signatures@)
            }
    }

    /// Every account of `list` is a current signer.
    pub open spec fn all_signers(self, list: Seq<AccountId>) -> bool {
        forall|i: int| 0 <= i < list.len() ==> self.signers.contains(#[trigger] list[i])
    }

    /// The error signer management reports for `approvals`, if any.
    pub open spec fn approvals_error(self, approvals: Seq<AccountId>) -> Option<MultisigError> {
        if !(approvals.len() > 0 && no_duplicates(approvals)) {
            Some(MultisigError::InvalidSigners)
        } else if !self.all_signers(approvals) {
            Some(MultisigError::NotSigner)
        } else if weight_sum(approvals, self.weights, approvals.len()) < self.threshold {
            Some(MultisigError::InsufficientApprovals)
        } else {
            None
        }
    }

    /// Whether transaction `id` can execute at `ledger`.
    pub open spec fn executable(self, id: u64, ledger: u32) -> bool {
        &&& self.transactions.contains_key(id)
        &&& !self.transactions[id].executed
        &&& ledger <= self.transactions[id].expiry_ledger
        &&& self.initialized
        &&& self.transactions[id].accumulated_weight >= self.threshold
    }

    /// The error `execute_transaction(id)` reports at `ledger`.
    pub open spec fn execute_error(self, id: u64, ledger: u32) -> MultisigError {
        if !self.transactions.contains_key(id) {
            MultisigError::TransactionNotFound
        } else if self.transactions[id].executed {
            MultisigError::AlreadyExecuted
        } else if ledger > self.transactions[id].expiry_ledger {
            MultisigError::ProposalExpired
        } else if !self.initialized {
            MultisigError::NotInitialized
        } else {
            MultisigError::ThresholdNotMet
        }
    }

    /// The wallet after transaction `id` is marked executed.
    pub open spec fn mark_executed(self, id: u64) -> Self {
        MultisigModel {
            transactions: self.transactions.insert(
                id,
                Transaction { executed: true, ..self.transactions[id] },
            ),
            ..self
        }
    }

    /// The state after running `execute_transaction` on the first `n` ids
    /// of `ids` in turn, and the ids that executed.
    pub open spec fn batch_run(self, ids: Seq<u64>, ledger: u32, n: nat) -> (Self, Seq<u64>)
        decreases n,
    {
        if n == 0 {
            (self, Seq::empty())
        } else {
            let prev = self.batch_run(ids, ledger, (n - 1) as nat);
            let id = ids[n - 1];
            if prev.0.executable(id, ledger) {
                (prev.0.mark_executed(id), prev.1.push(id))
            } else {
                prev
            }
        }
    }
}

proof fn lemma_push_keeps_unique(s: Seq<AccountId>, x: AccountId)
    requires
        no_duplicates(s),
        !s.contains(x),
    ensures
        no_duplicates(s.push(x)),
{
    assert forall|i: int, j: int| 0 <= i < j < s.push(x).len() implies s.push(x)[i] != s.push(
        x,
    )[j] by {
        if j == s.len() {
            assert(s[i] == s.push(x)[i]);
        }
    }
}

proof fn lemma_explicit_weights_positive(ws: Seq<SignerWeight>, n: nat)
    requires
        n <= ws.len(),
        all_weights_positive(ws),
    ensures
        forall|k: AccountId| #[trigger]
            explicit_weights(ws, n).contains_key(k) ==> explicit_weights(ws, n)[k] >= 1,
    decreases n,
{
    if n > 0 {
        lemma_explicit_weights_positive(ws, (n - 1) as nat);
        let i: int = n - 1;
        assert(ws[i].weight > 0);
        let prev = explicit_weights(ws, (n - 1) as nat);
        assert forall|k: AccountId| #[trigger]
            explicit_weights(ws, n).contains_key(k) implies explicit_weights(ws, n)[k] >= 1 by {
            if k != ws[i].signer {
                assert(prev.contains_key(k));
            }
        }
    }
}

/// Checks that `threshold` is reachable: non-zero and at most `total_weight`.
pub fn validate_threshold(threshold: u32, total_weight: u32) -> (r: Result<(), MultisigError>)
    ensures
        r is Ok <==> (threshold != 0 && threshold <= total_weight),
        r is Err ==> r == Err::<(), _>(MultisigError::InvalidThreshold),
{
    if threshold == 0 || threshold > total_weight {
        return Err(MultisigError::InvalidThreshold);
    }
    Ok(())
}

/// Checks that `signers` is non-empty and holds no account twice.
pub fn validate_unique_signers(signers: &Vec<AccountId>) -> (r: Result<(), MultisigError>)
    ensures
        r is Ok <==> (signers@.len() > 0 && no_duplicates(signers@)),
        r is Err ==> r == Err::<(), _>(MultisigError::InvalidSigners),
{
    if !is_unique_nonempty(signers) {
        return Err(MultisigError::InvalidSigners);
    }
    Ok(())
}

/// The weight `weights` assigns to `who`.
fn lookup_weight(weights: &HashMap<AccountId, u32>, who: AccountId) -> (w: u32)
    ensures
        w == weight_of(weights@, who),
{
    match weights.get(&who) {
        Some(w) => *w,
        None => 1,
    }
}

/// Saturating total weight of `list` under `weights`.
pub fn total_weight(list: &Vec<AccountId>, weights: &HashMap<AccountId, u32>) -> (t: u32)
    ensures
        t == total_weight_of(list@, weights@),
{
    let mut total: u32 = 0;
    let mut i: usize = 0;
    while i < list.len()
        invariant
            i <= list@.len(),
            total == weight_sum(list@, weights@, i as nat),
        decreases list@.len() - i,
    {
        let w = lookup_weight(weights, list[i]);
        total = total.saturating_add(w);
        i = i + 1;
    }
    total
}

/// Builds the weights map for `initialize`: explicit weights (which must
/// all be non-zero) and weight 1 for every signer not listed.
pub fn build_weights_map(signers: &Vec<AccountId>, weights: Option<Vec<SignerWeight>>) -> (r: Result<
    HashMap<AccountId, u32>,
    MultisigError,
>)
    ensures
        has_zero_weight(weights_view(weights)) ==> r == Err::<HashMap<AccountId, u32>, _>(
            MultisigError::InvalidWeight,
        ),
        !has_zero_weight(weights_view(weights)) ==> r is Ok && r.unwrap()@ == initial_weights(
            signers@,
            weights_view(weights),
        ),
{
    let mut map: HashMap<AccountId, u32> = HashMap::new();
    match &weights {
        None => {},
        Some(ws) => {
            let mut i: usize = 0;
            while i < ws.len()
                invariant
                    i <= ws@.len(),
                    weights is Some,
                    weights.unwrap()@ == ws@,
                    map@ == explicit_weights(ws@, i as nat),
                    all_weights_positive(ws@.take(i as int)),
                decreases ws@.len() - i,
            {
                let sw = ws[i];
                if sw.weight == 0 {
                    proof {
                        assert(ws@[i as int].weight == 0);
                        assert(weights_view(weights) == Some(ws@));
                        assert(has_zero_weight(weights_view(weights)));
                    }
                    return Err(MultisigError::InvalidWeight);
                }
                map.insert(sw.signer, sw.weight);
                proof {
                    assert(ws@.take(i + 1) =~= ws@.take(i as int).push(sw));
                }
                i = i + 1;
            }
            proof {
                assert(ws@.take(ws@.len() as int) =~= ws@);
            }
        },
    }
    let ghost base = map@;
    let mut j: usize = 0;
    while j < signers.len()
        invariant
            j <= signers@.len(),
            map@ == with_default_weights(base, signers@.take(j as int)),
        decreases signers@.len() - j,
    {
        let s = signers[j];
        proof {
            assert(signers@.take(j + 1) =~= signers@.take(j as int).push(s));
        }
        if !map.contains_key(&s) {
            map.insert(s, 1u32);
        }
        proof {
            let t0 = signers@.take(j as int);
            let t1 = signers@.take(j + 1);
            assert forall|k: AccountId| t1.contains(k) <==> (t0.contains(k) || k == s) by {
                if t1.contains(k) {
                    let idx = choose|idx: int| 0 <= idx < t1.len() && t1[idx] == k;
                    if idx < t0.len() {
                        assert(t0[idx] == k);
                    }
                }
                if t0.contains(k) {
                    let idx = choose|idx: int| 0 <= idx < t0.len() && t0[idx] == k;
                    assert(t1[idx] == k);
                }
                if k == s {
                    assert(t1[j as int] == k);
                }
            }
            assert(map@ =~= with_default_weights(base, t1));
        }
        j = j + 1;
    }
    proof {
        assert(signers@.take(signers@.len() as int) =~= signers@);
        if weights is None {
            assert(base =~= Map::<AccountId, u32>::empty());
        }
    }
    Ok(map)
}

impl<C> MultisigContract<C> {
    /// A wallet with empty storage.
    pub fn new() -> (c: Self)
        ensures
            !c@.initialized,
            c@.signers == Seq::<AccountId>::empty(),
            c@.weights == Map::<AccountId, u32>::empty(),
            c@.transactions == Map::<u64, Transaction<C>>::empty(),
            c@.next_transaction_id == 0,
            c@.threshold == 0,
            c@.wf(),
    {
        MultisigContract {
            initialized: false,
            signers: Vec::new(),
            weights: HashMap::new(),
            threshold: 0,
            next_transaction_id: 0,
            transactions: HashMap::new(),
        }
    }

    /// Initializes the wallet with its signers, an accumulated-weight
    /// threshold and optional per-signer weights (unlisted signers weigh 1).
    /// Every signer authorizes the call.
    pub fn initialize(
        &mut self,
        signers: Vec<AccountId>,
        threshold: u32,
        weights: Option<Vec<SignerWeight>>,
    ) -> (r: Result<(), MultisigError>)
        requires
            old(self)@.wf(),
        ensures
            final(self)@.wf(),
            r == (if old(self)@.initialized {
                Err(MultisigError::AlreadyInitialized)
            } else if !(signers@.len() > 0 && no_duplicates(signers@)) {
                Err(MultisigError::InvalidSigners)
            } else if has_zero_weight(weights_view(weights)) {
                Err(MultisigError::InvalidWeight)
            } else if !(threshold != 0 && threshold <= total_weight_of(
                signers@,
                initial_weights(signers@, weights_view(weights)),
            )) {
                Err(MultisigError::InvalidThreshold)
            } else {
                Ok(())
            }),
            r is Err ==> final(self)@ == old(self)@,
            r is Ok ==> final(self)@ == (MultisigModel {
                initialized: true,
                signers: signers@,
                weights: initial_weights(signers@, weights_view(weights)),
                threshold,
                next_transaction_id: 0,
                ..old(self)@
            }),
    {
        if self.initialized {
            return Err(MultisigError::AlreadyInitialized);
        }
        validate_unique_signers(&signers)?;
        let map = build_weights_map(&signers, weights)?;
        let tw = total_weight(&signers, &map);
        validate_threshold(threshold, tw)?;
        proof {
            assert forall|k: AccountId| #[trigger] map@.contains_key(k) implies map@[k] >= 1 by {
                let ws = weights_view(weights);
                if ws is Some {
                    let w = ws.unwrap();
                    lemma_explicit_weights_positive(w, w.len());
                }
            }
        }
        self.initialized = true;
        self.signers = signers;
        self.weights = map;
        self.threshold = threshold;
        self.next_transaction_id = 0;
        Ok(())
    }

    /// Checks signer-management approvals: a non-empty list of distinct
    /// current signers (each authorizing the call) whose weights reach the
    /// threshold.
    fn require_threshold_approvals(&self, approvals: &Vec<AccountId>) -> (r: Result<
        (),
        MultisigError,
    >)
        requires
            self@.initialized,
        ensures
            r == (match self@.approvals_error(approvals@) {
                Some(e) => Err(e),
                None => Ok(()),
            }),
    {
        validate_unique_signers(approvals)?;
        let mut accumulated: u32 = 0;
        let mut i: usize = 0;
        while i < approvals.len()
            invariant
                i <= approvals@.len(),
                approvals@.len() > 0 && no_duplicates(approvals@),
                accumulated == weight_sum(approvals@, self@.weights, i as nat),
                forall|k: int| 0 <= k < i ==> self@.signers.contains(#[trigger] approvals@[k]),
            decreases approvals@.len() - i,
        {
            let approver = approvals[i];
            if !contains_account(&self.signers, approver) {
                proof {
                    assert(!self@.all_signers(approvals@));
                }
                return Err(MultisigError::NotSigner);
            }
            let w = lookup_weight(&self.weights, approver);
            accumulated = accumulated.saturating_add(w);
            i = i + 1;
        }
        if accumulated < self.threshold {
            return Err(MultisigError::InsufficientApprovals);
        }
        Ok(())
    }

    /// Adds `signer` with weight 1 and sets a new threshold, given approvals
    /// worth the current threshold.
    pub fn add_signer(&mut self, approvals: Vec<AccountId>, signer: AccountId, new_threshold: u32) -> (r: Result<
        (),
        MultisigError,
    >)
        requires
            old(self)@.wf(),
        ensures
            final(self)@.wf(),
            r == (if !old(self)@.initialized {
                Err(MultisigError::NotInitialized)
            } else if old(self)@.approvals_error(approvals@) is Some {
                Err(old(self)@.approvals_error(approvals@).unwrap())
            } else if old(self)@.signers.contains(signer) {
                Err(MultisigError::InvalidSigners)
            } else if !(new_threshold != 0 && new_threshold <= total_weight_of(
                old(self)@.signers.push(signer),
                old(self)@.weights.insert(signer, 1),
            )) {
                Err(MultisigError::InvalidThreshold)
            } else {
                Ok(())
            }),
            r is Err ==> final(self)@ == old(self)@,
            r is Ok ==> final(self)@ == (MultisigModel {
                signers: old(self)@.signers.push(signer),
                weights: old(self)@.weights.insert(signer, 1),
                threshold: new_threshold,
                ..old(self)@
            }),
    {
        if !self.initialized {
            return Err(MultisigError::NotInitialized);
        }
        self.require_threshold_approvals(&approvals)?;
        if contains_account(&self.signers, signer) {
            return Err(MultisigError::InvalidSigners);
        }
        let mut signers = self.signers.clone();
        signers.push(signer);
        proof {
            assert(signers@ =~= old(self)@.signers.push(signer));
        }
        let mut weights = self.weights.clone();
        weights.insert(signer, 1u32);
        let tw = total_weight(&signers, &weights);
        validate_threshold(new_threshold, tw)?;
        proof {
            lemma_push_keeps_unique(old(self)@.signers, signer);
        }
        self.signers = signers;
        self.weights = weights;
        self.threshold = new_threshold;
        Ok(())
    }

    /// Removes `signer` and sets a new threshold, given approvals worth the
    /// current threshold.
    pub fn remove_signer(
        &mut self,
        approvals: Vec<AccountId>,
        signer: AccountId,
        new_threshold: u32,
    ) -> (r: Result<(), MultisigError>)
        requires
            old(self)@.wf(),
        ensures
            final(self)@.wf(),
            r == (if !old(self)@.initialized {
                Err(MultisigError::NotInitialized)
            } else if old(self)@.approvals_error(approvals@) is Some {
                Err(old(self)@.approvals_error(approvals@).unwrap())
            } else if !old(self)@.signers.contains(signer) {
                Err(MultisigError::NotSigner)
            } else if !(without(old(self)@.signers, signer).len() > 0 && no_duplicates(
                without(old(self)@.signers, signer),
            )) {
                Err(MultisigError::InvalidSigners)
            } else if !(new_threshold != 0 && new_threshold <= total_weight_of(
                without(old(self)@.signers, signer),
                old(self)@.weights.remove(signer),
            )) {
                Err(MultisigError::InvalidThreshold)
            } else {
                Ok(())
            }),
            r is Err ==> final(self)@ == old(self)@,
            r is Ok ==> final(self)@ == (MultisigModel {
                signers: without(old(self)@.signers, signer),
                weights: old(self)@.weights.remove(signer),
                threshold: new_threshold,
                ..old(self)@
            }),
    {
        if !self.initialized {
            return Err(MultisigError::NotInitialized);
        }
        self.require_threshold_approvals(&approvals)?;
        if !contains_account(&self.signers, signer) {
            return Err(MultisigError::NotSigner);
        }
        let ghost pred = differs_from(signer);
        let mut remaining: Vec<AccountId> = Vec::new();
        let mut i: usize = 0;
        while i < self.signers.len()
            invariant
                i <= self.signers@.len(),
                pred == differs_from(signer),
                remaining@ == self.signers@.take(i as int).filter(pred),
            decreases self.signers@.len() - i,
        {
            let existing = self.signers[i];
            proof {
                assert(self.signers@.take(i + 1) =~= self.signers@.take(i as int).push(existing));
                self.signers@.take(i as int).lemma_filter_push(existing, pred);
            }
            if existing != signer {
                remaining.push(existing);
            }
            i = i + 1;
        }
        proof {
            assert(self.signers@.take(self.signers@.len() as int) =~= self.signers@);
        }
        validate_unique_signers(&remaining)?;
        let mut weights = self.weights.clone();
        weights.remove(&signer);
        let tw = total_weight(&remaining, &weights);
        validate_threshold(new_threshold, tw)?;
        proof {
            assert forall|k: AccountId| #[trigger] weights@.contains_key(k) implies weights@[k]
                >= 1 by {
                assert(old(self)@.weights.contains_key(k));
            }
        }
        self.signers = remaining;
        self.weights = weights;
        self.threshold = new_threshold;
        Ok(())
    }

    /// Whether `who` is a current signer.
    pub fn is_signer(&self, who: AccountId) -> (b: bool)
        ensures
            b == self@.signers.contains(who),
    {
        contains_account(&self.signers, who)
    }

    /// Checks that the wallet is initialized and `who` is a signer.
    fn require_signer(&self, who: AccountId) -> (r: Result<(), MultisigError>)
        ensures
            r == (if !self@.initialized {
                Err(MultisigError::NotInitialized)
            } else if !self@.signers.contains(who) {
                Err(MultisigError::NotSigner)
            } else {
                Ok(())
            }),
    {
        if !self.initialized {
            return Err(MultisigError::NotInitialized);
        }
        if !contains_account(&self.signers, who) {
            return Err(MultisigError::NotSigner);
        }
        Ok(())
    }

    /// A signer proposes calling `target` with `call`, expiring
    /// `expiry_ledgers` after the current ledger `ledger` (saturating). The
    /// proposer signs it implicitly and authorizes the call. Returns the
    /// transaction id.
    pub fn propose_transaction(
        &mut self,
        proposer: AccountId,
        target: AccountId,
        call: C,
        expiry_ledgers: u32,
        ledger: u32,
    ) -> (r: Result<u64, MultisigError>)
        requires
            old(self)@.wf(),
            old(self)@.initialized && old(self)@.signers.contains(proposer) ==> old(
                self,
            )@.next_transaction_id < u64::MAX,
        ensures
            final(self)@.wf(),
            !old(self)@.initialized ==> r == Err::<u64, _>(MultisigError::NotInitialized),
            old(self)@.initialized && !old(self)@.signers.contains(proposer) ==> r == Err::<
                u64,
                _,
            >(MultisigError::NotSigner),
            r is Err ==> final(self)@ == old(self)@,
            old(self)@.initialized && old(self)@.signers.contains(proposer) ==> {
                let id = old(self)@.next_transaction_id;
                let tx = final(self)@.transactions[id];
                &&& r == Ok::<u64, MultisigError>(id)
                &&& final(self)@.next_transaction_id == id + 1
                &&& final(self)@.transactions.contains_key(id)
                &&& final(self)@.transactions.remove(id) == old(self)@.transactions
                &&& tx.id == id
                &&& tx.proposer == proposer
                &&& tx.target == target
                &&& tx.call == call
                &&& tx.signatures@ == seq![proposer]
                &&& tx.accumulated_weight == weight_of(old(self)@.weights, proposer)
                &&& !tx.executed
                &&& tx.expiry_ledger == sat_u32(ledger + expiry_ledgers)
                &&& final(self)@.signers == old(self)@.signers
                &&& final(self)@.weights == old(self)@.weights
                &&& final(self)@.threshold == old(self)@.threshold
                &&& final(self)@.initialized == old(self)@.initialized
            },
    {
        self.require_signer(proposer)?;
        let id = self.next_transaction_id;
        let weight = lookup_weight(&self.weights, proposer);
        let mut signatures: Vec<AccountId> = Vec::new();
        signatures.push(proposer);
        let tx = Transaction {
            id,
            proposer,
            target,
            call,
            signatures,
            accumulated_weight: weight,
            executed: false,
            expiry_ledger: ledger.saturating_add(expiry_ledgers),
        };
        proof {
            assert(!old(self)@.transactions.contains_key(id));
        }
        self.transactions.insert(id, tx);
        self.next_transaction_id = id + 1;
        proof {
            assert(self@.transactions.remove(id) =~= old(self)@.transactions);
            assert(no_duplicates(self@.transactions[id].signatures@));
            assert forall|k: u64| #[trigger] self@.transactions.contains_key(k) implies {
                &&& self@.transactions[k].id == k
                &&& k < self@.next_transaction_id
                &&& no_duplicates(self@.transactions[k].signatures@)
            } by {
                if k != id {
                    assert(old(self)@.transactions.contains_key(k));
                }
            }
        }
        Ok(id)
    }

    /// A signer signs transaction `tx_id` at ledger `ledger`, authorizing
    /// the call. Returns the new number of signatures.
    pub fn sign_transaction(&mut self, signer: AccountId, tx_id: u64, ledger: u32) -> (r: Result<
        usize,
        MultisigError,
    >)
        requires
            old(self)@.wf(),
        ensures
            final(self)@.wf(),
            r == (if !old(self)@.initialized {
                Err(MultisigError::NotInitialized)
            } else if !old(self)@.signers.contains(signer) {
                Err(MultisigError::NotSigner)
            } else if !old(self)@.transactions.contains_key(tx_id) {
                Err(MultisigError::TransactionNotFound)
            } else if old(self)@.transactions[tx_id].executed {
                Err(MultisigError::AlreadyExecuted)
            } else if ledger > old(self)@.transactions[tx_id].expiry_ledger {
                Err(MultisigError::ProposalExpired)
            } else if old(self)@.transactions[tx_id].signatures@.contains(signer) {
                Err(MultisigError::AlreadySigned)
            } else {
                Ok((old(self)@.transactions[tx_id].signatures@.len() + 1) as usize)
            }),
            r is Err ==> final(self)@ == old(self)@,
            r is Ok ==> {
                let before = old(self)@.transactions[tx_id];
                let after = final(self)@.transactions[tx_id];
                &&& final(self)@.transactions.contains_key(tx_id)
                &&& final(self)@.transactions.remove(tx_id) == old(self)@.transactions.remove(
                    tx_id,
                )
                &&& after.signatures@ == before.signatures@.push(signer)
                &&& after.accumulated_weight == sat_u32(
                    before.accumulated_weight + weight_of(old(self)@.weights, signer),
                )
                &&& after == (Transaction {
                    signatures: after.signatures,
                    accumulated_weight: after.accumulated_weight,
                    ..before
                })
                &&& final(self)@.signers == old(self)@.signers
                &&& final(self)@.weights == old(self)@.weights
                &&& final(self)@.threshold == old(self)@.threshold
                &&& final(self)@.initialized == old(self)@.initialized
                &&& final(self)@.next_transaction_id == old(self)@.next_transaction_id
            },
    {
        self.require_signer(signer)?;
        let weight = lookup_weight(&self.weights, signer);
        match self.transactions.remove(&tx_id) {
            None => {
                proof {
                    assert(self@.transactions =~= old(self)@.transactions);
                }
                Err(MultisigError::TransactionNotFound)
            },
            Some(mut tx) => {
                if tx.executed {
                    self.transactions.insert(tx_id, tx);
                    proof {
                        assert(self@.transactions =~= old(self)@.transactions);
                    }
                    return Err(MultisigError::AlreadyExecuted);
                }
                if ledger > tx.expiry_ledger {
                    self.transactions.insert(tx_id, tx);
                    proof {
                        assert(self@.transactions =~= old(self)@.transactions);
                    }
                    return Err(MultisigError::ProposalExpired);
                }
                if contains_account(&tx.signatures, signer) {
                    self.transactions.insert(tx_id, tx);
                    proof {
                        assert(self@.transactions =~= old(self)@.transactions);
                    }
                    return Err(MultisigError::AlreadySigned);
                }
                proof {
                    assert(old(self)@.transactions.contains_key(tx_id));
                    assert(tx == old(self)@.transactions[tx_id]);
                    lemma_push_keeps_unique(tx.signatures@, signer);
                }
                tx.signatures.push(signer);
                tx.accumulated_weight = tx.accumulated_weight.saturating_add(weight);
                let count = tx.signatures.len();
                self.transactions.insert(tx_id, tx);
                proof {
                    assert(self@.transactions.remove(tx_id) =~= old(self)@.transactions.remove(
                        tx_id,
                    ));
                    assert forall|k: u64| #[trigger] self@.transactions.contains_key(k) implies {
                        &&& self@.transactions[k].id == k
                        &&& k < self@.next_transaction_id
                        &&& no_duplicates(self@.transactions[k].signatures@)
                    } by {
                        assert(old(self)@.transactions.contains_key(k));
                    }
                }
                Ok(count)
            },
        }
    }

    /// Marks transaction `tx_id` executed at ledger `ledger` once its
    /// accumulated weight reaches the threshold. The caller then makes the
    /// transaction's call on its target.
    pub fn execute_transaction(&mut self, tx_id: u64, ledger: u32) -> (r: Result<(), MultisigError>)
        requires
            old(self)@.wf(),
        ensures
            final(self)@.wf(),
            r is Ok <==> old(self)@.executable(tx_id, ledger),
            r is Err ==> r == Err::<(), _>(old(self)@.execute_error(tx_id, ledger)),
            r is Err ==> final(self)@ == old(self)@,
            r is Ok ==> final(self)@ == old(self)@.mark_executed(tx_id),
    {
        match self.transactions.remove(&tx_id) {
            None => {
                proof {
                    assert(self@.transactions =~= old(self)@.transactions);
                }
                Err(MultisigError::TransactionNotFound)
            },
            Some(tx) => {
                if tx.executed || ledger > tx.expiry_ledger || !self.initialized
                    || tx.accumulated_weight < self.threshold {
                    let e = if tx.executed {
                        MultisigError::AlreadyExecuted
                    } else if ledger > tx.expiry_ledger {
                        MultisigError::ProposalExpired
                    } else if !self.initialized {
                        MultisigError::NotInitialized
                    } else {
                        MultisigError::ThresholdNotMet
                    };
                    self.transactions.insert(tx_id, tx);
                    proof {
                        assert(self@.transactions =~= old(self)@.transactions);
                    }
                    return Err(e);
                }
                let done = Transaction { executed: true, ..tx };
                self.transactions.insert(tx_id, done);
                proof {
                    assert(self@.transactions =~= old(self)@.mark_executed(tx_id).transactions);
                    assert forall|k: u64| #[trigger] self@.transactions.contains_key(k) implies {
                        &&& self@.transactions[k].id == k
                        &&& k < self@.next_transaction_id
                        &&& no_duplicates(self@.transactions[k].signatures@)
                    } by {
                        assert(old(self)@.transactions.contains_key(k));
                    }
                }
                Ok(())
            },
        }
    }

    /// Attempts to execute each of `proposal_ids` in turn at ledger
    /// `ledger`; a failure skips that id without aborting the others.
    /// Returns the executed ids and the number skipped.
    pub fn execute_batch(&mut self, proposal_ids: &Vec<u64>, ledger: u32) -> (r: (Vec<u64>, usize))
        requires
            old(self)@.wf(),
        ensures
            final(self)@.wf(),
            final(self)@ == old(self)@.batch_run(proposal_ids@, ledger, proposal_ids@.len()).0,
            r.0@ == old(self)@.batch_run(proposal_ids@, ledger, proposal_ids@.len()).1,
            r.1 + r.0@.len() == proposal_ids@.len(),
    {
        let mut executed: Vec<u64> = Vec::new();
        let mut skipped: usize = 0;
        let mut i: usize = 0;
        while i < proposal_ids.len()
            invariant
                i <= proposal_ids@.len(),
                self@.wf(),
                self@ == old(self)@.batch_run(proposal_ids@, ledger, i as nat).0,
                executed@ == old(self)@.batch_run(proposal_ids@, ledger, i as nat).1,
                skipped + executed@.len() == i,
            decreases proposal_ids@.len() - i,
        {
            let id = proposal_ids[i];
            match self.execute_transaction(id, ledger) {
                Ok(()) => {
                    executed.push(id);
                },
                Err(_) => {
                    skipped = skipped + 1;
                },
            }
            i = i + 1;
        }
        (executed, skipped)
    }

    /// Removes transaction `tx_id` once it has expired unexecuted at ledger
    /// `ledger`. Anyone may call this.
    pub fn cleanup_expired(&mut self, tx_id: u64, ledger: u32) -> (r: Result<(), MultisigError>)
        requires
            old(self)@.wf(),
        ensures
            final(self)@.wf(),
            r == (if !old(self)@.transactions.contains_key(tx_id) {
                Err(MultisigError::TransactionNotFound)
            } else if old(self)@.transactions[tx_id].executed {
                Err(MultisigError::AlreadyExecuted)
            } else if ledger <= old(self)@.transactions[tx_id].expiry_ledger {
                Err(MultisigError::ProposalNotExpired)
            } else {
                Ok(())
            }),
            r is Err ==> final(self)@ == old(self)@,
            r is Ok ==> final(self)@ == (MultisigModel {
                transactions: old(self)@.transactions.remove(tx_id),
                ..old(self)@
            }),
    {
        match self.transactions.remove(&tx_id) {
            None => {
                proof {
                    assert(self@.transactions =~= old(self)@.transactions);
                }
                Err(MultisigError::TransactionNotFound)
            },
            Some(tx) => {
                if tx.executed || ledger <= tx.expiry_ledger {
                    let e = if tx.executed {
                        MultisigError::AlreadyExecuted
                    } else {
                        MultisigError::ProposalNotExpired
                    };
                    self.transactions.insert(tx_id, tx);
                    proof {
                        assert(self@.transactions =~= old(self)@.transactions);
                    }
                    return Err(e);
                }
                proof {
                    assert forall|k: u64| #[trigger] self@.transactions.contains_key(k) implies {
                        &&& self@.transactions[k].id == k
                        &&& k < self@.next_transaction_id
                        &&& no_duplicates(self@.transactions[k].signatures@)
                    } by {
                        assert(old(self)@.transactions.contains_key(k));
                    }
                    if !self@.initialized {
                        assert(self@.transactions =~= Map::<u64, Transaction<C>>::empty());
                    }
                }
                Ok(())
            },
        }
    }

    /// The current signers.
    pub fn get_signers(&self) -> (s: &Vec<AccountId>)
        ensures
            s@ == self@.signers,
    {
        &self.signers
    }

    /// The threshold, once initialized.
    pub fn get_threshold(&self) -> (t: Option<u32>)
        ensures
            t == (if self@.initialized {
                Some(self@.threshold)
            } else {
                None
            }),
    {
        if self.initialized {
            Some(self.threshold)
        } else {
            None
        }
    }

    /// The weight of `signer` (1 without an explicit entry).
    pub fn get_signer_weight(&self, signer: AccountId) -> (w: u32)
        ensures
            w == weight_of(self@.weights, signer),
    {
        lookup_weight(&self.weights, signer)
    }

    /// Transaction `tx_id`, if stored.
    pub fn get_transaction(&self, tx_id: u64) -> (t: Option<&Transaction<C>>)
        ensures
            t is None <==> !self@.transactions.contains_key(tx_id),
            t is Some ==> *t.unwrap() == self@.transactions[tx_id],
    {
        self.transactions.get(&tx_id)
    }

    /// Number of signatures on transaction `tx_id`, if stored.
    pub fn signature_count(&self, tx_id: u64) -> (n: Option<usize>)
        ensures
            n is None <==> !self@.transactions.contains_key(tx_id),
            n is Some ==> n.unwrap() == self@.transactions[tx_id].signatures@.len(),
    {
        match self.transactions.get(&tx_id) {
            Some(tx) => Some(tx.signatures.len()),
            None => None,
        }
    }

    /// The contract version: 1 once initialized, 0 before.
    pub fn contract_version(&self) -> (v: u32)
        ensures
            v == (if self@.initialized {
                1u32
            } else {
                0u32
            }),
    {
        if self.initialized {
            1
        } else {
            0
        }
    }
}

/// A transaction executes at most once: once marked executed, a further
/// attempt is rejected with `AlreadyExecuted`.
pub proof fn law_execute_at_most_once<C>(m: MultisigModel<C>, id: u64, ledger: u32, later: u32)
    requires
        m.executable(id, ledger),
    ensures
        !m.mark_executed(id).executable(id, later),
        m.mark_executed(id).execute_error(id, later) == MultisigError::AlreadyExecuted,
{
}

/// A transaction that has not gathered the threshold's weight is never
/// executed, whatever the ledger.
pub proof fn law_no_execution_below_threshold<C>(m: MultisigModel<C>, id: u64, ledger: u32)
    requires
        m.transactions.contains_key(id),
        m.transactions[id].accumulated_weight < m.threshold,
    ensures
        !m.executable(id, ledger),
{
}

} // verus!
