//! Price oracle: an admin pushes prices that consumers read subject to a
//! staleness bound; authorized publishers submit prices whose median is
//! reported; every price is recorded in a bounded history used for a
//! time-weighted average.

use std::collections::HashMap;
use vstd::prelude::*;
use vstd::std_specs::hash::obeys_key_model;

use crate::common::{div_trunc, fits_i128, sat_add_i128, sat_i128, sat_mul_i128, AccountId};

verus! {

broadcast use vstd::std_specs::hash::group_hash_axioms;

/// Errors returned by the oracle contract entry points.
#[derive(Clone, Copy, Debug, PartialEq, Eq, Structural)]
pub enum OracleError {
    /// `initialize` was called on an already-initialized contract.
    AlreadyInitialized,
    /// An entry point was called before `initialize`, or no price was pushed yet.
    NotInitialized,
    /// The caller is not the configured admin or an authorized publisher.
    Unauthorized,
    /// The stored price is older than the staleness threshold.
    StalePrice,
    /// The provided staleness threshold is zero.
    InvalidStalenessThreshold,
    /// No authorized publisher has a fresh submission.
    NoPublisherData,
    /// No price observations fall within the requested TWAP window.
    InsufficientHistory,
}

impl OracleError {
    /// The numeric code of this error in the contract interface.
    pub open spec fn spec_code(self) -> u32 {
        match self {
            OracleError::AlreadyInitialized => 1,
            OracleError::NotInitialized => 2,
            OracleError::Unauthorized => 3,
            OracleError::StalePrice => 4,
            OracleError::InvalidStalenessThreshold => 5,
            OracleError::NoPublisherData => 6,
            OracleError::InsufficientHistory => 7,
        }
    }

    /// Returns the numeric code of this error.
    pub fn code(&self) -> (c: u32)
        ensures
            c == self.spec_code(),
    {
        match self {
            OracleError::AlreadyInitialized => 1,
            OracleError::NotInitialized => 2,
            OracleError::Unauthorized => 3,
            OracleError::StalePrice => 4,
            OracleError::InvalidStalenessThreshold => 5,
            OracleError::NoPublisherData => 6,
            OracleError::InsufficientHistory => 7,
        }
    }
}

/// Maximum number of price observations retained for the TWAP.
pub const MAX_HISTORY: usize = 30;

/// A single publisher's latest price submission.
#[derive(Clone, Copy, Debug, PartialEq, Eq, Structural)]
pub struct PublisherSubmission {
    /// The submitted price.
    pub price: i128,
    /// The unix timestamp at which the price was submitted.
    pub timestamp: u64,
}

/// A single historical price observation, used to compute a TWAP.
#[derive(Clone, Copy, Debug, PartialEq, Eq, Structural)]
pub struct PriceObservation {
    /// The recorded price.
    pub price: i128,
    /// The unix timestamp at which the price was recorded.
    pub timestamp: u64,
}

/// Snapshot of the oracle state returned by [`OracleContract::get_price_data`].
#[derive(Clone, Copy, Debug, PartialEq, Eq, Structural)]
pub struct PriceData {
    /// The published price.
    pub price: i128,
    /// The ledger sequence at which `price` was set.
    pub updated_at: u32,
    /// The admin account that publishes prices.
    pub admin: AccountId,
    /// The configured staleness threshold, in ledgers.
    pub staleness_threshold: u32,
}

/// State of the oracle contract.
pub struct OracleContract {
    /// The admin, once initialized.
    pub admin: Option<AccountId>,
    /// Maximum age of the admin price, in ledgers.
    pub staleness_threshold: u32,
    /// The most recent admin price, with the ledger sequence and unix
    /// timestamp at which it was pushed.
    pub latest: Option<(i128, u32, u64)>,
    /// Authorized publishers, once configured.
    pub publishers: Option<Vec<AccountId>>,
    /// Latest submission of each publisher.
    pub submissions: HashMap<AccountId, PublisherSubmission>,
    /// The most recent observations, oldest first.
    pub history: Vec<PriceObservation>,
}

/// Abstract state of the oracle.
pub struct OracleModel {
    pub admin: Option<AccountId>,
    pub staleness_threshold: u32,
    pub latest: Option<(i128, u32, u64)>,
    pub publishers: Option<Seq<AccountId>>,
    pub submissions: Map<AccountId, PublisherSubmission>,
    pub history: Seq<PriceObservation>,
}

impl View for OracleContract {
    type V = OracleModel;

    open spec fn view(&self) -> OracleModel {
        OracleModel {
            admin: self.admin,
            staleness_threshold: self.staleness_threshold,
            latest: self.latest,
            publishers: match self.publishers {
                Some(p) => Some(p@),
                None => None,
            },
            submissions: self.submissions@,
            history: self.history@,
        }
    }
}

// ---------------------------------------------------------------------------
// Order statistics
// ---------------------------------------------------------------------------

/// `s` is in ascending order.
pub open spec fn sorted(s: Seq<i128>) -> bool {
    forall|a: int, b: int| 0 <= a < b < s.len() ==> s[a] <= s[b]
}

/// The median of an ascending, non-empty sequence: the middle element, or
/// the mean of the two middle elements (sum saturating, rounded toward zero).
pub open spec fn median_of_sorted(s: Seq<i128>) -> int {
    let mid: int = (s.len() / 2) as int;
    if s.len() % 2 == 0 {
        div_trunc(sat_i128(s[mid - 1] + s[mid]), 2)
    } else {
        s[mid] as int
    }
}

/// `m` is the median of the values in `s`: it is the median of an ascending
/// rearrangement of `s`.
pub open spec fn is_median_of(m: int, s: Seq<i128>) -> bool {
    exists|t: Seq<i128>|
        #![trigger median_of_sorted(t)]
        sorted(t) && t.to_multiset() == s.to_multiset() && m == median_of_sorted(t)
}

proof fn lemma_swap_multiset(s: Seq<i128>, i: int, j: int)
    requires
        0 <= i < s.len(),
        0 <= j < s.len(),
    ensures
        s.update(i, s[j]).update(j, s[i]).to_multiset() == s.to_multiset(),
{
    broadcast use vstd::seq_lib::to_multiset_update;
    broadcast use vstd::multiset::group_multiset_axioms;

    if i != j {
        let m = s.to_multiset();
        let s1 = s.update(i, s[j]);
        assert(s1[j] == s[j]);
        assert(s1.to_multiset() == m.insert(s[j]).remove(s[i]));
        assert(s1.update(j, s[i]).to_multiset() == s1.to_multiset().insert(s[i]).remove(s[j]));
        assert(m.count(s[i]) > 0) by {
            assert(s.contains(s[i]));
            vstd::seq_lib::to_multiset_contains(s, s[i]);
        }
        assert(m.count(s[j]) > 0) by {
            assert(s.contains(s[j]));
            vstd::seq_lib::to_multiset_contains(s, s[j]);
        }
        assert(m.insert(s[j]).remove(s[i]).insert(s[i]).remove(s[j]) =~= m);
    } else {
        assert(s.update(i, s[j]).update(j, s[i]) =~= s);
    }
}

/// Sorts `v` in ascending order (insertion sort by adjacent swaps).
pub fn sort_ascending(v: &mut Vec<i128>)
    ensures
        sorted(final(v)@),
        final(v)@.to_multiset() == old(v)@.to_multiset(),
        final(v)@.len() == old(v)@.len(),
{
    let len = v.len();
    if len < 2 {
        return;
    }
    let mut i: usize = 1;
    while i < len
        invariant
            1 <= i <= len,
            len == v@.len(),
            v@.to_multiset() == old(v)@.to_multiset(),
            forall|a: int, b: int| 0 <= a < b < i ==> v@[a] <= v@[b],
        decreases len - i,
    {
        let mut j: usize = i;
        while j > 0 && v[j - 1] > v[j]
            invariant
                0 <= j <= i < len,
                len == v@.len(),
                v@.to_multiset() == old(v)@.to_multiset(),
                forall|a: int, b: int|
                    0 <= a < b <= i && a != j && b != j ==> v@[a] <= v@[b],
                forall|k: int| j < k <= i ==> v@[j as int] < v@[k],
            decreases j,
        {
            proof {
                lemma_swap_multiset(v@, j as int - 1, j as int);
            }
            let x = v[j - 1];
            let y = v[j];
            v[j - 1] = y;
            v[j] = x;
            j = j - 1;
        }
        i = i + 1;
    }
}

/// Computes the median of `values`, sorting them in place.
pub fn median(values: &mut Vec<i128>) -> (m: i128)
    requires
        old(values)@.len() > 0,
    ensures
        sorted(final(values)@),
        final(values)@.to_multiset() == old(values)@.to_multiset(),
        final(values)@.len() == old(values)@.len(),
        m == median_of_sorted(final(values)@),
{
    sort_ascending(values);
    let len = values.len();
    let mid = len / 2;
    if len % 2 == 0 {
        let s = sat_add_i128(values[mid - 1], values[mid]);
        s / 2
    } else {
        values[mid]
    }
}

// ---------------------------------------------------------------------------
// Time-weighted average
// ---------------------------------------------------------------------------

/// How long observation `i` held: until the next observation, or until
/// `now` for the last one (zero if time runs backwards).
pub open spec fn twap_weight(obs: Seq<PriceObservation>, i: int, now: u64) -> int {
    let next: u64 = if i + 1 < obs.len() {
        obs[i + 1].timestamp
    } else {
        now
    };
    if next >= obs[i].timestamp {
        next - obs[i].timestamp
    } else {
        0
    }
}

/// Saturating weighted sum and total weight of the first `n` observations.
pub open spec fn twap_acc(obs: Seq<PriceObservation>, now: u64, n: nat) -> (int, int)
    decreases n,
{
    if n == 0 {
        (0, 0)
    } else {
        let prev = twap_acc(obs, now, (n - 1) as nat);
        let w = twap_weight(obs, n - 1, now);
        (sat_i128(prev.0 + sat_i128(obs[n - 1].price * w)), sat_i128(prev.1 + w))
    }
}

/// The time-weighted average price of a non-empty, oldest-first sequence of
/// observations.
pub open spec fn twap_value(obs: Seq<PriceObservation>, now: u64) -> int {
    if obs.len() == 1 {
        obs[0].price as int
    } else {
        let acc = twap_acc(obs, now, obs.len());
        if acc.1 == 0 {
            obs[obs.len() - 1].price as int
        } else {
            div_trunc(acc.0, acc.1)
        }
    }
}

proof fn lemma_twap_acc_bounds(obs: Seq<PriceObservation>, now: u64, n: nat)
    requires
        n <= obs.len(),
    ensures
        0 <= twap_acc(obs, now, n).1 <= i128::MAX,
        i128::MIN <= twap_acc(obs, now, n).0 <= i128::MAX,
    decreases n,
{
    if n > 0 {
        lemma_twap_acc_bounds(obs, now, (n - 1) as nat);
    }
}

/// Computes the time-weighted average of `observations` at time `now`.
pub fn twap(observations: &Vec<PriceObservation>, now: u64) -> (r: i128)
    requires
        observations@.len() > 0,
    ensures
        r == twap_value(observations@, now),
{
    let len = observations.len();
    if len == 1 {
        return observations[0].price;
    }
    let mut weighted_sum: i128 = 0;
    let mut total_weight: i128 = 0;
    let mut i: usize = 0;
    while i < len
        invariant
            i <= len,
            len == observations@.len(),
            len > 1,
            (weighted_sum as int, total_weight as int) == twap_acc(observations@, now, i as nat),
            total_weight >= 0,
        decreases len - i,
    {
        let obs = observations[i];
        let next_timestamp: u64 = if i + 1 < len {
            observations[i + 1].timestamp
        } else {
            now
        };
        let weight: i128 = next_timestamp.saturating_sub(obs.timestamp) as i128;
        weighted_sum = sat_add_i128(weighted_sum, sat_mul_i128(obs.price, weight));
        total_weight = sat_add_i128(total_weight, weight);
        i = i + 1;
    }
    if total_weight == 0 {
        return observations[len - 1].price;
    }
    proof {
        lemma_twap_acc_bounds(observations@, now, len as nat);
    }
    weighted_sum / total_weight
}

/// `history` after recording `obs`, keeping only the last `MAX_HISTORY`.
pub open spec fn pushed_history(history: Seq<PriceObservation>, obs: PriceObservation) -> Seq<
    PriceObservation,
> {
    let h = history.push(obs);
    if h.len() > MAX_HISTORY {
        h.subrange(h.len() - MAX_HISTORY, h.len() as int)
    } else {
        h
    }
}

// ---------------------------------------------------------------------------
// Publisher medians
// ---------------------------------------------------------------------------

/// Whether a submission made at `timestamp` is at most `max_age` seconds old
/// at time `now`.
pub open spec fn is_fresh(timestamp: u64, now: u64, max_age: u64) -> bool {
    (if now >= timestamp {
        now - timestamp
    } else {
        0
    }) <= max_age
}

/// Prices of the fresh submissions of the first `n` publishers, in
/// publisher order.
pub open spec fn fresh_prices(
    publishers: Seq<AccountId>,
    subs: Map<AccountId, PublisherSubmission>,
    now: u64,
    max_age: u64,
    n: nat,
) -> Seq<i128>
    decreases n,
{
    if n == 0 {
        Seq::empty()
    } else {
        let prev = fresh_prices(publishers, subs, now, max_age, (n - 1) as nat);
        let p = publishers[n - 1];
        if subs.contains_key(p) && is_fresh(subs[p].timestamp, now, max_age) {
            prev.push(subs[p].price)
        } else {
            prev
        }
    }
}

impl OracleModel {
    /// The oracle has been initialized.
    pub open spec fn initialized(self) -> bool {
        self.admin is Some
    }

    /// Invariant: the history is bounded, and a price is only recorded
    /// after initialization.
    pub open spec fn wf(self) -> bool {
        &&& self.history.len() <= MAX_HISTORY
        &&& self.latest is Some ==> self.admin is Some
    }

    /// Result of reading the admin price at ledger `ledger`.
    pub open spec fn price_at(self, ledger: u32) -> Result<i128, OracleError> {
        match self.latest {
            None => Err(OracleError::NotInitialized),
            Some(l) => {
                if !self.initialized() {
                    Err(OracleError::NotInitialized)
                } else if (if ledger >= l.1 { ledger - l.1 } else { 0 }) > self.staleness_threshold {
                    Err(OracleError::StalePrice)
                } else {
                    Ok(l.0)
                }
            },
        }
    }

    /// Fresh publisher prices at time `now`.
    pub open spec fn fresh(self, now: u64, max_age: u64) -> Seq<i128> {
        let p = self.publishers.unwrap();
        fresh_prices(p, self.submissions, now, max_age, p.len())
    }

    /// State after the admin pushes `price` at `ledger` / `timestamp`.
    pub open spec fn after_update(self, price: i128, ledger: u32, timestamp: u64) -> Self {
        OracleModel {
            latest: Some((price, ledger, timestamp)),
            history: pushed_history(self.history, PriceObservation { price, timestamp }),
            ..self
        }
    }
}

impl OracleContract {
    /// A contract with empty storage.
    pub fn new() -> (c: Self)
        ensures
            c@ == (OracleModel {
                admin: None,
                staleness_threshold: 0,
                latest: None,
                publishers: None,
                submissions: Map::empty(),
                history: Seq::empty(),
            }),
            c@.wf(),
    {
        OracleContract {
            admin: None,
            staleness_threshold: 0,
            latest: None,
            publishers: None,
            submissions: HashMap::new(),
            history: Vec::new(),
        }
    }

    /// Initializes the oracle with an admin and a staleness threshold (in
    /// ledgers). The admin authorizes the call.
    pub fn initialize(&mut self, admin: AccountId, staleness_threshold: u32) -> (r: Result<
        (),
        OracleError,
    >)
        requires
            old(self)@.wf(),
        ensures
            final(self)@.wf(),
            old(self)@.initialized() ==> r == Err::<(), _>(OracleError::AlreadyInitialized),
            !old(self)@.initialized() && staleness_threshold == 0 ==> r == Err::<(), _>(
                OracleError::InvalidStalenessThreshold,
            ),
            r is Err ==> final(self)@ == old(self)@,
            !old(self)@.initialized() && staleness_threshold > 0 ==> {
                &&& r is Ok
                &&& final(self)@ == (OracleModel {
                    admin: Some(admin),
                    staleness_threshold,
                    ..old(self)@
                })
            },
    {
        if self.admin.is_some() {
            return Err(OracleError::AlreadyInitialized);
        }
        if staleness_threshold == 0 {
            return Err(OracleError::InvalidStalenessThreshold);
        }
        self.admin = Some(admin);
        self.staleness_threshold = staleness_threshold;
        Ok(())
    }

    /// Records `obs` in the bounded history.
    fn push_history(&mut self, obs: PriceObservation)
        requires
            old(self)@.history.len() <= MAX_HISTORY,
        ensures
            final(self)@ == (OracleModel {
                history: pushed_history(old(self)@.history, obs),
                ..old(self)@
            }),
    {
        self.history.push(obs);
        if self.history.len() > MAX_HISTORY {
            self.history.remove(0);
            proof {
                let h = old(self)@.history.push(obs);
                assert(self.history@ =~= h.subrange(h.len() - MAX_HISTORY, h.len() as int));
            }
        }
        proof {
            assert(self@.publishers == old(self)@.publishers);
        }
    }

    /// The admin pushes a new price at ledger `ledger` and unix time
    /// `timestamp`. The admin authorizes the call.
    pub fn update_price(&mut self, price: i128, ledger: u32, timestamp: u64) -> (r: Result<
        (),
        OracleError,
    >)
        requires
            old(self)@.wf(),
        ensures
            final(self)@.wf(),
            !old(self)@.initialized() ==> r == Err::<(), _>(OracleError::NotInitialized)
                && final(self)@ == old(self)@,
            old(self)@.initialized() ==> r is Ok && final(self)@ == old(self)@.after_update(
                price,
                ledger,
                timestamp,
            ),
    {
        if self.admin.is_none() {
            return Err(OracleError::NotInitialized);
        }
        self.latest = Some((price, ledger, timestamp));
        self.push_history(PriceObservation { price, timestamp });
        Ok(())
    }

    /// Returns the admin price, rejecting it when more than the staleness
    /// threshold of ledgers have passed since it was pushed.
    pub fn get_price(&self, ledger: u32) -> (r: Result<i128, OracleError>)
        ensures
            r == self@.price_at(ledger),
    {
        match self.latest {
            None => Err(OracleError::NotInitialized),
            Some((price, updated_at, _)) => {
                if self.admin.is_none() {
                    return Err(OracleError::NotInitialized);
                }
                let age = ledger.saturating_sub(updated_at);
                if age > self.staleness_threshold {
                    Err(OracleError::StalePrice)
                } else {
                    Ok(price)
                }
            },
        }
    }

    /// Returns the admin price, rejecting it when it is more than `max_age`
    /// seconds old at unix time `now`.
    pub fn get_price_checked(&self, max_age: u64, now: u64) -> (r: Result<i128, OracleError>)
        ensures
            match self@.latest {
                None => r == Err::<i128, _>(OracleError::NotInitialized),
                Some(l) => if is_fresh(l.2, now, max_age) {
                    r == Ok::<i128, OracleError>(l.0)
                } else {
                    r == Err::<i128, _>(OracleError::StalePrice)
                },
            },
    {
        match self.latest {
            None => Err(OracleError::NotInitialized),
            Some((price, _, updated_at_timestamp)) => {
                let age = now.saturating_sub(updated_at_timestamp);
                if age > max_age {
                    Err(OracleError::StalePrice)
                } else {
                    Ok(price)
                }
            },
        }
    }

    /// Returns the raw price data.
    pub fn get_price_data(&self) -> (r: Result<PriceData, OracleError>)
        requires
            self@.wf(),
        ensures
            match self@.latest {
                None => r == Err::<PriceData, _>(OracleError::NotInitialized),
                Some(l) => r == Ok::<PriceData, OracleError>(
                    PriceData {
                        price: l.0,
                        updated_at: l.1,
                        admin: self@.admin.unwrap(),
                        staleness_threshold: self@.staleness_threshold,
                    },
                ),
            },
    {
        match (self.latest, self.admin) {
            (Some((price, updated_at, _)), Some(admin)) => Ok(
                PriceData { price, updated_at, admin, staleness_threshold: self.staleness_threshold },
            ),
            _ => Err(OracleError::NotInitialized),
        }
    }

    /// Replaces the set of authorized publishers. `admin` authorizes the
    /// call and must be the configured admin.
    pub fn set_publishers(&mut self, admin: AccountId, publishers: Vec<AccountId>) -> (r: Result<
        (),
        OracleError,
    >)
        requires
            old(self)@.wf(),
        ensures
            final(self)@.wf(),
            r == (match old(self)@.admin {
                None => Err(OracleError::NotInitialized),
                Some(a) => if a == admin {
                    Ok(())
                } else {
                    Err(OracleError::Unauthorized)
                },
            }),
            r is Ok ==> final(self)@ == (OracleModel {
                publishers: Some(publishers@),
                ..old(self)@
            }),
            r is Err ==> final(self)@ == old(self)@,
    {
        match self.admin {
            None => Err(OracleError::NotInitialized),
            Some(a) => {
                if a != admin {
                    return Err(OracleError::Unauthorized);
                }
                self.publishers = Some(publishers);
                Ok(())
            },
        }
    }

    /// Whether `who` is an authorized publisher.
    pub fn is_publisher(&self, who: AccountId) -> (b: bool)
        ensures
            b == (self@.publishers is Some && self@.publishers.unwrap().contains(who)),
    {
        match &self.publishers {
            None => false,
            Some(list) => {
                assert(self@.publishers.unwrap() == list@);
                let mut i: usize = 0;
                while i < list.len()
                    invariant
                        i <= list@.len(),
                        self@.publishers == Some(list@),
                        forall|k: int| 0 <= k < i ==> list@[k] != who,
                    decreases list@.len() - i,
                {
                    if list[i] == who {
                        assert(list@[i as int] == who);
                        return true;
                    }
                    i = i + 1;
                }
                false
            },
        }
    }

    /// An authorized publisher submits `price` at unix time `timestamp`.
    /// The publisher authorizes the call.
    pub fn submit_price(&mut self, publisher: AccountId, price: i128, timestamp: u64) -> (r: Result<
        (),
        OracleError,
    >)
        requires
            old(self)@.wf(),
        ensures
            final(self)@.wf(),
            r is Ok <==> (old(self)@.publishers is Some && old(self)@.publishers.unwrap().contains(
                publisher,
            )),
            r is Err ==> r == Err::<(), _>(OracleError::Unauthorized) && final(self)@ == old(
                self,
            )@,
            r is Ok ==> final(self)@ == (OracleModel {
                submissions: old(self)@.submissions.insert(
                    publisher,
                    PublisherSubmission { price, timestamp },
                ),
                history: pushed_history(old(self)@.history, PriceObservation { price, timestamp }),
                ..old(self)@
            }),
    {
        if !self.is_publisher(publisher) {
            return Err(OracleError::Unauthorized);
        }
        self.submissions.insert(publisher, PublisherSubmission { price, timestamp });
        self.push_history(PriceObservation { price, timestamp });
        Ok(())
    }

    /// Collects the prices of fresh submissions, in publisher order.
    fn collect_fresh(&self, publishers: &Vec<AccountId>, now: u64, max_age: u64) -> (v: Vec<i128>)
        ensures
            v@ == fresh_prices(publishers@, self@.submissions, now, max_age, publishers@.len()),
    {
        let mut prices: Vec<i128> = Vec::new();
        let mut i: usize = 0;
        while i < publishers.len()
            invariant
                i <= publishers@.len(),
                prices@ == fresh_prices(publishers@, self@.submissions, now, max_age, i as nat),
            decreases publishers@.len() - i,
        {
            let p = publishers[i];
            match self.submissions.get(&p) {
                Some(sub) => {
                    if now.saturating_sub(sub.timestamp) <= max_age {
                        prices.push(sub.price);
                    }
                },
                None => {},
            }
            i = i + 1;
        }
        prices
    }

    /// Returns the median of the latest submission of each authorized
    /// publisher that is at most `max_age` seconds old at unix time `now`.
    pub fn get_median_price(&self, max_age: u64, now: u64) -> (r: Result<i128, OracleError>)
        ensures
            self@.publishers is None ==> r == Err::<i128, _>(OracleError::NotInitialized),
            self@.publishers is Some && self@.fresh(now, max_age).len() == 0 ==> r == Err::<
                i128,
                _,
            >(OracleError::NoPublisherData),
            self@.publishers is Some && self@.fresh(now, max_age).len() > 0 ==> r is Ok
                && is_median_of(r.unwrap() as int, self@.fresh(now, max_age)),
    {
        match &self.publishers {
            None => Err(OracleError::NotInitialized),
            Some(list) => {
                let mut prices = self.collect_fresh(list, now, max_age);
                if prices.len() == 0 {
                    return Err(OracleError::NoPublisherData);
                }
                let ghost before = prices@;
                let m = median(&mut prices);
                proof {
                    assert(sorted(prices@) && prices@.to_multiset() == before.to_multiset()
                        && m == median_of_sorted(prices@));
                }
                Ok(m)
            },
        }
    }

    /// Collects the observations recorded at or after `cutoff`.
    fn observations_since(&self, cutoff: u64) -> (v: Vec<PriceObservation>)
        ensures
            v@ == self@.history.filter(|o: PriceObservation| o.timestamp >= cutoff),
    {
        let ghost pred = |o: PriceObservation| o.timestamp >= cutoff;
        let mut out: Vec<PriceObservation> = Vec::new();
        let mut i: usize = 0;
        while i < self.history.len()
            invariant
                i <= self.history@.len(),
                pred == (|o: PriceObservation| o.timestamp >= cutoff),
                out@ == self.history@.take(i as int).filter(pred),
            decreases self.history@.len() - i,
        {
            let o = self.history[i];
            proof {
                assert(self.history@.take(i + 1) =~= self.history@.take(i as int).push(o));
                self.history@.take(i as int).lemma_filter_push(o, pred);
            }
            if o.timestamp >= cutoff {
                out.push(o);
            }
            i = i + 1;
        }
        proof {
            assert(self.history@.take(self.history@.len() as int) =~= self.history@);
        }
        out
    }

    /// Returns the time-weighted average price over the observations made
    /// within `window` seconds before unix time `now`.
    pub fn get_twap(&self, window: u64, now: u64) -> (r: Result<i128, OracleError>)
        ensures
            ({
                let cutoff: u64 = if now >= window {
                    (now - window) as u64
                } else {
                    0
                };
                let obs = self@.history.filter(|o: PriceObservation| o.timestamp >= cutoff);
                &&& obs.len() == 0 ==> r == Err::<i128, _>(OracleError::InsufficientHistory)
                &&& obs.len() > 0 ==> r == Ok::<i128, OracleError>(twap_value(obs, now) as i128)
            }),
    {
        let cutoff = now.saturating_sub(window);
        let in_window = self.observations_since(cutoff);
        if in_window.len() == 0 {
            return Err(OracleError::InsufficientHistory);
        }
        Ok(twap(&in_window, now))
    }
}

// ---------------------------------------------------------------------------
// Laws
// ---------------------------------------------------------------------------

/// After the admin pushes a price, reading it back yields that price for as
/// long as no more than the staleness threshold of ledgers have passed.
pub proof fn law_price_read_after_update(
    pre: OracleModel,
    price: i128,
    ledger: u32,
    timestamp: u64,
    read_at: u32,
)
    requires
        pre.initialized(),
        ledger <= read_at,
        read_at - ledger <= pre.staleness_threshold,
    ensures
        pre.after_update(price, ledger, timestamp).price_at(read_at) == Ok::<i128, OracleError>(
            price,
        ),
{
}

/// Once more than the staleness threshold of ledgers have passed since the
/// last update, the admin price is rejected as stale.
pub proof fn law_price_stale_after_threshold(
    pre: OracleModel,
    price: i128,
    ledger: u32,
    timestamp: u64,
    read_at: u32,
)
    requires
        pre.initialized(),
        ledger <= read_at,
        read_at - ledger > pre.staleness_threshold,
    ensures
        pre.after_update(price, ledger, timestamp).price_at(read_at) == Err::<i128, OracleError>(
            OracleError::StalePrice,
        ),
{
}

/// The recorded history never holds more than `MAX_HISTORY` observations,
/// and its newest entry is the observation just recorded.
pub proof fn law_history_bounded(history: Seq<PriceObservation>, obs: PriceObservation)
    requires
        history.len() <= MAX_HISTORY,
    ensures
        pushed_history(history, obs).len() <= MAX_HISTORY,
        pushed_history(history, obs).len() > 0,
        pushed_history(history, obs).last() == obs,
{
}

/// The median of an odd number of values is one of the values.
pub proof fn law_median_odd_is_member(m: int, s: Seq<i128>)
    requires
        is_median_of(m, s),
        s.len() % 2 == 1,
    ensures
        exists|k: int| 0 <= k < s.len() && s[k] == m,
{
    broadcast use vstd::seq_lib::to_multiset_contains;
    broadcast use vstd::seq_lib::to_multiset_len;

    let t = choose|t: Seq<i128>|
        #![trigger median_of_sorted(t)]
        sorted(t) && t.to_multiset() == s.to_multiset() && m == median_of_sorted(t);
    vstd::seq_lib::to_multiset_len(t);
    vstd::seq_lib::to_multiset_len(s);
    assert(t.len() == s.len());
    let x = t[(t.len() / 2) as int];
    assert(t.contains(x));
    assert(s.to_multiset().count(x) > 0);
    assert(s.contains(x));
}

/// The median of an ascending sequence lies between its lower and upper
/// middle elements (for an even count, whenever their sum stays in `i128`):
/// every value strictly below it sits in the lower half and every value
/// strictly above it in the upper half, so at most half the values lie on
/// either side of it. For an even count, twice the median is the sum of the
/// two middle elements, short of it by at most the one unit lost rounding
/// toward zero.
pub proof fn law_median_between_middles(t: Seq<i128>)
    requires
        sorted(t),
        t.len() > 0,
        t.len() % 2 == 1 || fits_i128(t[t.len() / 2 - 1] + t[(t.len() / 2) as int]),
    ensures
        t[(t.len() - 1) / 2] <= median_of_sorted(t) <= t[(t.len() / 2) as int],
        forall|i: int| 0 <= i < t.len() && #[trigger] t[i] < median_of_sorted(t) ==> i < t.len() / 2,
        forall|i: int|
            0 <= i < t.len() && #[trigger] t[i] > median_of_sorted(t) ==> i >= t.len() - t.len() / 2,
        t.len() % 2 == 0 ==> {
            let sum = t[t.len() / 2 - 1] + t[(t.len() / 2) as int];
            let twice = 2 * median_of_sorted(t);
            &&& sum >= 0 ==> sum - 1 <= twice <= sum
            &&& sum < 0 ==> sum <= twice <= sum + 1
        },
{
    let n = t.len() as int;
    let lo = (n - 1) / 2;
    let hi = n / 2;
    assert(t[lo] <= t[hi]);
    let m = median_of_sorted(t);
    assert(t[lo] <= m <= t[hi]);
    assert forall|i: int| 0 <= i < t.len() && #[trigger] t[i] < m implies i < t.len() / 2 by {
        if i >= hi {
            assert(t[hi] <= t[i]);
        }
    }
    assert forall|i: int| 0 <= i < t.len() && #[trigger] t[i] > m implies i >= t.len() - t.len()
        / 2 by {
        if i <= lo {
            assert(t[i] <= t[lo]);
        }
    }
}

/// Over nondecreasing timestamps up to `now`, the time weights of the
/// observations add up to the time elapsed since the first one,
/// `now - obs[0].timestamp`: each observation counts for exactly as long as
/// it held.
pub proof fn law_twap_weights_cover_elapsed_time(obs: Seq<PriceObservation>, now: u64)
    requires
        obs.len() > 0,
        forall|i: int, j: int| 0 <= i <= j < obs.len() ==> obs[i].timestamp <= obs[j].timestamp,
        obs[obs.len() - 1].timestamp <= now,
    ensures
        twap_acc(obs, now, obs.len()).1 == now - obs[0].timestamp,
{
    lemma_twap_weight_prefix(obs, now, (obs.len() - 1) as nat);
    assert(obs[obs.len() - 1].timestamp - obs[0].timestamp >= 0);
}

/// The weights of the first `n` observations, all but the last, add up to
/// the time from the first to the `n`-th.
proof fn lemma_twap_weight_prefix(obs: Seq<PriceObservation>, now: u64, n: nat)
    requires
        0 <= n < obs.len(),
        forall|i: int, j: int| 0 <= i <= j < obs.len() ==> obs[i].timestamp <= obs[j].timestamp,
    ensures
        twap_acc(obs, now, n).1 == obs[n as int].timestamp - obs[0].timestamp,
    decreases n,
{
    if n > 0 {
        lemma_twap_weight_prefix(obs, now, (n - 1) as nat);
        assert(obs[n - 1].timestamp <= obs[n as int].timestamp);
        assert(obs[0].timestamp <= obs[n - 1].timestamp);
    }
}

/// The time-weighted average of two observations, at `t0 <= t1 <= now`
/// with `t0 < now`: each price counts for as long as it held, the first
/// from `t0` to `t1` and the second from `t1` to `now`, so the result is
/// `(p0 * (t1 - t0) + p1 * (now - t1)) / (now - t0)`, rounded toward zero,
/// whenever these products and their sum stay in `i128`.
pub proof fn law_twap_weighs_by_time_held(o0: PriceObservation, o1: PriceObservation, now: u64)
    requires
        o0.timestamp <= o1.timestamp <= now,
        o0.timestamp < now,
        fits_i128(o0.price * (o1.timestamp - o0.timestamp)),
        fits_i128(o1.price * (now - o1.timestamp)),
        fits_i128(o0.price * (o1.timestamp - o0.timestamp) + o1.price * (now - o1.timestamp)),
    ensures
        twap_value(seq![o0, o1], now) == div_trunc(
            o0.price * (o1.timestamp - o0.timestamp) + o1.price * (now - o1.timestamp),
            now - o0.timestamp,
        ),
{
    let obs = seq![o0, o1];
    assert(obs[0] == o0 && obs[1] == o1);
    let a1 = twap_acc(obs, now, 1);
    let a0 = twap_acc(obs, now, 0);
    assert(a0 == (0int, 0int));
    assert(twap_weight(obs, 0, now) == o1.timestamp - o0.timestamp);
    assert(twap_weight(obs, 1, now) == now - o1.timestamp);
    assert(a1 == (o0.price * (o1.timestamp - o0.timestamp), o1.timestamp - o0.timestamp));
    let a2 = twap_acc(obs, now, 2);
    assert(a2 == (
        o0.price * (o1.timestamp - o0.timestamp) + o1.price * (now - o1.timestamp),
        now - o0.timestamp,
    ));
}

/// When observation `i` stopped holding: at the next observation, or at
/// `now` for the last one.
pub open spec fn held_until(obs: Seq<PriceObservation>, i: int, now: u64) -> int {
    if i + 1 < obs.len() {
        obs[i + 1].timestamp as int
    } else {
        now as int
    }
}

/// Sum over the first `n` observations of price times the time it held.
pub open spec fn price_time_sum(obs: Seq<PriceObservation>, now: u64, n: nat) -> int
    decreases n,
{
    if n == 0 {
        0
    } else {
        price_time_sum(obs, now, (n - 1) as nat) + obs[n - 1].price * (held_until(obs, n - 1, now)
            - obs[n - 1].timestamp)
    }
}

/// Over nondecreasing timestamps that start before `now` and do not pass
/// it, the time-weighted average is the sum of each price times the time it
/// held, divided by the time elapsed since the first observation (rounded
/// toward zero), whenever every product and partial sum stays in `i128`.
pub proof fn law_twap_is_price_time_over_elapsed(obs: Seq<PriceObservation>, now: u64)
    requires
        obs.len() > 0,
        forall|i: int, j: int| 0 <= i <= j < obs.len() ==> obs[i].timestamp <= obs[j].timestamp,
        obs[obs.len() - 1].timestamp <= now,
        obs[0].timestamp < now,
        forall|i: int|
            0 <= i < obs.len() ==> fits_i128(
                #[trigger] obs[i].price * (held_until(obs, i, now) - obs[i].timestamp),
            ),
        forall|k: nat| k <= obs.len() ==> fits_i128(#[trigger] price_time_sum(obs, now, k)),
    ensures
        twap_value(obs, now) == div_trunc(price_time_sum(obs, now, obs.len()), now - obs[0].timestamp),
{
    law_twap_weights_cover_elapsed_time(obs, now);
    lemma_twap_sum_prefix(obs, now, obs.len());
    if obs.len() == 1 {
        let p = obs[0].price as int;
        let d = now - obs[0].timestamp;
        assert(price_time_sum(obs, now, 1) == p * d) by {
            assert(price_time_sum(obs, now, 0) == 0);
        }
        assert(p * d >= 0 ==> p * d / d == p) by (nonlinear_arith)
            requires d > 0;
        assert(p * d < 0 ==> (-(p * d)) / d == -p) by (nonlinear_arith)
            requires d > 0;
    }
}

/// Without saturation, the weighted sum accumulated over the first `n`
/// observations is their price-time sum.
proof fn lemma_twap_sum_prefix(obs: Seq<PriceObservation>, now: u64, n: nat)
    requires
        n <= obs.len(),
        forall|i: int, j: int| 0 <= i <= j < obs.len() ==> obs[i].timestamp <= obs[j].timestamp,
        obs[obs.len() - 1].timestamp <= now,
        forall|i: int|
            0 <= i < obs.len() ==> fits_i128(
                #[trigger] obs[i].price * (held_until(obs, i, now) - obs[i].timestamp),
            ),
        forall|k: nat| k <= obs.len() ==> fits_i128(#[trigger] price_time_sum(obs, now, k)),
    ensures
        twap_acc(obs, now, n).0 == price_time_sum(obs, now, n),
    decreases n,
{
    if n > 0 {
        lemma_twap_sum_prefix(obs, now, (n - 1) as nat);
        let i = n - 1;
        assert(held_until(obs, i, now) >= obs[i].timestamp) by {
            if i + 1 < obs.len() {
                assert(obs[i].timestamp <= obs[i + 1].timestamp);
            }
        }
        assert(twap_weight(obs, i, now) == held_until(obs, i, now) - obs[i].timestamp);
        assert(fits_i128(obs[i].price * (held_until(obs, i, now) - obs[i].timestamp)));
        assert(fits_i128(price_time_sum(obs, now, n)));
    }
}

} // verus!
