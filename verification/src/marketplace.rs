//! NFT marketplace: sellers list tokens at a fixed price paid in one
//! payment token, buyers buy them outright or escrow offers the seller may
//! accept, and every sale pays a royalty to a fixed recipient.

use std::collections::HashMap;
use vstd::prelude::*;

use crate::common::{bps_fee_exact, bps_fee_or_zero, split_bps, AccountId, Transfer};

verus! {

broadcast use vstd::std_specs::hash::group_hash_axioms;

/// Errors returned by the marketplace contract.
#[derive(Clone, Copy, Debug, PartialEq, Eq, Structural)]
pub enum MarketplaceError {
    /// The marketplace was already initialized.
    AlreadyInitialized,
    /// An operation was attempted before initialization.
    NotInitialized,
    /// The caller is not authorized.
    NotAuthorized,
    /// The price is not positive.
    InvalidPrice,
    /// The listing does not exist.
    ListingNotFound,
    /// The listing is no longer active.
    ListingInactive,
    /// The royalty exceeds 10 000 basis points.
    InvalidRoyalty,
    /// The expiry is not in the future.
    InvalidExpiry,
    /// The listing has expired.
    ListingExpired,
    /// The listing has not expired.
    ListingNotExpired,
    /// The offer amount is invalid.
    InvalidOfferAmount,
    /// No offer exists for this listing and buyer.
    OfferNotFound,
}

impl MarketplaceError {
    /// The numeric code of this error in the contract interface.
    pub open spec fn spec_code(self) -> u32 {
        match self {
            MarketplaceError::AlreadyInitialized => 1,
            MarketplaceError::NotInitialized => 2,
            MarketplaceError::NotAuthorized => 3,
            MarketplaceError::InvalidPrice => 4,
            MarketplaceError::ListingNotFound => 5,
            MarketplaceError::ListingInactive => 6,
            MarketplaceError::InvalidRoyalty => 7,
            MarketplaceError::InvalidExpiry => 8,
            MarketplaceError::ListingExpired => 9,
            MarketplaceError::ListingNotExpired => 10,
            MarketplaceError::InvalidOfferAmount => 11,
            MarketplaceError::OfferNotFound => 12,
        }
    }

    /// A short human-readable description of this error.
    pub open spec fn spec_message(self) -> Seq<char> {
        match self {
            MarketplaceError::AlreadyInitialized => "already initialized"@,
            MarketplaceError::NotInitialized => "not initialized"@,
            MarketplaceError::NotAuthorized => "not authorized"@,
            MarketplaceError::InvalidPrice => "invalid price"@,
            MarketplaceError::ListingNotFound => "listing not found"@,
            MarketplaceError::ListingInactive => "listing inactive"@,
            MarketplaceError::InvalidRoyalty => "invalid royalty"@,
            MarketplaceError::InvalidExpiry => "invalid expiry"@,
            MarketplaceError::ListingExpired => "listing expired"@,
            MarketplaceError::ListingNotExpired => "listing not expired"@,
            MarketplaceError::InvalidOfferAmount => "invalid offer amount"@,
            MarketplaceError::OfferNotFound => "offer not found"@,
        }
    }

    /// Returns the numeric code of this error.
    pub fn code(&self) -> (c: u32)
        ensures
            c == self.spec_code(),
    {
        match self {
            MarketplaceError::AlreadyInitialized => 1,
            MarketplaceError::NotInitialized => 2,
            MarketplaceError::NotAuthorized => 3,
            MarketplaceError::InvalidPrice => 4,
            MarketplaceError::ListingNotFound => 5,
            MarketplaceError::ListingInactive => 6,
            MarketplaceError::InvalidRoyalty => 7,
            MarketplaceError::InvalidExpiry => 8,
            MarketplaceError::ListingExpired => 9,
            MarketplaceError::ListingNotExpired => 10,
            MarketplaceError::InvalidOfferAmount => 11,
            MarketplaceError::OfferNotFound => 12,
        }
    }

    /// Returns a short human-readable description of this error.
    pub fn message(&self) -> (m: &'static str)
        ensures
            m@ == self.spec_message(),
    {
        match self {
            MarketplaceError::AlreadyInitialized => "already initialized",
            MarketplaceError::NotInitialized => "not initialized",
            MarketplaceError::NotAuthorized => "not authorized",
            MarketplaceError::InvalidPrice => "invalid price",
            MarketplaceError::ListingNotFound => "listing not found",
            MarketplaceError::ListingInactive => "listing inactive",
            MarketplaceError::InvalidRoyalty => "invalid royalty",
            MarketplaceError::InvalidExpiry => "invalid expiry",
            MarketplaceError::ListingExpired => "listing expired",
            MarketplaceError::ListingNotExpired => "listing not expired",
            MarketplaceError::InvalidOfferAmount => "invalid offer amount",
            MarketplaceError::OfferNotFound => "offer not found",
        }
    }
}

/// Most listings returned by one page of `get_active_listings`.
pub const MAX_LISTINGS_PAGE_SIZE: u32 = 50;

/// A token offered for sale.
#[derive(Clone, Copy, Debug, PartialEq, Eq, Structural)]
pub struct Listing {
    /// Contract of the listed token.
    pub nft_contract: AccountId,
    /// Id of the listed token.
    pub token_id: u32,
    /// Who sells.
    pub seller: AccountId,
    /// Asking price in the payment token.
    pub price: i128,
    /// Whether the listing can still be bought.
    pub active: bool,
    /// Last ledger of the listing, if it expires.
    pub expires_at: Option<u32>,
}

/// A listing with its id.
#[derive(Clone, Copy, Debug, PartialEq, Eq, Structural)]
pub struct ListingEntry {
    /// Listing id.
    pub id: u64,
    /// The listing.
    pub listing: Listing,
}

/// One page of active listings.
#[derive(Clone, Debug)]
pub struct ListingPage {
    /// Active listings, by increasing id.
    pub listings: Vec<ListingEntry>,
    /// Where the next page starts, when this page is full.
    pub next_cursor: Option<u64>,
}

/// Key under which the offer of `buyer` on listing `id` is recorded.
pub open spec fn offer_key(id: int, buyer: AccountId) -> u128 {
    (id * 0x1_0000_0000_0000_0000 + buyer) as u128
}

fn offer_key_exec(id: u64, buyer: AccountId) -> (k: u128)
    ensures
        k == offer_key(id as int, buyer),
{
    (id as u128) * 0x1_0000_0000_0000_0000u128 + (buyer as u128)
}

/// State of the marketplace contract.
pub struct MarketplaceContract {
    /// The admin, once initialized.
    pub admin: Option<AccountId>,
    /// Token in which prices are paid.
    pub payment_token: AccountId,
    /// Royalty on every sale, in basis points.
    pub royalty_bps: u32,
    /// Receiver of the royalty.
    pub royalty_recipient: AccountId,
    /// Listings in creation order; a listing's id is its position.
    pub listings: Vec<Listing>,
    /// Escrowed offers, keyed by [`offer_key`].
    pub offers: HashMap<u128, i128>,
}

/// Abstract state of the marketplace contract.
pub struct MarketplaceModel {
    pub admin: Option<AccountId>,
    pub payment_token: AccountId,
    pub royalty_bps: u32,
    pub royalty_recipient: AccountId,
    pub listings: Seq<Listing>,
    pub offers: Map<u128, i128>,
}

impl View for MarketplaceContract {
    type V = MarketplaceModel;

    open spec fn view(&self) -> MarketplaceModel {
        MarketplaceModel {
            admin: self.admin,
            payment_token: self.payment_token,
            royalty_bps: self.royalty_bps,
            royalty_recipient: self.royalty_recipient,
            listings: self.listings@,
            offers: self.offers@,
        }
    }
}

/// The royalty on a sale at `price`: the `bps` share rounded toward zero,
/// or zero when the product leaves `i128`.
pub open spec fn royalty_on(price: int, bps: int) -> int {
    bps_fee_or_zero(price, bps)
}

impl MarketplaceModel {
    /// The marketplace has been initialized.
    pub open spec fn initialized(self) -> bool {
        self.admin is Some
    }

    /// The royalty is at most 100 %, listed prices and offers are positive.
    pub open spec fn wf(self) -> bool {
        &&& self.royalty_bps <= 10_000
        &&& self.listings.len() < u64::MAX
        &&& forall|i: int| 0 <= i < self.listings.len() ==> #[trigger] self.listings[i].price > 0
        &&& forall|k: u128| #[trigger] self.offers.contains_key(k) ==> self.offers[k] > 0
    }

    /// Whether listing `id` exists.
    pub open spec fn has_listing(self, id: int) -> bool {
        0 <= id < self.listings.len()
    }

    /// The first check of `buy` that fails, if any.
    pub open spec fn buy_error(self, id: int, ledger: int) -> Option<MarketplaceError> {
        if !self.initialized() {
            Some(MarketplaceError::NotInitialized)
        } else if !self.has_listing(id) {
            Some(MarketplaceError::ListingNotFound)
        } else if !self.listings[id].active {
            Some(MarketplaceError::ListingInactive)
        } else if self.listings[id].expires_at matches Some(e) && ledger > e {
            Some(MarketplaceError::ListingExpired)
        } else {
            None
        }
    }

    /// This state with listing `id` no longer active.
    pub open spec fn deactivated(self, id: int) -> Self {
        MarketplaceModel {
            listings: self.listings.update(id, Listing { active: false, ..self.listings[id] }),
            ..self
        }
    }

    /// Payments of a purchase of listing `id` by `buyer`: the price less the
    /// royalty to the seller, and the royalty to its recipient when
    /// positive, both straight from the buyer.
    pub open spec fn buy_transfers(self, id: int, buyer: AccountId) -> Seq<Transfer> {
        let l = self.listings[id];
        let royalty = royalty_on(l.price as int, self.royalty_bps as int);
        seq![
            Transfer::Direct {
                token: self.payment_token,
                from: buyer,
                to: l.seller,
                amount: (l.price - royalty) as i128,
            },
        ] + (if royalty > 0 {
            seq![
                Transfer::Direct {
                    token: self.payment_token,
                    from: buyer,
                    to: self.royalty_recipient,
                    amount: royalty as i128,
                },
            ]
        } else {
            Seq::<Transfer>::empty()
        })
    }

    /// The first check of `cancel` that fails, if any.
    pub open spec fn cancel_error(self, caller: AccountId, id: int) -> Option<MarketplaceError> {
        if !self.initialized() {
            Some(MarketplaceError::NotInitialized)
        } else if !self.has_listing(id) {
            Some(MarketplaceError::ListingNotFound)
        } else if !self.listings[id].active {
            Some(MarketplaceError::ListingInactive)
        } else if caller != self.listings[id].seller && caller != self.admin->Some_0 {
            Some(MarketplaceError::NotAuthorized)
        } else {
            None
        }
    }

    /// The first check of `make_offer` that fails, if any.
    pub open spec fn offer_error(self, buyer: AccountId, id: int, amount: int) -> Option<MarketplaceError> {
        if !self.initialized() {
            Some(MarketplaceError::NotInitialized)
        } else if amount <= 0 {
            Some(MarketplaceError::InvalidOfferAmount)
        } else if !self.has_listing(id) {
            Some(MarketplaceError::ListingNotFound)
        } else if !self.listings[id].active {
            Some(MarketplaceError::ListingInactive)
        } else {
            None
        }
    }

    /// The first check of `accept_offer` that fails, if any.
    pub open spec fn accept_offer_error(self, seller: AccountId, id: int, buyer: AccountId) -> Option<MarketplaceError> {
        if !self.initialized() {
            Some(MarketplaceError::NotInitialized)
        } else if !self.has_listing(id) {
            Some(MarketplaceError::ListingNotFound)
        } else if !self.listings[id].active {
            Some(MarketplaceError::ListingInactive)
        } else if self.listings[id].seller != seller {
            Some(MarketplaceError::NotAuthorized)
        } else if !self.offers.contains_key(offer_key(id, buyer)) {
            Some(MarketplaceError::OfferNotFound)
        } else {
            None
        }
    }

    /// Payouts of an accepted offer of `amount`: the amount less the
    /// royalty to `seller`, and the royalty when positive, from the escrow.
    pub open spec fn offer_payouts(self, seller: AccountId, amount: int) -> Seq<Transfer> {
        let royalty = amount * self.royalty_bps / 10_000;
        seq![Transfer::Payout { token: self.payment_token, to: seller, amount: (amount - royalty) as i128 }]
            + (if royalty > 0 {
            seq![Transfer::Payout { token: self.payment_token, to: self.royalty_recipient, amount: royalty as i128 }]
        } else {
            Seq::<Transfer>::empty()
        })
    }

    /// Whether listing `i` is active.
    pub open spec fn active_at(self, i: int) -> bool {
        self.listings[i].active
    }
}

/// Ids in `lo..hi` of active listings, in increasing order.
pub open spec fn active_ids(m: MarketplaceModel, lo: int, hi: int) -> Seq<int>
    decreases hi - lo,
{
    if hi <= lo {
        Seq::empty()
    } else if m.active_at(hi - 1) {
        active_ids(m, lo, hi - 1).push(hi - 1)
    } else {
        active_ids(m, lo, hi - 1)
    }
}

impl MarketplaceContract {
    /// A contract with empty storage.
    pub fn new() -> (c: Self)
        ensures
            c@ == (MarketplaceModel {
                admin: None,
                payment_token: 0,
                royalty_bps: 0,
                royalty_recipient: 0,
                listings: Seq::empty(),
                offers: Map::empty(),
            }),
            !c@.initialized(),
            c@.wf(),
    {
        MarketplaceContract {
            admin: None,
            payment_token: 0,
            royalty_bps: 0,
            royalty_recipient: 0,
            listings: Vec::new(),
            offers: HashMap::new(),
        }
    }

    /// Sets the admin, the payment token and the royalty. The admin
    /// authorizes the call.
    pub fn initialize(
        &mut self,
        admin: AccountId,
        payment_token: AccountId,
        royalty_bps: u32,
        royalty_recipient: AccountId,
    ) -> (r: Result<(), MarketplaceError>)
        requires
            old(self)@.wf(),
        ensures
            final(self)@.wf(),
            old(self)@.initialized() ==> r == Err::<(), _>(MarketplaceError::AlreadyInitialized)
                && final(self)@ == old(self)@,
            !old(self)@.initialized() && royalty_bps > 10_000 ==> r == Err::<(), _>(
                MarketplaceError::InvalidRoyalty,
            ) && final(self)@ == old(self)@,
            !old(self)@.initialized() && royalty_bps <= 10_000 ==> r is Ok && final(self)@ == (MarketplaceModel {
                admin: Some(admin),
                payment_token,
                royalty_bps,
                royalty_recipient,
                ..old(self)@
            }),
    {
        if self.admin.is_some() {
            return Err(MarketplaceError::AlreadyInitialized);
        }
        if royalty_bps > 10_000 {
            return Err(MarketplaceError::InvalidRoyalty);
        }
        self.admin = Some(admin);
        self.payment_token = payment_token;
        self.royalty_bps = royalty_bps;
        self.royalty_recipient = royalty_recipient;
        Ok(())
    }

    /// `seller`, who authorizes the call, lists token `token_id` of
    /// `nft_contract` at `price`. Returns the listing id.
    pub fn list(&mut self, seller: AccountId, nft_contract: AccountId, token_id: u32, price: i128) -> (r:
        Result<u64, MarketplaceError>)
        requires
            old(self)@.wf(),
            old(self)@.initialized() && price > 0 ==> old(self)@.listings.len() + 1 < u64::MAX,
        ensures
            final(self)@.wf(),
            !old(self)@.initialized() ==> r == Err::<u64, _>(MarketplaceError::NotInitialized)
                && final(self)@ == old(self)@,
            old(self)@.initialized() && price <= 0 ==> r == Err::<u64, _>(MarketplaceError::InvalidPrice)
                && final(self)@ == old(self)@,
            old(self)@.initialized() && price > 0 ==> r == Ok::<u64, MarketplaceError>(old(self)@.listings.len() as u64)
                && final(self)@ == (MarketplaceModel {
                listings: old(self)@.listings.push(
                    Listing { nft_contract, token_id, seller, price, active: true, expires_at: None },
                ),
                ..old(self)@
            }),
    {
        if self.admin.is_none() {
            return Err(MarketplaceError::NotInitialized);
        }
        if price <= 0 {
            return Err(MarketplaceError::InvalidPrice);
        }
        let id = self.listings.len() as u64;
        self.listings.push(Listing { nft_contract, token_id, seller, price, active: true, expires_at: None });
        Ok(id)
    }

    fn deactivate(&mut self, i: usize)
        requires
            old(self)@.wf(),
            i < old(self)@.listings.len(),
        ensures
            final(self)@ == old(self)@.deactivated(i as int),
            final(self)@.wf(),
    {
        let l = self.listings[i];
        self.listings.set(i, Listing { active: false, ..l });
    }

    /// `buyer`, who authorizes the call, buys listing `listing_id` at ledger
    /// `ledger`, paying the price: the seller receives it less the royalty.
    /// Returns the payments; the token itself moves from the seller to the
    /// buyer.
    pub fn buy(&mut self, buyer: AccountId, listing_id: u64, ledger: u32) -> (r: Result<Vec<Transfer>, MarketplaceError>)
        requires
            old(self)@.wf(),
        ensures
            final(self)@.wf(),
            match old(self)@.buy_error(listing_id as int, ledger as int) {
                Some(e) => r == Err::<Vec<Transfer>, _>(e) && final(self)@ == old(self)@,
                None => r is Ok && final(self)@ == old(self)@.deactivated(listing_id as int)
                    && r.unwrap()@ == old(self)@.buy_transfers(listing_id as int, buyer),
            },
    {
        if self.admin.is_none() {
            return Err(MarketplaceError::NotInitialized);
        }
        if listing_id >= self.listings.len() as u64 {
            return Err(MarketplaceError::ListingNotFound);
        }
        let i = listing_id as usize;
        let l = self.listings[i];
        if !l.active {
            return Err(MarketplaceError::ListingInactive);
        }
        match l.expires_at {
            Some(e) => {
                if ledger > e {
                    return Err(MarketplaceError::ListingExpired);
                }
            },
            None => {},
        }
        let (seller_amount, royalty) = split_bps(l.price, self.royalty_bps);
        self.deactivate(i);
        let mut out: Vec<Transfer> = Vec::new();
        out.push(Transfer::Direct { token: self.payment_token, from: buyer, to: l.seller, amount: seller_amount });
        if royalty > 0 {
            out.push(
                Transfer::Direct { token: self.payment_token, from: buyer, to: self.royalty_recipient, amount: royalty },
            );
        }
        proof {
            let spec_out = old(self)@.buy_transfers(listing_id as int, buyer);
            assert(out@ =~= spec_out);
        }
        Ok(out)
    }

    /// The seller or the admin, as `caller` (who authorizes the call),
    /// withdraws active listing `listing_id`.
    pub fn cancel(&mut self, caller: AccountId, listing_id: u64) -> (r: Result<(), MarketplaceError>)
        requires
            old(self)@.wf(),
        ensures
            final(self)@.wf(),
            match old(self)@.cancel_error(caller, listing_id as int) {
                Some(e) => r == Err::<(), _>(e) && final(self)@ == old(self)@,
                None => r is Ok && final(self)@ == old(self)@.deactivated(listing_id as int),
            },
    {
        let admin = match self.admin {
            Some(a) => a,
            None => return Err(MarketplaceError::NotInitialized),
        };
        if listing_id >= self.listings.len() as u64 {
            return Err(MarketplaceError::ListingNotFound);
        }
        let i = listing_id as usize;
        let l = self.listings[i];
        if !l.active {
            return Err(MarketplaceError::ListingInactive);
        }
        if caller != l.seller && caller != admin {
            return Err(MarketplaceError::NotAuthorized);
        }
        self.deactivate(i);
        Ok(())
    }

    /// `buyer`, who authorizes the call, escrows an offer of `amount` on
    /// active listing `listing_id`, replacing any earlier offer of theirs,
    /// which is refunded. Returns the token movements.
    pub fn make_offer(&mut self, buyer: AccountId, listing_id: u64, amount: i128) -> (r: Result<
        Vec<Transfer>,
        MarketplaceError,
    >)
        requires
            old(self)@.wf(),
        ensures
            final(self)@.wf(),
            match old(self)@.offer_error(buyer, listing_id as int, amount as int) {
                Some(e) => r == Err::<Vec<Transfer>, _>(e) && final(self)@ == old(self)@,
                None => {
                    let k = offer_key(listing_id as int, buyer);
                    &&& r is Ok
                    &&& final(self)@ == (MarketplaceModel {
                        offers: old(self)@.offers.insert(k, amount),
                        ..old(self)@
                    })
                    &&& r.unwrap()@ == seq![
                        Transfer::Deposit { token: old(self)@.payment_token, from: buyer, amount },
                    ] + (if old(self)@.offers.contains_key(k) {
                        seq![Transfer::Payout { token: old(self)@.payment_token, to: buyer, amount: old(self)@.offers[k] }]
                    } else {
                        Seq::<Transfer>::empty()
                    })
                },
            },
    {
        if self.admin.is_none() {
            return Err(MarketplaceError::NotInitialized);
        }
        if amount <= 0 {
            return Err(MarketplaceError::InvalidOfferAmount);
        }
        if listing_id >= self.listings.len() as u64 {
            return Err(MarketplaceError::ListingNotFound);
        }
        if !self.listings[listing_id as usize].active {
            return Err(MarketplaceError::ListingInactive);
        }
        let k = offer_key_exec(listing_id, buyer);
        let mut out: Vec<Transfer> = Vec::new();
        out.push(Transfer::Deposit { token: self.payment_token, from: buyer, amount });
        match self.offers.get(&k) {
            Some(prev) => {
                out.push(Transfer::Payout { token: self.payment_token, to: buyer, amount: *prev });
            },
            None => {},
        }
        self.offers.insert(k, amount);
        proof {
            let k2 = offer_key(listing_id as int, buyer);
            let spec_out = seq![
                Transfer::Deposit { token: old(self)@.payment_token, from: buyer, amount },
            ] + (if old(self)@.offers.contains_key(k2) {
                seq![Transfer::Payout { token: old(self)@.payment_token, to: buyer, amount: old(self)@.offers[k2] }]
            } else {
                Seq::<Transfer>::empty()
            });
            assert(out@ =~= spec_out);
        }
        Ok(out)
    }

    /// `seller`, who authorizes the call, accepts the offer of `buyer` on
    /// listing `listing_id`: the escrowed amount, less the royalty, goes to
    /// the seller. Returns the payouts; the token moves to the buyer.
    pub fn accept_offer(&mut self, seller: AccountId, listing_id: u64, buyer: AccountId) -> (r: Result<
        Vec<Transfer>,
        MarketplaceError,
    >)
        requires
            old(self)@.wf(),
        ensures
            final(self)@.wf(),
            match old(self)@.accept_offer_error(seller, listing_id as int, buyer) {
                Some(e) => r == Err::<Vec<Transfer>, _>(e) && final(self)@ == old(self)@,
                None => {
                    let k = offer_key(listing_id as int, buyer);
                    &&& r is Ok
                    &&& final(self)@ == (MarketplaceModel {
                        offers: old(self)@.offers.remove(k),
                        ..old(self)@.deactivated(listing_id as int)
                    })
                    &&& r.unwrap()@ == old(self)@.offer_payouts(seller, old(self)@.offers[k] as int)
                },
            },
    {
        if self.admin.is_none() {
            return Err(MarketplaceError::NotInitialized);
        }
        if listing_id >= self.listings.len() as u64 {
            return Err(MarketplaceError::ListingNotFound);
        }
        let i = listing_id as usize;
        let l = self.listings[i];
        if !l.active {
            return Err(MarketplaceError::ListingInactive);
        }
        if l.seller != seller {
            return Err(MarketplaceError::NotAuthorized);
        }
        let k = offer_key_exec(listing_id, buyer);
        let amount = match self.offers.get(&k) {
            Some(a) => *a,
            None => return Err(MarketplaceError::OfferNotFound),
        };
        let royalty = bps_fee_exact(amount, self.royalty_bps);
        self.deactivate(i);
        self.offers.remove(&k);
        let mut out: Vec<Transfer> = Vec::new();
        out.push(Transfer::Payout { token: self.payment_token, to: seller, amount: amount - royalty });
        if royalty > 0 {
            out.push(Transfer::Payout { token: self.payment_token, to: self.royalty_recipient, amount: royalty });
        }
        proof {
            let spec_out = old(self)@.offer_payouts(seller, amount as int);
            assert(out@ =~= spec_out);
        }
        Ok(out)
    }

    /// `buyer`, who authorizes the call, withdraws the offer on listing
    /// `listing_id` and is refunded.
    pub fn cancel_offer(&mut self, buyer: AccountId, listing_id: u64) -> (r: Result<Vec<Transfer>, MarketplaceError>)
        requires
            old(self)@.wf(),
        ensures
            final(self)@.wf(),
            !old(self)@.initialized() ==> r == Err::<Vec<Transfer>, _>(MarketplaceError::NotInitialized)
                && final(self)@ == old(self)@,
            old(self)@.initialized() && !old(self)@.offers.contains_key(offer_key(listing_id as int, buyer))
                ==> r == Err::<Vec<Transfer>, _>(MarketplaceError::OfferNotFound) && final(self)@ == old(self)@,
            old(self)@.initialized() && old(self)@.offers.contains_key(offer_key(listing_id as int, buyer))
                ==> r is Ok && final(self)@ == (MarketplaceModel {
                offers: old(self)@.offers.remove(offer_key(listing_id as int, buyer)),
                ..old(self)@
            }) && r.unwrap()@ == seq![
                Transfer::Payout {
                    token: old(self)@.payment_token,
                    to: buyer,
                    amount: old(self)@.offers[offer_key(listing_id as int, buyer)],
                },
            ],
    {
        if self.admin.is_none() {
            return Err(MarketplaceError::NotInitialized);
        }
        let k = offer_key_exec(listing_id, buyer);
        let amount = match self.offers.get(&k) {
            Some(a) => *a,
            None => return Err(MarketplaceError::OfferNotFound),
        };
        self.offers.remove(&k);
        let mut out: Vec<Transfer> = Vec::new();
        out.push(Transfer::Payout { token: self.payment_token, to: buyer, amount });
        Ok(out)
    }

    /// Listing `listing_id`, if it exists.
    pub fn get_listing(&self, listing_id: u64) -> (r: Option<Listing>)
        ensures
            r == (if self@.has_listing(listing_id as int) {
                Some(self@.listings[listing_id as int])
            } else {
                None::<Listing>
            }),
    {
        if listing_id >= self.listings.len() as u64 {
            return None;
        }
        Some(self.listings[listing_id as usize])
    }

    /// Escrowed offer of `buyer` on listing `listing_id`, if any.
    pub fn get_offer(&self, listing_id: u64, buyer: AccountId) -> (r: Option<i128>)
        ensures
            r == (if self@.offers.contains_key(offer_key(listing_id as int, buyer)) {
                Some(self@.offers[offer_key(listing_id as int, buyer)])
            } else {
                None::<i128>
            }),
    {
        let k = offer_key_exec(listing_id, buyer);
        match self.offers.get(&k) {
            Some(a) => Some(*a),
            None => None,
        }
    }

    /// Up to `limit` (clamped to 1..=`MAX_LISTINGS_PAGE_SIZE`) active
    /// listings with ids from `cursor` on, by increasing id; when the page
    /// is full, `next_cursor` is the id after the last one returned.
    pub fn get_active_listings(&self, cursor: u64, limit: u32) -> (page: ListingPage)
        ensures
            ({
                let cap: int = if limit < 1 { 1 } else if limit > MAX_LISTINGS_PAGE_SIZE { MAX_LISTINGS_PAGE_SIZE as int } else { limit as int };
                let n = self@.listings.len() as int;
                &&& page.listings@.len() <= cap
                &&& forall|j: int| 0 <= j < page.listings@.len() ==> {
                    let e = #[trigger] page.listings@[j];
                    &&& cursor <= e.id < n
                    &&& e.listing == self@.listings[e.id as int]
                    &&& e.listing.active
                }
                &&& forall|j: int, k: int| 0 <= j < k < page.listings@.len() ==> page.listings@[j].id
                    < page.listings@[k].id
                &&& match page.next_cursor {
                    None => page.listings@.map_values(|e: ListingEntry| e.id as int) == active_ids(
                        self@,
                        cursor as int,
                        n,
                    ),
                    Some(c) => page.listings@.len() == cap && cursor <= c <= n
                        && c == page.listings@[page.listings@.len() - 1].id + 1
                        && page.listings@.map_values(|e: ListingEntry| e.id as int) == active_ids(
                        self@,
                        cursor as int,
                        c as int,
                    ),
                }
            }),
    {
        let cap: u32 = if limit < 1 {
            1
        } else if limit > MAX_LISTINGS_PAGE_SIZE {
            MAX_LISTINGS_PAGE_SIZE
        } else {
            limit
        };
        let n: u64 = self.listings.len() as u64;
        let mut out: Vec<ListingEntry> = Vec::new();
        if cursor >= n {
            proof {
                assert(out@.map_values(|e: ListingEntry| e.id as int) =~= active_ids(self@, cursor as int, n as int));
            }
            return ListingPage { listings: out, next_cursor: None };
        }
        let mut id: u64 = cursor;
        while id < n
            invariant
                cursor <= id <= n,
                n == self@.listings.len(),
                n <= usize::MAX,
                cap as int == (if limit < 1 { 1 } else if limit > MAX_LISTINGS_PAGE_SIZE { MAX_LISTINGS_PAGE_SIZE as int } else { limit as int }),
                out@.len() < cap,
                1 <= cap <= MAX_LISTINGS_PAGE_SIZE,
                forall|j: int| 0 <= j < out@.len() ==> {
                    let e = #[trigger] out@[j];
                    &&& cursor <= e.id < id
                    &&& e.listing == self@.listings[e.id as int]
                    &&& e.listing.active
                },
                forall|j: int, k: int| 0 <= j < k < out@.len() ==> out@[j].id < out@[k].id,
                out@.map_values(|e: ListingEntry| e.id as int) == active_ids(self@, cursor as int, id as int),
            decreases n - id,
        {
            let l = self.listings[id as usize];
            assert(self@.listings[id as int] == l);
            if l.active {
                out.push(ListingEntry { id, listing: l });
                proof {
                    assert(self@.active_at(id as int));
                    assert(active_ids(self@, cursor as int, id as int + 1) == active_ids(self@, cursor as int, id as int).push(id as int));
                    assert(out@.map_values(|e: ListingEntry| e.id as int) =~= active_ids(self@, cursor as int, id as int + 1));
                }
                if out.len() as u32 >= cap {
                    return ListingPage { listings: out, next_cursor: Some(id + 1) };
                }
            } else {
                proof {
                    assert(!self@.active_at(id as int));
                    assert(active_ids(self@, cursor as int, id as int + 1) == active_ids(self@, cursor as int, id as int));
                }
            }
            id = id + 1;
        }
        ListingPage { listings: out, next_cursor: None }
    }
}

/// The royalty and the seller's share of a sale add up to the price
/// exactly and are both non-negative; while `price * bps` stays in `i128`
/// the royalty is the `bps` share of the price rounded down.
pub proof fn law_royalty_split_exact(price: int, bps: int)
    requires
        0 <= price <= i128::MAX,
        0 <= bps <= 10_000,
        price * bps <= i128::MAX,
    ensures
        royalty_on(price, bps) + (price - royalty_on(price, bps)) == price,
        0 <= royalty_on(price, bps) <= price,
        royalty_on(price, bps) == price * bps / 10_000,
{
    crate::common::lemma_bps_share_bounds(price, bps);
    assert(0 <= price * bps) by (nonlinear_arith)
        requires 0 <= price, 0 <= bps;
}

/// A listing that was bought or cancelled cannot be bought any more, and
/// neither purchase nor cancellation changes its price.
pub proof fn law_closed_listing_stays_closed(m: MarketplaceModel, id: int, buyer: AccountId, ledger: int)
    requires
        m.initialized(),
        m.has_listing(id),
    ensures
        m.deactivated(id).buy_error(id, ledger) == Some(MarketplaceError::ListingInactive),
        m.deactivated(id).listings[id].price == m.listings[id].price,
        m.deactivated(id).listings[id].seller == m.listings[id].seller,
{
}

} // verus!
