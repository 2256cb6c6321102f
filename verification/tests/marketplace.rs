use soroban_templates::common::{AccountId, Transfer};
use soroban_templates::marketplace::{MarketplaceContract, MarketplaceError};

const ADMIN: AccountId = 1;
const PAY: AccountId = 100;
const ROYALTY_TO: AccountId = 50;
const NFT: AccountId = 200;
const SELLER: AccountId = 10;
const BUYER: AccountId = 11;

fn setup(bps: u32) -> MarketplaceContract {
    let mut c = MarketplaceContract::new();
    c.initialize(ADMIN, PAY, bps, ROYALTY_TO).unwrap();
    c
}

#[test]
fn royalty_split_is_exact() {
    for (price, bps) in [(10_000i128, 250u32), (999, 333), (1, 10_000), (7, 0), (123_456_789, 9_999)] {
        let mut c = setup(bps);
        let id = c.list(SELLER, NFT, 1, price).unwrap();
        let t = c.buy(BUYER, id, 0).unwrap();
        let royalty = price * bps as i128 / 10_000;
        let mut expected = vec![Transfer::Direct { token: PAY, from: BUYER, to: SELLER, amount: price - royalty }];
        if royalty > 0 {
            expected.push(Transfer::Direct { token: PAY, from: BUYER, to: ROYALTY_TO, amount: royalty });
        }
        assert_eq!(t, expected);
    }
}

#[test]
fn royalty_above_full_price_is_rejected() {
    let mut c = MarketplaceContract::new();
    assert_eq!(c.initialize(ADMIN, PAY, 10_001, ROYALTY_TO), Err(MarketplaceError::InvalidRoyalty));
    c.initialize(ADMIN, PAY, 10, ROYALTY_TO).unwrap();
    assert_eq!(c.initialize(ADMIN, PAY, 10, ROYALTY_TO), Err(MarketplaceError::AlreadyInitialized));
}

#[test]
fn cancelled_listing_cannot_be_bought() {
    let mut c = setup(250);
    let id = c.list(SELLER, NFT, 1, 1_000).unwrap();
    assert_eq!(c.cancel(BUYER, id), Err(MarketplaceError::NotAuthorized));
    c.cancel(SELLER, id).unwrap();
    assert_eq!(c.buy(BUYER, id, 0), Err(MarketplaceError::ListingInactive));
    assert_eq!(c.cancel(ADMIN, id), Err(MarketplaceError::ListingInactive));
}

#[test]
fn listing_price_is_immutable() {
    let mut c = setup(250);
    let id = c.list(SELLER, NFT, 1, 4_321).unwrap();
    assert_eq!(c.get_listing(id).unwrap().price, 4_321);
    assert_eq!(c.get_listing(id).unwrap().price, 4_321);
    c.buy(BUYER, id, 0).unwrap();
    let l = c.get_listing(id).unwrap();
    assert_eq!(l.price, 4_321);
    assert!(!l.active);
    assert_eq!(c.get_listing(id + 1), None);
}

#[test]
fn listing_requires_positive_price() {
    let mut c = setup(0);
    assert_eq!(c.list(SELLER, NFT, 1, 0), Err(MarketplaceError::InvalidPrice));
    let mut u = MarketplaceContract::new();
    assert_eq!(u.list(SELLER, NFT, 1, 5), Err(MarketplaceError::NotInitialized));
    assert_eq!(c.buy(BUYER, 3, 0), Err(MarketplaceError::ListingNotFound));
}

#[test]
fn offers_escrow_and_settle() {
    let mut c = setup(1_000);
    let id = c.list(SELLER, NFT, 1, 5_000).unwrap();
    assert_eq!(c.make_offer(BUYER, id, 0), Err(MarketplaceError::InvalidOfferAmount));
    let t = c.make_offer(BUYER, id, 3_000).unwrap();
    assert_eq!(t, vec![Transfer::Deposit { token: PAY, from: BUYER, amount: 3_000 }]);
    let t = c.make_offer(BUYER, id, 4_000).unwrap();
    assert_eq!(
        t,
        vec![
            Transfer::Deposit { token: PAY, from: BUYER, amount: 4_000 },
            Transfer::Payout { token: PAY, to: BUYER, amount: 3_000 },
        ]
    );
    assert_eq!(c.get_offer(id, BUYER), Some(4_000));
    assert_eq!(c.accept_offer(BUYER, id, BUYER), Err(MarketplaceError::NotAuthorized));
    assert_eq!(c.accept_offer(SELLER, id, 12), Err(MarketplaceError::OfferNotFound));
    let t = c.accept_offer(SELLER, id, BUYER).unwrap();
    assert_eq!(
        t,
        vec![
            Transfer::Payout { token: PAY, to: SELLER, amount: 3_600 },
            Transfer::Payout { token: PAY, to: ROYALTY_TO, amount: 400 },
        ]
    );
    assert_eq!(c.get_offer(id, BUYER), None);
    assert!(!c.get_listing(id).unwrap().active);
}

#[test]
fn offer_can_be_withdrawn() {
    let mut c = setup(0);
    let id = c.list(SELLER, NFT, 1, 5_000).unwrap();
    c.make_offer(BUYER, id, 700).unwrap();
    let t = c.cancel_offer(BUYER, id).unwrap();
    assert_eq!(t, vec![Transfer::Payout { token: PAY, to: BUYER, amount: 700 }]);
    assert_eq!(c.cancel_offer(BUYER, id), Err(MarketplaceError::OfferNotFound));
}

#[test]
fn active_listings_are_paged() {
    let mut c = setup(0);
    for i in 0..5 {
        c.list(SELLER, NFT, i, 100 + i as i128).unwrap();
    }
    c.cancel(SELLER, 1).unwrap();
    let page = c.get_active_listings(0, 2);
    let ids: Vec<u64> = page.listings.iter().map(|e| e.id).collect();
    assert_eq!(ids, vec![0, 2]);
    assert_eq!(page.next_cursor, Some(3));
    let page = c.get_active_listings(3, 0);
    let ids: Vec<u64> = page.listings.iter().map(|e| e.id).collect();
    assert_eq!(ids, vec![3]);
    assert_eq!(page.next_cursor, Some(4));
    let page = c.get_active_listings(4, 10);
    assert_eq!(page.listings.len(), 1);
    assert_eq!(page.next_cursor, None);
    let page = c.get_active_listings(9, 10);
    assert!(page.listings.is_empty());
    assert_eq!(page.next_cursor, None);
}
