use soroban_templates::common::AccountId;
use soroban_templates::oracle::{median, twap, OracleContract, OracleError, PriceObservation};

const ADMIN: AccountId = 1;

fn setup() -> OracleContract {
    let mut c = OracleContract::new();
    c.initialize(ADMIN, 100).unwrap();
    c
}

#[test]
fn oracle_test_initialize() {
    let mut c = setup();
    c.update_price(1_000_000, 0, 0).unwrap();
    let data = c.get_price_data().unwrap();
    assert_eq!(data.admin, ADMIN);
    assert_eq!(data.staleness_threshold, 100);
}

#[test]
fn oracle_initialize_twice_fails() {
    let mut c = setup();
    assert_eq!(c.initialize(ADMIN, 100), Err(OracleError::AlreadyInitialized));
}

#[test]
fn test_initialize_zero_threshold_fails() {
    let mut c = OracleContract::new();
    assert_eq!(c.initialize(ADMIN, 0), Err(OracleError::InvalidStalenessThreshold));
}

#[test]
fn test_update_and_get_price() {
    let mut c = setup();
    c.update_price(5_000_000, 0, 0).unwrap();
    assert_eq!(c.get_price(0), Ok(5_000_000));
}

#[test]
fn test_get_price_before_any_update_fails() {
    let c = setup();
    assert_eq!(c.get_price(0), Err(OracleError::NotInitialized));
}

#[test]
fn test_stale_price_rejected() {
    let mut c = setup();
    c.update_price(1_000_000, 0, 0).unwrap();
    assert_eq!(c.get_price(101), Err(OracleError::StalePrice));
}

#[test]
fn test_price_at_threshold_boundary_is_valid() {
    let mut c = setup();
    c.update_price(2_000_000, 0, 0).unwrap();
    assert_eq!(c.get_price(100), Ok(2_000_000));
}

#[test]
fn test_price_update_overwrites_previous() {
    let mut c = setup();
    c.update_price(1_000, 0, 0).unwrap();
    c.update_price(9_999, 0, 0).unwrap();
    assert_eq!(c.get_price(0), Ok(9_999));
}

#[test]
fn test_get_median_price_with_fresh_submissions() {
    let mut c = setup();
    c.set_publishers(ADMIN, vec![11, 12, 13]).unwrap();
    c.submit_price(11, 100, 0).unwrap();
    c.submit_price(12, 200, 0).unwrap();
    c.submit_price(13, 300, 0).unwrap();
    assert_eq!(c.get_median_price(3600, 0), Ok(200));
}

#[test]
fn test_get_median_price_excludes_stale_submissions() {
    let mut c = setup();
    c.set_publishers(ADMIN, vec![11, 12, 13]).unwrap();
    c.submit_price(11, 100, 0).unwrap();
    c.submit_price(13, 300, 0).unwrap();
    c.submit_price(12, 200, 3600).unwrap();
    assert_eq!(c.get_median_price(1800, 3600), Ok(200));
}

#[test]
fn test_get_median_price_all_stale_fails() {
    let mut c = setup();
    c.set_publishers(ADMIN, vec![11, 12]).unwrap();
    c.submit_price(11, 100, 0).unwrap();
    c.submit_price(12, 200, 0).unwrap();
    assert_eq!(c.get_median_price(1000, 5000), Err(OracleError::NoPublisherData));
}

#[test]
fn median_of_even_and_odd_lists() {
    assert_eq!(median(&mut vec![5, 1, 3]), 3);
    assert_eq!(median(&mut vec![4, 1, 3, 2]), 2);
    assert_eq!(median(&mut vec![-7]), -7);
}

#[test]
fn twap_weights_by_time() {
    let obs = vec![
        PriceObservation { price: 100, timestamp: 0 },
        PriceObservation { price: 200, timestamp: 10 },
    ];
    assert_eq!(twap(&obs, 20), 150);
}

#[test]
fn non_publisher_cannot_submit() {
    let mut c = setup();
    c.set_publishers(ADMIN, vec![11]).unwrap();
    assert!(c.submit_price(12, 100, 0).is_err());
    assert!(c.is_publisher(11));
    assert!(!c.is_publisher(12));
}

#[test]
fn price_age_check_by_timestamp() {
    let mut c = setup();
    assert_eq!(c.get_price_checked(60, 0), Err(OracleError::NotInitialized));
    c.update_price(42, 0, 1_000).unwrap();
    assert_eq!(c.get_price_checked(60, 1_060), Ok(42));
    assert_eq!(c.get_price_checked(60, 1_061), Err(OracleError::StalePrice));
}

#[test]
fn twap_over_recent_updates() {
    let mut c = setup();
    assert_eq!(c.get_twap(100, 0), Err(OracleError::InsufficientHistory));
    c.update_price(100, 0, 0).unwrap();
    c.update_price(200, 1, 10).unwrap();
    assert_eq!(c.get_twap(100, 20), Ok(150));
    assert_eq!(c.get_twap(10, 20), Ok(200));
    assert_eq!(c.get_twap(5, 20), Err(OracleError::InsufficientHistory));
}
