use pump::errors::PoolError;
use pump::initialize;
use pump::state::{BaseTransfer, Identity, Phase, Pool};

fn token(tag: u8) -> Identity {
    Identity { bytes: [tag; 32] }
}

#[test]
fn a_new_pool_is_bonding_and_empty() {
    let pool = initialize(token(7));
    assert_eq!(pool.identity(), token(7));
    assert_eq!(pool.reserve_token(), 0);
    assert_eq!(pool.reserve_base(), 0);
    assert_eq!(pool.phase(), Phase::Bonding);
    assert!(!pool.is_migrated());
    assert_eq!(pool, Pool::new(token(7)));
}

#[test]
fn pools_of_different_tokens_differ() {
    assert_ne!(initialize(token(1)), initialize(token(2)));
}

#[test]
fn update_reserves_sets_both() {
    let mut pool = initialize(token(1));
    assert_eq!(pool.update_reserves(300, 200), Ok(()));
    assert_eq!(pool.reserve_token(), 300);
    assert_eq!(pool.reserve_base(), 200);
    assert_eq!(pool.update_reserves(0, u64::MAX), Ok(()));
    assert_eq!(pool.reserve_token(), 0);
    assert_eq!(pool.reserve_base(), u64::MAX);
    assert_eq!(pool.phase(), Phase::Bonding);
    assert_eq!(pool.identity(), token(1));
}

#[test]
fn transfer_lowers_the_base_reserve_by_the_amount() {
    let mut pool = initialize(token(1));
    assert_eq!(pool.update_reserves(300, 200), Ok(()));
    assert_eq!(
        pool.transfer_base_from_pool(token(9), 150),
        Ok(BaseTransfer { destination: token(9), amount: 150 })
    );
    assert_eq!(pool.reserve_token(), 300);
    assert_eq!(pool.reserve_base(), 50);
}

#[test]
fn transfer_of_the_whole_base_reserve_goes_through() {
    let mut pool = initialize(token(1));
    assert_eq!(pool.update_reserves(300, 200), Ok(()));
    assert_eq!(
        pool.transfer_base_from_pool(token(9), 200),
        Ok(BaseTransfer { destination: token(9), amount: 200 })
    );
    assert_eq!(pool.reserve_base(), 0);
}

#[test]
fn transfer_of_more_than_the_reserve_is_refused() {
    let mut pool = initialize(token(1));
    assert_eq!(pool.update_reserves(300, 200), Ok(()));
    let before = pool;
    assert_eq!(pool.transfer_base_from_pool(token(9), 201), Err(PoolError::InsufficientReserve));
    assert_eq!(pool, before);
}

#[test]
fn transfer_of_nothing_changes_nothing() {
    let mut pool = initialize(token(1));
    let before = pool;
    assert_eq!(
        pool.transfer_base_from_pool(token(9), 0),
        Ok(BaseTransfer { destination: token(9), amount: 0 })
    );
    assert_eq!(pool, before);
}

#[test]
fn a_stored_pool_is_loaded_as_it_was() {
    let pool = Pool::load(token(4), 30, 20, Phase::Bonding).unwrap();
    assert_eq!(pool.identity(), token(4));
    assert_eq!(pool.reserve_token(), 30);
    assert_eq!(pool.reserve_base(), 20);
    assert_eq!(pool.phase(), Phase::Bonding);
    let closed = Pool::load(token(4), 0, 0, Phase::Migrated).unwrap();
    assert!(closed.is_migrated());
    assert_eq!(closed.reserve_token(), 0);
    assert_eq!(closed.reserve_base(), 0);
    assert_eq!(Pool::load(token(4), 0, 0, Phase::Bonding), Some(initialize(token(4))));
}

#[test]
fn a_migrated_pool_that_holds_something_is_not_loaded() {
    assert_eq!(Pool::load(token(4), 1, 0, Phase::Migrated), None);
    assert_eq!(Pool::load(token(4), 0, 1, Phase::Migrated), None);
    assert_eq!(Pool::load(token(4), 5, 5, Phase::Migrated), None);
}
