use pump::errors::{AmmFailure, PoolError};
use pump::instructions::remove_liquidity::{
    migration_record, MigrationReceipt, MigrationRecord, RemoveLiquidity,
};
use pump::pricing::Direction;
use pump::state::{BaseTransfer, Identity, Phase, Pool};
use pump::{add_liquidity, initialize, remove_liquidity, swap};

fn fee_account() -> Identity {
    Identity { bytes: [0xfe; 32] }
}

fn graduating(reserve_token: u64, reserve_base: u64) -> RemoveLiquidity {
    let mut pool = initialize(Identity { bytes: [1; 32] });
    assert_eq!(add_liquidity(&mut pool, reserve_token, reserve_base), Ok(()));
    RemoveLiquidity { pool, fee_destination: fee_account() }
}

fn migrated() -> Pool {
    let mut ctx = graduating(1_000_000, 500_000);
    assert!(remove_liquidity(&mut ctx, 254, 100_000, Ok(())).is_ok());
    ctx.pool
}

#[test]
fn record_prices_the_seed_at_the_pool_ratio() {
    let ctx = graduating(1_000_000, 500_000);
    assert_eq!(
        migration_record(&ctx.pool, 254, 100_000),
        Ok(MigrationRecord { nonce: 254, init_pc_amount: 100_000, coin_amount: 200_000 })
    );
}

#[test]
fn record_rounds_the_token_seed_down() {
    let ctx = graduating(10, 3);
    assert_eq!(
        migration_record(&ctx.pool, 0, 2),
        Ok(MigrationRecord { nonce: 0, init_pc_amount: 2, coin_amount: 6 })
    );
    assert_eq!(
        migration_record(&ctx.pool, 0, 0),
        Ok(MigrationRecord { nonce: 0, init_pc_amount: 0, coin_amount: 0 })
    );
}

#[test]
fn record_of_full_width_reserves_needs_no_more_than_the_reserve() {
    let ctx = graduating(u64::MAX, u64::MAX);
    assert_eq!(
        migration_record(&ctx.pool, 1, u64::MAX),
        Ok(MigrationRecord { nonce: 1, init_pc_amount: u64::MAX, coin_amount: u64::MAX })
    );
}

#[test]
fn migration_drains_and_closes_the_pool() {
    let mut ctx = graduating(1_000_000, 500_000);
    let receipt = remove_liquidity(&mut ctx, 254, 100_000, Ok(()));
    assert_eq!(
        receipt,
        Ok(MigrationReceipt {
            record: MigrationRecord { nonce: 254, init_pc_amount: 100_000, coin_amount: 200_000 },
            fee_transfer: BaseTransfer { destination: fee_account(), amount: 400_000 },
        })
    );
    assert_eq!(ctx.pool.reserve_token(), 0);
    assert_eq!(ctx.pool.reserve_base(), 0);
    assert_eq!(ctx.pool.phase(), Phase::Migrated);
    assert!(ctx.pool.is_migrated());
    assert_eq!(ctx.pool.identity(), Identity { bytes: [1; 32] });
    assert_eq!(ctx.fee_destination, fee_account());
}

#[test]
fn migration_of_the_whole_base_reserve_leaves_no_fee() {
    let mut ctx = graduating(700, 300);
    let receipt = remove_liquidity(&mut ctx, 5, 300, Ok(()));
    assert_eq!(
        receipt,
        Ok(MigrationReceipt {
            record: MigrationRecord { nonce: 5, init_pc_amount: 300, coin_amount: 700 },
            fee_transfer: BaseTransfer { destination: fee_account(), amount: 0 },
        })
    );
    assert!(ctx.pool.is_migrated());
}

#[test]
fn refusal_by_the_market_maker_changes_nothing() {
    let failures = [
        AmmFailure::InsufficientAccounts,
        AmmFailure::PoolAlreadyInitialized,
        AmmFailure::BadNonce,
        AmmFailure::Other,
    ];
    for failure in failures {
        let mut ctx = graduating(1_000_000, 500_000);
        let before = ctx;
        assert_eq!(
            remove_liquidity(&mut ctx, 254, 100_000, Err(failure)),
            Err(PoolError::ExternalCallFailed(failure))
        );
        assert_eq!(ctx, before);
        assert_eq!(ctx.pool.phase(), Phase::Bonding);
        assert_eq!(ctx.pool.reserve_token(), 1_000_000);
        assert_eq!(ctx.pool.reserve_base(), 500_000);
    }
}

#[test]
fn seed_beyond_the_base_reserve_is_refused() {
    let mut ctx = graduating(1_000_000, 500_000);
    let before = ctx;
    assert_eq!(migration_record(&ctx.pool, 1, 500_001), Err(PoolError::InsufficientReserve));
    assert_eq!(remove_liquidity(&mut ctx, 1, 500_001, Ok(())), Err(PoolError::InsufficientReserve));
    assert_eq!(
        remove_liquidity(&mut ctx, 1, 500_001, Err(AmmFailure::BadNonce)),
        Err(PoolError::InsufficientReserve)
    );
    assert_eq!(ctx, before);
}

#[test]
fn pool_without_base_currency_cannot_migrate() {
    let mut ctx = RemoveLiquidity {
        pool: initialize(Identity { bytes: [1; 32] }),
        fee_destination: fee_account(),
    };
    let before = ctx;
    assert_eq!(migration_record(&ctx.pool, 1, 0), Err(PoolError::InsufficientReserve));
    assert_eq!(remove_liquidity(&mut ctx, 1, 0, Ok(())), Err(PoolError::InsufficientReserve));
    assert_eq!(remove_liquidity(&mut ctx, 1, 7, Ok(())), Err(PoolError::InsufficientReserve));
    assert_eq!(ctx, before);
}

#[test]
fn migrated_pool_refuses_every_operation() {
    let closed = migrated();

    let mut pool = closed;
    assert_eq!(add_liquidity(&mut pool, 10, 10), Err(PoolError::AlreadyMigrated));
    assert_eq!(add_liquidity(&mut pool, 0, 10), Err(PoolError::AlreadyMigrated));
    assert_eq!(swap(&mut pool, 10, Direction::TokenToBase), Err(PoolError::AlreadyMigrated));
    assert_eq!(swap(&mut pool, 10, Direction::BaseToToken), Err(PoolError::AlreadyMigrated));
    assert_eq!(swap(&mut pool, 0, Direction::BaseToToken), Err(PoolError::AlreadyMigrated));
    assert_eq!(pool.update_reserves(5, 5), Err(PoolError::AlreadyMigrated));
    assert_eq!(pool.transfer_base_from_pool(fee_account(), 0), Err(PoolError::AlreadyMigrated));
    assert_eq!(pool.transfer_base_from_pool(fee_account(), 1), Err(PoolError::AlreadyMigrated));
    assert_eq!(migration_record(&pool, 1, 0), Err(PoolError::AlreadyMigrated));
    assert_eq!(pool, closed);

    let mut ctx = RemoveLiquidity { pool, fee_destination: fee_account() };
    assert_eq!(remove_liquidity(&mut ctx, 1, 0, Ok(())), Err(PoolError::AlreadyMigrated));
    assert_eq!(
        remove_liquidity(&mut ctx, 1, 100_000, Err(AmmFailure::PoolAlreadyInitialized)),
        Err(PoolError::AlreadyMigrated)
    );
    assert_eq!(ctx.pool, closed);
    assert_eq!(ctx.pool.reserve_token(), 0);
    assert_eq!(ctx.pool.reserve_base(), 0);
    assert_eq!(ctx.pool.phase(), Phase::Migrated);
}

#[test]
fn migration_after_trading_uses_the_reserves_of_the_moment() {
    let mut ctx = graduating(1_000_000, 500_000);
    assert_eq!(swap(&mut ctx.pool, 10_000, Direction::BaseToToken), Ok(19_416));
    let receipt = remove_liquidity(&mut ctx, 9, 102_000, Ok(()));
    assert_eq!(
        receipt,
        Ok(MigrationReceipt {
            record: MigrationRecord { nonce: 9, init_pc_amount: 102_000, coin_amount: 196_116 },
            fee_transfer: BaseTransfer { destination: fee_account(), amount: 408_000 },
        })
    );
    assert!(ctx.pool.is_migrated());
}
