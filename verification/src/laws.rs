//! What holds across the operations on a pool.

use vstd::prelude::*;
use crate::errors::{AmmFailure, PoolError};
use crate::instructions::add_liquidity::{add_liquidity_outcome, after_add_liquidity};
use crate::instructions::remove_liquidity::{
    after_migration, migration_check, migration_outcome,
};
use crate::instructions::swap::{after_swap, swap_outcome};
use crate::pricing::Direction;
use crate::state::{after_base_transfer, base_transfer_outcome, BaseTransfer, Identity, Phase, PoolView};

verus! {

/// A migrated pool refuses every operation, and none of them changes it.
pub proof fn lemma_migrated_pool_refuses(
    pool: PoolView,
    amount_one: u64,
    amount_two: u64,
    direction: Direction,
    destination: Identity,
    amm: Result<(), AmmFailure>,
)
    requires
        pool.phase == Phase::Migrated,
    ensures
        add_liquidity_outcome(pool, amount_one, amount_two) == Err::<(), PoolError>(
            PoolError::AlreadyMigrated,
        ),
        after_add_liquidity(pool, amount_one, amount_two) == pool,
        swap_outcome(pool, amount_one, direction) == Err::<int, PoolError>(
            PoolError::AlreadyMigrated,
        ),
        after_swap(pool, amount_one, direction) == pool,
        base_transfer_outcome(pool, destination, amount_one) == Err::<BaseTransfer, PoolError>(
            PoolError::AlreadyMigrated,
        ),
        after_base_transfer(pool, amount_one) == pool,
        migration_check(pool, amount_one) == Err::<(), PoolError>(PoolError::AlreadyMigrated),
        migration_outcome(pool, amount_one, amm) == Err::<(), PoolError>(
            PoolError::AlreadyMigrated,
        ),
        after_migration(pool, amount_one, amm) == pool,
{
}

/// An operation that is refused changes nothing: no part of a deposit, a
/// swap, a payment or a migration is ever carried out alone.
pub proof fn lemma_refusal_changes_nothing(
    pool: PoolView,
    amount_one: u64,
    amount_two: u64,
    direction: Direction,
    destination: Identity,
    amm: Result<(), AmmFailure>,
)
    ensures
        add_liquidity_outcome(pool, amount_one, amount_two).is_err() ==> after_add_liquidity(
            pool,
            amount_one,
            amount_two,
        ) == pool,
        swap_outcome(pool, amount_one, direction).is_err() ==> after_swap(
            pool,
            amount_one,
            direction,
        ) == pool,
        base_transfer_outcome(pool, destination, amount_one).is_err() ==> after_base_transfer(
            pool,
            amount_one,
        ) == pool,
        migration_outcome(pool, amount_one, amm).is_err() ==> after_migration(
            pool,
            amount_one,
            amm,
        ) == pool,
{
}

/// Where the market maker refuses, the migration is refused and the pool
/// keeps its reserves and its phase, whatever the seed asked for.
pub proof fn lemma_failed_external_call_changes_nothing(
    pool: PoolView,
    init_pc_amount: u64,
    failure: AmmFailure,
)
    ensures
        migration_outcome(pool, init_pc_amount, Err(failure)).is_err(),
        migration_check(pool, init_pc_amount).is_ok() ==> migration_outcome(
            pool,
            init_pc_amount,
            Err(failure),
        ) == Err::<(), PoolError>(PoolError::ExternalCallFailed(failure)),
        after_migration(pool, init_pc_amount, Err(failure)) == pool,
{
}

/// A swap of nothing pays nothing and leaves a bonding pool as it was,
/// whatever it holds.
pub proof fn lemma_swap_of_nothing(pool: PoolView, direction: Direction)
    requires
        pool.well_formed(),
        pool.phase == Phase::Bonding,
    ensures
        swap_outcome(pool, 0, direction) == Ok::<int, PoolError>(0),
        after_swap(pool, 0, direction) == pool,
{
}

/// The first deposit into an empty pool sets its reserves to the amounts
/// deposited.
pub proof fn lemma_first_deposit_sets_reserves(pool: PoolView, amount_one: u64, amount_two: u64)
    requires
        pool.phase == Phase::Bonding,
        pool.reserve_token == 0,
        pool.reserve_base == 0,
        amount_one > 0,
        amount_two > 0,
    ensures
        add_liquidity_outcome(pool, amount_one, amount_two) == Ok::<(), PoolError>(()),
        after_add_liquidity(pool, amount_one, amount_two) == pool.with_reserves(
            amount_one as nat,
            amount_two as nat,
        ),
{
}

/// A migration that goes through leaves the pool empty and closed, and a
/// closed pool stays closed: no operation opens it again or fills it.
pub proof fn lemma_migration_is_final(
    pool: PoolView,
    init_pc_amount: u64,
    amount_one: u64,
    amount_two: u64,
    direction: Direction,
)
    requires
        migration_outcome(pool, init_pc_amount, Ok(())).is_ok(),
    ensures
        ({
            let closed = after_migration(pool, init_pc_amount, Ok(()));
            &&& closed.phase == Phase::Migrated
            &&& closed.reserve_token == 0
            &&& closed.reserve_base == 0
            &&& closed.identity == pool.identity
            &&& after_add_liquidity(closed, amount_one, amount_two) == closed
            &&& after_swap(closed, amount_one, direction) == closed
            &&& after_migration(closed, amount_one, Ok(())) == closed
        }),
{
}

} // verus!
