//! Migration: handing a pool's liquidity to the external market maker.
//!
//! The library cannot call the market maker. The caller asks for the
//! [`MigrationRecord`], opens the external pool with it under the program's
//! signing authority, and hands the market maker's answer to
//! [`remove_liquidity`], which settles the pool only if that answer is a
//! success.

use vstd::prelude::*;
use crate::errors::{AmmFailure, PoolError};
use crate::state::{BaseTransfer, Identity, Phase, Pool, PoolView};

verus! {

/// What the external pool is seeded with.
#[derive(Clone, Copy, Debug, PartialEq, Eq)]
pub struct MigrationRecord {
    /// The nonce of the market maker's authority, handed on as given.
    pub nonce: u8,
    /// The base currency that seeds the external pool.
    pub init_pc_amount: u64,
    /// The tokens that seed it, at the pool's current price.
    pub coin_amount: u64,
}

/// What a migration that went through leaves the caller to settle.
#[derive(Clone, Copy, Debug, PartialEq, Eq)]
pub struct MigrationReceipt {
    /// What the external pool was seeded with.
    pub record: MigrationRecord,
    /// The rest of the base reserve, owed to the protocol as its fee.
    pub fee_transfer: BaseTransfer,
}

/// A migration in the making: the pool to drain and where its fee goes.
#[derive(Clone, Copy, Debug, PartialEq, Eq)]
pub struct RemoveLiquidity {
    /// The pool that graduates.
    pub pool: Pool,
    /// The custody account that receives the protocol's fee.
    pub fee_destination: Identity,
}

/// The tokens that go with `init_pc_amount` of base currency at the price
/// the reserves imply, rounded down.
pub open spec fn coin_amount(init_pc_amount: int, reserve_token: int, reserve_base: int) -> int {
    init_pc_amount * reserve_token / reserve_base
}

/// Whether `pool` can be migrated with `init_pc_amount` of base currency as
/// the seed, and if not, why: it is already migrated, or it holds no base
/// currency, or less than the seed.
pub open spec fn migration_check(pool: PoolView, init_pc_amount: u64) -> Result<(), PoolError> {
    if pool.phase == Phase::Migrated {
        Err(PoolError::AlreadyMigrated)
    } else if pool.reserve_base == 0 || init_pc_amount > pool.reserve_base {
        Err(PoolError::InsufficientReserve)
    } else {
        Ok(())
    }
}

/// Whether the record holds what a migration of `pool` seeds the external
/// pool with.
pub open spec fn is_record_of(
    record: MigrationRecord,
    pool: PoolView,
    nonce: u8,
    init_pc_amount: u64,
) -> bool {
    &&& record.nonce == nonce
    &&& record.init_pc_amount == init_pc_amount
    &&& record.coin_amount == coin_amount(
        init_pc_amount as int,
        pool.reserve_token as int,
        pool.reserve_base as int,
    )
}

/// What a migration returns once the market maker has answered with `amm`:
/// the pool's own refusal first, then the market maker's.
pub open spec fn migration_outcome(
    pool: PoolView,
    init_pc_amount: u64,
    amm: Result<(), AmmFailure>,
) -> Result<(), PoolError> {
    match migration_check(pool, init_pc_amount) {
        Err(e) => Err(e),
        Ok(_) => match amm {
            Err(failure) => Err(PoolError::ExternalCallFailed(failure)),
            Ok(_) => Ok(()),
        },
    }
}

/// The pool after a request to migrate: emptied and closed where the
/// migration goes through, unchanged where it is refused.
pub open spec fn after_migration(
    pool: PoolView,
    init_pc_amount: u64,
    amm: Result<(), AmmFailure>,
) -> PoolView {
    if migration_outcome(pool, init_pc_amount, amm).is_ok() {
        pool.migrated()
    } else {
        pool
    }
}

/// Computes what the external pool is to be seeded with. Changes nothing.
pub fn migration_record(pool: &Pool, nonce: u8, init_pc_amount: u64) -> (result: Result<
    MigrationRecord,
    PoolError,
>)
    ensures
        pool@.well_formed(),
        match result {
            Ok(record) => migration_check(pool@, init_pc_amount).is_ok() && is_record_of(
                record,
                pool@,
                nonce,
                init_pc_amount,
            ) && record.coin_amount <= pool@.reserve_token,
            Err(e) => migration_check(pool@, init_pc_amount) == Err::<(), PoolError>(e),
        },
{
    if pool.is_migrated() {
        return Err(PoolError::AlreadyMigrated);
    }
    let reserve_token: u64 = pool.reserve_token();
    let reserve_base: u64 = pool.reserve_base();
    if reserve_base == 0 || init_pc_amount > reserve_base {
        return Err(PoolError::InsufficientReserve);
    }
    proof {
        lemma_coin_amount_bounds(init_pc_amount as int, reserve_token as int, reserve_base as int);
    }
    assert(reserve_base * reserve_token <= 0xffff_ffff_ffff_ffff * 0xffff_ffff_ffff_ffff)
        by (nonlinear_arith)
        requires
            0 <= reserve_base <= 0xffff_ffff_ffff_ffff,
            0 <= reserve_token <= 0xffff_ffff_ffff_ffff,
    ;
    let scaled: u128 = init_pc_amount as u128 * reserve_token as u128;
    let coin: u128 = scaled / reserve_base as u128;
    Ok(MigrationRecord { nonce, init_pc_amount, coin_amount: coin as u64 })
}

/// A seed of no more base currency than the pool holds takes no more tokens
/// than the pool holds.
pub proof fn lemma_coin_amount_bounds(init_pc_amount: int, reserve_token: int, reserve_base: int)
    requires
        0 <= init_pc_amount <= reserve_base,
        0 < reserve_base,
        0 <= reserve_token,
    ensures
        0 <= init_pc_amount * reserve_token <= reserve_base * reserve_token,
        0 <= coin_amount(init_pc_amount, reserve_token, reserve_base) <= reserve_token,
        init_pc_amount == reserve_base ==> coin_amount(init_pc_amount, reserve_token, reserve_base)
            == reserve_token,
{
    let k = init_pc_amount * reserve_token;
    assert(0 <= k <= reserve_base * reserve_token) by (nonlinear_arith)
        requires
            k == init_pc_amount * reserve_token,
            0 <= init_pc_amount <= reserve_base,
            0 <= reserve_token,
    ;
    vstd::arithmetic::div_mod::lemma_fundamental_div_mod(k, reserve_base);
    vstd::arithmetic::div_mod::lemma_mod_bound(k, reserve_base);
    let q = k / reserve_base;
    assert(0 <= q <= reserve_token && (k == reserve_base * reserve_token ==> q == reserve_token))
        by (nonlinear_arith)
        requires
            k == reserve_base * q + k % reserve_base,
            0 <= k % reserve_base < reserve_base,
            0 <= k <= reserve_base * reserve_token,
            0 <= reserve_token,
    ;
}

/// Migrates the pool of `ctx`, given the market maker's answer `amm` to the
/// request to open its pool with the [`MigrationRecord`].
///
/// A pool that cannot be migrated refuses as [`migration_record`] does. Where
/// the market maker refused, so does the migration. In both cases nothing
/// changes. Otherwise the pool is emptied and closed for good, and the
/// receipt names what seeded the external pool and the rest of the base
/// reserve, which is owed to the fee destination.
pub fn remove_liquidity(
    ctx: &mut RemoveLiquidity,
    nonce: u8,
    init_pc_amount: u64,
    amm: Result<(), AmmFailure>,
) -> (result: Result<MigrationReceipt, PoolError>)
    ensures
        final(ctx).fee_destination == old(ctx).fee_destination,
        final(ctx).pool@ == after_migration(old(ctx).pool@, init_pc_amount, amm),
        final(ctx).pool@.well_formed(),
        match result {
            Ok(receipt) => {
                &&& migration_outcome(old(ctx).pool@, init_pc_amount, amm).is_ok()
                &&& is_record_of(receipt.record, old(ctx).pool@, nonce, init_pc_amount)
                &&& receipt.fee_transfer.destination == old(ctx).fee_destination
                &&& receipt.fee_transfer.amount == old(ctx).pool@.reserve_base - init_pc_amount
                &&& final(ctx).pool@ == old(ctx).pool@.migrated()
            },
            Err(e) => {
                &&& migration_outcome(old(ctx).pool@, init_pc_amount, amm) == Err::<(), PoolError>(e)
                &&& final(ctx).pool@ == old(ctx).pool@
            },
        },
        old(ctx).pool@.phase == Phase::Migrated ==> result == Err::<MigrationReceipt, PoolError>(
            PoolError::AlreadyMigrated,
        ),
        amm.is_err() ==> result.is_err() && final(ctx).pool@ == old(ctx).pool@,
{
    let record: MigrationRecord = match migration_record(&ctx.pool, nonce, init_pc_amount) {
        Ok(record) => record,
        Err(e) => {
            return Err(e);
        },
    };
    match amm {
        Ok(()) => {},
        Err(failure) => {
            return Err(PoolError::ExternalCallFailed(failure));
        },
    }
    let fee_amount: u64 = ctx.pool.reserve_base() - init_pc_amount;
    let fee_destination: Identity = ctx.fee_destination;
    let fee_transfer: BaseTransfer = match ctx.pool.transfer_base_from_pool(
        fee_destination,
        fee_amount,
    ) {
        Ok(transfer) => transfer,
        Err(e) => {
            return Err(e);
        },
    };
    match ctx.pool.update_reserves(0, 0) {
        Ok(()) => {},
        Err(e) => {
            return Err(e);
        },
    }
    ctx.pool.close();
    Ok(MigrationReceipt { record, fee_transfer })
}

} // verus!
