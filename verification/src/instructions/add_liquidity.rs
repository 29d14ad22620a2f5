//! Depositing both assets into a pool.

use vstd::prelude::*;
use crate::errors::PoolError;
use crate::state::{Phase, Pool, PoolView};

verus! {

/// Whether a deposit of `amount_one` tokens and `amount_two` base currency is
/// taken, and if not, why.
pub open spec fn add_liquidity_outcome(pool: PoolView, amount_one: u64, amount_two: u64) -> Result<
    (),
    PoolError,
> {
    if pool.phase == Phase::Migrated {
        Err(PoolError::AlreadyMigrated)
    } else if amount_one == 0 || amount_two == 0 {
        Err(PoolError::InvalidAmount)
    } else if pool.reserve_token + amount_one > u64::MAX || pool.reserve_base + amount_two
        > u64::MAX {
        Err(PoolError::ArithmeticOverflow)
    } else {
        Ok(())
    }
}

/// The pool after a request to deposit: each reserve grown by its amount, or
/// the pool unchanged where the deposit is refused.
pub open spec fn after_add_liquidity(pool: PoolView, amount_one: u64, amount_two: u64) -> PoolView {
    if add_liquidity_outcome(pool, amount_one, amount_two).is_ok() {
        pool.with_reserves(
            (pool.reserve_token + amount_one) as nat,
            (pool.reserve_base + amount_two) as nat,
        )
    } else {
        pool
    }
}

/// Deposits `amount_one` tokens and `amount_two` base currency into `pool`.
///
/// The amounts are taken as they are: no ratio between them is asked for,
/// neither on the first deposit nor on a later one. A migrated pool refuses,
/// a deposit with a zero amount is refused, and so is one that would carry a
/// reserve past 64 bits.
pub fn add_liquidity(pool: &mut Pool, amount_one: u64, amount_two: u64) -> (result: Result<
    (),
    PoolError,
>)
    ensures
        result == add_liquidity_outcome(old(pool)@, amount_one, amount_two),
        final(pool)@ == after_add_liquidity(old(pool)@, amount_one, amount_two),
        final(pool)@.well_formed(),
        result.is_err() ==> final(pool)@ == old(pool)@,
        old(pool)@.phase == Phase::Migrated ==> result == Err::<(), PoolError>(
            PoolError::AlreadyMigrated,
        ),
        old(pool)@.phase == Phase::Bonding && old(pool)@.reserve_token == 0
            && old(pool)@.reserve_base == 0 && amount_one > 0 && amount_two > 0
            ==> result.is_ok()
            && final(pool)@ == old(pool)@.with_reserves(amount_one as nat, amount_two as nat),
{
    if pool.is_migrated() {
        return Err(PoolError::AlreadyMigrated);
    }
    if amount_one == 0 || amount_two == 0 {
        return Err(PoolError::InvalidAmount);
    }
    let new_token: u64 = match pool.reserve_token().checked_add(amount_one) {
        Some(sum) => sum,
        None => {
            return Err(PoolError::ArithmeticOverflow);
        },
    };
    let new_base: u64 = match pool.reserve_base().checked_add(amount_two) {
        Some(sum) => sum,
        None => {
            return Err(PoolError::ArithmeticOverflow);
        },
    };
    pool.update_reserves(new_token, new_base)
}

} // verus!
