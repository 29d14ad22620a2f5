//! Trading one asset for the other against a pool.

use vstd::prelude::*;
use crate::errors::PoolError;
use crate::pricing::{
    after_fee, compute_swap_output, exhausts, lemma_swap_product_non_decreasing, quote,
    reserve_in, reserve_out, swap_output, Direction, FEE_BPS,
};
use crate::state::{Phase, Pool, PoolView};

verus! {

/// What a swap of `amount` in `direction` returns: the amount paid out, or
/// why the swap is refused.
pub open spec fn swap_outcome(pool: PoolView, amount: u64, direction: Direction) -> Result<
    int,
    PoolError,
> {
    let r_in = reserve_in(direction, pool.reserve_token as int, pool.reserve_base as int);
    let r_out = reserve_out(direction, pool.reserve_token as int, pool.reserve_base as int);
    if pool.phase == Phase::Migrated {
        Err(PoolError::AlreadyMigrated)
    } else if exhausts(amount as int, FEE_BPS as int, r_in, r_out) {
        Err(PoolError::LiquidityExhausted)
    } else if r_in + amount > u64::MAX {
        Err(PoolError::ArithmeticOverflow)
    } else {
        Ok(swap_output(amount as int, FEE_BPS as int, r_in, r_out))
    }
}

/// The pool after a request to swap: the side paid into grown by the whole
/// input, the other side less the output; or the pool unchanged where the
/// swap is refused.
pub open spec fn after_swap(pool: PoolView, amount: u64, direction: Direction) -> PoolView {
    match swap_outcome(pool, amount, direction) {
        Ok(amount_out) => match direction {
            Direction::TokenToBase => pool.with_reserves(
                (pool.reserve_token + amount) as nat,
                (pool.reserve_base - amount_out) as nat,
            ),
            Direction::BaseToToken => pool.with_reserves(
                (pool.reserve_token - amount_out) as nat,
                (pool.reserve_base + amount) as nat,
            ),
        },
        Err(_) => pool,
    }
}

/// Swaps `amount` of one asset for the other, in `direction`, and returns
/// what the trader receives.
///
/// The price is fixed before anything changes. A migrated pool refuses. A
/// swap of nothing pays nothing and changes nothing. A swap that would take
/// all that the paying side holds is refused, and so is one whose input would
/// carry a reserve past 64 bits.
pub fn swap(pool: &mut Pool, amount: u64, direction: Direction) -> (result: Result<u64, PoolError>)
    ensures
        crate::pricing::as_int_result(result) == swap_outcome(old(pool)@, amount, direction),
        final(pool)@ == after_swap(old(pool)@, amount, direction),
        final(pool)@.well_formed(),
        result.is_err() ==> final(pool)@ == old(pool)@,
        old(pool)@.phase == Phase::Migrated ==> result == Err::<u64, PoolError>(
            PoolError::AlreadyMigrated,
        ),
        old(pool)@.phase == Phase::Bonding && amount == 0 ==> result == Ok::<u64, PoolError>(0)
            && final(pool)@ == old(pool)@,
        old(pool)@.phase == Phase::Bonding && exhausts(
            amount as int,
            FEE_BPS as int,
            reserve_in(direction, old(pool)@.reserve_token as int, old(pool)@.reserve_base as int),
            reserve_out(direction, old(pool)@.reserve_token as int, old(pool)@.reserve_base as int),
        ) ==> result == Err::<u64, PoolError>(PoolError::LiquidityExhausted),
        result matches Ok(amount_out) ==> amount_out as int == swap_output(
            amount as int,
            FEE_BPS as int,
            reserve_in(direction, old(pool)@.reserve_token as int, old(pool)@.reserve_base as int),
            reserve_out(direction, old(pool)@.reserve_token as int, old(pool)@.reserve_base as int),
        ),
{
    if pool.is_migrated() {
        return Err(PoolError::AlreadyMigrated);
    }
    let reserve_token: u64 = pool.reserve_token();
    let reserve_base: u64 = pool.reserve_base();
    let amount_out: u64 = match compute_swap_output(amount, direction, reserve_token, reserve_base) {
        Ok(amount_out) => amount_out,
        Err(e) => {
            return Err(e);
        },
    };
    if amount == 0 {
        return Ok(0);
    }
    let (new_token, new_base): (u64, u64) = match direction {
        Direction::TokenToBase => {
            match reserve_token.checked_add(amount) {
                Some(sum) => (sum, reserve_base - amount_out),
                None => {
                    return Err(PoolError::ArithmeticOverflow);
                },
            }
        },
        Direction::BaseToToken => {
            match reserve_base.checked_add(amount) {
                Some(sum) => (reserve_token - amount_out, sum),
                None => {
                    return Err(PoolError::ArithmeticOverflow);
                },
            }
        },
    };
    match pool.update_reserves(new_token, new_base) {
        Ok(()) => Ok(amount_out),
        Err(e) => Err(e),
    }
}

/// A swap that is carried out never lowers the product of the pool's
/// reserves, provided that the fee, priced at what the paying side still
/// holds, is at least what the price dropped in rounding down; where the fee
/// is worth more than that, the product rises. Without that proviso the
/// product can fall, by less than the new reserve of the side paid into.
pub proof fn lemma_swap_keeps_product(pool: PoolView, amount: u64, direction: Direction)
    requires
        amount > 0,
        swap_outcome(pool, amount, direction).is_ok(),
    ensures
        ({
            let r_in = reserve_in(direction, pool.reserve_token as int, pool.reserve_base as int);
            let r_out = reserve_out(direction, pool.reserve_token as int, pool.reserve_base as int);
            let net = after_fee(amount as int, FEE_BPS as int);
            let amount_out = swap_output(amount as int, FEE_BPS as int, r_in, r_out);
            let dropped = (r_in * r_out) % (r_in + net);
            let fee_worth = (amount - net) * (r_out - amount_out);
            let after = after_swap(pool, amount, direction);
            &&& (dropped <= fee_worth) <==> after.product() >= pool.product()
            &&& (dropped < fee_worth) <==> after.product() > pool.product()
            &&& after.product() > pool.product() - (r_in + amount)
        }),
{
    let r_in = reserve_in(direction, pool.reserve_token as int, pool.reserve_base as int);
    let r_out = reserve_out(direction, pool.reserve_token as int, pool.reserve_base as int);
    let amount_out = swap_output(amount as int, FEE_BPS as int, r_in, r_out);
    let after = after_swap(pool, amount, direction);
    lemma_swap_product_non_decreasing(amount as int, FEE_BPS as int, r_in, r_out);
    crate::pricing::lemma_swap_product(amount as int, FEE_BPS as int, r_in, r_out);
    assert(after.product() == (r_in + amount) * (r_out - amount_out)) by (nonlinear_arith)
        requires
            after.product() == after.reserve_token * after.reserve_base,
            (after.reserve_token == r_in + amount && after.reserve_base == r_out - amount_out) || (
            after.reserve_base == r_in + amount && after.reserve_token == r_out - amount_out),
    ;
    assert(pool.product() == r_in * r_out) by (nonlinear_arith)
        requires
            pool.product() == pool.reserve_token * pool.reserve_base,
            (pool.reserve_token == r_in && pool.reserve_base == r_out) || (pool.reserve_base
                == r_in && pool.reserve_token == r_out),
    ;
    let net = after_fee(amount as int, FEE_BPS as int);
    assert((amount - net) * (r_out - amount_out) >= 0) by (nonlinear_arith)
        requires
            amount - net >= 0,
            r_out - amount_out >= 0,
    ;
}

} // verus!
