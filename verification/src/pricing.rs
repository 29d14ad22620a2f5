//! The pricing engine: what a swap pays out, by the constant-product rule.
//!
//! The fee is taken from what comes in, never from what goes out. What is
//! left of the input is priced so that the product of the two reserves would
//! stay the same; the division behind that price rounds down.

use vstd::prelude::*;
use vstd::arithmetic::div_mod::{lemma_fundamental_div_mod, lemma_mod_bound};
use crate::errors::PoolError;

verus! {

/// The pool's fee on every swap, in basis points of the input.
pub const FEE_BPS: u64 = 100;

/// The number of basis points in a whole.
pub const BPS_DENOMINATOR: u64 = 10_000;

/// Which way a swap goes.
#[derive(Clone, Copy, Debug, PartialEq, Eq, Structural)]
pub enum Direction {
    /// The trader hands in tokens and takes base currency.
    TokenToBase,
    /// The trader hands in base currency and takes tokens.
    BaseToToken,
}

impl Direction {
    /// Reads the numeric selector that callers send: 1 hands in tokens, any
    /// other value hands in base currency.
    pub fn from_style(style: u64) -> (direction: Direction)
        ensures
            direction == (if style == 1 {
                Direction::TokenToBase
            } else {
                Direction::BaseToToken
            }),
    {
        if style == 1 {
            Direction::TokenToBase
        } else {
            Direction::BaseToToken
        }
    }
}

/// The reserve that a swap in `direction` pays into.
pub open spec fn reserve_in(direction: Direction, reserve_token: int, reserve_base: int) -> int {
    match direction {
        Direction::TokenToBase => reserve_token,
        Direction::BaseToToken => reserve_base,
    }
}

/// The reserve that a swap in `direction` pays out of.
pub open spec fn reserve_out(direction: Direction, reserve_token: int, reserve_base: int) -> int {
    match direction {
        Direction::TokenToBase => reserve_base,
        Direction::BaseToToken => reserve_token,
    }
}

/// What is left of `amount_in` once a fee of `fee_bps` basis points is taken.
pub open spec fn after_fee(amount_in: int, fee_bps: int) -> int {
    amount_in * (10_000 - fee_bps) / 10_000
}

/// What the paying side still holds after a swap that adds `net_in` to the
/// other side: the old product over the new input side, rounded down.
pub open spec fn remaining_out(net_in: int, r_in: int, r_out: int) -> int {
    if r_in + net_in == 0 {
        0
    } else {
        (r_in * r_out) / (r_in + net_in)
    }
}

/// What a swap of `amount_in` pays out at a fee of `fee_bps` basis points.
pub open spec fn swap_output(amount_in: int, fee_bps: int, r_in: int, r_out: int) -> int {
    if amount_in == 0 {
        0
    } else {
        r_out - remaining_out(after_fee(amount_in, fee_bps), r_in, r_out)
    }
}

/// Whether a swap of `amount_in` would take all that the paying side holds.
pub open spec fn exhausts(amount_in: int, fee_bps: int, r_in: int, r_out: int) -> bool {
    amount_in > 0 && swap_output(amount_in, fee_bps, r_in, r_out) >= r_out
}

/// What a request for a price returns: the output, or a refusal where the
/// swap would empty the paying side.
pub open spec fn quote(amount_in: int, fee_bps: int, r_in: int, r_out: int) -> Result<int, PoolError> {
    if exhausts(amount_in, fee_bps, r_in, r_out) {
        Err(PoolError::LiquidityExhausted)
    } else {
        Ok(swap_output(amount_in, fee_bps, r_in, r_out))
    }
}

/// A result over 64-bit amounts, read as one over the integers.
pub open spec fn as_int_result(result: Result<u64, PoolError>) -> Result<int, PoolError> {
    match result {
        Ok(amount) => Ok(amount as int),
        Err(e) => Err(e),
    }
}

/// Takes a fee of `fee_bps` basis points from `amount_in`, rounding what is
/// left down.
pub fn amount_in_after_fee(amount_in: u64, fee_bps: u64) -> (net: u64)
    requires
        fee_bps <= BPS_DENOMINATOR,
    ensures
        net == after_fee(amount_in as int, fee_bps as int),
        net <= amount_in,
{
    let keep: u64 = BPS_DENOMINATOR - fee_bps;
    assert(amount_in * keep <= amount_in * 10_000 && amount_in * 10_000 / 10_000 == amount_in
        && amount_in * keep / 10_000 <= amount_in) by (nonlinear_arith)
        requires
            0 <= keep <= 10_000,
            0 <= amount_in,
    ;
    let scaled: u128 = amount_in as u128 * keep as u128;
    let net: u128 = scaled / BPS_DENOMINATOR as u128;
    net as u64
}

/// Prices a swap of `amount_in` in `direction` against the given reserves, at
/// the pool's fee.
///
/// Nothing in pays nothing out. Any other swap is refused where it would take
/// all that the paying side holds, so a swap never empties a side.
pub fn compute_swap_output(
    amount_in: u64,
    direction: Direction,
    reserve_token: u64,
    reserve_base: u64,
) -> (result: Result<u64, PoolError>)
    ensures
        as_int_result(result) == quote(
            amount_in as int,
            FEE_BPS as int,
            reserve_in(direction, reserve_token as int, reserve_base as int),
            reserve_out(direction, reserve_token as int, reserve_base as int),
        ),
        amount_in == 0 ==> result == Ok::<u64, PoolError>(0),
{
    if amount_in == 0 {
        return Ok(0);
    }
    let (r_in, r_out): (u64, u64) = match direction {
        Direction::TokenToBase => (reserve_token, reserve_base),
        Direction::BaseToToken => (reserve_base, reserve_token),
    };
    let net: u64 = amount_in_after_fee(amount_in, FEE_BPS);
    let divisor: u128 = r_in as u128 + net as u128;
    if divisor == 0 {
        return Err(PoolError::LiquidityExhausted);
    }
    assert(r_in * r_out <= 0xffff_ffff_ffff_ffff * 0xffff_ffff_ffff_ffff) by (nonlinear_arith)
        requires
            0 <= r_in <= 0xffff_ffff_ffff_ffff,
            0 <= r_out <= 0xffff_ffff_ffff_ffff,
    ;
    let product: u128 = r_in as u128 * r_out as u128;
    let rest: u128 = product / divisor;
    proof {
        lemma_remaining_out_bounds(net as int, r_in as int, r_out as int);
    }
    if rest == 0 {
        Err(PoolError::LiquidityExhausted)
    } else {
        Ok(r_out - rest as u64)
    }
}

/// The paying side never holds more after a swap than before, nor less than
/// nothing.
pub proof fn lemma_remaining_out_bounds(net_in: int, r_in: int, r_out: int)
    requires
        0 <= net_in,
        0 <= r_in,
        0 <= r_out,
    ensures
        0 <= remaining_out(net_in, r_in, r_out) <= r_out,
{
    let d = r_in + net_in;
    if d != 0 {
        let k = r_in * r_out;
        lemma_fundamental_div_mod(k, d);
        lemma_mod_bound(k, d);
        let q = k / d;
        assert(0 <= q <= r_out) by (nonlinear_arith)
            requires
                k == d * q + k % d,
                0 <= k % d < d,
                k == r_in * r_out,
                0 <= r_in <= d,
                0 <= r_out,
        ;
    }
}

/// A price is settled by two bounds, with no division to carry out: `net` is
/// what the fee leaves of the input if it is the largest amount whose ten
/// thousandfold is within the input times the basis points kept, and `rest`
/// is what the paying side still holds if it is the largest amount whose
/// multiple by the new input side is within the old product.
pub proof fn lemma_swap_output_by_bounds(
    amount_in: int,
    fee_bps: int,
    r_in: int,
    r_out: int,
    net: int,
    rest: int,
)
    requires
        0 < amount_in,
        net * 10_000 <= amount_in * (10_000 - fee_bps) < (net + 1) * 10_000,
        0 < r_in + net,
        rest * (r_in + net) <= r_in * r_out < (rest + 1) * (r_in + net),
    ensures
        after_fee(amount_in, fee_bps) == net,
        remaining_out(net, r_in, r_out) == rest,
        swap_output(amount_in, fee_bps, r_in, r_out) == r_out - rest,
        exhausts(amount_in, fee_bps, r_in, r_out) <==> rest <= 0,
{
    let scaled = amount_in * (10_000 - fee_bps);
    lemma_fundamental_div_mod(scaled, 10_000);
    lemma_mod_bound(scaled, 10_000);
    let d = r_in + net;
    let k = r_in * r_out;
    lemma_fundamental_div_mod(k, d);
    lemma_mod_bound(k, d);
    let q = k / d;
    assert(q == rest) by (nonlinear_arith)
        requires
            k == d * q + k % d,
            0 <= k % d < d,
            rest * d <= k < (rest + 1) * d,
    ;
}

/// How a swap changes the product of the reserves.
///
/// The input side grows by the whole of `amount_in`, the paying side falls to
/// what the price leaves it. The new product is the old one, less what the
/// division dropped in rounding down, plus the fee times what the paying side
/// still holds.
pub proof fn lemma_swap_product(amount_in: int, fee_bps: int, r_in: int, r_out: int)
    requires
        0 < amount_in,
        0 <= fee_bps <= 10_000,
        0 <= r_in,
        0 <= r_out,
        0 < r_in + after_fee(amount_in, fee_bps),
    ensures
        ({
            let net = after_fee(amount_in, fee_bps);
            let rest = r_out - swap_output(amount_in, fee_bps, r_in, r_out);
            &&& 0 <= net <= amount_in
            &&& 0 <= (r_in * r_out) % (r_in + net) < r_in + net
            &&& (r_in + amount_in) * rest == r_in * r_out - (r_in * r_out) % (r_in + net) + (
                amount_in - net) * rest
        }),
{
    let net = after_fee(amount_in, fee_bps);
    lemma_after_fee_bounds(amount_in, fee_bps);
    let d = r_in + net;
    let k = r_in * r_out;
    let rest = k / d;
    lemma_fundamental_div_mod(k, d);
    lemma_mod_bound(k, d);
    assert((r_in + amount_in) * rest == k - k % d + (amount_in - net) * rest) by (nonlinear_arith)
        requires
            k == d * rest + k % d,
            d == r_in + net,
    ;
}

/// The fee never takes more than the whole input, nor gives any back.
pub proof fn lemma_after_fee_bounds(amount_in: int, fee_bps: int)
    requires
        0 <= amount_in,
        0 <= fee_bps <= 10_000,
    ensures
        0 <= after_fee(amount_in, fee_bps) <= amount_in,
        fee_bps == 0 ==> after_fee(amount_in, fee_bps) == amount_in,
{
    let keep = 10_000 - fee_bps;
    assert(0 <= amount_in * keep / 10_000 <= amount_in && (keep == 10_000 ==> amount_in * keep
        / 10_000 == amount_in)) by (nonlinear_arith)
        requires
            0 <= keep <= 10_000,
            0 <= amount_in,
    ;
}

/// A swap that is carried out never lowers the product of the reserves,
/// provided that the fee, priced at what the paying side still holds, is at
/// least what the division dropped in rounding down. Where the fee is worth
/// more than that, the product rises.
pub proof fn lemma_swap_product_non_decreasing(amount_in: int, fee_bps: int, r_in: int, r_out: int)
    requires
        0 < amount_in,
        0 <= fee_bps <= 10_000,
        0 <= r_in,
        0 <= r_out,
        !exhausts(amount_in, fee_bps, r_in, r_out),
    ensures
        ({
            let net = after_fee(amount_in, fee_bps);
            let amount_out = swap_output(amount_in, fee_bps, r_in, r_out);
            let dropped = (r_in * r_out) % (r_in + net);
            let fee_worth = (amount_in - net) * (r_out - amount_out);
            &&& 0 <= amount_out < r_out
            &&& (dropped <= fee_worth) <==> (r_in + amount_in) * (r_out - amount_out) >= r_in * r_out
            &&& (dropped < fee_worth) <==> (r_in + amount_in) * (r_out - amount_out) > r_in * r_out
        }),
{
    let net = after_fee(amount_in, fee_bps);
    lemma_after_fee_bounds(amount_in, fee_bps);
    lemma_remaining_out_bounds(net, r_in, r_out);
    lemma_swap_product(amount_in, fee_bps, r_in, r_out);
}

} // verus!
