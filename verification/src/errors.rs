//! The ways in which an operation on a pool can be refused.

use vstd::prelude::*;

verus! {

/// Why the external market maker refused to open its pool.
#[derive(Clone, Copy, Debug, PartialEq, Eq, Structural)]
pub enum AmmFailure {
    /// Too few accounts were handed to the market maker.
    InsufficientAccounts,
    /// The market maker already has a pool for this pair.
    PoolAlreadyInitialized,
    /// The nonce does not match the market maker's authority.
    BadNonce,
    /// Any other refusal.
    Other,
}

/// Why an operation was refused. A refused operation changes nothing.
#[derive(Clone, Copy, Debug, PartialEq, Eq, Structural)]
pub enum PoolError {
    /// An amount that must be positive was zero.
    InvalidAmount,
    /// More was asked of a reserve than it holds.
    InsufficientReserve,
    /// A swap would have emptied one side of the pool.
    LiquidityExhausted,
    /// The pool has already been migrated.
    AlreadyMigrated,
    /// The external market maker refused to open its pool.
    ExternalCallFailed(AmmFailure),
    /// A reserve would have grown past what 64 bits hold.
    ArithmeticOverflow,
}

} // verus!
