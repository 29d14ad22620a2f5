//! Creating a pool.

use vstd::prelude::*;
use crate::state::{Identity, Phase, Pool, PoolView};

verus! {

/// Creates the pool of the token `token_identity`: bonding, and empty.
pub fn initialize(token_identity: Identity) -> (pool: Pool)
    ensures
        pool@ == (PoolView {
            identity: token_identity,
            reserve_token: 0,
            reserve_base: 0,
            phase: Phase::Bonding,
        }),
        pool@.well_formed(),
{
    Pool::new(token_identity)
}

} // verus!
