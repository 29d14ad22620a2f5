//! The reserve ledger: a pool's two reserves and its phase.

use vstd::prelude::*;
use crate::errors::PoolError;

verus! {

/// A 32-byte identity of a token, a pool or a custody account.
#[derive(Clone, Copy, Debug, PartialEq, Eq)]
pub struct Identity {
    pub bytes: [u8; 32],
}

/// Where a pool stands in its life.
#[derive(Clone, Copy, Debug, PartialEq, Eq, Structural)]
pub enum Phase {
    /// Open for deposits and swaps.
    Bonding,
    /// Drained into the external market maker; closed for good.
    Migrated,
}

/// The mathematical content of a [`Pool`].
pub ghost struct PoolView {
    pub identity: Identity,
    pub reserve_token: nat,
    pub reserve_base: nat,
    pub phase: Phase,
}

impl PoolView {
    /// The product of the two reserves, which prices every swap.
    pub open spec fn product(self) -> nat {
        self.reserve_token * self.reserve_base
    }

    /// What holds of every pool: its reserves fit in 64 bits, and once it is
    /// migrated it holds nothing.
    pub open spec fn well_formed(self) -> bool {
        &&& self.reserve_token <= u64::MAX
        &&& self.reserve_base <= u64::MAX
        &&& self.phase == Phase::Migrated ==> self.reserve_token == 0 && self.reserve_base == 0
    }

    /// This pool with other reserves.
    pub open spec fn with_reserves(self, reserve_token: nat, reserve_base: nat) -> PoolView {
        PoolView { reserve_token, reserve_base, ..self }
    }

    /// This pool, emptied and closed.
    pub open spec fn migrated(self) -> PoolView {
        PoolView { reserve_token: 0, reserve_base: 0, phase: Phase::Migrated, ..self }
    }
}

/// An instruction to the custodian: pay `amount` of base currency out of the
/// pool's custody to `destination`.
#[derive(Clone, Copy, Debug, PartialEq, Eq)]
pub struct BaseTransfer {
    pub destination: Identity,
    pub amount: u64,
}

/// A bonding-curve pool. One exists per token, named by the token's identity.
#[derive(Clone, Copy, Debug, PartialEq, Eq)]
pub struct Pool {
    identity: Identity,
    reserve_token: u64,
    reserve_base: u64,
    phase: Phase,
}

impl View for Pool {
    type V = PoolView;

    closed spec fn view(&self) -> PoolView {
        PoolView {
            identity: self.identity,
            reserve_token: self.reserve_token as nat,
            reserve_base: self.reserve_base as nat,
            phase: self.phase,
        }
    }
}

impl Pool {
    /// A migrated pool holds nothing.
    #[verifier::type_invariant]
    closed spec fn closed_means_empty(self) -> bool {
        self.phase == Phase::Migrated ==> self.reserve_token == 0 && self.reserve_base == 0
    }

    /// A fresh pool for the token `identity`: bonding, with both reserves zero.
    pub fn new(identity: Identity) -> (pool: Pool)
        ensures
            pool@ == (PoolView { identity, reserve_token: 0, reserve_base: 0, phase: Phase::Bonding }),
            pool@.well_formed(),
    {
        Pool { identity, reserve_token: 0, reserve_base: 0, phase: Phase::Bonding }
    }

    /// A pool as it was stored: `None` where the parts name a migrated pool
    /// that still holds something, which no pool ever is.
    pub fn load(identity: Identity, reserve_token: u64, reserve_base: u64, phase: Phase) -> (pool:
        Option<Pool>)
        ensures
            pool.is_some() <==> (phase == Phase::Migrated ==> reserve_token == 0 && reserve_base
                == 0),
            pool matches Some(p) ==> p@.well_formed() && p@ == (PoolView {
                identity,
                reserve_token: reserve_token as nat,
                reserve_base: reserve_base as nat,
                phase,
            }),
    {
        match phase {
            Phase::Bonding => Some(Pool { identity, reserve_token, reserve_base, phase }),
            Phase::Migrated => {
                if reserve_token == 0 && reserve_base == 0 {
                    Some(Pool { identity, reserve_token, reserve_base, phase })
                } else {
                    None
                }
            },
        }
    }

    /// The token this pool belongs to.
    pub fn identity(&self) -> (id: Identity)
        ensures
            id == self@.identity,
    {
        self.identity
    }

    /// The project tokens the pool holds.
    pub fn reserve_token(&self) -> (amount: u64)
        ensures
            amount == self@.reserve_token,
    {
        self.reserve_token
    }

    /// The base currency the pool holds.
    pub fn reserve_base(&self) -> (amount: u64)
        ensures
            amount == self@.reserve_base,
    {
        self.reserve_base
    }

    /// The pool's phase.
    pub fn phase(&self) -> (phase: Phase)
        ensures
            phase == self@.phase,
    {
        self.phase
    }

    /// Whether the pool has been migrated. Whatever its history, the pool is
    /// well formed.
    pub fn is_migrated(&self) -> (closed: bool)
        ensures
            closed == (self@.phase == Phase::Migrated),
            self@.well_formed(),
    {
        proof {
            use_type_invariant(self);
        }
        match self.phase {
            Phase::Bonding => false,
            Phase::Migrated => true,
        }
    }

    /// Sets both reserves at once. A migrated pool refuses.
    pub fn update_reserves(&mut self, new_token: u64, new_base: u64) -> (result: Result<(), PoolError>)
        ensures
            old(self)@.phase == Phase::Migrated ==> result == Err::<(), PoolError>(
                PoolError::AlreadyMigrated,
            ) && final(self)@ == old(self)@,
            old(self)@.phase == Phase::Bonding ==> result == Ok::<(), PoolError>(())
                && final(self)@ == old(self)@.with_reserves(new_token as nat, new_base as nat),
            final(self)@.well_formed(),
    {
        if self.is_migrated() {
            return Err(PoolError::AlreadyMigrated);
        }
        self.reserve_token = new_token;
        self.reserve_base = new_base;
        Ok(())
    }

    /// Takes `amount` of base currency out of the pool for `destination`.
    ///
    /// A migrated pool refuses; a bonding pool refuses to pay more than it
    /// holds. Otherwise the base reserve falls by exactly `amount` and the
    /// transfer to carry out is returned.
    pub fn transfer_base_from_pool(&mut self, destination: Identity, amount: u64) -> (result: Result<
        BaseTransfer,
        PoolError,
    >)
        ensures
            result == base_transfer_outcome(old(self)@, destination, amount),
            final(self)@ == after_base_transfer(old(self)@, amount),
            final(self)@.well_formed(),
    {
        if self.is_migrated() {
            return Err(PoolError::AlreadyMigrated);
        }
        if amount > self.reserve_base {
            return Err(PoolError::InsufficientReserve);
        }
        self.reserve_base = self.reserve_base - amount;
        Ok(BaseTransfer { destination, amount })
    }

    /// Closes an emptied pool for good.
    pub(crate) fn close(&mut self)
        requires
            old(self)@.reserve_token == 0,
            old(self)@.reserve_base == 0,
        ensures
            final(self)@ == old(self)@.migrated(),
            final(self)@.well_formed(),
    {
        self.phase = Phase::Migrated;
    }
}

/// What a request to pay `amount` of base currency out of `pool` returns.
pub open spec fn base_transfer_outcome(pool: PoolView, destination: Identity, amount: u64) -> Result<
    BaseTransfer,
    PoolError,
> {
    if pool.phase == Phase::Migrated {
        Err(PoolError::AlreadyMigrated)
    } else if amount > pool.reserve_base {
        Err(PoolError::InsufficientReserve)
    } else {
        Ok(BaseTransfer { destination, amount })
    }
}

/// The pool after a request to pay `amount` of base currency out of it:
/// unchanged where the request is refused.
pub open spec fn after_base_transfer(pool: PoolView, amount: u64) -> PoolView {
    if pool.phase == Phase::Bonding && amount <= pool.reserve_base {
        pool.with_reserves(pool.reserve_token, (pool.reserve_base - amount) as nat)
    } else {
        pool
    }
}

} // verus!
