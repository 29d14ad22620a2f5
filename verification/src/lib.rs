//! A constant-product bonding-curve pool for a fair token launch.
//!
//! A pool holds a reserve of a project token and a reserve of a base
//! currency. While it is bonding, anyone may trade one for the other at the
//! price its reserves imply. Once it graduates, its liquidity is handed to an
//! external automated market maker and the pool is closed for good.
//!
//! The library decides and accounts; it moves no funds itself. Every
//! operation either succeeds and reports what the caller has to settle, or
//! fails and leaves the pool as it was.

pub mod errors;
pub mod instructions;
pub mod laws;
pub mod pricing;
pub mod state;

pub use crate::instructions::add_liquidity::add_liquidity;
pub use crate::instructions::initialize::initialize;
pub use crate::instructions::remove_liquidity::remove_liquidity;
pub use crate::instructions::swap::swap;
