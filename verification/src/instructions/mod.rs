//! The operations a caller may invoke on a pool.

pub mod add_liquidity;
pub mod initialize;
pub mod remove_liquidity;
pub mod swap;
