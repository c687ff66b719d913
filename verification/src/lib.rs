//! Pricing core of a two-asset stable pool: invariant solver, swap and
//! liquidity arithmetic, amplification ramp, price oracle and reward index.

pub mod amp;
pub mod asset;
pub mod control;
pub mod convergence;
pub mod decimal;
pub mod error;
pub mod liquidity;
pub mod math;
pub mod oracle;
pub mod pool;
pub mod precision;
pub mod pricing;
pub mod reward;
pub mod state;
pub mod wide;
