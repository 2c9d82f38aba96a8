//! A fixed-term staking ledger: positions, pooled balances, fixed-rate
//! interest and early-exit penalties, with reentrancy, cooldown and
//! whitelist guards. Every handler is one atomic transition: on failure it
//! leaves its context exactly as it found it.
pub mod state;
pub mod calc;
pub mod program;
pub mod laws;
