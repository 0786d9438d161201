//! Reward accounting and stake lifecycle for a single-asset staking pool.
//!
//! Rewards are folded into a fixed-point accumulator (`WAD`-scaled reward per
//! staked unit); a position's claimable reward is derived from the difference
//! between the pool's accumulator and the position's snapshot of it.
pub mod error;
pub mod math;
pub mod state;
pub mod rewards;
pub mod lifecycle;
pub mod setup;
pub mod fee;
pub mod laws;
