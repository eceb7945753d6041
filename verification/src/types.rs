//! Value types the optimizer hands to and takes from its callers. Platform,
//! user and program identities are fixed 32-byte identifiers, held as plain
//! byte arrays.

use vstd::prelude::*;

use crate::strategy::YieldStrategy;

verus! {

/// A pre-execution estimate of yield and fees for a proposed stake amount
/// and strategy. Amounts are in the smallest unit; `strategy` is the
/// single-byte wire encoding.
#[derive(Clone, Copy, Debug, PartialEq, Eq, Structural)]
pub struct YieldOptimizerQuote {
    pub stake_amount: u64,
    pub estimated_annual_yield: u64,
    pub fee_amount: u64,
    pub strategy: u8,
}

/// Rebalancing configuration: the drift (in basis points) that triggers a
/// rebalance, the slippage cap, and the intended weight of each platform
/// (weights are meant to sum to 100; this is not enforced).
#[derive(Clone, Debug)]
pub struct RebalanceConfig {
    pub threshold_bps: u16,
    pub max_slippage_bps: u16,
    pub platform_weights: Vec<([u8; 32], u8)>,
}

/// Input parameters for an optimizer instruction.
#[derive(Clone, Debug)]
pub struct YieldOptimizerParams {
    pub amount: u64,
    pub strategy: YieldStrategy,
    pub min_expected_yield: u64,
    pub deadline: i64,
}

} // verus!
