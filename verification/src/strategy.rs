//! The strategy catalog: the set of yield strategies, the predicate that says
//! which of them the optimizer accepts, and the single-byte encoding used in
//! the on-chain wire format.

use vstd::prelude::*;

verus! {

/// A policy selecting how yield-seeking behaviour is weighted across the
/// available platforms.
#[derive(Clone, Debug, PartialEq, Eq, Structural)]
pub enum YieldStrategy {
    /// Lower APY but a safer profile: follows the weakest platform.
    Conservative,
    /// Moderate risk/reward: follows the average of all platforms.
    Balanced,
    /// Seeks the highest yield at higher risk: follows the strongest platform.
    Aggressive,
    /// A custom risk profile, interpolating between the extremes.
    Custom {
        risk_factor: u8,
        rebalance_threshold: u16,
        max_platform_allocation: u8,
    },
}

/// Whether a strategy is acceptable: the three fixed strategies always are,
/// a custom one only when its parameters stay within bounds, and nothing is
/// when the optimizer is inactive.
pub open spec fn spec_is_supported(strategy: YieldStrategy, active: bool) -> bool {
    active && match strategy {
        YieldStrategy::Conservative => true,
        YieldStrategy::Balanced => true,
        YieldStrategy::Aggressive => true,
        YieldStrategy::Custom { risk_factor, rebalance_threshold, max_platform_allocation } =>
            risk_factor <= 100 && rebalance_threshold <= 1000 && max_platform_allocation <= 100,
    }
}

/// The single-byte wire encoding of a strategy: the fixed strategies take the
/// low discriminants, custom strategies occupy the range from 128 up,
/// saturating at 255.
pub open spec fn spec_encode(strategy: YieldStrategy) -> u8 {
    match strategy {
        YieldStrategy::Conservative => 0u8,
        YieldStrategy::Balanced => 1u8,
        YieldStrategy::Aggressive => 2u8,
        YieldStrategy::Custom { risk_factor, .. } =>
            if risk_factor > 127 { 255u8 } else { (128 + risk_factor) as u8 },
    }
}

/// Validation predicate over strategies: false whenever the optimizer is not
/// active, always true for the three fixed strategies when it is, and true
/// for a custom strategy exactly when `risk_factor <= 100`,
/// `rebalance_threshold <= 1000` and `max_platform_allocation <= 100`.
pub fn is_supported(strategy: &YieldStrategy, active: bool) -> (r: bool)
    ensures
        r == spec_is_supported(*strategy, active),
{
    if !active {
        return false;
    }
    match strategy {
        YieldStrategy::Conservative | YieldStrategy::Balanced | YieldStrategy::Aggressive => true,
        YieldStrategy::Custom { risk_factor, rebalance_threshold, max_platform_allocation } => {
            *risk_factor <= 100 && *rebalance_threshold <= 1000 && *max_platform_allocation <= 100
        },
    }
}

/// Encode a strategy as one byte: Conservative is 0, Balanced 1, Aggressive 2,
/// and `Custom { risk_factor }` is `128 + risk_factor`, saturating at 255
/// rather than wrapping when called on an unvalidated value.
pub fn encode(strategy: &YieldStrategy) -> (r: u8)
    ensures
        r == spec_encode(*strategy),
{
    match strategy {
        YieldStrategy::Conservative => 0,
        YieldStrategy::Balanced => 1,
        YieldStrategy::Aggressive => 2,
        YieldStrategy::Custom { risk_factor, .. } => {
            if *risk_factor > 127 {
                255
            } else {
                128 + *risk_factor
            }
        },
    }
}

} // verus!
