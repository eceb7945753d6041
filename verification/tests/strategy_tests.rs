use yield_optimizer::strategy::{encode, is_supported};
use yield_optimizer::YieldStrategy;

fn custom(risk_factor: u8, rebalance_threshold: u16, max_platform_allocation: u8) -> YieldStrategy {
    YieldStrategy::Custom { risk_factor, rebalance_threshold, max_platform_allocation }
}

#[test]
fn encode_fixed_strategies() {
    assert_eq!(encode(&YieldStrategy::Conservative), 0);
    assert_eq!(encode(&YieldStrategy::Balanced), 1);
    assert_eq!(encode(&YieldStrategy::Aggressive), 2);
}

#[test]
fn encode_custom_offsets_from_128() {
    assert_eq!(encode(&custom(0, 0, 0)), 128);
    assert_eq!(encode(&custom(100, 0, 0)), 228);
}

#[test]
fn encode_custom_saturates_instead_of_wrapping() {
    assert_eq!(encode(&custom(200, 0, 0)), 255);
    assert_eq!(encode(&custom(255, 0, 0)), 255);
    assert_eq!(encode(&custom(127, 0, 0)), 255);
    assert_eq!(encode(&custom(128, 0, 0)), 255);
}

#[test]
fn fixed_strategies_supported_when_active() {
    assert!(is_supported(&YieldStrategy::Conservative, true));
    assert!(is_supported(&YieldStrategy::Balanced, true));
    assert!(is_supported(&YieldStrategy::Aggressive, true));
}

#[test]
fn nothing_supported_when_inactive() {
    assert!(!is_supported(&YieldStrategy::Conservative, false));
    assert!(!is_supported(&YieldStrategy::Balanced, false));
    assert!(!is_supported(&YieldStrategy::Aggressive, false));
    assert!(!is_supported(&custom(0, 0, 0), false));
}

#[test]
fn custom_bounds_are_inclusive() {
    assert!(is_supported(&custom(100, 1000, 100), true));
    assert!(is_supported(&custom(0, 0, 0), true));
}

#[test]
fn custom_out_of_bounds_rejected() {
    assert!(!is_supported(&custom(101, 0, 0), true));
    assert!(!is_supported(&custom(0, 1001, 0), true));
    assert!(!is_supported(&custom(0, 0, 101), true));
}
