use yield_optimizer::apy::weighted_apy;
use yield_optimizer::{StakedexYieldOptimizer, YieldOptimizer, YieldOptimizerError, YieldStrategy};

fn optimizer() -> StakedexYieldOptimizer {
    StakedexYieldOptimizer::new([9u8; 32], [7u8; 32])
}

fn custom(risk_factor: u8) -> YieldStrategy {
    YieldStrategy::Custom { risk_factor, rebalance_threshold: 0, max_platform_allocation: 0 }
}

#[test]
fn table_apys_per_strategy() {
    let o = optimizer();
    assert_eq!(o.calculate_apy_for_strategy(&YieldStrategy::Conservative), 450);
    assert_eq!(o.calculate_apy_for_strategy(&YieldStrategy::Balanced), (450 + 580 + 680) / 3);
    assert_eq!(o.calculate_apy_for_strategy(&YieldStrategy::Balanced), 570);
    assert_eq!(o.calculate_apy_for_strategy(&YieldStrategy::Aggressive), 680);
}

#[test]
fn custom_apy_interpolates() {
    let o = optimizer();
    // min + (max - min) * risk / 100, truncated to whole basis points
    assert_eq!(o.calculate_apy_for_strategy(&custom(0)), 450);
    assert_eq!(o.calculate_apy_for_strategy(&custom(50)), 450 + 230 * 50 / 100);
    assert_eq!(o.calculate_apy_for_strategy(&custom(100)), 680);
    assert_eq!(o.calculate_apy_for_strategy(&custom(33)), 450 + 230 * 33 / 100);
}

#[test]
fn quote_balanced_one_sol() {
    let o = optimizer();
    let q = o.get_yield_quote(1_000_000_000, &YieldStrategy::Balanced).unwrap();
    assert_eq!(q.stake_amount, 1_000_000_000);
    assert_eq!(q.estimated_annual_yield, 57_000_000);
    assert_eq!(q.fee_amount, 1_000_000);
    assert_eq!(q.strategy, 1);
}

#[test]
fn fee_is_one_tenth_percent_for_every_strategy() {
    let o = optimizer();
    for amount in [0u64, 1, 999, 1000, 1001, 123_456_789] {
        for strategy in [
            YieldStrategy::Conservative,
            YieldStrategy::Balanced,
            YieldStrategy::Aggressive,
            custom(42),
        ] {
            let q = o.get_yield_quote(amount, &strategy).unwrap();
            assert_eq!(q.fee_amount, amount / 1000);
        }
    }
}

#[test]
fn quote_rejects_unsupported_strategy() {
    let o = optimizer();
    let r = o.get_yield_quote(1_000, &custom(101));
    assert_eq!(r.unwrap_err(), YieldOptimizerError::InvalidStrategy);
}

#[test]
fn quote_large_amount_uses_wide_arithmetic() {
    let o = optimizer();
    let amount = u64::MAX;
    let q = o.get_yield_quote(amount, &YieldStrategy::Balanced).unwrap();
    let expected = (amount as u128 * 570 / 10000) as u64;
    assert_eq!(q.estimated_annual_yield, expected);
}

#[test]
fn weighted_apy_empty_table_is_zero() {
    let empty: Vec<u32> = Vec::new();
    assert_eq!(weighted_apy(&YieldStrategy::Conservative, &empty), 0);
    assert_eq!(weighted_apy(&YieldStrategy::Balanced, &empty), 0);
    assert_eq!(weighted_apy(&YieldStrategy::Aggressive, &empty), 0);
    assert_eq!(weighted_apy(&custom(80), &empty), 0);
}

#[test]
fn weighted_apy_truncates_mean() {
    let table = vec![1u32, 2u32];
    assert_eq!(weighted_apy(&YieldStrategy::Balanced, &table), 1);
}

#[test]
fn balanced_lies_between_min_and_max() {
    let tables = [vec![5u32], vec![100u32, 900u32], vec![3u32, 3u32, 3u32], vec![
        1u32, 10_000u32, 20u32, 7u32,
    ]];
    for table in tables {
        let lo = weighted_apy(&YieldStrategy::Conservative, &table);
        let mid = weighted_apy(&YieldStrategy::Balanced, &table);
        let hi = weighted_apy(&YieldStrategy::Aggressive, &table);
        assert!(lo <= mid);
        assert!(mid <= hi);
    }
}

#[test]
fn custom_apy_saturates_on_unvalidated_risk() {
    // risk_factor 255 on a wide table pushes past the maximum: the result
    // saturates at the interpolation formula's value, never wraps
    let table = vec![0u32, u32::MAX];
    let r = weighted_apy(&custom(255), &table);
    assert_eq!(r, (u32::MAX as u64 * 255 / 100).min(u32::MAX as u64) as u32);
}
