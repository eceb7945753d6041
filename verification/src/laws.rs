//! Properties of the quote calculator that relate the strategies to one
//! another, stated over the same spec functions the method contracts use.

use vstd::prelude::*;
use vstd::arithmetic::div_mod::{lemma_div_is_ordered, lemma_div_multiples_vanish};

use crate::apy::{
    lemma_mean_bounds, lemma_min_le_max, seq_max, seq_min, spec_weighted_apy,
};
use crate::strategy::{spec_is_supported, YieldStrategy};

verus! {

/// An inactive optimizer supports no strategy at all, whatever the strategy.
pub proof fn lemma_inactive_supports_nothing(strategy: YieldStrategy)
    ensures
        !spec_is_supported(strategy, false),
{
}

/// On every non-empty platform table the balanced APY lies between the
/// conservative and the aggressive APY: the truncated mean of the table is
/// at least its minimum and at most its maximum. (No ordering holds between
/// Balanced and the other strategies beyond these bounds.)
pub proof fn lemma_balanced_between_min_and_max(apys: Seq<u32>)
    requires
        apys.len() > 0,
    ensures
        spec_weighted_apy(YieldStrategy::Conservative, apys) <= spec_weighted_apy(
            YieldStrategy::Balanced,
            apys,
        ),
        spec_weighted_apy(YieldStrategy::Balanced, apys) <= spec_weighted_apy(
            YieldStrategy::Aggressive,
            apys,
        ),
{
    lemma_mean_bounds(apys);
}

/// A custom strategy's APY interpolates linearly between the table's
/// extremes: for `risk_factor <= 100` it equals
/// `min + (max - min) * risk_factor / 100` exactly (no saturation can
/// occur), so risk factor 0 gives the conservative APY and risk factor 100
/// the aggressive one.
pub proof fn lemma_custom_interpolates(
    apys: Seq<u32>,
    risk_factor: u8,
    rebalance_threshold: u16,
    max_platform_allocation: u8,
)
    requires
        risk_factor <= 100,
    ensures
        ({
            let custom = YieldStrategy::Custom {
                risk_factor,
                rebalance_threshold,
                max_platform_allocation,
            };
            let lo = seq_min(apys) as int;
            let hi = seq_max(apys) as int;
            &&& spec_weighted_apy(custom, apys) == lo + (hi - lo) * risk_factor / 100
            &&& (risk_factor == 0 ==> spec_weighted_apy(custom, apys) == spec_weighted_apy(
                YieldStrategy::Conservative,
                apys,
            ))
            &&& (risk_factor == 100 ==> spec_weighted_apy(custom, apys) == spec_weighted_apy(
                YieldStrategy::Aggressive,
                apys,
            ))
        }),
{
    let lo = seq_min(apys) as int;
    let hi = seq_max(apys) as int;
    lemma_min_le_max(apys);
    let d = hi - lo;
    assert(d * risk_factor <= d * 100 && 0 <= d * risk_factor) by (nonlinear_arith)
        requires
            0 <= d,
            risk_factor <= 100,
    ;
    lemma_div_is_ordered(d * risk_factor, d * 100, 100);
    assert(d * 100 == 100 * d);
    lemma_div_multiples_vanish(d, 100);
    assert(d * risk_factor / 100 <= d);
    if risk_factor == 0 {
        assert(d * 0 == 0);
        assert(0int / 100 == 0);
    }
    if risk_factor == 100 {
        assert(d * risk_factor / 100 == d);
    }
}

} // verus!
