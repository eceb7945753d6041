//! The quote calculator's arithmetic: minimum, mean and maximum of a table of
//! platform APYs (in basis points), the weighted APY of each strategy, and the
//! annual-yield formula.

use vstd::prelude::*;
use vstd::arithmetic::div_mod::{lemma_div_is_ordered, lemma_div_multiples_vanish};
use vstd::arithmetic::mul::lemma_mul_inequality;

use crate::strategy::YieldStrategy;

verus! {

/// The smallest value in a table of APYs, or 0 when the table is empty.
pub open spec fn seq_min(s: Seq<u32>) -> u32
    decreases s.len(),
{
    if s.len() == 0 {
        0u32
    } else if s.len() == 1 {
        s[0]
    } else {
        let rest = seq_min(s.drop_last());
        if s.last() < rest {
            s.last()
        } else {
            rest
        }
    }
}

/// The largest value in a table of APYs, or 0 when the table is empty.
pub open spec fn seq_max(s: Seq<u32>) -> u32
    decreases s.len(),
{
    if s.len() == 0 {
        0u32
    } else if s.len() == 1 {
        s[0]
    } else {
        let rest = seq_max(s.drop_last());
        if s.last() > rest {
            s.last()
        } else {
            rest
        }
    }
}

/// The sum of a table of APYs, as an unbounded integer.
pub open spec fn seq_sum(s: Seq<u32>) -> int
    decreases s.len(),
{
    if s.len() == 0 {
        0int
    } else {
        seq_sum(s.drop_last()) + s.last()
    }
}

/// The APY a custom strategy settles on: linear interpolation between the
/// table's minimum and maximum, weighted by `risk_factor` out of 100 and
/// truncated to whole basis points, saturating at `u32::MAX` when called on
/// an unvalidated risk factor.
pub open spec fn spec_custom_apy(apys: Seq<u32>, risk_factor: u8) -> u32 {
    let lo = seq_min(apys) as int;
    let hi = seq_max(apys) as int;
    let v = lo + (hi - lo) * risk_factor / 100;
    if v > u32::MAX {
        u32::MAX
    } else {
        v as u32
    }
}

/// The APY each strategy settles on over a table of platform APYs:
/// Conservative takes the minimum, Balanced the truncated mean (0 for an
/// empty table), Aggressive the maximum, and Custom interpolates between the
/// extremes by its risk factor.
pub open spec fn spec_weighted_apy(strategy: YieldStrategy, apys: Seq<u32>) -> u32 {
    match strategy {
        YieldStrategy::Conservative => seq_min(apys),
        YieldStrategy::Balanced => if apys.len() == 0 {
            0u32
        } else {
            (seq_sum(apys) / (apys.len() as int)) as u32
        },
        YieldStrategy::Aggressive => seq_max(apys),
        YieldStrategy::Custom { risk_factor, .. } => spec_custom_apy(apys, risk_factor),
    }
}

/// The estimated annual yield for a stake: `amount * apy_bps / 10000`,
/// truncated to the low 64 bits exactly as the 128-bit computation followed
/// by a narrowing cast truncates it.
pub open spec fn spec_annual_yield(amount: u64, apy_bps: u32) -> u64 {
    (((amount as int) * (apy_bps as int) / 10000) % 0x1_0000_0000_0000_0000) as u64
}

/// The minimum of a table never exceeds its maximum.
pub proof fn lemma_min_le_max(s: Seq<u32>)
    ensures
        seq_min(s) <= seq_max(s),
    decreases s.len(),
{
    if s.len() > 1 {
        lemma_min_le_max(s.drop_last());
    }
}

/// The sum of a table lies between `len * min` and `len * max`.
pub proof fn lemma_sum_bounds(s: Seq<u32>)
    ensures
        (s.len() as int) * (seq_min(s) as int) <= seq_sum(s),
        seq_sum(s) <= (s.len() as int) * (seq_max(s) as int),
    decreases s.len(),
{
    if s.len() == 0 {
    } else if s.len() == 1 {
        assert(seq_sum(s) == seq_sum(s.drop_last()) + s.last());
        assert(s.drop_last().len() == 0);
    } else {
        let dl = s.drop_last();
        lemma_sum_bounds(dl);
        let n = s.len() as int;
        let last = s.last() as int;
        let lo = seq_min(s) as int;
        let hi = seq_max(s) as int;
        let lo_dl = seq_min(dl) as int;
        let hi_dl = seq_max(dl) as int;
        assert(lo <= lo_dl && lo <= last);
        assert(hi >= hi_dl && hi >= last);
        assert(n * lo <= (n - 1) * lo_dl + last) by (nonlinear_arith)
            requires
                lo <= lo_dl,
                lo <= last,
                n >= 2,
        ;
        assert((n - 1) * hi_dl + last <= n * hi) by (nonlinear_arith)
            requires
                hi >= hi_dl,
                hi >= last,
                n >= 2,
        ;
        assert(seq_sum(s) == seq_sum(dl) + last);
    }
}

/// The truncated mean of a non-empty table lies between its minimum and its
/// maximum.
pub proof fn lemma_mean_bounds(s: Seq<u32>)
    requires
        s.len() > 0,
    ensures
        seq_min(s) <= seq_sum(s) / (s.len() as int),
        seq_sum(s) / (s.len() as int) <= seq_max(s),
{
    let n = s.len() as int;
    let lo = seq_min(s) as int;
    let hi = seq_max(s) as int;
    lemma_sum_bounds(s);
    lemma_div_is_ordered(n * lo, seq_sum(s), n);
    lemma_div_is_ordered(seq_sum(s), n * hi, n);
    lemma_div_multiples_vanish(lo, n);
    lemma_div_multiples_vanish(hi, n);
}

/// The smallest value of a table, by one pass over it.
pub fn min_of(v: &Vec<u32>) -> (r: u32)
    ensures
        r == seq_min(v@),
{
    if v.len() == 0 {
        return 0;
    }
    let mut m: u32 = v[0];
    let mut i: usize = 1;
    proof {
        assert(v@.take(1int) =~= seq![v@[0]]);
    }
    while i < v.len()
        invariant
            1 <= i <= v@.len(),
            m == seq_min(v@.take(i as int)),
        decreases v@.len() - i,
    {
        let x = v[i];
        proof {
            assert(v@.take(i as int + 1).drop_last() =~= v@.take(i as int));
            assert(v@.take(i as int + 1).last() == v@[i as int]);
        }
        if x < m {
            m = x;
        }
        i += 1;
    }
    proof {
        assert(v@.take(v@.len() as int) =~= v@);
    }
    m
}

/// The largest value of a table, by one pass over it.
pub fn max_of(v: &Vec<u32>) -> (r: u32)
    ensures
        r == seq_max(v@),
{
    if v.len() == 0 {
        return 0;
    }
    let mut m: u32 = v[0];
    let mut i: usize = 1;
    proof {
        assert(v@.take(1int) =~= seq![v@[0]]);
    }
    while i < v.len()
        invariant
            1 <= i <= v@.len(),
            m == seq_max(v@.take(i as int)),
        decreases v@.len() - i,
    {
        let x = v[i];
        proof {
            assert(v@.take(i as int + 1).drop_last() =~= v@.take(i as int));
            assert(v@.take(i as int + 1).last() == v@[i as int]);
        }
        if x > m {
            m = x;
        }
        i += 1;
    }
    proof {
        assert(v@.take(v@.len() as int) =~= v@);
    }
    m
}

/// The sum of a table, accumulated in 128 bits so that no length a `Vec` can
/// reach overflows it.
pub fn sum_of(v: &Vec<u32>) -> (r: u128)
    ensures
        r == seq_sum(v@),
{
    let mut acc: u128 = 0;
    let mut i: usize = 0;
    while i < v.len()
        invariant
            0 <= i <= v@.len(),
            acc == seq_sum(v@.take(i as int)),
            acc <= (i as int) * 0x1_0000_0000,
        decreases v@.len() - i,
    {
        let x = v[i];
        proof {
            assert(v@.take(i as int + 1).drop_last() =~= v@.take(i as int));
            assert(v@.take(i as int + 1).last() == v@[i as int]);
        }
        acc = acc + (x as u128);
        i += 1;
    }
    proof {
        assert(v@.take(v@.len() as int) =~= v@);
    }
    acc
}

/// The APY a strategy settles on over a table of platform APYs, as
/// `spec_weighted_apy` states it: minimum for Conservative, truncated mean
/// for Balanced, maximum for Aggressive, and the risk-weighted interpolation
/// between minimum and maximum for Custom. An empty table gives 0 for every
/// strategy.
pub fn weighted_apy(strategy: &YieldStrategy, apys: &Vec<u32>) -> (r: u32)
    ensures
        r == spec_weighted_apy(*strategy, apys@),
{
    match strategy {
        YieldStrategy::Conservative => min_of(apys),
        YieldStrategy::Balanced => {
            if apys.len() == 0 {
                0
            } else {
                let sum = sum_of(apys);
                proof {
                    lemma_mean_bounds(apys@);
                    lemma_sum_bounds(apys@);
                }
                (sum / (apys.len() as u128)) as u32
            }
        },
        YieldStrategy::Aggressive => max_of(apys),
        YieldStrategy::Custom { risk_factor, .. } => {
            let lo = min_of(apys);
            let hi = max_of(apys);
            proof {
                lemma_min_le_max(apys@);
            }
            let diff: u32 = hi - lo;
            proof {
                assert((diff as int) * (*risk_factor as int) <= 0xffff_ffff * 255) by (nonlinear_arith)
                    requires
                        diff <= 0xffff_ffffu32,
                        *risk_factor <= 255u8,
                ;
            }
            let scaled: u64 = (diff as u64) * (*risk_factor as u64) / 100;
            let wide: u64 = (lo as u64) + scaled;
            if wide > 0xffff_ffff {
                u32::MAX
            } else {
                wide as u32
            }
        },
    }
}

} // verus!
