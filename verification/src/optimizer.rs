//! The optimizer: a platform-APY table populated once at construction, a
//! strategy validation predicate, a quote calculator, and the builder for
//! the on-chain optimize instruction.

use vstd::prelude::*;

use crate::apy::{spec_weighted_apy, weighted_apy};
use crate::errors::YieldOptimizerError;
use crate::instruction::{build_instruction, InstructionDescriptor};
use crate::interface::YieldOptimizer;
use crate::pda::{pda_lookup, position_seed_tag, spec_position_seed_tag, try_find_pda};
use crate::strategy::{encode, is_supported, spec_encode, YieldStrategy};
use crate::types::{RebalanceConfig, YieldOptimizerQuote};

verus! {

/// A 32-byte identifier with every byte equal to `b`: the placeholder
/// platform identifiers of the hardcoded table.
pub open spec fn spec_filled_id(b: u8) -> Seq<u8> {
    Seq::new(32, |i: int| b)
}

/// A yield optimizer holding one program identity, one admin authority, a
/// table of supported platforms with their current APYs in basis points,
/// and a rebalance configuration. The table is placeholder data populated
/// once at construction; a full implementation would refresh it from
/// on-chain state.
pub struct StakedexYieldOptimizer {
    program_id: [u8; 32],
    platform_apys: Vec<([u8; 32], u32)>,
    rebalance_config: RebalanceConfig,
    authority: [u8; 32],
    is_active: bool,
}

impl StakedexYieldOptimizer {
    /// The optimizer's admin authority.
    pub closed spec fn spec_authority(&self) -> [u8; 32] {
        self.authority
    }

    /// The platform table as (identifier, APY) pairs, in insertion order.
    pub closed spec fn spec_table(&self) -> Seq<([u8; 32], u32)> {
        self.platform_apys@
    }

    /// The rebalance configuration as (threshold, slippage cap, weights).
    pub closed spec fn spec_rebalance_config(&self) -> (u16, u16, Seq<([u8; 32], u8)>) {
        (
            self.rebalance_config.threshold_bps,
            self.rebalance_config.max_slippage_bps,
            self.rebalance_config.platform_weights@,
        )
    }

    /// Construct an optimizer for a program and authority. The platform
    /// table and rebalance configuration are fixed placeholder values: three
    /// platforms with identifiers filled with 1, 2 and 3 at 450, 580 and 680
    /// basis points, rebalancing at 50 bps drift with a 30 bps slippage cap
    /// and weights 30/40/30. The optimizer starts active.
    pub fn new(program_id: [u8; 32], authority: [u8; 32]) -> (r: Self)
        ensures
            r.spec_program_id() == program_id,
            r.spec_authority() == authority,
            r.spec_active(),
            r.spec_apys() == seq![450u32, 580u32, 680u32],
            r.spec_platform_ids().len() == 3,
            r.spec_platform_ids()[0]@ == spec_filled_id(1),
            r.spec_platform_ids()[1]@ == spec_filled_id(2),
            r.spec_platform_ids()[2]@ == spec_filled_id(3),
            r.spec_rebalance_config().0 == 50u16,
            r.spec_rebalance_config().1 == 30u16,
            r.spec_rebalance_config().2.len() == 3,
            r.spec_rebalance_config().2[0].0@ == spec_filled_id(1),
            r.spec_rebalance_config().2[0].1 == 30u8,
            r.spec_rebalance_config().2[1].0@ == spec_filled_id(2),
            r.spec_rebalance_config().2[1].1 == 40u8,
            r.spec_rebalance_config().2[2].0@ == spec_filled_id(3),
            r.spec_rebalance_config().2[2].1 == 30u8,
    {
        let mut platform_apys: Vec<([u8; 32], u32)> = Vec::new();
        platform_apys.push(([1u8; 32], 450));
        platform_apys.push(([2u8; 32], 580));
        platform_apys.push(([3u8; 32], 680));

        let mut platform_weights: Vec<([u8; 32], u8)> = Vec::new();
        platform_weights.push(([1u8; 32], 30));
        platform_weights.push(([2u8; 32], 40));
        platform_weights.push(([3u8; 32], 30));
        let rebalance_config = RebalanceConfig {
            threshold_bps: 50,
            max_slippage_bps: 30,
            platform_weights,
        };

        let r = StakedexYieldOptimizer {
            program_id,
            platform_apys,
            rebalance_config,
            authority,
            is_active: true,
        };
        proof {
            assert(r.spec_apys() =~= seq![450u32, 580u32, 680u32]);
            assert(r.spec_platform_ids()[0]@ =~= spec_filled_id(1));
            assert(r.spec_platform_ids()[1]@ =~= spec_filled_id(2));
            assert(r.spec_platform_ids()[2]@ =~= spec_filled_id(3));
            assert(r.spec_rebalance_config().2[0].0@ =~= spec_filled_id(1));
            assert(r.spec_rebalance_config().2[1].0@ =~= spec_filled_id(2));
            assert(r.spec_rebalance_config().2[2].0@ =~= spec_filled_id(3));
        }
        r
    }

    /// The APYs of the table as a fresh vector, in insertion order.
    fn apy_values(&self) -> (r: Vec<u32>)
        ensures
            r@ == self.spec_apys(),
    {
        let mut values: Vec<u32> = Vec::new();
        let mut i: usize = 0;
        while i < self.platform_apys.len()
            invariant
                0 <= i <= self.platform_apys@.len(),
                values@ =~= self.spec_apys().take(i as int),
            decreases self.platform_apys@.len() - i,
        {
            values.push(self.platform_apys[i].1);
            i += 1;
        }
        proof {
            assert(self.spec_apys().take(self.spec_apys().len() as int) =~= self.spec_apys());
        }
        values
    }

    /// The APY the given strategy settles on over this optimizer's platform
    /// table: the table's minimum for Conservative, its truncated mean for
    /// Balanced, its maximum for Aggressive, and the risk-weighted
    /// interpolation between minimum and maximum for Custom.
    pub fn calculate_apy_for_strategy(&self, strategy: &YieldStrategy) -> (r: u32)
        ensures
            r == spec_weighted_apy(*strategy, self.spec_apys()),
    {
        let values = self.apy_values();
        weighted_apy(strategy, &values)
    }

    /// Encode a strategy as its single wire byte: Conservative 0, Balanced
    /// 1, Aggressive 2, and 128 plus the risk factor for Custom, saturating
    /// at 255.
    pub fn encode_strategy(&self, strategy: &YieldStrategy) -> (r: u8)
        ensures
            r == spec_encode(*strategy),
    {
        encode(strategy)
    }

    /// Derive the yield-position address of a user under this optimizer's
    /// program: the standard program-derived-address search over the seeds
    /// `["yield_position", user]`. Deterministic: the same user and program
    /// always give the same address and bump; `None` only in the
    /// statistically improbable case that the search fails.
    pub fn find_yield_position_pda(&self, user: &[u8; 32]) -> (r: Option<([u8; 32], u8)>)
        ensures
            match r {
                Some(p) => pda_lookup(spec_position_seed_tag(), user@, self.spec_program_id()@)
                    == Some((p.0@, p.1)),
                None => pda_lookup(spec_position_seed_tag(), user@, self.spec_program_id()@)
                    is None,
            },
    {
        let tag = position_seed_tag();
        try_find_pda(&tag, user, &self.program_id)
    }
}

impl YieldOptimizer for StakedexYieldOptimizer {
    closed spec fn spec_active(&self) -> bool {
        self.is_active
    }

    open spec fn spec_apys(&self) -> Seq<u32> {
        self.spec_table().map_values(|p: ([u8; 32], u32)| p.1)
    }

    open spec fn spec_platform_ids(&self) -> Seq<[u8; 32]> {
        self.spec_table().map_values(|p: ([u8; 32], u32)| p.0)
    }

    closed spec fn spec_program_id(&self) -> [u8; 32] {
        self.program_id
    }

    fn supports_strategy(&self, strategy: &YieldStrategy) -> (r: bool) {
        is_supported(strategy, self.is_active)
    }

    fn get_yield_quote(&self, amount: u64, strategy: &YieldStrategy) -> (r: Result<
        YieldOptimizerQuote,
        YieldOptimizerError,
    >) {
        if !self.supports_strategy(strategy) {
            return Err(YieldOptimizerError::InvalidStrategy);
        }

        let apy_bps = self.calculate_apy_for_strategy(strategy);

        proof {
            assert((amount as int) * (apy_bps as int) <= 0xffff_ffff_ffff_ffff * 0xffff_ffff)
                by (nonlinear_arith)
                requires
                    amount <= 0xffff_ffff_ffff_ffffu64,
                    apy_bps <= 0xffff_ffffu32,
            ;
        }
        let wide: u128 = (amount as u128) * (apy_bps as u128) / 10000;
        let annual_yield: u64 = (wide % 0x1_0000_0000_0000_0000) as u64;

        let fee_amount = amount / 1000;

        Ok(
            YieldOptimizerQuote {
                stake_amount: amount,
                estimated_annual_yield: annual_yield,
                fee_amount,
                strategy: self.encode_strategy(strategy),
            },
        )
    }

    fn optimize_ix(&self, amount: u64, strategy: &YieldStrategy, user: &[u8; 32]) -> (r: Result<
        InstructionDescriptor,
        YieldOptimizerError,
    >) {
        if !self.supports_strategy(strategy) {
            return Err(YieldOptimizerError::InvalidStrategy);
        }

        match self.find_yield_position_pda(user) {
            None => Err(YieldOptimizerError::StrategyUnavailable),
            Some((position_pda, _bump)) => Ok(
                build_instruction(amount, strategy, user, &position_pda, &self.program_id),
            ),
        }
    }

    fn accounts_len(&self, strategy: &YieldStrategy) -> (r: usize) {
        let base_len: usize = 3;
        match strategy {
            YieldStrategy::Conservative => base_len + 1,
            YieldStrategy::Balanced => base_len + 2,
            YieldStrategy::Aggressive => base_len + 1,
            YieldStrategy::Custom { .. } => base_len + self.platform_apys.len(),
        }
    }

    fn active_platforms(&self) -> (r: Vec<[u8; 32]>) {
        let mut ids: Vec<[u8; 32]> = Vec::new();
        let mut i: usize = 0;
        while i < self.platform_apys.len()
            invariant
                0 <= i <= self.platform_apys@.len(),
                ids@ =~= self.spec_platform_ids().take(i as int),
            decreases self.platform_apys@.len() - i,
        {
            ids.push(self.platform_apys[i].0);
            i += 1;
        }
        proof {
            assert(self.spec_platform_ids().take(self.spec_platform_ids().len() as int)
                =~= self.spec_platform_ids());
        }
        ids
    }
}

} // verus!
