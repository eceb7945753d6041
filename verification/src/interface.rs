//! The yield-optimizer interface: what any optimizer implementation owes its
//! callers, stated as contracts over the implementation's activity flag,
//! platform table and program identity.

use vstd::prelude::*;

use crate::apy::{spec_annual_yield, spec_weighted_apy};
use crate::errors::YieldOptimizerError;
use crate::instruction::{spec_payload, InstructionDescriptor};
use crate::pda::{pda_lookup, spec_position_seed_tag};
use crate::strategy::{spec_encode, spec_is_supported, YieldStrategy};
use crate::types::YieldOptimizerQuote;

verus! {

/// A yield-optimization implementation: strategy validation, quoting, and
/// instruction building over a table of platform APYs.
pub trait YieldOptimizer {
    /// Whether the optimizer currently accepts strategies.
    spec fn spec_active(&self) -> bool;

    /// The APYs of the platform table, in basis points.
    spec fn spec_apys(&self) -> Seq<u32>;

    /// The platform identifiers of the table.
    spec fn spec_platform_ids(&self) -> Seq<[u8; 32]>;

    /// The optimizer's program identity.
    spec fn spec_program_id(&self) -> [u8; 32];

    /// Whether the optimizer accepts a strategy: nothing when inactive; the
    /// three fixed strategies always when active; a custom strategy exactly
    /// when `risk_factor <= 100`, `rebalance_threshold <= 1000` and
    /// `max_platform_allocation <= 100`.
    fn supports_strategy(&self, strategy: &YieldStrategy) -> (r: bool)
        ensures
            r == spec_is_supported(*strategy, self.spec_active()),
    ;

    /// Quote a proposed stake: `Err(InvalidStrategy)` exactly when the
    /// strategy is unsupported; otherwise the stake amount unchanged, the
    /// annual yield `amount * apy / 10000` truncated to 64 bits (exact
    /// whenever the quotient fits), the fee `amount / 1000`, and the
    /// strategy's wire byte.
    fn get_yield_quote(&self, amount: u64, strategy: &YieldStrategy) -> (r: Result<
        YieldOptimizerQuote,
        YieldOptimizerError,
    >)
        ensures
            r is Ok <==> spec_is_supported(*strategy, self.spec_active()),
            r is Err ==> r->Err_0 == YieldOptimizerError::InvalidStrategy,
            r is Ok ==> ({
                let q = r->Ok_0;
                &&& q.stake_amount == amount
                &&& q.estimated_annual_yield == spec_annual_yield(
                    amount,
                    spec_weighted_apy(*strategy, self.spec_apys()),
                )
                &&& q.fee_amount == amount / 1000
                &&& q.strategy == spec_encode(*strategy)
            }),
            r is Ok && (amount as int) * (spec_weighted_apy(*strategy, self.spec_apys()) as int)
                / 10000 <= u64::MAX ==> r->Ok_0.estimated_annual_yield == (amount as int)
                * (spec_weighted_apy(*strategy, self.spec_apys()) as int) / 10000,
    ;

    /// Build the instruction executing a strategy for a user:
    /// `Err(InvalidStrategy)` exactly when the strategy is unsupported,
    /// `Err(StrategyUnavailable)` in the statistically improbable case that
    /// no position address can be derived, and otherwise the descriptor with
    /// the fixed account list [user (writable, signer); derived position
    /// address (writable); system program (read-only)] and the payload
    /// `[0, encoded strategy, amount in little-endian]`.
    fn optimize_ix(&self, amount: u64, strategy: &YieldStrategy, user: &[u8; 32]) -> (r: Result<
        InstructionDescriptor,
        YieldOptimizerError,
    >)
        ensures
            r is Ok <==> spec_is_supported(*strategy, self.spec_active()) && pda_lookup(
                spec_position_seed_tag(),
                user@,
                self.spec_program_id()@,
            ) is Some,
            !spec_is_supported(*strategy, self.spec_active()) ==> r->Err_0
                == YieldOptimizerError::InvalidStrategy,
            r is Err && spec_is_supported(*strategy, self.spec_active()) ==> r->Err_0
                == YieldOptimizerError::StrategyUnavailable,
            r is Ok ==> ({
                let ix = r->Ok_0;
                &&& ix.program_id == self.spec_program_id()
                &&& ix.accounts@.len() == 3
                &&& ix.accounts@[0].pubkey == *user
                &&& ix.accounts@[0].is_signer
                &&& ix.accounts@[0].is_writable
                &&& !ix.accounts@[1].is_signer
                &&& ix.accounts@[1].is_writable
                &&& ix.accounts@[2].pubkey@ == Seq::new(32, |i: int| 0u8)
                &&& !ix.accounts@[2].is_signer
                &&& !ix.accounts@[2].is_writable
                &&& ix.data@ == spec_payload(spec_encode(*strategy), amount)
            }),
            r is Ok ==> r->Ok_0.accounts@[1].pubkey@ == pda_lookup(
                spec_position_seed_tag(),
                user@,
                self.spec_program_id()@,
            )->Some_0.0,
    ;

    /// The number of accounts an operation with this strategy is expected
    /// to reference: the 3 fixed accounts plus 1 platform for Conservative
    /// and Aggressive, 2 for Balanced, and every platform of the table for
    /// Custom.
    fn accounts_len(&self, strategy: &YieldStrategy) -> (r: usize)
        requires
            self.spec_apys().len() + 3 <= usize::MAX,
        ensures
            r == 3 + match *strategy {
                YieldStrategy::Conservative => 1int,
                YieldStrategy::Balanced => 2int,
                YieldStrategy::Aggressive => 1int,
                YieldStrategy::Custom { .. } => self.spec_apys().len() as int,
            },
    ;

    /// The identifiers of the platforms currently in the table.
    fn active_platforms(&self) -> (r: Vec<[u8; 32]>)
        ensures
            r@ == self.spec_platform_ids(),
    ;
}

} // verus!
