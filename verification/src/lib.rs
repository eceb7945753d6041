//! A verified yield-optimization module for a staking protocol: a strategy
//! catalog with a validation predicate, a quote calculator over a table of
//! platform APYs, and a builder for the on-chain instruction that executes a
//! chosen strategy.

pub mod apy;
pub mod errors;
pub mod instruction;
pub mod interface;
pub mod laws;
pub mod optimizer;
pub mod pda;
pub mod strategy;
pub mod types;

pub use errors::YieldOptimizerError;
pub use interface::YieldOptimizer;
pub use optimizer::StakedexYieldOptimizer;
pub use instruction::{AccountRef, InstructionDescriptor};
pub use strategy::YieldStrategy;
pub use types::{RebalanceConfig, YieldOptimizerParams, YieldOptimizerQuote};
