//! The optimizer's error kinds. Only `InvalidStrategy` is raised by the quote
//! and instruction-building entry points today; the remaining kinds are
//! anticipated failure modes of the liquidity and slippage checks a full
//! implementation would add, plus the fallback for a failed address
//! derivation.

use vstd::prelude::*;

verus! {

/// What can go wrong in the optimizer.
#[derive(Clone, Copy, Debug, PartialEq, Eq, Structural)]
pub enum YieldOptimizerError {
    /// The requested strategy fails validation or the optimizer is inactive.
    InvalidStrategy,
    /// The token is not one the optimizer handles.
    UnsupportedToken,
    /// Not enough liquidity to serve the request.
    InsufficientLiquidity,
    /// The quote moved beyond the allowed slippage.
    SlippageExceeded,
    /// The strategy cannot currently be executed.
    StrategyUnavailable,
}

} // verus!
