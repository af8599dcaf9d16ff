//! The closed set of failure codes returned by the engine's operations.

use vstd::prelude::*;

verus! {

/// Failure code of an operation. A failing operation returns exactly one of
/// these and leaves every record unchanged.
///
/// The first ten codes form the operation taxonomy itself (a few of them are
/// reserved and unused by the current logic). The remaining codes surface
/// conditions the taxonomy leaves implicit: the record store's
/// exclusive-create conflicts, a lookup of a key that was never created,
/// rejected creation parameters, and the explicit failure path of checked
/// arithmetic during settlement.
#[derive(PartialEq, Eq, Structural, Clone, Copy, Debug)]
pub enum ErrorCode {
    /// The market is already resolved.
    MarketResolved,
    /// The market is not resolved yet.
    MarketNotResolved,
    /// The market's resolution time has passed.
    MarketExpired,
    /// The market's resolution time has not passed (reserved, unused).
    MarketNotExpired,
    /// The outcome index is out of bounds.
    InvalidOutcome,
    /// The user profile already exists (reserved, unused).
    UserAlreadyInitialized,
    /// The bet was already claimed.
    BetAlreadyClaimed,
    /// The bet's prediction was incorrect (reserved, unused).
    BetLost,
    /// The stake amount is zero.
    InsufficientFunds,
    /// The caller is not the market's authority.
    Unauthorized,
    /// A market with the same question already exists.
    DuplicateMarket,
    /// A bet for this (market, identity) pair already exists.
    BetAlreadyPlaced,
    /// No record exists under the given key.
    RecordNotFound,
    /// The market's question is empty.
    EmptyQuestion,
    /// The market's outcome list is empty.
    EmptyOutcomes,
    /// A checked arithmetic step overflowed; the operation is aborted.
    ArithmeticOverflow,
}

} // verus!
