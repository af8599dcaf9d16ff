//! Market lifecycle: creation and resolution.
//!
//! A market moves through exactly one transition, `Open -> Resolved`, taken
//! by its authority alone. Resolution is deliberately not gated on the
//! resolution deadline: a market may be resolved early or late. The deadline
//! only fences stake placement.

use vstd::prelude::*;

use crate::errors::ErrorCode;
use crate::state::{Identity, Market};

verus! {

/// Why market creation is rejected, if at all: an empty question, then an
/// empty outcome list. (A duplicate question is the record store's concern;
/// see the engine.)
pub open spec fn spec_create_market_error(question: Seq<char>, n_outcomes: int) -> Option<
    ErrorCode,
> {
    if question.len() == 0 {
        Some(ErrorCode::EmptyQuestion)
    } else if n_outcomes == 0 {
        Some(ErrorCode::EmptyOutcomes)
    } else {
        None
    }
}

/// The market record that creation initializes: empty pool, unresolved, no
/// winning outcome.
pub open spec fn spec_new_market(
    question: String,
    outcomes: Vec<String>,
    resolution_time: i64,
    authority: Identity,
    oracle_source: Option<Identity>,
    bump: u8,
) -> Market {
    Market {
        authority,
        question,
        outcomes,
        resolution_time,
        total_pool: 0,
        resolved: false,
        winning_outcome: None,
        oracle_source,
        bump,
    }
}

/// Creates a market: rejects an empty question or an empty outcome list,
/// otherwise returns the freshly initialized record.
pub fn create_market(
    question: String,
    outcomes: Vec<String>,
    resolution_time: i64,
    authority: Identity,
    oracle_source: Option<Identity>,
    bump: u8,
) -> (r: Result<Market, ErrorCode>)
    ensures
        r is Ok <==> spec_create_market_error(question@, outcomes@.len() as int) is None,
        r matches Err(e) ==> Some(e) == spec_create_market_error(
            question@,
            outcomes@.len() as int,
        ),
        r matches Ok(m) ==> m == spec_new_market(
            question,
            outcomes,
            resolution_time,
            authority,
            oracle_source,
            bump,
        ),
        r matches Ok(m) ==> m.wf(),
{
    if question.as_str().is_empty() {
        return Err(ErrorCode::EmptyQuestion);
    }
    if outcomes.len() == 0 {
        return Err(ErrorCode::EmptyOutcomes);
    }
    Ok(Market {
        authority,
        question,
        outcomes,
        resolution_time,
        total_pool: 0,
        resolved: false,
        winning_outcome: None,
        oracle_source,
        bump,
    })
}

/// Why resolution is rejected, if at all: a caller other than the authority,
/// then an already resolved market, then an out-of-bounds outcome index. No
/// condition mentions the clock: resolution is valid before and after the
/// deadline alike.
pub open spec fn spec_resolve_error(m: Market, caller: Identity, winning_outcome: u8) -> Option<
    ErrorCode,
> {
    if caller != m.authority {
        Some(ErrorCode::Unauthorized)
    } else if m.resolved {
        Some(ErrorCode::MarketResolved)
    } else if m.outcomes@.len() <= winning_outcome as int {
        Some(ErrorCode::InvalidOutcome)
    } else {
        None
    }
}

/// The market after a successful resolution: the resolved flag set and the
/// winning outcome recorded; everything else, the pool included, unchanged.
pub open spec fn spec_market_after_resolve(m: Market, winning_outcome: u8) -> Market {
    Market {
        authority: m.authority,
        question: m.question,
        outcomes: m.outcomes,
        resolution_time: m.resolution_time,
        total_pool: m.total_pool,
        resolved: true,
        winning_outcome: Some(winning_outcome),
        oracle_source: m.oracle_source,
        bump: m.bump,
    }
}

/// Resolves a market: the authority declares the winning outcome, exactly
/// once per market; a failing call leaves the record unchanged.
pub fn resolve_market(m: &mut Market, caller: Identity, winning_outcome: u8) -> (r: Result<
    (),
    ErrorCode,
>)
    ensures
        r is Ok <==> spec_resolve_error(*old(m), caller, winning_outcome) is None,
        r matches Err(e) ==> Some(e) == spec_resolve_error(*old(m), caller, winning_outcome),
        r is Ok ==> *final(m) == spec_market_after_resolve(*old(m), winning_outcome),
        r is Err ==> *final(m) == *old(m),
        old(m).wf() && r is Ok ==> final(m).wf(),
        final(m).total_pool == old(m).total_pool,
{
    if caller != m.authority {
        return Err(ErrorCode::Unauthorized);
    }
    if m.resolved {
        return Err(ErrorCode::MarketResolved);
    }
    if (winning_outcome as usize) >= m.outcomes.len() {
        return Err(ErrorCode::InvalidOutcome);
    }
    m.resolved = true;
    m.winning_outcome = Some(winning_outcome);
    Ok(())
}

} // verus!
