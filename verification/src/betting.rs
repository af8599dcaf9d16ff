//! Stake placement: escrowing a stake into a market's pool.
//!
//! Placement is purely intake: it grows the pool, records the bet and
//! updates the bettor's lifetime counters. No payout or streak update
//! happens here.

use vstd::prelude::*;

use crate::errors::ErrorCode;
use crate::state::{Bet, Identity, Market, UserProfile};

verus! {

/// Why stake placement is rejected, if at all: a deadline that has passed,
/// then an out-of-bounds prediction, then a zero stake, then a pool or
/// lifetime counter that checked arithmetic cannot grow.
pub open spec fn spec_place_bet_error(
    m: Market,
    p: UserProfile,
    prediction: u8,
    amount: u64,
    now: i64,
) -> Option<ErrorCode> {
    if now >= m.resolution_time {
        Some(ErrorCode::MarketExpired)
    } else if m.outcomes@.len() <= prediction as int {
        Some(ErrorCode::InvalidOutcome)
    } else if amount == 0 {
        Some(ErrorCode::InsufficientFunds)
    } else if m.total_pool + amount > u64::MAX || p.total_bets == u64::MAX {
        Some(ErrorCode::ArithmeticOverflow)
    } else {
        None
    }
}

/// The market after a stake is escrowed: the pool grown by exactly the
/// stake, everything else unchanged.
pub open spec fn spec_market_after_bet(m: Market, amount: u64) -> Market {
    Market {
        authority: m.authority,
        question: m.question,
        outcomes: m.outcomes,
        resolution_time: m.resolution_time,
        total_pool: (m.total_pool + amount) as u64,
        resolved: m.resolved,
        winning_outcome: m.winning_outcome,
        oracle_source: m.oracle_source,
        bump: m.bump,
    }
}

/// The profile after a stake: on the first-ever stake the owning identity is
/// recorded; the lifetime stake count grows by one and the last-stake
/// timestamp is refreshed. Wins and streaks are untouched.
pub open spec fn spec_profile_after_bet(p: UserProfile, user: Identity, now: i64) -> UserProfile {
    UserProfile {
        authority: if p.total_bets == 0 {
            user
        } else {
            p.authority
        },
        total_bets: (p.total_bets + 1) as u64,
        total_wins: p.total_wins,
        current_streak: p.current_streak,
        longest_streak: p.longest_streak,
        last_bet_timestamp: now,
        bump: p.bump,
    }
}

/// The bet record a successful placement creates: unclaimed, dated now.
pub open spec fn spec_new_bet(
    market_id: u64,
    user: Identity,
    amount: u64,
    prediction: u8,
    now: i64,
    bump: u8,
) -> Bet {
    Bet { market: market_id, user, amount, prediction, claimed: false, timestamp: now, bump }
}

/// Places a stake: checks the deadline, the prediction bounds and the
/// amount, then escrows the stake into the pool, updates the bettor's
/// profile and returns the new bet record. A failing call leaves both
/// records unchanged. The record store's exclusive create — at most one bet
/// per (market, identity) pair — is the engine's concern.
pub fn place_bet(
    market: &mut Market,
    profile: &mut UserProfile,
    market_id: u64,
    user: Identity,
    prediction: u8,
    amount: u64,
    now: i64,
    bump: u8,
) -> (r: Result<Bet, ErrorCode>)
    ensures
        r is Ok <==> spec_place_bet_error(*old(market), *old(profile), prediction, amount, now)
            is None,
        r matches Err(e) ==> Some(e) == spec_place_bet_error(
            *old(market),
            *old(profile),
            prediction,
            amount,
            now,
        ),
        r is Ok ==> *final(market) == spec_market_after_bet(*old(market), amount),
        r is Ok ==> *final(profile) == spec_profile_after_bet(*old(profile), user, now),
        r matches Ok(b) ==> b == spec_new_bet(market_id, user, amount, prediction, now, bump),
        r matches Ok(b) ==> b.wf() && !b.claimed,
        r is Ok ==> final(market).total_pool == old(market).total_pool + amount,
        r is Err ==> *final(market) == *old(market) && *final(profile) == *old(profile),
        old(market).wf() ==> final(market).wf(),
        old(profile).wf() ==> final(profile).wf(),
{
    if now >= market.resolution_time {
        return Err(ErrorCode::MarketExpired);
    }
    if (prediction as usize) >= market.outcomes.len() {
        return Err(ErrorCode::InvalidOutcome);
    }
    if amount == 0 {
        return Err(ErrorCode::InsufficientFunds);
    }
    let grown_pool = match market.total_pool.checked_add(amount) {
        Some(v) => v,
        None => {
            return Err(ErrorCode::ArithmeticOverflow);
        },
    };
    let grown_bets = match profile.total_bets.checked_add(1) {
        Some(v) => v,
        None => {
            return Err(ErrorCode::ArithmeticOverflow);
        },
    };
    market.total_pool = grown_pool;
    if profile.total_bets == 0 {
        profile.authority = user;
    }
    profile.total_bets = grown_bets;
    profile.last_bet_timestamp = now;
    Ok(Bet { market: market_id, user, amount, prediction, claimed: false, timestamp: now, bump })
}

} // verus!
