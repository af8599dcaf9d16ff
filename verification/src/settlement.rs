//! Streak-multiplier selection and payout arithmetic.
//!
//! A winner's base payout is the stake doubled. From a winning streak of 3 the
//! doubled amount is additionally scaled by a tier multiplier, expressed in
//! basis points (10000 bps = 1.0x): streak >= 10 gives 3.0x, streak >= 5 gives
//! 2.0x, streak >= 3 gives 1.5x. Every multiplication is checked: an overflow
//! is an explicit failure of that settlement, never a silent wraparound.

use vstd::prelude::*;

use crate::errors::ErrorCode;
use crate::state::{Bet, Market, UserProfile};

verus! {

/// Basis points denoting a 1.0x multiplier.
pub const BPS_BASE: u64 = 10000;
/// Multiplier from a winning streak of 3: 1.5x.
pub const BPS_STREAK_3: u64 = 15000;
/// Multiplier from a winning streak of 5: 2.0x.
pub const BPS_STREAK_5: u64 = 20000;
/// Multiplier from a winning streak of 10: 3.0x.
pub const BPS_STREAK_10: u64 = 30000;

/// The multiplier tier, in basis points, selected by a winning streak.
pub open spec fn spec_multiplier_bps(streak: u32) -> u64 {
    if streak >= 10 {
        BPS_STREAK_10
    } else if streak >= 5 {
        BPS_STREAK_5
    } else if streak >= 3 {
        BPS_STREAK_3
    } else {
        BPS_BASE
    }
}

/// The payout owed to a winner with the given stake and (post-increment)
/// winning streak, as an unbounded integer: the stake doubled, scaled by the
/// streak tier. Every tier is a multiple of 2500 bps, so the division by
/// `BPS_BASE` is exact.
pub open spec fn spec_payout(amount: u64, streak: u32) -> int {
    2 * amount * spec_multiplier_bps(streak) / (BPS_BASE as int)
}

/// The doubled stake scaled by the tier overflows a `u64` somewhere in
/// `amount * 2 * bps`: settlement of such a claim fails explicitly.
pub open spec fn spec_payout_overflows(amount: u64, streak: u32) -> bool {
    2 * amount * spec_multiplier_bps(streak) > u64::MAX
}

/// Selects the multiplier tier for a winning streak.
pub fn multiplier_bps(streak: u32) -> (r: u64)
    ensures
        r == spec_multiplier_bps(streak),
{
    if streak >= 10 {
        BPS_STREAK_10
    } else if streak >= 5 {
        BPS_STREAK_5
    } else if streak >= 3 {
        BPS_STREAK_3
    } else {
        BPS_BASE
    }
}

/// Computes a winner's payout with checked arithmetic: `None` exactly when
/// `amount * 2 * bps` does not fit in a `u64`.
pub fn compute_payout(amount: u64, streak: u32) -> (r: Option<u64>)
    ensures
        r is Some <==> !spec_payout_overflows(amount, streak),
        r matches Some(p) ==> p == spec_payout(amount, streak),
{
    let bps = multiplier_bps(streak);
    proof {
        assert(2 * amount > u64::MAX ==> 2 * amount * bps > u64::MAX) by (nonlinear_arith)
            requires
                bps >= 10000,
        ;
    }
    match amount.checked_mul(2) {
        None => None,
        Some(doubled) => match doubled.checked_mul(bps) {
            None => None,
            Some(scaled) => Some(scaled / BPS_BASE),
        },
    }
}

/// Whether this bet won: the market's declared winner is exactly the bet's
/// prediction. On an unresolved market nothing is declared and nothing wins.
pub open spec fn spec_claim_is_win(m: Market, b: Bet) -> bool {
    m.winning_outcome == Some(b.prediction)
}

/// The profile after a winning settlement: one more lifetime win, the streak
/// extended by one, and the longest streak raised to the new streak if that
/// now leads. The result is well-formed whatever the input was.
pub open spec fn spec_profile_after_win(p: UserProfile) -> UserProfile {
    UserProfile {
        authority: p.authority,
        total_bets: p.total_bets,
        total_wins: (p.total_wins + 1) as u64,
        current_streak: (p.current_streak + 1) as u32,
        longest_streak: if p.current_streak + 1 > p.longest_streak {
            (p.current_streak + 1) as u32
        } else {
            p.longest_streak
        },
        last_bet_timestamp: p.last_bet_timestamp,
        bump: p.bump,
    }
}

/// The profile after a losing settlement: the streak unconditionally reset
/// to zero; the win count and the longest streak untouched.
pub open spec fn spec_profile_after_loss(p: UserProfile) -> UserProfile {
    UserProfile {
        authority: p.authority,
        total_bets: p.total_bets,
        total_wins: p.total_wins,
        current_streak: 0,
        longest_streak: p.longest_streak,
        last_bet_timestamp: p.last_bet_timestamp,
        bump: p.bump,
    }
}

/// Why settlement is rejected, if at all: an unresolved market, then a bet
/// that was already claimed, then a winner whose counters or payout cannot
/// be computed with checked arithmetic. A loss never fails beyond the first
/// two conditions.
pub open spec fn spec_claim_error(m: Market, b: Bet, p: UserProfile) -> Option<ErrorCode> {
    if !m.resolved {
        Some(ErrorCode::MarketNotResolved)
    } else if b.claimed {
        Some(ErrorCode::BetAlreadyClaimed)
    } else if spec_claim_is_win(m, b) && (p.total_wins == u64::MAX || p.current_streak
        == u32::MAX) {
        Some(ErrorCode::ArithmeticOverflow)
    } else if spec_claim_is_win(m, b) && spec_payout_overflows(
        b.amount,
        (p.current_streak + 1) as u32,
    ) {
        Some(ErrorCode::ArithmeticOverflow)
    } else {
        None
    }
}

/// The amount a successful settlement moves out of the market's escrow: a
/// winner receives the computed payout when the escrow covers it, and the
/// entire remaining escrow otherwise — the documented partial-payout
/// fallback, not an error. A loss moves nothing.
pub open spec fn spec_transfer_amount(m: Market, b: Bet, p: UserProfile) -> int {
    if spec_claim_is_win(m, b) {
        let payout = spec_payout(b.amount, (p.current_streak + 1) as u32);
        if payout <= m.total_pool {
            payout
        } else {
            m.total_pool as int
        }
    } else {
        0
    }
}

/// The market after a successful settlement: the escrow shrunk by exactly
/// the transferred amount, everything else unchanged.
pub open spec fn spec_market_after_claim(m: Market, transferred: int) -> Market {
    Market {
        authority: m.authority,
        question: m.question,
        outcomes: m.outcomes,
        resolution_time: m.resolution_time,
        total_pool: (m.total_pool - transferred) as u64,
        resolved: m.resolved,
        winning_outcome: m.winning_outcome,
        oracle_source: m.oracle_source,
        bump: m.bump,
    }
}

/// The bet after a successful settlement: marked claimed, the terminal
/// transition; everything else unchanged.
pub open spec fn spec_bet_after_claim(b: Bet) -> Bet {
    Bet {
        market: b.market,
        user: b.user,
        amount: b.amount,
        prediction: b.prediction,
        claimed: true,
        timestamp: b.timestamp,
        bump: b.bump,
    }
}

/// Settles a bet against its resolved market and the bettor's profile,
/// returning the amount to transfer from the market's custody to the bettor.
///
/// A winner's profile gains a win and a streak step, the payout is computed
/// from the post-increment streak with checked arithmetic, and the escrow is
/// debited by the payout — or emptied entirely when it cannot cover it. A
/// loser's streak is reset to zero and no funds move. Either way the bet is
/// marked claimed; a failing call leaves all three records unchanged.
pub fn claim(market: &mut Market, bet: &mut Bet, profile: &mut UserProfile) -> (r: Result<
    u64,
    ErrorCode,
>)
    ensures
        r is Ok <==> spec_claim_error(*old(market), *old(bet), *old(profile)) is None,
        r matches Err(e) ==> Some(e) == spec_claim_error(*old(market), *old(bet), *old(profile)),
        r is Err ==> *final(market) == *old(market) && *final(bet) == *old(bet) && *final(profile)
            == *old(profile),
        r is Ok ==> *final(bet) == spec_bet_after_claim(*old(bet)),
        r matches Ok(t) ==> t == spec_transfer_amount(*old(market), *old(bet), *old(profile)),
        r is Ok ==> *final(market) == spec_market_after_claim(
            *old(market),
            spec_transfer_amount(*old(market), *old(bet), *old(profile)),
        ),
        r is Ok ==> final(market).total_pool <= old(market).total_pool,
        r is Ok && spec_claim_is_win(*old(market), *old(bet)) ==> *final(profile)
            == spec_profile_after_win(*old(profile)),
        r is Ok && !spec_claim_is_win(*old(market), *old(bet)) ==> *final(profile)
            == spec_profile_after_loss(*old(profile)),
        r is Ok ==> final(profile).wf(),
        old(profile).wf() ==> final(profile).wf(),
        old(market).wf() ==> final(market).wf(),
{
    if !market.resolved {
        return Err(ErrorCode::MarketNotResolved);
    }
    if bet.claimed {
        return Err(ErrorCode::BetAlreadyClaimed);
    }
    let is_win = match market.winning_outcome {
        Some(w) => bet.prediction == w,
        None => false,
    };
    if is_win {
        let new_wins = match profile.total_wins.checked_add(1) {
            Some(v) => v,
            None => {
                return Err(ErrorCode::ArithmeticOverflow);
            },
        };
        let new_streak = match profile.current_streak.checked_add(1) {
            Some(v) => v,
            None => {
                return Err(ErrorCode::ArithmeticOverflow);
            },
        };
        let payout = match compute_payout(bet.amount, new_streak) {
            Some(p) => p,
            None => {
                return Err(ErrorCode::ArithmeticOverflow);
            },
        };
        profile.total_wins = new_wins;
        profile.current_streak = new_streak;
        if new_streak > profile.longest_streak {
            profile.longest_streak = new_streak;
        }
        let transferred = if market.total_pool >= payout {
            payout
        } else {
            market.total_pool
        };
        market.total_pool = market.total_pool - transferred;
        bet.claimed = true;
        Ok(transferred)
    } else {
        profile.current_streak = 0;
        bet.claimed = true;
        Ok(0)
    }
}

} // verus!
