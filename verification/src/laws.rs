//! The engine's general laws, proved once and for all inputs.
//!
//! Each lemma states a property that the operations' own contracts entail,
//! so that a reader sees it written down rather than having to derive it.

use vstd::prelude::*;

use vstd::arithmetic::div_mod::lemma_div_multiples_vanish;

use crate::betting::{spec_market_after_bet, spec_place_bet_error, spec_profile_after_bet};
use crate::engine::{spec_has_bet, PredictionEngine};
use crate::errors::ErrorCode;
use crate::market::{spec_market_after_resolve, spec_resolve_error};
use crate::settlement::{spec_bet_after_claim, spec_claim_error, spec_claim_is_win,
    spec_market_after_claim, spec_payout, spec_profile_after_loss, spec_profile_after_win,
    spec_transfer_amount};
use crate::state::{Bet, Identity, Market, UserProfile};

verus! {

/// A market differing from `m` only in its resolution deadline.
pub open spec fn spec_with_deadline(m: Market, resolution_time: i64) -> Market {
    Market {
        authority: m.authority,
        question: m.question,
        outcomes: m.outcomes,
        resolution_time,
        total_pool: m.total_pool,
        resolved: m.resolved,
        winning_outcome: m.winning_outcome,
        oracle_source: m.oracle_source,
        bump: m.bump,
    }
}

/// A second stake under an existing (market, identity) key always fails,
/// with `BetAlreadyPlaced`, whatever the prediction, amount or time: the
/// record store's exclusive create admits at most one bet per pair (the
/// pair-key uniqueness is itself a conjunct of `PredictionEngine::wf`,
/// which every operation preserves).
pub proof fn lemma_second_bet_always_rejected(
    s: PredictionEngine,
    market_id: u64,
    caller: Identity,
    prediction: u8,
    amount: u64,
    now: i64,
)
    requires
        s.wf(),
        spec_has_bet(s.bets@, market_id, caller),
    ensures
        s.spec_place_bet_error(market_id, caller, prediction, amount, now) == Some(
            ErrorCode::BetAlreadyPlaced,
        ),
{
    let i = choose|i: int|
        0 <= i < s.bets@.len() && (#[trigger] s.bets@[i]).market == market_id && s.bets@[i].user
            == caller;
    assert(s.bets@[i].market < s.markets@.len());
}

/// Resolution is one-shot: a market resolves from unresolved to resolved in
/// one transition, and every later resolution attempt by its authority
/// fails with `MarketResolved`. (A caller other than the authority fails
/// earlier, with `Unauthorized`.)
pub proof fn lemma_resolve_is_one_shot(
    m: Market,
    caller: Identity,
    winning_outcome: u8,
    later_outcome: u8,
)
    requires
        spec_resolve_error(m, caller, winning_outcome) is None,
    ensures
        !m.resolved,
        spec_market_after_resolve(m, winning_outcome).resolved,
        spec_resolve_error(
            spec_market_after_resolve(m, winning_outcome),
            caller,
            later_outcome,
        ) == Some(ErrorCode::MarketResolved),
{
}

/// Settlement is one-shot: after a successful claim the bet is marked
/// claimed, and a second claim against the very records the first one
/// produced fails with `BetAlreadyClaimed` (and, by `claim`'s contract, a
/// failing claim leaves every record unchanged).
pub proof fn lemma_claim_settles_once(m: Market, b: Bet, p: UserProfile)
    requires
        spec_claim_error(m, b, p) is None,
    ensures
        spec_bet_after_claim(b).claimed,
        spec_claim_error(
            spec_market_after_claim(m, spec_transfer_amount(m, b, p)),
            spec_bet_after_claim(b),
            if spec_claim_is_win(m, b) {
                spec_profile_after_win(p)
            } else {
                spec_profile_after_loss(p)
            },
        ) == Some(ErrorCode::BetAlreadyClaimed),
{
}

/// The streak bound `longest_streak >= current_streak` survives every way a
/// profile can change: a winning settlement and a losing settlement
/// re-establish it from any input, and a stake placement preserves it.
pub proof fn lemma_streak_bound_invariant(p: UserProfile, user: Identity, now: i64)
    ensures
        spec_profile_after_win(p).wf(),
        spec_profile_after_loss(p).wf(),
        p.wf() ==> spec_profile_after_bet(p, user, now).wf(),
        UserProfile::spec_new(user, 0).wf(),
{
}

/// A loss resets the streak to zero whatever its prior value, and touches
/// neither the lifetime win count nor the longest streak.
pub proof fn lemma_loss_resets_streak_only(p: UserProfile)
    ensures
        spec_profile_after_loss(p).current_streak == 0,
        spec_profile_after_loss(p).total_wins == p.total_wins,
        spec_profile_after_loss(p).longest_streak == p.longest_streak,
        spec_profile_after_loss(p).total_bets == p.total_bets,
{
}

/// The deadline fences stake placement and nothing else: once it has
/// passed, placement fails with `MarketExpired`; resolution does not read
/// the clock at all, so changing the deadline changes nothing about whether
/// resolution succeeds.
pub proof fn lemma_deadline_fences_placement_not_resolution(
    m: Market,
    p: UserProfile,
    prediction: u8,
    amount: u64,
    now: i64,
    other_deadline: i64,
    caller: Identity,
    winning_outcome: u8,
)
    ensures
        now >= m.resolution_time ==> spec_place_bet_error(m, p, prediction, amount, now) == Some(
            ErrorCode::MarketExpired,
        ),
        spec_resolve_error(spec_with_deadline(m, other_deadline), caller, winning_outcome)
            == spec_resolve_error(m, caller, winning_outcome),
{
}

/// Pool accounting: an accepted stake grows the pool by exactly the stake,
/// once; a settlement withdraws exactly the transferred amount, which never
/// exceeds the pool — the escrow cannot go below zero.
pub proof fn lemma_pool_accounting(m: Market, b: Bet, p: UserProfile, amount: u64)
    requires
        m.total_pool + amount <= u64::MAX,
    ensures
        spec_market_after_bet(m, amount).total_pool == m.total_pool + amount,
        0 <= spec_transfer_amount(m, b, p) <= m.total_pool,
        spec_market_after_claim(m, spec_transfer_amount(m, b, p)).total_pool == m.total_pool
            - spec_transfer_amount(m, b, p),
{
}

/// The payout tiers, in closed form: a winner's payout is the stake times
/// two below a streak of 3, times three from 3, times four from 5 and times
/// six from 10 — the doubled stake compounded with the tier multiplier.
pub proof fn lemma_payout_tiers(amount: u64, streak: u32)
    ensures
        streak < 3 ==> spec_payout(amount, streak) == 2 * amount,
        3 <= streak < 5 ==> spec_payout(amount, streak) == 3 * amount,
        5 <= streak < 10 ==> spec_payout(amount, streak) == 4 * amount,
        streak >= 10 ==> spec_payout(amount, streak) == 6 * amount,
{
    let a = amount as int;
    lemma_div_multiples_vanish(2 * a, 10000);
    lemma_div_multiples_vanish(3 * a, 10000);
    lemma_div_multiples_vanish(4 * a, 10000);
    lemma_div_multiples_vanish(6 * a, 10000);
    assert(2 * a * 10000 == 10000 * (2 * a));
    assert(2 * a * 15000 == 10000 * (3 * a));
    assert(2 * a * 20000 == 10000 * (4 * a));
    assert(2 * a * 30000 == 10000 * (6 * a));
}

} // verus!
