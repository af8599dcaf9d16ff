use solana_streaks::errors::ErrorCode;
use solana_streaks::settlement::{claim, compute_payout, multiplier_bps};
use solana_streaks::state::{Bet, Identity, Market, UserProfile};

fn ident(n: u64) -> Identity {
    Identity { w0: n, w1: 0, w2: 0, w3: 0 }
}

fn resolved_market(pool: u64, winning: u8) -> Market {
    Market {
        authority: ident(1),
        question: "rain tomorrow?".to_string(),
        outcomes: vec!["yes".to_string(), "no".to_string()],
        resolution_time: 1_000,
        total_pool: pool,
        resolved: true,
        winning_outcome: Some(winning),
        oracle_source: None,
        bump: 0,
    }
}

fn bet(amount: u64, prediction: u8) -> Bet {
    Bet {
        market: 0,
        user: ident(2),
        amount,
        prediction,
        claimed: false,
        timestamp: 10,
        bump: 0,
    }
}

fn profile_with_streak(streak: u32) -> UserProfile {
    UserProfile {
        authority: ident(2),
        total_bets: 20,
        total_wins: 10,
        current_streak: streak,
        longest_streak: streak.max(7),
        last_bet_timestamp: 10,
        bump: 0,
    }
}

#[test]
fn multiplier_tiers_and_boundaries() {
    assert_eq!(multiplier_bps(0), 10_000);
    assert_eq!(multiplier_bps(2), 10_000);
    assert_eq!(multiplier_bps(3), 15_000);
    assert_eq!(multiplier_bps(4), 15_000);
    assert_eq!(multiplier_bps(5), 20_000);
    assert_eq!(multiplier_bps(9), 20_000);
    assert_eq!(multiplier_bps(10), 30_000);
    assert_eq!(multiplier_bps(u32::MAX), 30_000);
}

#[test]
fn compute_payout_exact_values() {
    assert_eq!(compute_payout(100, 1), Some(200));
    assert_eq!(compute_payout(100, 3), Some(300));
    assert_eq!(compute_payout(100, 5), Some(400));
    assert_eq!(compute_payout(100, 10), Some(600));
    assert_eq!(compute_payout(0, 10), Some(0));
}

#[test]
fn compute_payout_overflow_is_explicit() {
    assert_eq!(compute_payout(u64::MAX, 1), None);
    assert_eq!(compute_payout(u64::MAX / 2 + 1, 1), None);
    // The doubled stake still fits; scaling it by the tier does not.
    assert_eq!(compute_payout(u64::MAX / 4, 10), None);
}

#[test]
fn payouts_scale_with_the_streak_after_the_win() {
    // Stake 100 throughout; the tier is chosen from the post-increment
    // streak: 1 -> 200, 3 -> 300, 5 -> 400, 10 -> 600.
    for (before, paid) in [(0u32, 200u64), (2, 300), (4, 400), (9, 600)] {
        let mut m = resolved_market(10_000, 0);
        let mut b = bet(100, 0);
        let mut p = profile_with_streak(before);
        assert_eq!(claim(&mut m, &mut b, &mut p), Ok(paid));
        assert_eq!(m.total_pool, 10_000 - paid);
        assert_eq!(p.current_streak, before + 1);
        assert_eq!(p.total_wins, 11);
        assert!(b.claimed);
    }
}

#[test]
fn winning_updates_longest_streak_when_passed() {
    let mut m = resolved_market(10_000, 0);
    let mut b = bet(100, 0);
    let mut p = profile_with_streak(7);
    assert_eq!(claim(&mut m, &mut b, &mut p), Ok(400));
    assert_eq!(p.current_streak, 8);
    assert_eq!(p.longest_streak, 8);
}

#[test]
fn insufficient_escrow_pays_out_the_remainder() {
    // Escrow 50 against a computed payout of 200: the claimant receives the
    // whole remaining escrow and the pool ends empty.
    let mut m = resolved_market(50, 0);
    let mut b = bet(100, 0);
    let mut p = profile_with_streak(0);
    assert_eq!(claim(&mut m, &mut b, &mut p), Ok(50));
    assert_eq!(m.total_pool, 0);
    assert!(b.claimed);
    assert_eq!(p.total_wins, 11);
}

#[test]
fn loss_resets_streak_and_nothing_else() {
    let mut m = resolved_market(500, 1);
    let mut b = bet(100, 0);
    let mut p = profile_with_streak(6);
    assert_eq!(claim(&mut m, &mut b, &mut p), Ok(0));
    assert_eq!(p.current_streak, 0);
    assert_eq!(p.total_wins, 10);
    assert_eq!(p.longest_streak, 7);
    assert_eq!(p.total_bets, 20);
    assert_eq!(m.total_pool, 500);
    assert!(b.claimed);
}

#[test]
fn claim_rejects_unresolved_and_claimed() {
    let mut m = resolved_market(500, 0);
    m.resolved = false;
    m.winning_outcome = None;
    let mut b = bet(100, 0);
    let mut p = profile_with_streak(0);
    assert_eq!(claim(&mut m, &mut b, &mut p), Err(ErrorCode::MarketNotResolved));
    assert!(!b.claimed);

    let mut m = resolved_market(500, 0);
    let mut b = bet(100, 0);
    b.claimed = true;
    assert_eq!(claim(&mut m, &mut b, &mut p), Err(ErrorCode::BetAlreadyClaimed));
    assert_eq!(m.total_pool, 500);
    assert_eq!(p, profile_with_streak(0));
}

#[test]
fn claim_overflow_fails_and_changes_nothing() {
    let mut m = resolved_market(u64::MAX, 0);
    let mut b = bet(u64::MAX / 2 + 1, 0);
    let mut p = profile_with_streak(0);
    assert_eq!(claim(&mut m, &mut b, &mut p), Err(ErrorCode::ArithmeticOverflow));
    assert_eq!(m.total_pool, u64::MAX);
    assert!(!b.claimed);
    assert_eq!(p, profile_with_streak(0));
}
