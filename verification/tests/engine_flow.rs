use solana_streaks::engine::PredictionEngine;
use solana_streaks::errors::ErrorCode;
use solana_streaks::state::Identity;

fn ident(n: u64) -> Identity {
    Identity { w0: n, w1: 0, w2: 0, w3: 0 }
}

fn outcomes2() -> Vec<String> {
    vec!["yes".to_string(), "no".to_string()]
}

fn fresh_market(e: &mut PredictionEngine, question: &str, authority: Identity) -> u64 {
    e.create_market(question.to_string(), outcomes2(), 1_000, authority, None)
        .expect("market creation should succeed")
}

#[test]
fn create_market_assigns_sequential_ids() {
    let mut e = PredictionEngine::new();
    let a = ident(1);
    assert_eq!(fresh_market(&mut e, "first?", a), 0);
    assert_eq!(fresh_market(&mut e, "second?", a), 1);
    assert_eq!(e.markets.len(), 2);
    assert_eq!(e.markets[0].total_pool, 0);
    assert!(!e.markets[0].resolved);
    assert_eq!(e.markets[0].winning_outcome, None);
}

#[test]
fn create_market_rejects_bad_parameters() {
    let mut e = PredictionEngine::new();
    let a = ident(1);
    assert_eq!(
        e.create_market(String::new(), outcomes2(), 1_000, a, None),
        Err(ErrorCode::EmptyQuestion)
    );
    assert_eq!(
        e.create_market("ok?".to_string(), Vec::new(), 1_000, a, None),
        Err(ErrorCode::EmptyOutcomes)
    );
    fresh_market(&mut e, "taken?", a);
    assert_eq!(
        e.create_market("taken?".to_string(), outcomes2(), 9_999, ident(2), None),
        Err(ErrorCode::DuplicateMarket)
    );
    assert_eq!(e.markets.len(), 1);
}

#[test]
fn place_bet_grows_pool_by_exactly_amount() {
    let mut e = PredictionEngine::new();
    let m = fresh_market(&mut e, "rain tomorrow?", ident(1));
    assert_eq!(e.place_bet(m, ident(2), 0, 100, 10), Ok(0));
    assert_eq!(e.markets[0].total_pool, 100);
    assert_eq!(e.place_bet(m, ident(3), 1, 300, 11), Ok(1));
    assert_eq!(e.markets[0].total_pool, 400);
}

#[test]
fn place_bet_records_bet_and_profile() {
    let mut e = PredictionEngine::new();
    let m = fresh_market(&mut e, "rain tomorrow?", ident(1));
    let bettor = ident(2);
    assert_eq!(e.place_bet(m, bettor, 1, 250, 42), Ok(0));
    let b = e.bets[0];
    assert_eq!(b.market, m);
    assert_eq!(b.user, bettor);
    assert_eq!(b.amount, 250);
    assert_eq!(b.prediction, 1);
    assert!(!b.claimed);
    assert_eq!(b.timestamp, 42);
    let p = e.profiles[0];
    assert_eq!(p.authority, bettor);
    assert_eq!(p.total_bets, 1);
    assert_eq!(p.total_wins, 0);
    assert_eq!(p.current_streak, 0);
    assert_eq!(p.last_bet_timestamp, 42);
}

#[test]
fn second_bet_on_same_pair_always_fails() {
    let mut e = PredictionEngine::new();
    let m = fresh_market(&mut e, "rain tomorrow?", ident(1));
    let bettor = ident(2);
    assert_eq!(e.place_bet(m, bettor, 0, 100, 10), Ok(0));
    assert_eq!(
        e.place_bet(m, bettor, 1, 999, 11),
        Err(ErrorCode::BetAlreadyPlaced)
    );
    assert_eq!(e.bets.len(), 1);
    assert_eq!(e.markets[0].total_pool, 100);
    // The same identity may still bet on a different market.
    let m2 = fresh_market(&mut e, "snow tomorrow?", ident(1));
    assert_eq!(e.place_bet(m2, bettor, 0, 50, 12), Ok(1));
    assert_eq!(e.profiles[0].total_bets, 2);
}

#[test]
fn place_bet_rejections() {
    let mut e = PredictionEngine::new();
    let m = fresh_market(&mut e, "rain tomorrow?", ident(1));
    assert_eq!(
        e.place_bet(7, ident(2), 0, 100, 10),
        Err(ErrorCode::RecordNotFound)
    );
    assert_eq!(
        e.place_bet(m, ident(2), 0, 100, 1_000),
        Err(ErrorCode::MarketExpired)
    );
    assert_eq!(
        e.place_bet(m, ident(2), 2, 100, 10),
        Err(ErrorCode::InvalidOutcome)
    );
    assert_eq!(
        e.place_bet(m, ident(2), 0, 0, 10),
        Err(ErrorCode::InsufficientFunds)
    );
    assert_eq!(e.bets.len(), 0);
    assert_eq!(e.profiles.len(), 0);
    assert_eq!(e.markets[0].total_pool, 0);
}

#[test]
fn resolve_market_is_one_shot() {
    let mut e = PredictionEngine::new();
    let authority = ident(1);
    let m = fresh_market(&mut e, "rain tomorrow?", authority);
    assert_eq!(
        e.resolve_market(m, ident(2), 0),
        Err(ErrorCode::Unauthorized)
    );
    assert_eq!(e.resolve_market(m, authority, 2), Err(ErrorCode::InvalidOutcome));
    assert_eq!(e.resolve_market(m, authority, 1), Ok(()));
    assert!(e.markets[0].resolved);
    assert_eq!(e.markets[0].winning_outcome, Some(1));
    assert_eq!(
        e.resolve_market(m, authority, 0),
        Err(ErrorCode::MarketResolved)
    );
    assert_eq!(e.markets[0].winning_outcome, Some(1));
    assert_eq!(
        e.resolve_market(9, authority, 0),
        Err(ErrorCode::RecordNotFound)
    );
}

#[test]
fn resolution_ignores_the_deadline() {
    let mut e = PredictionEngine::new();
    let authority = ident(1);
    // Resolving before the deadline would have been allowed just as well;
    // here the deadline (1000) has long passed and resolution still works,
    // while placement is fenced off.
    let m = fresh_market(&mut e, "rain tomorrow?", authority);
    assert_eq!(
        e.place_bet(m, ident(2), 0, 100, 5_000),
        Err(ErrorCode::MarketExpired)
    );
    assert_eq!(e.resolve_market(m, authority, 0), Ok(()));

    // And on a second market, resolution long before the deadline.
    let m2 = e
        .create_market("snow tomorrow?".to_string(), outcomes2(), i64::MAX, authority, None)
        .unwrap();
    assert_eq!(e.resolve_market(m2, authority, 1), Ok(()));
}

#[test]
fn full_flow_winner_paid_loser_forfeits() {
    let mut e = PredictionEngine::new();
    let authority = ident(1);
    let alice = ident(2);
    let bob = ident(3);
    let m = fresh_market(&mut e, "rain tomorrow?", authority);
    assert_eq!(e.place_bet(m, alice, 0, 100, 10), Ok(0));
    assert_eq!(e.place_bet(m, bob, 1, 300, 11), Ok(1));
    assert_eq!(e.resolve_market(m, authority, 0), Ok(()));

    // Alice predicted the winner: first win, streak 1, payout 2 x 100.
    assert_eq!(e.claim(m, alice), Ok(200));
    assert_eq!(e.markets[0].total_pool, 200);
    assert_eq!(e.profiles[0].total_wins, 1);
    assert_eq!(e.profiles[0].current_streak, 1);
    assert_eq!(e.profiles[0].longest_streak, 1);
    assert!(e.bets[0].claimed);

    // Bob lost: no transfer, streak reset, stake forfeited to the pool.
    assert_eq!(e.claim(m, bob), Ok(0));
    assert_eq!(e.markets[0].total_pool, 200);
    assert_eq!(e.profiles[1].total_wins, 0);
    assert_eq!(e.profiles[1].current_streak, 0);
    assert!(e.bets[1].claimed);
}

#[test]
fn second_claim_fails_and_changes_nothing() {
    let mut e = PredictionEngine::new();
    let authority = ident(1);
    let alice = ident(2);
    let m = fresh_market(&mut e, "rain tomorrow?", authority);
    assert_eq!(e.place_bet(m, alice, 0, 100, 10), Ok(0));
    assert_eq!(e.resolve_market(m, authority, 0), Ok(()));
    assert_eq!(e.claim(m, alice), Ok(100));
    let pool = e.markets[0].total_pool;
    let bet = e.bets[0];
    let profile = e.profiles[0];
    assert_eq!(e.claim(m, alice), Err(ErrorCode::BetAlreadyClaimed));
    assert_eq!(e.markets[0].total_pool, pool);
    assert_eq!(e.bets[0], bet);
    assert_eq!(e.profiles[0], profile);
}

#[test]
fn claim_rejections() {
    let mut e = PredictionEngine::new();
    let authority = ident(1);
    let alice = ident(2);
    let m = fresh_market(&mut e, "rain tomorrow?", authority);
    assert_eq!(e.claim(9, alice), Err(ErrorCode::RecordNotFound));
    assert_eq!(e.claim(m, alice), Err(ErrorCode::RecordNotFound));
    assert_eq!(e.place_bet(m, alice, 0, 100, 10), Ok(0));
    assert_eq!(e.claim(m, alice), Err(ErrorCode::MarketNotResolved));
}

#[test]
fn streak_bound_holds_across_operations() {
    let mut e = PredictionEngine::new();
    let authority = ident(1);
    let alice = ident(2);
    let mut now: i64 = 10;
    // Alice wins three markets in a row, then loses one; after every single
    // operation the longest streak bounds the current streak.
    for round in 0..4u8 {
        let question = format!("round {}?", round);
        let m = e
            .create_market(question, outcomes2(), 1_000, authority, None)
            .unwrap();
        let prediction = if round < 3 { 0 } else { 1 };
        e.place_bet(m, alice, prediction, 100, now).unwrap();
        assert!(e.profiles[0].longest_streak >= e.profiles[0].current_streak);
        e.resolve_market(m, authority, 0).unwrap();
        e.claim(m, alice).unwrap();
        assert!(e.profiles[0].longest_streak >= e.profiles[0].current_streak);
        now += 1;
    }
    assert_eq!(e.profiles[0].total_wins, 3);
    assert_eq!(e.profiles[0].current_streak, 0);
    assert_eq!(e.profiles[0].longest_streak, 3);
}
