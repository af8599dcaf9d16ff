//! The records the engine operates on: markets, bets and user profiles.
//!
//! A record is plain data; the record store that keeps it, the signature
//! check that authenticates an identity and the clock that dates an operation
//! are external collaborators. Each record type carries a well-formedness
//! predicate that creation establishes and every operation preserves.

use vstd::prelude::*;

verus! {

/// A 32-byte account identity, held as four 64-bit words. The engine only
/// ever compares identities for equality.
#[derive(PartialEq, Eq, Structural, Clone, Copy, Debug)]
pub struct Identity {
    pub w0: u64,
    pub w1: u64,
    pub w2: u64,
    pub w3: u64,
}

/// A question with enumerated outcomes, a deadline and an escrowed pool.
///
/// `total_pool` is the market's escrowed balance: it grows only by stake
/// placement and shrinks only by claim payouts, never below zero.
#[derive(Clone, Debug)]
pub struct Market {
    /// The identity allowed to resolve this market.
    pub authority: Identity,
    /// The question being predicted.
    pub question: String,
    /// The ordered outcome labels; an index below `outcomes.len()` names one.
    pub outcomes: Vec<String>,
    /// Stakes are accepted strictly before this timestamp.
    pub resolution_time: i64,
    /// The escrowed balance pending claims or forfeiture.
    pub total_pool: u64,
    /// Whether the winning outcome has been declared; never reverts.
    pub resolved: bool,
    /// The declared winning outcome; `Some` exactly when `resolved`.
    pub winning_outcome: Option<u8>,
    /// An optional oracle reference; a placeholder, never read by the logic.
    pub oracle_source: Option<Identity>,
    /// The record key's derivation salt.
    pub bump: u8,
}

impl Market {
    /// Well-formedness: the question and the outcome list are non-empty, the
    /// resolved flag and the winning outcome agree, and a declared winner
    /// names a real outcome.
    pub open spec fn wf(self) -> bool {
        &&& self.question@.len() > 0
        &&& self.outcomes@.len() > 0
        &&& self.resolved <==> self.winning_outcome is Some
        &&& self.winning_outcome matches Some(w) ==> (w as int) < self.outcomes@.len()
    }
}

/// One identity's single stake on one predicted outcome of one market.
///
/// Created once at placement, mutated exactly once (`claimed` set) at
/// settlement, otherwise immutable.
#[derive(PartialEq, Eq, Structural, Clone, Copy, Debug)]
pub struct Bet {
    /// The market staked on.
    pub market: u64,
    /// The identity that placed the stake.
    pub user: Identity,
    /// The stake, strictly positive.
    pub amount: u64,
    /// The predicted outcome index.
    pub prediction: u8,
    /// Whether settlement has already run for this bet.
    pub claimed: bool,
    /// When the stake was placed.
    pub timestamp: i64,
    /// The record key's derivation salt.
    pub bump: u8,
}

impl Bet {
    /// Well-formedness: the stake is strictly positive.
    pub open spec fn wf(self) -> bool {
        self.amount > 0
    }
}

/// Per-identity aggregate statistics, notably the winning streak that runs
/// across all markets. Created lazily on an identity's first stake, never
/// deleted.
#[derive(PartialEq, Eq, Structural, Clone, Copy, Debug)]
pub struct UserProfile {
    /// The identity these statistics belong to.
    pub authority: Identity,
    /// Lifetime number of stakes placed.
    pub total_bets: u64,
    /// Lifetime number of winning settlements.
    pub total_wins: u64,
    /// Consecutive wins across all markets; any loss resets it to zero.
    pub current_streak: u32,
    /// The longest streak ever observed.
    pub longest_streak: u32,
    /// When the identity last placed a stake.
    pub last_bet_timestamp: i64,
    /// The record key's derivation salt.
    pub bump: u8,
}

impl UserProfile {
    /// Well-formedness: the longest streak bounds the current one.
    pub open spec fn wf(self) -> bool {
        self.longest_streak >= self.current_streak
    }

    /// The fresh profile created on an identity's first stake.
    pub open spec fn spec_new(authority: Identity, bump: u8) -> UserProfile {
        UserProfile {
            authority,
            total_bets: 0,
            total_wins: 0,
            current_streak: 0,
            longest_streak: 0,
            last_bet_timestamp: 0,
            bump,
        }
    }

    /// Creates the fresh, all-zero profile for an identity.
    pub fn new(authority: Identity, bump: u8) -> (r: UserProfile)
        ensures
            r == UserProfile::spec_new(authority, bump),
            r.wf(),
    {
        UserProfile {
            authority,
            total_bets: 0,
            total_wins: 0,
            current_streak: 0,
            longest_streak: 0,
            last_bet_timestamp: 0,
            bump,
        }
    }
}

} // verus!
