//! The prediction engine: every market, bet and profile under one roof.
//!
//! This models the durable keyed record store the operations run against.
//! Market keys are explicit, monotonically assigned identifiers (an injective
//! mapping, in place of deriving keys from a question-text prefix); a bet is
//! keyed by its (market, identity) pair and a profile by its identity, both
//! with exclusive-create semantics: a second record under an existing key is
//! refused. Each operation either applies all of its record mutations or,
//! failing, none of them.

use vstd::prelude::*;

use crate::betting;
use crate::betting::{spec_market_after_bet, spec_new_bet, spec_place_bet_error,
    spec_profile_after_bet};
use crate::errors::ErrorCode;
use crate::market;
use crate::market::{spec_create_market_error, spec_market_after_resolve, spec_new_market,
    spec_resolve_error};
use crate::settlement;
use crate::settlement::{spec_bet_after_claim, spec_claim_error, spec_claim_is_win,
    spec_market_after_claim, spec_profile_after_loss, spec_profile_after_win,
    spec_transfer_amount};
use crate::state::{Bet, Identity, Market, UserProfile};

verus! {

/// Some market in `markets` already uses this question as its key.
pub open spec fn spec_has_question(markets: Seq<Market>, question: Seq<char>) -> bool {
    exists|i: int| 0 <= i < markets.len() && (#[trigger] markets[i]).question@ == question
}

/// Some bet in `bets` is keyed by this (market, identity) pair.
pub open spec fn spec_has_bet(bets: Seq<Bet>, market_id: u64, user: Identity) -> bool {
    exists|i: int|
        0 <= i < bets.len() && (#[trigger] bets[i]).market == market_id && bets[i].user == user
}

/// Some profile in `profiles` belongs to this identity.
pub open spec fn spec_has_profile(profiles: Seq<UserProfile>, user: Identity) -> bool {
    exists|i: int| 0 <= i < profiles.len() && (#[trigger] profiles[i]).authority == user
}

/// The index of the bet keyed by this (market, identity) pair; meaningful
/// when such a bet exists and the pair keys are unique.
pub open spec fn spec_bet_index(bets: Seq<Bet>, market_id: u64, user: Identity) -> int {
    choose|i: int|
        0 <= i < bets.len() && (#[trigger] bets[i]).market == market_id && bets[i].user == user
}

/// The index of the profile owned by this identity; meaningful when such a
/// profile exists and profile keys are unique.
pub open spec fn spec_profile_index(profiles: Seq<UserProfile>, user: Identity) -> int {
    choose|i: int| 0 <= i < profiles.len() && (#[trigger] profiles[i]).authority == user
}

/// No two markets share a question: the content-derived key is injective.
pub open spec fn spec_questions_unique(markets: Seq<Market>) -> bool {
    forall|i: int, j: int|
        #![trigger markets[i], markets[j]]
        0 <= i < j < markets.len() ==> markets[i].question@ != markets[j].question@
}

/// No two bets share a (market, identity) pair: exclusive create held.
pub open spec fn spec_bets_unique(bets: Seq<Bet>) -> bool {
    forall|i: int, j: int|
        #![trigger bets[i], bets[j]]
        0 <= i < j < bets.len() ==> !(bets[i].market == bets[j].market && bets[i].user
            == bets[j].user)
}

/// No two profiles share an owning identity.
pub open spec fn spec_profiles_unique(profiles: Seq<UserProfile>) -> bool {
    forall|i: int, j: int|
        #![trigger profiles[i], profiles[j]]
        0 <= i < j < profiles.len() ==> profiles[i].authority != profiles[j].authority
}

/// The record store and the operations on it. Markets are addressed by the
/// index they were created at; records are never deleted.
pub struct PredictionEngine {
    /// All markets, in creation order; a market's identifier is its index.
    pub markets: Vec<Market>,
    /// All bets, in placement order; a bet's identifier is its index.
    pub bets: Vec<Bet>,
    /// One profile per identity that ever placed a stake.
    pub profiles: Vec<UserProfile>,
}

impl PredictionEngine {
    /// Well-formedness of the whole store: every record is well-formed, every
    /// key (question, (market, identity) pair, identity) is unique, and every
    /// bet points at an existing market. Creation establishes it and every
    /// operation preserves it.
    pub open spec fn wf(self) -> bool {
        &&& forall|i: int|
            0 <= i < self.markets@.len() ==> (#[trigger] self.markets@[i]).wf()
        &&& forall|i: int|
            0 <= i < self.profiles@.len() ==> (#[trigger] self.profiles@[i]).wf()
        &&& forall|i: int|
            0 <= i < self.bets@.len() ==> (#[trigger] self.bets@[i]).wf()
                && self.bets@[i].market < self.markets@.len()
        &&& spec_questions_unique(self.markets@)
        &&& spec_bets_unique(self.bets@)
        &&& spec_profiles_unique(self.profiles@)
    }

    /// The profile a stake placement runs against: the identity's stored
    /// profile, or the fresh all-zero profile created on a first stake.
    pub open spec fn spec_profile_for(self, user: Identity) -> UserProfile {
        if spec_has_profile(self.profiles@, user) {
            self.profiles@[spec_profile_index(self.profiles@, user)]
        } else {
            UserProfile::spec_new(user, 0)
        }
    }

    /// Why the store and the registry reject market creation, if at all: a
    /// question already in use as a key, then the registry's own constraints.
    pub open spec fn spec_create_error(self, question: Seq<char>, n_outcomes: int) -> Option<
        ErrorCode,
    > {
        if spec_has_question(self.markets@, question) {
            Some(ErrorCode::DuplicateMarket)
        } else {
            spec_create_market_error(question, n_outcomes)
        }
    }

    /// Why resolution under this key is rejected, if at all: an unknown
    /// market identifier, then the resolver's own conditions.
    pub open spec fn spec_resolve_error(
        self,
        market_id: u64,
        caller: Identity,
        winning_outcome: u8,
    ) -> Option<ErrorCode> {
        if self.markets@.len() <= market_id {
            Some(ErrorCode::RecordNotFound)
        } else {
            spec_resolve_error(self.markets@[market_id as int], caller, winning_outcome)
        }
    }

    /// Why the store and the ledger reject a stake, if at all: an unknown
    /// market identifier, then a bet already keyed by the same (market,
    /// identity) pair — the exclusive create — then the ledger's own
    /// conditions against the market and the bettor's profile (fresh on a
    /// first-ever stake).
    pub open spec fn spec_place_bet_error(
        self,
        market_id: u64,
        caller: Identity,
        prediction: u8,
        amount: u64,
        now: i64,
    ) -> Option<ErrorCode> {
        if self.markets@.len() <= market_id {
            Some(ErrorCode::RecordNotFound)
        } else if spec_has_bet(self.bets@, market_id, caller) {
            Some(ErrorCode::BetAlreadyPlaced)
        } else {
            spec_place_bet_error(
                self.markets@[market_id as int],
                self.spec_profile_for(caller),
                prediction,
                amount,
                now,
            )
        }
    }

    /// Why settlement under these keys is rejected, if at all: a market,
    /// bet or profile that does not exist, then the settlement's own
    /// conditions against the three records.
    pub open spec fn spec_claim_error(self, market_id: u64, caller: Identity) -> Option<
        ErrorCode,
    > {
        if self.markets@.len() <= market_id {
            Some(ErrorCode::RecordNotFound)
        } else if !spec_has_bet(self.bets@, market_id, caller) {
            Some(ErrorCode::RecordNotFound)
        } else if !spec_has_profile(self.profiles@, caller) {
            Some(ErrorCode::RecordNotFound)
        } else {
            spec_claim_error(
                self.markets@[market_id as int],
                self.bets@[spec_bet_index(self.bets@, market_id, caller)],
                self.profiles@[spec_profile_index(self.profiles@, caller)],
            )
        }
    }

    /// An empty store: no markets, no bets, no profiles.
    pub fn new() -> (r: PredictionEngine)
        ensures
            r.wf(),
            r.markets@.len() == 0,
            r.bets@.len() == 0,
            r.profiles@.len() == 0,
    {
        PredictionEngine { markets: Vec::new(), bets: Vec::new(), profiles: Vec::new() }
    }

    /// Creates a market under a fresh identifier: refused when the question
    /// is already a key, empty, or offers no outcomes. On success the new
    /// market is appended and its identifier — its index — returned; on
    /// failure nothing changes. Bets and profiles are never touched.
    pub fn create_market(
        &mut self,
        question: String,
        outcomes: Vec<String>,
        resolution_time: i64,
        authority: Identity,
        oracle_source: Option<Identity>,
    ) -> (r: Result<u64, ErrorCode>)
        requires
            old(self).wf(),
        ensures
            final(self).wf(),
            r is Ok <==> old(self).spec_create_error(question@, outcomes@.len() as int) is None,
            r matches Err(e) ==> Some(e) == old(self).spec_create_error(
                question@,
                outcomes@.len() as int,
            ),
            r matches Ok(id) ==> id == old(self).markets@.len(),
            r is Ok ==> final(self).markets@ == old(self).markets@.push(
                spec_new_market(question, outcomes, resolution_time, authority, oracle_source, 0),
            ),
            r is Ok ==> spec_has_question(final(self).markets@, question@),
            r is Err ==> final(self).markets@ == old(self).markets@,
            final(self).bets@ == old(self).bets@,
            final(self).profiles@ == old(self).profiles@,
    {
        if question_taken(&self.markets, &question) {
            return Err(ErrorCode::DuplicateMarket);
        }
        let id = self.markets.len() as u64;
        match market::create_market(question, outcomes, resolution_time, authority, oracle_source, 0) {
            Err(e) => Err(e),
            Ok(m) => {
                self.markets.push(m);
                proof {
                    let ms = self.markets@;
                    let old_ms = old(self).markets@;
                    assert forall|i: int, j: int|
                        0 <= i < j < ms.len() implies (#[trigger] ms[i]).question@ != (
                    #[trigger] ms[j]).question@ by {
                        if j < old_ms.len() {
                            assert(old_ms[i].question@ != old_ms[j].question@);
                        } else {
                            assert(ms[i] == old_ms[i]);
                            assert(!(0 <= i < old_ms.len() && old_ms[i].question@ == question@));
                        }
                    }
                    assert(spec_has_question(ms, question@)) by {
                        assert(ms[ms.len() - 1].question@ == question@);
                    }
                }
                Ok(id)
            },
        }
    }

    /// Resolves the market under this identifier: the authority declares the
    /// winning outcome, exactly once per market, deadline or no deadline. On
    /// failure nothing changes. Bets and profiles are never touched.
    pub fn resolve_market(&mut self, market_id: u64, caller: Identity, winning_outcome: u8) -> (r:
        Result<(), ErrorCode>)
        requires
            old(self).wf(),
        ensures
            final(self).wf(),
            r is Ok <==> old(self).spec_resolve_error(market_id, caller, winning_outcome) is None,
            r matches Err(e) ==> Some(e) == old(self).spec_resolve_error(
                market_id,
                caller,
                winning_outcome,
            ),
            r is Ok ==> final(self).markets@ == old(self).markets@.update(
                market_id as int,
                spec_market_after_resolve(old(self).markets@[market_id as int], winning_outcome),
            ),
            r is Err ==> final(self).markets@ == old(self).markets@,
            final(self).bets@ == old(self).bets@,
            final(self).profiles@ == old(self).profiles@,
    {
        if market_id >= self.markets.len() as u64 {
            return Err(ErrorCode::RecordNotFound);
        }
        let mi = market_id as usize;
        let r = market::resolve_market(&mut self.markets[mi], caller, winning_outcome);
        proof {
            let ms = self.markets@;
            let old_ms = old(self).markets@;
            if r is Err {
                assert(ms =~= old_ms);
            } else {
                assert(old_ms[mi as int].wf());
                assert forall|i: int, j: int|
                    0 <= i < j < ms.len() implies (#[trigger] ms[i]).question@ != (
                #[trigger] ms[j]).question@ by {
                    assert(old_ms[i].question@ != old_ms[j].question@);
                    assert(ms[i].question@ == old_ms[i].question@);
                    assert(ms[j].question@ == old_ms[j].question@);
                }
            }
        }
        r
    }

    /// Places a stake: escrows `amount` into the market's pool, creates the
    /// bet under the (market, caller) key — refusing a second bet under the
    /// same key — and updates or lazily creates the caller's profile. On
    /// success the new bet's identifier — its index — is returned; on
    /// failure nothing changes.
    pub fn place_bet(
        &mut self,
        market_id: u64,
        caller: Identity,
        prediction: u8,
        amount: u64,
        now: i64,
    ) -> (r: Result<u64, ErrorCode>)
        requires
            old(self).wf(),
        ensures
            final(self).wf(),
            r is Ok <==> old(self).spec_place_bet_error(market_id, caller, prediction, amount, now)
                is None,
            r matches Err(e) ==> Some(e) == old(self).spec_place_bet_error(
                market_id,
                caller,
                prediction,
                amount,
                now,
            ),
            r matches Ok(bet_id) ==> bet_id == old(self).bets@.len(),
            r is Ok ==> final(self).markets@ == old(self).markets@.update(
                market_id as int,
                spec_market_after_bet(old(self).markets@[market_id as int], amount),
            ),
            r is Ok ==> final(self).bets@ == old(self).bets@.push(
                spec_new_bet(market_id, caller, amount, prediction, now, 0),
            ),
            r is Ok ==> final(self).profiles@ == (if spec_has_profile(
                old(self).profiles@,
                caller,
            ) {
                old(self).profiles@.update(
                    spec_profile_index(old(self).profiles@, caller),
                    spec_profile_after_bet(old(self).spec_profile_for(caller), caller, now),
                )
            } else {
                old(self).profiles@.push(
                    spec_profile_after_bet(old(self).spec_profile_for(caller), caller, now),
                )
            }),
            r is Ok ==> spec_has_bet(final(self).bets@, market_id, caller),
            r is Err ==> final(self).markets@ == old(self).markets@ && final(self).bets@ == old(
                self,
            ).bets@ && final(self).profiles@ == old(self).profiles@,
    {
        if market_id >= self.markets.len() as u64 {
            return Err(ErrorCode::RecordNotFound);
        }
        let mi = market_id as usize;
        match find_bet_index(&self.bets, market_id, caller) {
            Some(_) => {
                return Err(ErrorCode::BetAlreadyPlaced);
            },
            None => {},
        }
        let existing = find_profile_index(&self.profiles, caller);
        let mut prof: UserProfile;
        match existing {
            Some(pi) => {
                prof = self.profiles[pi];
                proof {
                    lemma_profile_index_unique(self.profiles@, caller, pi as int);
                }
            },
            None => {
                prof = UserProfile::new(caller, 0);
            },
        }
        assert(prof == old(self).spec_profile_for(caller));
        let r = betting::place_bet(
            &mut self.markets[mi],
            &mut prof,
            market_id,
            caller,
            prediction,
            amount,
            now,
            0,
        );
        match r {
            Err(e) => {
                proof {
                    assert(self.markets@ =~= old(self).markets@);
                }
                Err(e)
            },
            Ok(b) => {
                let bet_id = self.bets.len() as u64;
                self.bets.push(b);
                match existing {
                    Some(pi) => {
                        self.profiles[pi] = prof;
                    },
                    None => {
                        self.profiles.push(prof);
                    },
                }
                proof {
                    let ms = self.markets@;
                    let old_ms = old(self).markets@;
                    let bs = self.bets@;
                    let old_bs = old(self).bets@;
                    let ps = self.profiles@;
                    let old_ps = old(self).profiles@;
                    assert forall|i: int, j: int|
                        0 <= i < j < ms.len() implies (#[trigger] ms[i]).question@ != (
                    #[trigger] ms[j]).question@ by {
                        assert(old_ms[i].question@ != old_ms[j].question@);
                        assert(ms[i].question@ == old_ms[i].question@);
                        assert(ms[j].question@ == old_ms[j].question@);
                    }
                    assert(prof.authority == caller);
                    assert forall|i: int, j: int|
                        0 <= i < j < ps.len() implies (#[trigger] ps[i]).authority != (
                    #[trigger] ps[j]).authority by {
                        if j < old_ps.len() {
                            assert(old_ps[i].authority != old_ps[j].authority);
                        } else {
                            assert(ps[i] == old_ps[i]);
                            assert(!(0 <= i < old_ps.len() && old_ps[i].authority == caller));
                        }
                    }
                    assert forall|i: int, j: int|
                        0 <= i < j < bs.len() implies !((#[trigger] bs[i]).market == (
                    #[trigger] bs[j]).market && bs[i].user == bs[j].user) by {
                        if j < old_bs.len() {
                            assert(!(old_bs[i].market == old_bs[j].market && old_bs[i].user
                                == old_bs[j].user));
                        } else {
                            assert(bs[i] == old_bs[i]);
                            assert(!(0 <= i < old_bs.len() && old_bs[i].market == market_id
                                && old_bs[i].user == caller));
                        }
                    }
                    assert(spec_has_bet(bs, market_id, caller)) by {
                        assert(bs[bs.len() - 1].market == market_id && bs[bs.len() - 1].user
                            == caller);
                    }
                }
                Ok(bet_id)
            },
        }
    }

    /// Settles the caller's bet on this market, returning the amount moved
    /// from the market's custody to the caller: the streak-scaled payout on
    /// a win (truncated to the remaining escrow when the pool cannot cover
    /// it), nothing on a loss. Either way the bet is marked claimed; on
    /// failure nothing changes.
    pub fn claim(&mut self, market_id: u64, caller: Identity) -> (r: Result<u64, ErrorCode>)
        requires
            old(self).wf(),
        ensures
            final(self).wf(),
            r is Ok <==> old(self).spec_claim_error(market_id, caller) is None,
            r matches Err(e) ==> Some(e) == old(self).spec_claim_error(market_id, caller),
            r matches Ok(t) ==> t == spec_transfer_amount(
                old(self).markets@[market_id as int],
                old(self).bets@[spec_bet_index(old(self).bets@, market_id, caller)],
                old(self).profiles@[spec_profile_index(old(self).profiles@, caller)],
            ),
            r is Ok ==> final(self).markets@ == old(self).markets@.update(
                market_id as int,
                spec_market_after_claim(
                    old(self).markets@[market_id as int],
                    spec_transfer_amount(
                        old(self).markets@[market_id as int],
                        old(self).bets@[spec_bet_index(old(self).bets@, market_id, caller)],
                        old(self).profiles@[spec_profile_index(old(self).profiles@, caller)],
                    ),
                ),
            ),
            r is Ok ==> final(self).bets@ == old(self).bets@.update(
                spec_bet_index(old(self).bets@, market_id, caller),
                spec_bet_after_claim(
                    old(self).bets@[spec_bet_index(old(self).bets@, market_id, caller)],
                ),
            ),
            r is Ok ==> final(self).profiles@ == old(self).profiles@.update(
                spec_profile_index(old(self).profiles@, caller),
                if spec_claim_is_win(
                    old(self).markets@[market_id as int],
                    old(self).bets@[spec_bet_index(old(self).bets@, market_id, caller)],
                ) {
                    spec_profile_after_win(
                        old(self).profiles@[spec_profile_index(old(self).profiles@, caller)],
                    )
                } else {
                    spec_profile_after_loss(
                        old(self).profiles@[spec_profile_index(old(self).profiles@, caller)],
                    )
                },
            ),
            r is Err ==> final(self).markets@ == old(self).markets@ && final(self).bets@ == old(
                self,
            ).bets@ && final(self).profiles@ == old(self).profiles@,
    {
        if market_id >= self.markets.len() as u64 {
            return Err(ErrorCode::RecordNotFound);
        }
        let mi = market_id as usize;
        let bi = match find_bet_index(&self.bets, market_id, caller) {
            Some(i) => i,
            None => {
                return Err(ErrorCode::RecordNotFound);
            },
        };
        let pi = match find_profile_index(&self.profiles, caller) {
            Some(i) => i,
            None => {
                return Err(ErrorCode::RecordNotFound);
            },
        };
        proof {
            lemma_bet_index_unique(self.bets@, market_id, caller, bi as int);
            lemma_profile_index_unique(self.profiles@, caller, pi as int);
        }
        let r = settlement::claim(
            &mut self.markets[mi],
            &mut self.bets[bi],
            &mut self.profiles[pi],
        );
        proof {
            let ms = self.markets@;
            let old_ms = old(self).markets@;
            let bs = self.bets@;
            let old_bs = old(self).bets@;
            let ps = self.profiles@;
            let old_ps = old(self).profiles@;
            if r is Err {
                assert(ms =~= old_ms);
                assert(bs =~= old_bs);
                assert(ps =~= old_ps);
            } else {
                assert(old_ms[mi as int].wf());
                assert forall|i: int, j: int|
                    0 <= i < j < ms.len() implies (#[trigger] ms[i]).question@ != (
                #[trigger] ms[j]).question@ by {
                    assert(old_ms[i].question@ != old_ms[j].question@);
                    assert(ms[i].question@ == old_ms[i].question@);
                    assert(ms[j].question@ == old_ms[j].question@);
                }
                assert forall|i: int, j: int|
                    0 <= i < j < bs.len() implies !((#[trigger] bs[i]).market == (
                #[trigger] bs[j]).market && bs[i].user == bs[j].user) by {
                    assert(!(old_bs[i].market == old_bs[j].market && old_bs[i].user
                        == old_bs[j].user));
                    assert(bs[i].market == old_bs[i].market && bs[i].user == old_bs[i].user);
                    assert(bs[j].market == old_bs[j].market && bs[j].user == old_bs[j].user);
                }
                assert forall|i: int, j: int|
                    0 <= i < j < ps.len() implies (#[trigger] ps[i]).authority != (
                #[trigger] ps[j]).authority by {
                    assert(old_ps[i].authority != old_ps[j].authority);
                    assert(ps[i].authority == old_ps[i].authority);
                    assert(ps[j].authority == old_ps[j].authority);
                }
            }
        }
        r
    }
}

/// The index of the bet keyed by (`market_id`, `user`), if one exists.
fn find_bet_index(bets: &Vec<Bet>, market_id: u64, user: Identity) -> (r: Option<usize>)
    ensures
        r is Some <==> spec_has_bet(bets@, market_id, user),
        r matches Some(i) ==> 0 <= i < bets@.len() && bets@[i as int].market == market_id
            && bets@[i as int].user == user,
{
    let mut i: usize = 0;
    while i < bets.len()
        invariant
            i <= bets@.len(),
            forall|k: int|
                0 <= k < i ==> !((#[trigger] bets@[k]).market == market_id && bets@[k].user
                    == user),
        decreases bets@.len() - i,
    {
        if bets[i].market == market_id && bets[i].user == user {
            return Some(i);
        }
        i = i + 1;
    }
    None
}

/// The index of the profile owned by `user`, if one exists.
fn find_profile_index(profiles: &Vec<UserProfile>, user: Identity) -> (r: Option<usize>)
    ensures
        r is Some <==> spec_has_profile(profiles@, user),
        r matches Some(i) ==> 0 <= i < profiles@.len() && profiles@[i as int].authority == user,
{
    let mut i: usize = 0;
    while i < profiles.len()
        invariant
            i <= profiles@.len(),
            forall|k: int| 0 <= k < i ==> (#[trigger] profiles@[k]).authority != user,
        decreases profiles@.len() - i,
    {
        if profiles[i].authority == user {
            return Some(i);
        }
        i = i + 1;
    }
    None
}

/// Whether some market already uses this question as its key.
fn question_taken(markets: &Vec<Market>, question: &String) -> (r: bool)
    ensures
        r == spec_has_question(markets@, question@),
{
    let mut i: usize = 0;
    while i < markets.len()
        invariant
            i <= markets@.len(),
            forall|k: int| 0 <= k < i ==> (#[trigger] markets@[k]).question@ != question@,
        decreases markets@.len() - i,
    {
        if markets[i].question == *question {
            return true;
        }
        i = i + 1;
    }
    false
}

/// With unique (market, identity) keys, any index holding the pair is the
/// one `spec_bet_index` names.
pub proof fn lemma_bet_index_unique(bets: Seq<Bet>, market_id: u64, user: Identity, j: int)
    requires
        spec_bets_unique(bets),
        0 <= j < bets.len(),
        bets[j].market == market_id,
        bets[j].user == user,
    ensures
        spec_bet_index(bets, market_id, user) == j,
{
    let i = spec_bet_index(bets, market_id, user);
    assert(0 <= i < bets.len() && bets[i].market == market_id && bets[i].user == user);
}

/// With unique profile keys, any index holding the identity's profile is
/// the one `spec_profile_index` names.
pub proof fn lemma_profile_index_unique(profiles: Seq<UserProfile>, user: Identity, j: int)
    requires
        spec_profiles_unique(profiles),
        0 <= j < profiles.len(),
        profiles[j].authority == user,
    ensures
        spec_profile_index(profiles, user) == j,
{
    let i = spec_profile_index(profiles, user);
    assert(0 <= i < profiles.len() && profiles[i].authority == user);
}

} // verus!
