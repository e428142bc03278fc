//! The bet ledger: the two-phase bet lifecycle.
//!
//! A bet is registered by paying a fixed fee; it is then tied to a round of
//! the randomness oracle strictly in the future, so its outcome cannot be
//! known at registration time. Once the oracle reaches that round, the bet
//! can be resolved exactly once: the published randomness decides the
//! outcome, a winning bet pays a fixed reward to its owner, and the record is
//! removed. Resolving too early is a harmless, retryable rejection; resolving
//! an unknown or already-resolved id is a typed error.

use std::collections::HashMap;
use vstd::prelude::*;

use crate::oracle::Oracle;
use crate::oracle::OracleView;
use crate::oracle::Round;
use crate::oracle::randomness_at;
use crate::settlement::Balance;
use crate::settlement::SettlementLedger;
use crate::settlement::User;
use crate::settlement::balance_in;
use crate::settlement::spec_credit;
use crate::settlement::spec_debit;

verus! {

broadcast use vstd::std_specs::hash::group_hash_axioms;

/// The unique identifier of a live bet.
pub type BetId = u128;

/// What the ledger stores for one bet: the round whose randomness settles it,
/// and the user the reward belongs to.
pub type BetDetails = (Round, User);

/// How many rounds past the active one a new bet is settled at. Keeping it at
/// least 2 guarantees the randomness is unpublished when the bet is placed.
pub const ROUND_OFFSET: Round = 2;

/// The smallest leading byte of a randomness value that counts as a win.
pub const VICTORY_THRESHOLD: u8 = 128;

/// Everything that can go wrong with registering or resolving a bet.
#[derive(Debug, PartialEq, Eq)]
pub enum Error {
    /// The fee debit or the reward credit did not complete; no state changed.
    FailedTransfer,
    /// The randomness for the bet's round is not yet published; retry later.
    BetResolutionTooEarly,
    /// No live bet carries the given id: it was never registered, or it was
    /// already resolved.
    BetNotFound,
    /// An escape hatch for collaborator-specific failures.
    Custom(Vec<u8>),
}

/// The state of the bet ledger as contracts see it.
#[verifier::ext_equal]
pub struct CasinoView {
    /// The live bets: each id maps to the round that settles the bet and to
    /// its owner.
    pub bets: Map<BetId, BetDetails>,
    /// The next identifier to hand out; every live id lies strictly below it.
    pub next_id: BetId,
    /// The fee a user pays to register a bet.
    pub fee: Balance,
    /// The reward a winning bet pays out.
    pub reward: Balance,
}

impl CasinoView {
    /// Every live bet id lies strictly below `next_id`, so the next id handed
    /// out can never collide with a live bet.
    pub open spec fn wf(self) -> bool {
        forall|id: BetId| #[trigger] self.bets.contains_key(id) ==> id < self.next_id
    }
}

/// Whether a randomness value wins: its leading byte must reach the victory
/// threshold. A pure predicate of the bytes, so anyone who fetches the same
/// published randomness can reproduce the outcome.
pub open spec fn spec_is_victorious(randomness: Seq<u8>) -> bool {
    randomness.len() > 0 && randomness[0] >= VICTORY_THRESHOLD
}

/// The complete outcome of registering a bet for `caller`: the bet ledger and
/// settlement ledger after the call, and the caller's result.
///
/// The fee is debited first; if that fails nothing changes. Otherwise a fresh
/// id is allocated, the bet is tied to the round `ROUND_OFFSET` past the
/// oracle's active one, and the record is stored.
pub open spec fn spec_register(
    c: CasinoView,
    l: Map<User, Balance>,
    o: OracleView,
    caller: User,
) -> (CasinoView, Map<User, Balance>, Result<BetId, Error>) {
    let (l2, fee_result) = spec_debit(l, caller, c.fee);
    if fee_result is Err {
        (c, l, Err(Error::FailedTransfer))
    } else {
        let id = c.next_id;
        let target = (o.latest + ROUND_OFFSET) as Round;
        let c2 = CasinoView {
            bets: c.bets.insert(id, (target, caller)),
            next_id: (c.next_id + 1) as BetId,
            fee: c.fee,
            reward: c.reward,
        };
        (c2, l2, Ok(id))
    }
}

/// The complete outcome of resolving the bet `bet_id`: the bet ledger and
/// settlement ledger after the call, and the caller's result.
///
/// An unknown id is a typed failure; unpublished randomness is a retryable
/// failure; both leave everything unchanged. With the randomness published, a
/// losing bet is simply removed, and a winning bet is removed after the
/// reward reaches its owner — if the credit fails, the record survives so the
/// claim can be retried.
pub open spec fn spec_resolve(
    c: CasinoView,
    l: Map<User, Balance>,
    o: OracleView,
    bet_id: BetId,
) -> (CasinoView, Map<User, Balance>, Result<(), Error>) {
    if !c.bets.contains_key(bet_id) {
        (c, l, Err(Error::BetNotFound))
    } else {
        let (target, owner) = c.bets[bet_id];
        match randomness_at(o, target) {
            None => (c, l, Err(Error::BetResolutionTooEarly)),
            Some(randomness) => {
                let removed = CasinoView {
                    bets: c.bets.remove(bet_id),
                    next_id: c.next_id,
                    fee: c.fee,
                    reward: c.reward,
                };
                if spec_is_victorious(randomness) {
                    let (l2, pay_result) = spec_credit(l, owner, c.reward);
                    if pay_result is Err {
                        (c, l, Err(Error::FailedTransfer))
                    } else {
                        (removed, l2, Ok(()))
                    }
                } else {
                    (removed, l, Ok(()))
                }
            },
        }
    }
}

/// The bet ledger, owning all bet state.
pub struct Casino {
    bets: HashMap<BetId, BetDetails>,
    next_id: BetId,
    fee: Balance,
    reward: Balance,
}

impl View for Casino {
    type V = CasinoView;

    closed spec fn view(&self) -> CasinoView {
        CasinoView {
            bets: self.bets@,
            next_id: self.next_id,
            fee: self.fee,
            reward: self.reward,
        }
    }
}

impl Casino {
    /// A fresh ledger with no bets, handing out ids from 0, charging `fee`
    /// per bet and paying `reward` per win.
    pub fn new(fee: Balance, reward: Balance) -> (r: Self)
        ensures
            r@.wf(),
            r@.bets == Map::<BetId, BetDetails>::empty(),
            r@.next_id == 0,
            r@.fee == fee,
            r@.reward == reward,
    {
        Casino { bets: HashMap::new(), next_id: 0, fee, reward }
    }

    /// The fee a user pays to register a bet.
    pub fn fee(&self) -> (r: Balance)
        ensures
            r == self@.fee,
    {
        self.fee
    }

    /// The reward a winning bet pays out.
    pub fn reward(&self) -> (r: Balance)
        ensures
            r == self@.reward,
    {
        self.reward
    }

    /// Allocate a fresh bet id: the counter's current value, never to be
    /// handed out again.
    fn get_id(&mut self) -> (r: BetId)
        requires
            old(self)@.next_id < BetId::MAX,
        ensures
            r == old(self)@.next_id,
            final(self)@ == (CasinoView { next_id: (old(self)@.next_id + 1) as BetId, ..old(self)@ }),
    {
        let id = self.next_id;
        self.next_id = self.next_id + 1;
        id
    }

    /// Whether `randomness` wins. The result is a function of the bytes
    /// alone: the ledger's state plays no part in it.
    pub fn is_victorious(&self, randomness: Vec<u8>) -> (r: bool)
        ensures
            r == spec_is_victorious(randomness@),
    {
        randomness.len() > 0 && randomness[0] >= VICTORY_THRESHOLD
    }

    /// Debit the registration fee from `user`, mapping a settlement failure
    /// to this ledger's error.
    fn pay_fee(&self, ledger: &mut SettlementLedger, user: User) -> (r: Result<(), Error>)
        ensures
            ({
                let (l2, res) = spec_debit(old(ledger)@, user, self@.fee);
                &&& final(ledger)@ == l2
                &&& r is Ok <==> res is Ok
            }),
            r is Err ==> final(ledger)@ == old(ledger)@ && r == Err::<(), Error>(
                Error::FailedTransfer,
            ),
    {
        match ledger.debit(user, self.fee) {
            Ok(_) => Ok(()),
            Err(_) => Err(Error::FailedTransfer),
        }
    }

    /// Credit the reward to `user`, mapping a settlement failure to this
    /// ledger's error.
    fn pay_reward(&self, ledger: &mut SettlementLedger, user: User) -> (r: Result<(), Error>)
        ensures
            ({
                let (l2, res) = spec_credit(old(ledger)@, user, self@.reward);
                &&& r is Ok ==> final(ledger)@ == l2 && res is Ok
                &&& r is Err ==> res is Err
            }),
            r is Err ==> final(ledger)@ == old(ledger)@ && r == Err::<(), Error>(
                Error::FailedTransfer,
            ),
    {
        match ledger.credit(user, self.reward) {
            Ok(_) => Ok(()),
            Err(_) => Err(Error::FailedTransfer),
        }
    }

    /// The randomness the oracle has published for round `key`, passed
    /// through untouched for client-side auditing.
    pub fn get_random(&self, oracle: &Oracle, key: u64) -> (r: Option<Vec<u8>>)
        requires
            oracle@.wf(),
        ensures
            r is Some <==> randomness_at(oracle@, key) is Some,
            r is Some ==> r->0@ == randomness_at(oracle@, key)->0,
    {
        oracle.randomness_for(key)
    }

    /// Register a bet for `caller`: debit the fee, allocate a fresh id, tie
    /// the bet to the round `ROUND_OFFSET` past the oracle's active one, and
    /// store the record. A failed fee debit aborts the call with nothing
    /// changed — no paid-for-nothing and no free-bet states.
    pub fn register_bet(
        &mut self,
        ledger: &mut SettlementLedger,
        oracle: &Oracle,
        caller: User,
    ) -> (r: Result<BetId, Error>)
        requires
            old(self)@.wf(),
            oracle@.wf(),
            old(self)@.next_id < BetId::MAX,
            oracle@.latest + ROUND_OFFSET <= Round::MAX,
        ensures
            final(self)@.wf(),
            ({
                let (c2, l2, res) = spec_register(old(self)@, old(ledger)@, oracle@, caller);
                &&& final(self)@ == c2
                &&& final(ledger)@ == l2
                &&& r == res
            }),
            r is Ok <==> balance_in(old(ledger)@, caller) >= old(self)@.fee,
            r is Ok ==> !old(self)@.bets.contains_key(r->Ok_0) && final(self)@.bets.contains_key(
                r->Ok_0,
            ),
            r is Err ==> final(self)@ == old(self)@ && final(ledger)@ == old(ledger)@,
    {
        match self.pay_fee(ledger, caller) {
            Ok(_) => {},
            Err(e) => {
                return Err(e);
            },
        }

        let bet_id = self.get_id();
        let current_round = oracle.latest_round();
        let round = current_round + ROUND_OFFSET;
        let details = (round, caller);
        self.bets.insert(bet_id, details);

        Ok(bet_id)
    }

    /// Resolve the bet `bet_id` against the oracle's published randomness.
    ///
    /// An unknown id fails with [`Error::BetNotFound`]; randomness not yet
    /// published fails with [`Error::BetResolutionTooEarly`]; both leave all
    /// state untouched, so the latter can simply be retried later. Once the
    /// randomness is out, a loss removes the record, and a win removes it
    /// after the reward reaches the bet's owner; if that credit fails the
    /// record survives, so the claim is never destroyed unpaid.
    pub fn resolve_bet(
        &mut self,
        ledger: &mut SettlementLedger,
        oracle: &Oracle,
        bet_id: BetId,
    ) -> (r: Result<(), Error>)
        requires
            old(self)@.wf(),
            oracle@.wf(),
        ensures
            final(self)@.wf(),
            ({
                let (c2, l2, res) = spec_resolve(old(self)@, old(ledger)@, oracle@, bet_id);
                &&& final(self)@ == c2
                &&& final(ledger)@ == l2
                &&& r == res
            }),
            r is Ok ==> !final(self)@.bets.contains_key(bet_id),
            r is Err ==> final(self)@ == old(self)@ && final(ledger)@ == old(ledger)@,
            !old(self)@.bets.contains_key(bet_id) <==> r == Err::<(), Error>(Error::BetNotFound),
            (old(self)@.bets.contains_key(bet_id) && randomness_at(
                oracle@,
                old(self)@.bets[bet_id].0,
            ) is None) <==> r == Err::<(), Error>(Error::BetResolutionTooEarly),
    {
        let details: BetDetails = match self.bets.get(&bet_id) {
            Some(d) => *d,
            None => {
                return Err(Error::BetNotFound);
            },
        };
        let round = details.0;
        let owner = details.1;

        let randomness = match oracle.randomness_for(round) {
            Some(bytes) => bytes,
            None => {
                return Err(Error::BetResolutionTooEarly);
            },
        };

        if self.is_victorious(randomness) {
            match self.pay_reward(ledger, owner) {
                Ok(_) => {},
                Err(e) => {
                    return Err(e);
                },
            }
        }

        self.bets.remove(&bet_id);

        Ok(())
    }

    /// The id the next registered bet will receive.
    pub fn next_bet_id(&self) -> (r: BetId)
        ensures
            r == self@.next_id,
    {
        self.next_id
    }

    /// How many bets are live.
    pub fn bet_count(&self) -> (n: usize)
        ensures
            n == self@.bets.len(),
    {
        self.bets.len()
    }

    /// Whether a live bet carries the id `bet_id`.
    pub fn has_bet(&self, bet_id: BetId) -> (r: bool)
        ensures
            r == self@.bets.contains_key(bet_id),
    {
        self.bets.contains_key(&bet_id)
    }

    /// The round and owner of the live bet `bet_id`, if there is one.
    pub fn bet_details(&self, bet_id: BetId) -> (r: Option<BetDetails>)
        ensures
            r is Some <==> self@.bets.contains_key(bet_id),
            r is Some ==> r->0 == self@.bets[bet_id],
    {
        match self.bets.get(&bet_id) {
            Some(d) => Some(*d),
            None => None,
        }
    }
}

} // verus!
