//! The global guarantees of the bet lifecycle, proved over the transition
//! model that the executable operations are verified against.
//!
//! [`Casino::register_bet`] and [`Casino::resolve_bet`] each ensure that
//! their effect equals [`spec_register`] / [`spec_resolve`] applied to the
//! states before the call, so everything proved here of those functions holds
//! of every call of the executable operations.

use vstd::prelude::*;

use crate::bets::BetId;
use crate::bets::CasinoView;
use crate::bets::Error;
use crate::bets::ROUND_OFFSET;
use crate::bets::spec_is_victorious;
use crate::bets::spec_register;
use crate::bets::spec_resolve;
use crate::oracle::OracleView;
use crate::oracle::Round;
use crate::oracle::randomness_at;
use crate::settlement::Balance;
use crate::settlement::User;
use crate::settlement::balance_in;

verus! {

/// A successful registration hands out an id that no live bet holds, and
/// stores the new bet — tied to the round `ROUND_OFFSET` past the active one,
/// owned by the caller — under exactly that id, touching no other bet. Two
/// registrations in a row therefore receive distinct ids, each attributed to
/// its own caller.
pub proof fn lemma_register_gives_fresh_id(
    c: CasinoView,
    l: Map<User, Balance>,
    o: OracleView,
    caller: User,
)
    requires
        c.wf(),
        c.next_id < BetId::MAX,
    ensures
        ({
            let (c2, l2, r) = spec_register(c, l, o, caller);
            &&& c2.wf()
            &&& r is Ok ==> !c.bets.contains_key(r->Ok_0)
            &&& r is Ok ==> c2.bets == c.bets.insert(
                r->Ok_0,
                ((o.latest + ROUND_OFFSET) as Round, caller),
            )
        }),
{
    let (c2, l2, r) = spec_register(c, l, o, caller);
    if r is Ok {
        assert forall|id: BetId| #[trigger] c2.bets.contains_key(id) implies id < c2.next_id by {
            if id != c.next_id {
                assert(c.bets.contains_key(id));
            }
        }
    }
}

/// When the fee debit fails, registration reports the failure and creates no
/// ledger entry: the bet ledger, its size, and every balance stay exactly as
/// they were.
pub proof fn lemma_register_failed_fee_changes_nothing(
    c: CasinoView,
    l: Map<User, Balance>,
    o: OracleView,
    caller: User,
)
    requires
        balance_in(l, caller) < c.fee,
    ensures
        spec_register(c, l, o, caller) == (c, l, Err::<BetId, Error>(Error::FailedTransfer)),
{
}

/// While the randomness for a bet's round is unpublished, resolving it always
/// reports "too early" and leaves every piece of state unchanged — so the
/// call can be repeated any number of times with the same outcome until the
/// round is reached.
pub proof fn lemma_resolve_too_early_repeatable(
    c: CasinoView,
    l: Map<User, Balance>,
    o: OracleView,
    bet_id: BetId,
)
    requires
        c.bets.contains_key(bet_id),
        randomness_at(o, c.bets[bet_id].0) is None,
    ensures
        spec_resolve(c, l, o, bet_id) == (c, l, Err::<(), Error>(Error::BetResolutionTooEarly)),
        ({
            let (c2, l2, r) = spec_resolve(c, l, o, bet_id);
            spec_resolve(c2, l2, o, bet_id) == (c2, l2, r)
        }),
{
}

/// Once the randomness for a bet's round is published, exactly one successful
/// resolution of that bet is possible: the call succeeds (provided a winning
/// reward is payable), removes the record, and afterwards resolving the same
/// id — whatever the settlement ledger or the oracle have become — reports
/// the bet as unknown and pays nothing.
pub proof fn lemma_resolve_succeeds_exactly_once(
    c: CasinoView,
    l: Map<User, Balance>,
    o: OracleView,
    bet_id: BetId,
    l_later: Map<User, Balance>,
    o_later: OracleView,
)
    requires
        c.bets.contains_key(bet_id),
        randomness_at(o, c.bets[bet_id].0) is Some,
    ensures
        ({
            let (c2, l2, r) = spec_resolve(c, l, o, bet_id);
            let won = spec_is_victorious(randomness_at(o, c.bets[bet_id].0)->0);
            &&& r is Ok <==> (won ==> balance_in(l, c.bets[bet_id].1) + c.reward <= Balance::MAX)
            &&& r is Ok ==> !c2.bets.contains_key(bet_id)
            &&& r is Ok ==> spec_resolve(c2, l_later, o_later, bet_id) == (
                c2,
                l_later,
                Err::<(), Error>(Error::BetNotFound),
            )
        }),
{
}

} // verus!
