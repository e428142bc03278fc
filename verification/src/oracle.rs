//! The randomness source: the collaborator that publishes one randomness
//! value per round.
//!
//! Rounds advance monotonically and independently of the bet ledger. The
//! randomness for a round is unavailable until the round is reached, and once
//! published it never changes: repeated queries for a past round return the
//! same bytes forever.

use vstd::prelude::*;

verus! {

/// A monotonically advancing identifier for one unit of randomness publication.
pub type Round = u64;

/// The state of the oracle as contracts see it: the currently active round
/// and the bytes published for every round up to and including it.
#[verifier::ext_equal]
pub struct OracleView {
    /// The currently active round.
    pub latest: Round,
    /// `values[r]` is the randomness published for round `r`, for `r <= latest`.
    pub values: Seq<Seq<u8>>,
}

impl OracleView {
    /// Exactly the rounds up to `latest` have published values.
    pub open spec fn wf(self) -> bool {
        self.values.len() == self.latest + 1
    }
}

/// The randomness the oracle holds for `round`: `None` for every round past
/// the active one, and the published bytes for every round already reached.
pub open spec fn randomness_at(o: OracleView, round: Round) -> Option<Seq<u8>> {
    if round <= o.latest {
        Some(o.values[round as int])
    } else {
        None
    }
}

/// The oracle after one more round is published: `latest` advances by one and
/// `value` becomes the randomness of the new round.
pub open spec fn spec_advance(o: OracleView, value: Seq<u8>) -> OracleView {
    OracleView { latest: (o.latest + 1) as Round, values: o.values.push(value) }
}

/// A randomness oracle, publishing one byte string per round.
pub struct Oracle {
    latest: Round,
    values: Vec<Vec<u8>>,
}

impl View for Oracle {
    type V = OracleView;

    closed spec fn view(&self) -> OracleView {
        OracleView {
            latest: self.latest,
            values: Seq::new(self.values@.len(), |i: int| self.values@[i]@),
        }
    }
}

impl Oracle {
    /// A fresh oracle at round 0, whose randomness is `first`.
    pub fn new(first: Vec<u8>) -> (r: Self)
        ensures
            r@.wf(),
            r@.latest == 0,
            r@.values =~= seq![first@],
    {
        Oracle { latest: 0, values: vec![first] }
    }

    /// The currently active round.
    pub fn latest_round(&self) -> (r: Round)
        ensures
            r == self@.latest,
    {
        self.latest
    }

    /// Publish `value` as the randomness of the next round and advance to it.
    /// Every value already published stays exactly as it was.
    pub fn advance_round(&mut self, value: Vec<u8>)
        requires
            old(self)@.wf(),
            old(self)@.latest < Round::MAX,
        ensures
            final(self)@.wf(),
            final(self)@ == spec_advance(old(self)@, value@),
            final(self)@.latest == old(self)@.latest + 1,
            forall|r: Round|
                r <= old(self)@.latest ==> randomness_at(final(self)@, r) == randomness_at(
                    old(self)@,
                    r,
                ),
    {
        self.latest = self.latest + 1;
        self.values.push(value);
    }

    /// The randomness published for `round`, or `None` while `round` has not
    /// been reached. For a reached round the same bytes come back on every
    /// call, now and after any number of further rounds.
    pub fn randomness_for(&self, round: Round) -> (r: Option<Vec<u8>>)
        requires
            self@.wf(),
        ensures
            r is Some <==> randomness_at(self@, round) is Some,
            r is Some ==> r->0@ == randomness_at(self@, round)->0,
            r is None <==> round > self@.latest,
    {
        let n: usize = self.values.len();
        if round < (n as u64) {
            let idx: usize = round as usize;
            Some(self.values[idx].clone())
        } else {
            None
        }
    }
}

} // verus!
