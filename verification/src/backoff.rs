//! Backoff sources: lazy generators of the delays between attempts.

use core::time::Duration;
use vstd::prelude::*;

verus! {

/// A source of delays, owned by one retry session.
///
/// A pull either gives the next delay or says, with `None`, that the source
/// is exhausted. What a source may give is said by `yields`; a source that
/// says nothing of itself may give anything.
pub trait Backoff: Sized {
    /// Whether a pull on `self` may give `delay` and leave the source as
    /// `rest`.
    open spec fn yields(&self, delay: Option<Duration>, rest: &Self) -> bool {
        true
    }

    /// Pulls the next delay.
    fn next(&mut self) -> (delay: Option<Duration>)
        ensures
            old(self).yields(delay, final(self)),
    ;
}

/// Whether the source gives none after `pulls` delays at most.
pub open spec fn runs_out<B: Backoff>(backoff: B, pulls: nat) -> bool
    decreases pulls,
{
    forall|delay: Option<Duration>, rest: B| #[trigger]
        backoff.yields(delay, &rest) ==> delay is None || (pulls > 0 && runs_out(
            rest,
            (pulls - 1) as nat,
        ))
}

/// Whether the source yields exactly `delays`, in this order, and is then
/// exhausted.
pub open spec fn yields_exactly<B: Backoff>(backoff: B, delays: Seq<Duration>) -> bool
    decreases delays.len(),
{
    forall|delay: Option<Duration>, rest: B| #[trigger]
        backoff.yields(delay, &rest) ==> if delays.len() == 0 {
            delay is None
        } else {
            delay == Some(delays[0]) && yields_exactly(rest, delays.skip(1))
        }
}

/// A source that yields the delays of a fixed list, first to last, and is
/// exhausted after the last.
pub struct Schedule {
    delays: Vec<Duration>,
    pulled: usize,
}

impl Schedule {
    /// The delays that the source has yet to yield.
    pub closed spec fn pending(&self) -> Seq<Duration> {
        self.delays@.skip(self.pulled as int)
    }

    /// Whether the source has pulled no more than its list holds.
    #[verifier::type_invariant]
    spec fn within(&self) -> bool {
        self.pulled <= self.delays.len()
    }

    /// A source that yields `delays`, in this order.
    pub fn new(delays: Vec<Duration>) -> (source: Self)
        ensures
            source.pending() == delays@,
    {
        Schedule { delays, pulled: 0 }
    }

    /// The number of delays that the source has yet to yield.
    pub fn remaining(&self) -> (count: usize)
        ensures
            count == self.pending().len(),
    {
        proof {
            use_type_invariant(self);
        }
        self.delays.len() - self.pulled
    }
}

impl Schedule {
    /// The source runs out after as many pulls as it has delays pending.
    pub proof fn lemma_runs_out(self)
        ensures
            runs_out(self, self.pending().len()),
        decreases self.pending().len(),
    {
        assert forall|delay: Option<Duration>, rest: Schedule| #[trigger]
            self.yields(delay, &rest) implies delay is None || (self.pending().len() > 0 && runs_out(
            rest,
            (self.pending().len() - 1) as nat,
        )) by {
            if self.pending().len() > 0 {
                rest.lemma_runs_out();
            }
        }
    }

    /// Exhaustion is permanent: once a pull has given none, every later one
    /// gives none.
    pub proof fn lemma_exhaustion_is_permanent(self, rest: Schedule)
        requires
            self.yields(None, &rest),
        ensures
            forall|delay: Option<Duration>, later: Schedule| #[trigger]
                rest.yields(delay, &later) ==> delay is None,
    {
    }

    /// The source yields exactly the delays that it has pending.
    pub proof fn lemma_yields_pending(self)
        ensures
            yields_exactly(self, self.pending()),
        decreases self.pending().len(),
    {
        assert forall|delay: Option<Duration>, rest: Schedule| #[trigger]
            self.yields(delay, &rest) implies if self.pending().len() == 0 {
            delay is None
        } else {
            delay == Some(self.pending()[0]) && yields_exactly(rest, self.pending().skip(1))
        } by {
            if self.pending().len() > 0 {
                rest.lemma_yields_pending();
            }
        }
    }
}

impl Backoff for Schedule {
    /// A pull gives the first pending delay and leaves the others; with none
    /// pending it gives none, and none is pending afterwards.
    open spec fn yields(&self, delay: Option<Duration>, rest: &Self) -> bool {
        if self.pending().len() > 0 {
            delay == Some(self.pending()[0]) && rest.pending() == self.pending().skip(1)
        } else {
            delay is None && rest.pending() == self.pending()
        }
    }

    fn next(&mut self) -> (delay: Option<Duration>) {
        proof {
            use_type_invariant(&*self);
        }
        if self.pulled < self.delays.len() {
            let delay = self.delays[self.pulled];
            self.pulled = self.pulled + 1;
            proof {
                assert(self.pending() =~= old(self).pending().skip(1));
            }
            Some(delay)
        } else {
            None
        }
    }
}

} // verus!
