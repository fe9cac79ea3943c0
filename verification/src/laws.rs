//! What holds of every retry decision and of every retry session.

use core::ops::ControlFlow;
use core::time::Duration;
use vstd::prelude::*;
use crate::backoff::{yields_exactly, Backoff};
use crate::retry_core::RetryConfig;
use crate::session::{hands_on, phases, Phase, Step, Turn};

verus! {

/// Whether the predicate accepts every error.
pub open spec fn accepts_all<E, RetryFn: FnMut(&E) -> bool>(retryable: RetryFn) -> bool {
    forall|err: &E, retry: bool| #[trigger] retryable.ensures((err,), retry) ==> retry
}

/// Whether the predicate rejects `err`.
pub open spec fn rejects<E, RetryFn: FnMut(&E) -> bool>(retryable: RetryFn, err: &E) -> bool {
    forall|retry: bool| #[trigger] retryable.ensures((err,), retry) ==> !retry
}

/// Whether the adjust hook hands every candidate back as it came.
pub open spec fn passes_through<E, AdjustFn: FnMut(&E, Option<Duration>) -> Option<Duration>>(
    adjust: AdjustFn,
) -> bool {
    forall|err: &E, candidate: Option<Duration>, adjusted: Option<Duration>| #[trigger]
        adjust.ensures((err, candidate), adjusted) ==> adjusted == candidate
}

/// Whether the next pull on the source gives the delay `given`.
pub open spec fn gives<B: Backoff>(backoff: B, given: Duration) -> bool {
    forall|delay: Option<Duration>, rest: B| #[trigger]
        backoff.yields(delay, &rest) ==> delay == Some(given)
}

impl<B, Sleep, RetryFn, NotifyFn, AdjustFn> RetryConfig<B, Sleep, RetryFn, NotifyFn, AdjustFn> where
    B: Backoff,
    Sleep: FnMut(Duration),
{
    /// The predicate comes first: an error that it rejects stops the session,
    /// and the backoff source is not pulled.
    pub proof fn law_rejection_pulls_nothing<E>(
        self,
        err: &E,
        after: Self,
        verdict: ControlFlow<(), Duration>,
    ) where
        RetryFn: FnMut(&E) -> bool,
        NotifyFn: FnMut(&E, Duration),
        AdjustFn: FnMut(&E, Option<Duration>) -> Option<Duration>,

        requires
            self.decides(err, after, verdict),
            rejects(self.retryable, err),
        ensures
            verdict is Break,
            after.backoff == self.backoff,
    {
    }

    /// An adjust hook that answers the delay of the source with none stops
    /// the session, though the predicate accepts and the source gave a
    /// delay.
    pub proof fn law_adjust_can_stop<E>(
        self,
        err: &E,
        after: Self,
        verdict: ControlFlow<(), Duration>,
        given: Duration,
    ) where
        RetryFn: FnMut(&E) -> bool,
        NotifyFn: FnMut(&E, Duration),
        AdjustFn: FnMut(&E, Option<Duration>) -> Option<Duration>,

        requires
            self.decides(err, after, verdict),
            gives(self.backoff, given),
            forall|adjusted: Option<Duration>| #[trigger]
                self.adjust.ensures((err, Some(given)), adjusted) ==> adjusted is None,
        ensures
            verdict is Break,
    {
    }

    /// Where the predicate accepts, the delay that the adjust hook answers
    /// the delay of the source with is the delay of the decision.
    pub proof fn law_adjust_overrides_delay<E>(
        self,
        err: &E,
        after: Self,
        verdict: ControlFlow<(), Duration>,
        given: Duration,
        chosen: Duration,
    ) where
        RetryFn: FnMut(&E) -> bool,
        NotifyFn: FnMut(&E, Duration),
        AdjustFn: FnMut(&E, Option<Duration>) -> Option<Duration>,

        requires
            self.decides(err, after, verdict),
            forall|retry: bool| #[trigger] self.retryable.ensures((err,), retry) ==> retry,
            gives(self.backoff, given),
            forall|adjusted: Option<Duration>| #[trigger]
                self.adjust.ensures((err, Some(given)), adjusted) ==> adjusted == Some(chosen),
        ensures
            verdict == ControlFlow::<(), Duration>::Continue(chosen),
    {
    }

    /// With the default adjust hook, a decision on an error that the
    /// predicate accepts continues with the very delay that the source gave,
    /// and stops where the source is exhausted.
    pub proof fn law_source_sets_delay<E>(
        self,
        err: &E,
        after: Self,
        verdict: ControlFlow<(), Duration>,
    ) where
        RetryFn: FnMut(&E) -> bool,
        NotifyFn: FnMut(&E, Duration),
        AdjustFn: FnMut(&E, Option<Duration>) -> Option<Duration>,

        requires
            self.decides(err, after, verdict),
            forall|retry: bool| #[trigger] self.retryable.ensures((err,), retry) ==> retry,
            passes_through(self.adjust),
        ensures
            match verdict {
                ControlFlow::Continue(delay) => self.backoff.yields(Some(delay), &after.backoff),
                ControlFlow::Break(_) => self.backoff.yields(None, &after.backoff),
            },
    {
    }

    /// A session keeps its hooks: every attempt finds them, and leaves them,
    /// as the session began with them.
    pub proof fn law_hooks_stay<C, T, E>(
        self,
        attempted: spec_fn(C, C, Result<T, E>) -> bool,
        ctx: C,
        configs: Seq<Self>,
        turns: Seq<Turn<C, T, E>>,
        k: int,
    ) where
        RetryFn: FnMut(&E) -> bool,
        NotifyFn: FnMut(&E, Duration),
        AdjustFn: FnMut(&E, Option<Duration>) -> Option<Duration>,

        requires
            self.session(attempted, ctx, configs, turns),
            0 <= k <= turns.len(),
        ensures
            self.same_hooks(configs[k]),
        decreases k,
    {
        if k > 0 {
            self.law_hooks_stay(attempted, ctx, configs, turns, k - 1);
            assert(self.takes_turn(attempted, configs[k - 1], turns[k - 1], configs[k]));
        }
    }

    /// With a predicate that accepts every error and the default adjust
    /// hook, a session whose source yields exactly `delays` retries its first
    /// failures with these delays, one each: where the first `k` attempts
    /// fail and `k` is no more than the number of delays, there is an attempt
    /// number `k` (counted from 0), and it finds the hooks unchanged and the
    /// source `k` delays further on.
    pub proof fn law_failures_are_retried<C, T, E>(
        self,
        attempted: spec_fn(C, C, Result<T, E>) -> bool,
        ctx: C,
        configs: Seq<Self>,
        turns: Seq<Turn<C, T, E>>,
        delays: Seq<Duration>,
        k: int,
    ) where
        RetryFn: FnMut(&E) -> bool,
        NotifyFn: FnMut(&E, Duration),
        AdjustFn: FnMut(&E, Option<Duration>) -> Option<Duration>,

        requires
            self.session(attempted, ctx, configs, turns),
            accepts_all(self.retryable),
            passes_through(self.adjust),
            yields_exactly(self.backoff, delays),
            0 <= k <= delays.len(),
            forall|i: int| 0 <= i < k && i < turns.len() ==> (#[trigger] turns[i]).outcome is Err,
        ensures
            k < turns.len(),
            self.same_hooks(configs[k]),
            yields_exactly(configs[k].backoff, delays.skip(k)),
            forall|i: int|
                0 <= i < k ==> (#[trigger] turns[i]).step == Step::<C, T, E>::Retry(turns[i].returned, delays[i]),
        decreases k,
    {
        if k == 0 {
            assert(delays.skip(0) =~= delays);
        } else {
            let j = k - 1;
            self.law_failures_are_retried(attempted, ctx, configs, turns, delays, j);
            assert(self.takes_turn(attempted, configs[j], turns[j], configs[j + 1]));
            let err = turns[j].outcome->Err_0;
            let rest = delays.skip(j);
            assert(rest.len() > 0 && rest[0] == delays[j]);
            assert(rest.skip(1) =~= delays.skip(k));
            match turns[j].step {
                Step::Retry(kept, delay) => {
                    assert(configs[j].pulls(&err, configs[j + 1], Some(delay)));
                    let candidate = choose|candidate: Option<Duration>|
                        #[trigger] configs[j].backoff.yields(candidate, &configs[j + 1].backoff)
                            && configs[j].adjust.ensures((&err, candidate), Some(delay));
                    assert(candidate == Some(delays[j]));
                    assert(delay == delays[j]);
                },
                Step::Finish(kept, result) => {
                    assert(configs[j].retryable.ensures((&err,), true));
                    assert(configs[j].pulls(&err, configs[j + 1], None));
                    let candidate = choose|candidate: Option<Duration>|
                        #[trigger] configs[j].backoff.yields(candidate, &configs[j + 1].backoff)
                            && configs[j].adjust.ensures((&err, candidate), None);
                    assert(candidate == Some(delays[j]));
                    assert(false);
                },
            }
            if j == turns.len() - 1 {
                assert(false);
            }
        }
    }

    /// A session whose first N attempts fail and whose next attempt
    /// succeeds, with a predicate that accepts every error, the default
    /// adjust hook and a source of exactly N delays, makes N + 1 attempts,
    /// sleeps for the N delays in their order, and ends with that success.
    pub proof fn law_success_after_failures<C, T, E>(
        self,
        attempted: spec_fn(C, C, Result<T, E>) -> bool,
        ctx: C,
        configs: Seq<Self>,
        turns: Seq<Turn<C, T, E>>,
        delays: Seq<Duration>,
    ) where
        RetryFn: FnMut(&E) -> bool,
        NotifyFn: FnMut(&E, Duration),
        AdjustFn: FnMut(&E, Option<Duration>) -> Option<Duration>,

        requires
            self.session(attempted, ctx, configs, turns),
            accepts_all(self.retryable),
            passes_through(self.adjust),
            yields_exactly(self.backoff, delays),
            forall|i: int| 0 <= i < delays.len() && i < turns.len() ==> (#[trigger] turns[i]).outcome is Err,
            delays.len() < turns.len() ==> turns[delays.len() as int].outcome is Ok,
        ensures
            turns.len() == delays.len() + 1,
            forall|i: int|
                0 <= i < delays.len() ==> (#[trigger] turns[i]).step == Step::<C, T, E>::Retry(
                    turns[i].returned,
                    delays[i],
                ),
            turns.last().outcome is Ok,
            turns.last().step == Step::<C, T, E>::Finish(turns.last().returned, turns.last().outcome),
    {
        let n = delays.len() as int;
        self.law_failures_are_retried(attempted, ctx, configs, turns, delays, n);
        assert(self.takes_turn(attempted, configs[n], turns[n], configs[n + 1]));
        if n < turns.len() - 1 {
            assert(hands_on(turns[n], turns[n + 1]));
        }
    }

    /// A session whose first error the predicate rejects makes one attempt,
    /// never sleeps, leaves the source as it was, and ends with that error.
    pub proof fn law_rejection_ends_session<C, T, E>(
        self,
        attempted: spec_fn(C, C, Result<T, E>) -> bool,
        ctx: C,
        configs: Seq<Self>,
        turns: Seq<Turn<C, T, E>>,
    ) where
        RetryFn: FnMut(&E) -> bool,
        NotifyFn: FnMut(&E, Duration),
        AdjustFn: FnMut(&E, Option<Duration>) -> Option<Duration>,

        requires
            self.session(attempted, ctx, configs, turns),
            turns[0].outcome is Err,
            rejects(self.retryable, &turns[0].outcome->Err_0),
        ensures
            turns.len() == 1,
            turns[0].step == Step::<C, T, E>::Finish(turns[0].returned, turns[0].outcome),
            configs[1].backoff == self.backoff,
    {
        assert(self.takes_turn(attempted, configs[0], turns[0], configs[1]));
        if turns.len() > 1 {
            assert(hands_on(turns[0], turns[1]));
        }
    }

    /// A session in which every attempt fails, with a predicate that accepts
    /// every error, the default adjust hook and a source that is exhausted
    /// on its pull number K, makes K attempts, and ends with the error of
    /// the last of them.
    pub proof fn law_exhaustion_ends_session<C, T, E>(
        self,
        attempted: spec_fn(C, C, Result<T, E>) -> bool,
        ctx: C,
        configs: Seq<Self>,
        turns: Seq<Turn<C, T, E>>,
        delays: Seq<Duration>,
    ) where
        RetryFn: FnMut(&E) -> bool,
        NotifyFn: FnMut(&E, Duration),
        AdjustFn: FnMut(&E, Option<Duration>) -> Option<Duration>,

        requires
            self.session(attempted, ctx, configs, turns),
            accepts_all(self.retryable),
            passes_through(self.adjust),
            yields_exactly(self.backoff, delays),
            forall|i: int| 0 <= i < turns.len() ==> (#[trigger] turns[i]).outcome is Err,
        ensures
            turns.len() == delays.len() + 1,
            forall|i: int|
                0 <= i < delays.len() ==> (#[trigger] turns[i]).step == Step::<C, T, E>::Retry(
                    turns[i].returned,
                    delays[i],
                ),
            turns.last().step == Step::<C, T, E>::Finish(turns.last().returned, turns.last().outcome),
    {
        let n = delays.len() as int;
        self.law_failures_are_retried(attempted, ctx, configs, turns, delays, n);
        assert(self.takes_turn(attempted, configs[n], turns[n], configs[n + 1]));
        assert(delays.skip(n).len() == 0);
        let err = turns[n].outcome->Err_0;
        if let Step::Retry(kept, delay) = turns[n].step {
            assert(configs[n].pulls(&err, configs[n + 1], Some(delay)));
            let candidate = choose|candidate: Option<Duration>|
                #[trigger] configs[n].backoff.yields(candidate, &configs[n + 1].backoff)
                    && configs[n].adjust.ensures((&err, candidate), Some(delay));
            assert(candidate is None);
            assert(false);
        }
        if n < turns.len() - 1 {
            assert(hands_on(turns[n], turns[n + 1]));
        }
    }

    /// Every attempt of a session that is retried failed, and the notify
    /// callback ran on its error and on the delay of the retry, the same
    /// delay that the session then slept for.
    pub proof fn law_retry_is_notified<C, T, E>(
        self,
        attempted: spec_fn(C, C, Result<T, E>) -> bool,
        ctx: C,
        configs: Seq<Self>,
        turns: Seq<Turn<C, T, E>>,
        i: int,
    ) where
        RetryFn: FnMut(&E) -> bool,
        NotifyFn: FnMut(&E, Duration),
        AdjustFn: FnMut(&E, Option<Duration>) -> Option<Duration>,

        requires
            self.session(attempted, ctx, configs, turns),
            0 <= i < turns.len(),
            turns[i].step is Retry,
        ensures
            i + 1 < turns.len(),
            turns[i].outcome is Err,
            self.notify.ensures((&turns[i].outcome->Err_0, turns[i].step->Retry_1), ()),
            self.sleep.ensures((turns[i].step->Retry_1,), ()),
    {
        self.law_hooks_stay(attempted, ctx, configs, turns, i);
        assert(self.takes_turn(attempted, configs[i], turns[i], configs[i + 1]));
    }

    /// The context makes the round of a session: the first attempt receives
    /// the initial context, every later attempt the very context that the
    /// attempt before it returned, and the session ends with the context
    /// that its last attempt returned.
    pub proof fn law_context_round_trip<C, T, E>(
        self,
        attempted: spec_fn(C, C, Result<T, E>) -> bool,
        ctx: C,
        configs: Seq<Self>,
        turns: Seq<Turn<C, T, E>>,
    ) where
        RetryFn: FnMut(&E) -> bool,
        NotifyFn: FnMut(&E, Duration),
        AdjustFn: FnMut(&E, Option<Duration>) -> Option<Duration>,

        requires
            self.session(attempted, ctx, configs, turns),
        ensures
            turns[0].given == ctx,
            forall|i: int| 0 <= i < turns.len() - 1 ==> turns[i + 1].given == (#[trigger] turns[i]).returned,
            turns.last().step->Finish_0 == turns.last().returned,
    {
        assert forall|i: int| 0 <= i < turns.len() - 1 implies turns[i + 1].given == (
        #[trigger] turns[i]).returned by {
            assert(hands_on(turns[i], turns[i + 1]));
            assert(self.takes_turn(attempted, configs[i], turns[i], configs[i + 1]));
        }
        let last = turns.len() - 1;
        assert(self.takes_turn(attempted, configs[last], turns[last], configs[last + 1]));
    }

    /// A session walks the phases in order: it is ready, then attempting;
    /// from an attempt it succeeds, fails or sleeps; from sleep it attempts
    /// again; and it ends, in no phase but its last, succeeded or failed.
    pub proof fn law_session_walks_phases<C, T, E>(
        self,
        attempted: spec_fn(C, C, Result<T, E>) -> bool,
        ctx: C,
        configs: Seq<Self>,
        turns: Seq<Turn<C, T, E>>,
    ) where
        RetryFn: FnMut(&E) -> bool,
        NotifyFn: FnMut(&E, Duration),
        AdjustFn: FnMut(&E, Option<Duration>) -> Option<Duration>,

        requires
            self.session(attempted, ctx, configs, turns),
        ensures
            phases(turns)[0] == Phase::Ready,
            phases(turns).last().terminal(),
            forall|i: int|
                0 <= i < phases(turns).len() - 1 ==> (#[trigger] phases(turns)[i]).leads_to(
                    phases(turns)[i + 1],
                ),
    {
        let walk = phases(turns);
        assert forall|i: int| 0 <= i < walk.len() - 1 implies (#[trigger] walk[i]).leads_to(
            walk[i + 1],
        ) by {
            if i > 0 && i % 2 == 0 {
                let k = i / 2 - 1;
                assert(hands_on(turns[k], turns[k + 1]));
            }
        }
    }
}

} // verus!
