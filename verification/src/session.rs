//! Retry sessions: one attempt after another, a decision after each failure,
//! and the context of the call handed from each attempt to the next.

use core::ops::ControlFlow;
use core::time::Duration;
use vstd::prelude::*;
use crate::backoff::{runs_out, Backoff};
use crate::retry_core::RetryConfig;

verus! {

/// What the driver does after an attempt. Either way it gets the context back
/// that the attempt returned.
pub enum Step<C, T, E> {
    /// The session is over, with this result.
    Finish(C, Result<T, E>),
    /// Sleep for the delay, then attempt again with the context.
    Retry(C, Duration),
}

/// Where a session stands.
#[derive(Clone, Copy, Debug, PartialEq, Eq, Structural)]
pub enum Phase {
    /// Nothing attempted yet.
    Ready,
    /// The operation is running.
    Attempting,
    /// Waiting out the delay before the next attempt.
    Sleeping,
    /// Over, with the value of the last attempt.
    Succeeded,
    /// Over, with the error of the last attempt.
    Failed,
}

impl Phase {
    /// Whether a session can pass from `self` straight to `next`.
    pub open spec fn leads_to(self, next: Phase) -> bool {
        match self {
            Phase::Ready => next == Phase::Attempting,
            Phase::Attempting => next == Phase::Succeeded || next == Phase::Failed || next
                == Phase::Sleeping,
            Phase::Sleeping => next == Phase::Attempting,
            Phase::Succeeded | Phase::Failed => false,
        }
    }

    /// Whether the session is over.
    pub open spec fn terminal(self) -> bool {
        self == Phase::Succeeded || self == Phase::Failed
    }
}

impl<C, T, E> Step<C, T, E> {
    /// The phase that the session enters with this step.
    pub open spec fn enters(self) -> Phase {
        match self {
            Step::Retry(_, _) => Phase::Sleeping,
            Step::Finish(_, Ok(_)) => Phase::Succeeded,
            Step::Finish(_, Err(_)) => Phase::Failed,
        }
    }

    /// The phase that the session enters with this step.
    pub fn phase(&self) -> (phase: Phase)
        ensures
            phase == self.enters(),
    {
        match self {
            Step::Retry(_, _) => Phase::Sleeping,
            Step::Finish(_, Ok(_)) => Phase::Succeeded,
            Step::Finish(_, Err(_)) => Phase::Failed,
        }
    }
}

/// The phases that a session of these attempts passes through, first to
/// last: ready, then for each attempt the attempt itself and the phase that
/// its step enters.
pub open spec fn phases<C, T, E>(turns: Seq<Turn<C, T, E>>) -> Seq<Phase> {
    Seq::new(
        1 + 2 * turns.len(),
        |i: int|
            if i == 0 {
                Phase::Ready
            } else if i % 2 == 1 {
                Phase::Attempting
            } else {
                turns[i / 2 - 1].step.enters()
            },
    )
}

/// One attempt of a session, as the driver saw it.
pub struct Turn<C, T, E> {
    /// The context that the attempt received.
    pub given: C,
    /// The context that the attempt handed back.
    pub returned: C,
    /// How the attempt ended.
    pub outcome: Result<T, E>,
    /// What the driver did next.
    pub step: Step<C, T, E>,
}

/// The attempts of an operation that takes the context and hands it back
/// beside its outcome: context given, context returned, outcome.
pub open spec fn threaded<C, T, E, Op: FnMut(C) -> (C, Result<T, E>)>(op: Op) -> spec_fn(
    C,
    C,
    Result<T, E>,
) -> bool {
    |given: C, returned: C, outcome: Result<T, E>| op.ensures((given,), (returned, outcome))
}

/// The attempts of an operation that takes nothing: the context is the unit
/// value.
pub open spec fn plain<T, E, Op: FnMut() -> Result<T, E>>(op: Op) -> spec_fn(
    (),
    (),
    Result<T, E>,
) -> bool {
    |given: (), returned: (), outcome: Result<T, E>| op.ensures((), outcome)
}

/// Whether the attempt `next` received the context that `turn` was retried
/// with.
pub open spec fn hands_on<C, T, E>(turn: Turn<C, T, E>, next: Turn<C, T, E>) -> bool {
    turn.step matches Step::Retry(kept, _) && next.given == kept
}

impl<B, Sleep, RetryFn, NotifyFn, AdjustFn> RetryConfig<B, Sleep, RetryFn, NotifyFn, AdjustFn> {
    /// Whether `step` follows an attempt that returned `ctx` and `outcome`,
    /// and takes the configuration from `self` to `after`.
    ///
    /// A success finishes and touches nothing. A failure finishes with that
    /// error where the decision is to stop, and is retried after the decided
    /// delay otherwise. The step holds the very context that came in.
    pub open spec fn advances<C, T, E>(
        self,
        ctx: C,
        outcome: Result<T, E>,
        after: Self,
        step: Step<C, T, E>,
    ) -> bool where
        B: Backoff,
        RetryFn: FnMut(&E) -> bool,
        NotifyFn: FnMut(&E, Duration),
        AdjustFn: FnMut(&E, Option<Duration>) -> Option<Duration>,
    {
        match outcome {
            Ok(value) => after == self && step == Step::<C, T, E>::Finish(ctx, Ok(value)),
            Err(err) => match step {
                Step::Retry(kept, delay) => kept == ctx && self.decides(
                    &err,
                    after,
                    ControlFlow::Continue(delay),
                ),
                Step::Finish(kept, result) => kept == ctx && result == Err::<T, E>(err)
                    && self.decides(&err, after, ControlFlow::Break(())),
            },
        }
    }

    /// Takes the outcome of one attempt and says what the driver does next.
    pub fn advance<C, T, E>(&mut self, ctx: C, outcome: Result<T, E>) -> (step: Step<C, T, E>) where
        B: Backoff,
        RetryFn: FnMut(&E) -> bool,
        NotifyFn: FnMut(&E, Duration),
        AdjustFn: FnMut(&E, Option<Duration>) -> Option<Duration>,

        requires
            outcome matches Err(err) ==> old(self).hooks_total(&err),
        ensures
            old(self).advances(ctx, outcome, *final(self), step),
    {
        match outcome {
            Ok(value) => Step::Finish(ctx, Ok(value)),
            Err(err) => match self.decide(&err) {
                ControlFlow::Continue(delay) => Step::Retry(ctx, delay),
                ControlFlow::Break(_) => Step::Finish(ctx, Err(err)),
            },
        }
    }

    /// Whether `turn` is one attempt of a session of `self` that found the
    /// configuration as `before` and left it as `after`: the operation ran,
    /// the step was taken from its outcome, and a retry slept for its delay.
    pub open spec fn takes_turn<C, T, E>(
        self,
        attempted: spec_fn(C, C, Result<T, E>) -> bool,
        before: Self,
        turn: Turn<C, T, E>,
        after: Self,
    ) -> bool where
        B: Backoff,
        Sleep: FnMut(Duration),
        RetryFn: FnMut(&E) -> bool,
        NotifyFn: FnMut(&E, Duration),
        AdjustFn: FnMut(&E, Option<Duration>) -> Option<Duration>,
    {
        &&& attempted(turn.given, turn.returned, turn.outcome)
        &&& before.advances(turn.returned, turn.outcome, after, turn.step)
        &&& turn.step matches Step::Retry(_, delay) ==> self.sleep.ensures((delay,), ())
    }

    /// Whether `turns` is a whole session of `self` that began with `ctx`,
    /// the configuration passing through `configs`.
    ///
    /// The first attempt receives `ctx`, each later one the context that the
    /// attempt before it was retried with, and the last attempt alone
    /// finishes.
    pub open spec fn session<C, T, E>(
        self,
        attempted: spec_fn(C, C, Result<T, E>) -> bool,
        ctx: C,
        configs: Seq<Self>,
        turns: Seq<Turn<C, T, E>>,
    ) -> bool where
        B: Backoff,
        Sleep: FnMut(Duration),
        RetryFn: FnMut(&E) -> bool,
        NotifyFn: FnMut(&E, Duration),
        AdjustFn: FnMut(&E, Option<Duration>) -> Option<Duration>,
    {
        &&& turns.len() >= 1
        &&& configs.len() == turns.len() + 1
        &&& configs[0] == self
        &&& turns[0].given == ctx
        &&& turns.last().step is Finish
        &&& forall|i: int|
            0 <= i < turns.len() ==> self.takes_turn(
                attempted,
                configs[i],
                #[trigger] turns[i],
                configs[i + 1],
            )
        &&& forall|i: int| 0 <= i < turns.len() - 1 ==> hands_on(#[trigger] turns[i], turns[i + 1])
    }

    /// Whether a session of `self` is sure to end: the source runs out, and
    /// the adjust hook gives no delay where the source gave none.
    pub open spec fn gives_up<E>(self) -> bool where
        B: Backoff,
        AdjustFn: FnMut(&E, Option<Duration>) -> Option<Duration>,
    {
        &&& exists|pulls: nat| #[trigger] runs_out(self.backoff, pulls)
        &&& forall|err: &E, adjusted: Option<Duration>|
            #[trigger] self.adjust.ensures((err, None), adjusted) ==> adjusted is None
    }

    /// Whether the hooks and the sleep function can be called on every value.
    pub open spec fn callable<E>(self) -> bool where
        Sleep: FnMut(Duration),
        RetryFn: FnMut(&E) -> bool,
        NotifyFn: FnMut(&E, Duration),
        AdjustFn: FnMut(&E, Option<Duration>) -> Option<Duration>,
    {
        &&& forall|err: &E| #[trigger] self.hooks_total(err)
        &&& forall|delay: Duration| #[trigger] self.sleep.requires((delay,))
    }

    /// Runs a session on the calling thread: attempts `op` with `ctx`, and
    /// after each failure that is to be retried sleeps and attempts again
    /// with the context that came back. Returns the last context and the
    /// result of the last attempt.
    pub fn call_with_context<C, T, E, Op>(self, op: Op, ctx: C) -> (done: (C, Result<T, E>)) where
        B: Backoff,
        Sleep: FnMut(Duration),
        RetryFn: FnMut(&E) -> bool,
        NotifyFn: FnMut(&E, Duration),
        AdjustFn: FnMut(&E, Option<Duration>) -> Option<Duration>,
        Op: FnMut(C) -> (C, Result<T, E>),

        requires
            self.gives_up::<E>(),
            self.callable::<E>(),
            forall|given: C| #[trigger] op.requires((given,)),
        ensures
            exists|configs: Seq<Self>, turns: Seq<Turn<C, T, E>>|
                #[trigger] self.session(threaded(op), ctx, configs, turns) && turns.last().step
                    == Step::<C, T, E>::Finish(done.0, done.1),
    {
        let mut config = self;
        let mut run = op;
        let mut current = ctx;
        let ghost mut configs: Seq<Self> = seq![config];
        let ghost mut turns: Seq<Turn<C, T, E>> = Seq::empty();
        let ghost mut fuel: nat = choose|pulls: nat| #[trigger] runs_out(config.backoff, pulls);
        loop
            invariant
                self.callable::<E>(),
                self.gives_up::<E>(),
                self.same_hooks(config),
                run == op,
                forall|given: C| #[trigger] op.requires((given,)),
                runs_out(config.backoff, fuel),
                configs.len() == turns.len() + 1,
                configs[0] == self,
                configs.last() == config,
                turns.len() == 0 ==> current == ctx,
                turns.len() > 0 ==> turns[0].given == ctx,
                turns.len() > 0 ==> (turns.last().step matches Step::Retry(kept, _) && kept == current),
                forall|i: int|
                    0 <= i < turns.len() ==> self.takes_turn(
                        threaded(op),
                        configs[i],
                        #[trigger] turns[i],
                        configs[i + 1],
                    ),
                forall|i: int| 0 <= i < turns.len() - 1 ==> hands_on(#[trigger] turns[i], turns[i + 1]),
            decreases fuel,
        {
            let ghost given = current;
            let (returned, outcome) = run(current);
            let ghost seen = outcome;
            proof {
                if seen is Err {
                    assert(self.hooks_total(&seen->Err_0));
                }
            }
            let ghost before = config;
            let step = config.advance(returned, outcome);
            proof {
                turns = turns.push(Turn { given, returned, outcome: seen, step });
                configs = configs.push(config);
            }
            match step {
                Step::Finish(last, result) => {
                    proof {
                        assert(self.session(threaded(op), ctx, configs, turns));
                    }
                    return (last, result);
                },
                Step::Retry(kept, delay) => {
                    (config.sleep)(delay);
                    current = kept;
                    proof {
                        let err = seen->Err_0;
                        assert(before.pulls(&err, config, Some(delay)));
                        let candidate = choose|candidate: Option<Duration>|
                            #[trigger] before.backoff.yields(candidate, &config.backoff)
                                && before.adjust.ensures((&err, candidate), Some(delay));
                        assert(candidate is Some);
                        fuel = (fuel - 1) as nat;
                    }
                },
            }
        }
    }

    /// Runs a session on the calling thread for an operation that takes
    /// nothing: attempts `op`, and after each failure that is to be retried
    /// sleeps and attempts again. Returns the result of the last attempt.
    pub fn call<T, E, Op>(self, op: Op) -> (result: Result<T, E>) where
        B: Backoff,
        Sleep: FnMut(Duration),
        RetryFn: FnMut(&E) -> bool,
        NotifyFn: FnMut(&E, Duration),
        AdjustFn: FnMut(&E, Option<Duration>) -> Option<Duration>,
        Op: FnMut() -> Result<T, E>,

        requires
            self.gives_up::<E>(),
            self.callable::<E>(),
            op.requires(()),
        ensures
            exists|configs: Seq<Self>, turns: Seq<Turn<(), T, E>>|
                #[trigger] self.session(plain(op), (), configs, turns) && turns.last().step
                    == Step::<(), T, E>::Finish((), result),
    {
        let mut config = self;
        let mut run = op;
        let ghost mut configs: Seq<Self> = seq![config];
        let ghost mut turns: Seq<Turn<(), T, E>> = Seq::empty();
        let ghost mut fuel: nat = choose|pulls: nat| #[trigger] runs_out(config.backoff, pulls);
        loop
            invariant
                self.callable::<E>(),
                self.gives_up::<E>(),
                self.same_hooks(config),
                run == op,
                op.requires(()),
                runs_out(config.backoff, fuel),
                configs.len() == turns.len() + 1,
                configs[0] == self,
                configs.last() == config,
                turns.len() > 0 ==> turns.last().step is Retry,
                forall|i: int|
                    0 <= i < turns.len() ==> self.takes_turn(
                        plain(op),
                        configs[i],
                        #[trigger] turns[i],
                        configs[i + 1],
                    ),
                forall|i: int| 0 <= i < turns.len() - 1 ==> hands_on(#[trigger] turns[i], turns[i + 1]),
            decreases fuel,
        {
            let outcome = run();
            let ghost seen = outcome;
            proof {
                if seen is Err {
                    assert(self.hooks_total(&seen->Err_0));
                }
            }
            let ghost before = config;
            let step = config.advance((), outcome);
            proof {
                turns = turns.push(Turn { given: (), returned: (), outcome: seen, step });
                configs = configs.push(config);
            }
            match step {
                Step::Finish(_, result) => {
                    proof {
                        assert(self.session(plain(op), (), configs, turns));
                    }
                    return result;
                },
                Step::Retry(_, delay) => {
                    (config.sleep)(delay);
                    proof {
                        let err = seen->Err_0;
                        assert(before.pulls(&err, config, Some(delay)));
                        let candidate = choose|candidate: Option<Duration>|
                            #[trigger] before.backoff.yields(candidate, &config.backoff)
                                && before.adjust.ensures((&err, candidate), Some(delay));
                        assert(candidate is Some);
                        fuel = (fuel - 1) as nat;
                    }
                },
            }
        }
    }
}

} // verus!
