//! The retry decision: predicate, backoff and adjust hook combined into a
//! verdict.

use core::ops::ControlFlow;
use core::time::Duration;
use vstd::prelude::*;
use crate::backoff::Backoff;

verus! {

/// The default predicate: every error is worth another attempt.
pub fn always_retry<E>(_err: &E) -> (retry: bool)
    ensures
        retry,
{
    true
}

/// The default notification: nothing is observed.
pub fn noop_notify<E>(_err: &E, _dur: Duration) {
}

/// The default adjust hook: the candidate delay passes through.
pub fn identity_adjust<E>(_err: &E, dur: Option<Duration>) -> (adjusted: Option<Duration>)
    ensures
        adjusted == dur,
{
    dur
}

/// What one retry session is configured with: its backoff source and hooks.
pub struct RetryConfig<B, Sleep, RetryFn, NotifyFn, AdjustFn> {
    pub backoff: B,
    pub sleep: Sleep,
    pub retryable: RetryFn,
    pub notify: NotifyFn,
    pub adjust: AdjustFn,
}

impl<B, Sleep, RetryFn, NotifyFn, AdjustFn> RetryConfig<B, Sleep, RetryFn, NotifyFn, AdjustFn> {
    /// A configuration made of the five parts as given.
    pub fn new(backoff: B, sleep: Sleep, retryable: RetryFn, notify: NotifyFn, adjust: AdjustFn) -> (config: Self)
        ensures
            config.backoff == backoff,
            config.sleep == sleep,
            config.retryable == retryable,
            config.notify == notify,
            config.adjust == adjust,
    {
        RetryConfig { backoff, sleep, retryable, notify, adjust }
    }

    /// The same configuration with another sleep function.
    pub fn with_sleep<S>(self, sleep: S) -> (config: RetryConfig<B, S, RetryFn, NotifyFn, AdjustFn>)
        ensures
            config.backoff == self.backoff,
            config.sleep == sleep,
            config.retryable == self.retryable,
            config.notify == self.notify,
            config.adjust == self.adjust,
    {
        RetryConfig {
            backoff: self.backoff,
            sleep,
            retryable: self.retryable,
            notify: self.notify,
            adjust: self.adjust,
        }
    }

    /// The same configuration with another retryable predicate.
    pub fn with_retryable<R>(self, retryable: R) -> (config: RetryConfig<B, Sleep, R, NotifyFn, AdjustFn>)
        ensures
            config.backoff == self.backoff,
            config.sleep == self.sleep,
            config.retryable == retryable,
            config.notify == self.notify,
            config.adjust == self.adjust,
    {
        RetryConfig {
            backoff: self.backoff,
            sleep: self.sleep,
            retryable,
            notify: self.notify,
            adjust: self.adjust,
        }
    }

    /// The same configuration with another notification callback.
    pub fn with_notify<N>(self, notify: N) -> (config: RetryConfig<B, Sleep, RetryFn, N, AdjustFn>)
        ensures
            config.backoff == self.backoff,
            config.sleep == self.sleep,
            config.retryable == self.retryable,
            config.notify == notify,
            config.adjust == self.adjust,
    {
        RetryConfig {
            backoff: self.backoff,
            sleep: self.sleep,
            retryable: self.retryable,
            notify,
            adjust: self.adjust,
        }
    }

    /// The same configuration with another adjust hook.
    pub fn with_adjust<A>(self, adjust: A) -> (config: RetryConfig<B, Sleep, RetryFn, NotifyFn, A>)
        ensures
            config.backoff == self.backoff,
            config.sleep == self.sleep,
            config.retryable == self.retryable,
            config.notify == self.notify,
            config.adjust == adjust,
    {
        RetryConfig {
            backoff: self.backoff,
            sleep: self.sleep,
            retryable: self.retryable,
            notify: self.notify,
            adjust,
        }
    }

    /// Whether the four hooks of `after` are those of `self`.
    pub open spec fn same_hooks(self, after: Self) -> bool {
        &&& after.sleep == self.sleep
        &&& after.retryable == self.retryable
        &&& after.notify == self.notify
        &&& after.adjust == self.adjust
    }

    /// Whether every hook can be called on `err`, whatever delay comes with it.
    pub open spec fn hooks_total<E>(self, err: &E) -> bool where
        RetryFn: FnMut(&E) -> bool,
        NotifyFn: FnMut(&E, Duration),
        AdjustFn: FnMut(&E, Option<Duration>) -> Option<Duration>,
    {
        &&& self.retryable.requires((err,))
        &&& forall|candidate: Option<Duration>| #[trigger] self.adjust.requires((err, candidate))
        &&& forall|delay: Duration| #[trigger] self.notify.requires((err, delay))
    }

    /// Whether the source may have been pulled once, leaving it as in
    /// `after`, and the adjust hook may have answered what it gave, on
    /// `err`, with `adjusted`.
    pub open spec fn pulls<E>(self, err: &E, after: Self, adjusted: Option<Duration>) -> bool where
        B: Backoff,
        AdjustFn: FnMut(&E, Option<Duration>) -> Option<Duration>,
    {
        exists|candidate: Option<Duration>|
            #[trigger] self.backoff.yields(candidate, &after.backoff) && self.adjust.ensures(
                (err, candidate),
                adjusted,
            )
    }

    /// Whether `verdict` is a decision on `err` that takes the configuration
    /// from `self` to `after`.
    ///
    /// A rejection by the predicate stops and leaves the source as it was.
    /// Otherwise the source is pulled once and the adjust hook sees what it
    /// gave: a delay from the hook is notified and continues, none stops.
    pub open spec fn decides<E>(self, err: &E, after: Self, verdict: ControlFlow<(), Duration>) -> bool where
        B: Backoff,
        RetryFn: FnMut(&E) -> bool,
        NotifyFn: FnMut(&E, Duration),
        AdjustFn: FnMut(&E, Option<Duration>) -> Option<Duration>,
    {
        &&& self.same_hooks(after)
        &&& match verdict {
            ControlFlow::Continue(delay) => {
                &&& self.retryable.ensures((err,), true)
                &&& self.pulls(err, after, Some(delay))
                &&& self.notify.ensures((err, delay), ())
            },
            ControlFlow::Break(_) => {
                ||| self.retryable.ensures((err,), false) && after.backoff == self.backoff
                ||| self.retryable.ensures((err,), true) && self.pulls(err, after, None)
            },
        }
    }

    /// Decides what follows the failure `err`: stop, or continue after a delay.
    pub fn decide<E>(&mut self, err: &E) -> (verdict: ControlFlow<(), Duration>) where
        B: Backoff,
        RetryFn: FnMut(&E) -> bool,
        NotifyFn: FnMut(&E, Duration),
        AdjustFn: FnMut(&E, Option<Duration>) -> Option<Duration>,

        requires
            old(self).hooks_total(err),
        ensures
            old(self).decides(err, *final(self), verdict),
    {
        if !(self.retryable)(err) {
            return ControlFlow::Break(());
        }
        let candidate = self.backoff.next();
        match (self.adjust)(err, candidate) {
            Some(dur) => {
                (self.notify)(err, dur);
                ControlFlow::Continue(dur)
            },
            None => ControlFlow::Break(()),
        }
    }
}

} // verus!
