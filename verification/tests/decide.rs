use backon_core::backoff::{Backoff, Schedule};
use backon_core::retry_core::{always_retry, identity_adjust, noop_notify, RetryConfig};
use core::ops::ControlFlow;
use std::cell::RefCell;
use std::time::Duration;

fn ms(n: u64) -> Duration {
    Duration::from_millis(n)
}

fn no_sleep(_: Duration) {}

#[test]
fn always_retry_accepts_any_error() {
    assert!(always_retry(&"boom"));
    assert!(always_retry(&42u32));
}

#[test]
fn identity_adjust_passes_candidate_through() {
    assert_eq!(identity_adjust(&"e", Some(ms(5))), Some(ms(5)));
    assert_eq!(identity_adjust(&"e", None), None);
}

#[test]
fn noop_notify_does_nothing() {
    noop_notify(&"e", ms(1));
}

#[test]
fn schedule_yields_its_delays_in_order_then_none() {
    let mut source = Schedule::new(vec![ms(1), ms(2), ms(3)]);
    assert_eq!(source.remaining(), 3);
    assert_eq!(source.next(), Some(ms(1)));
    assert_eq!(source.next(), Some(ms(2)));
    assert_eq!(source.remaining(), 1);
    assert_eq!(source.next(), Some(ms(3)));
    assert_eq!(source.next(), None);
    assert_eq!(source.next(), None);
    assert_eq!(source.remaining(), 0);
}

#[test]
fn empty_schedule_is_exhausted_at_once() {
    let mut source = Schedule::new(Vec::new());
    assert_eq!(source.remaining(), 0);
    assert_eq!(source.next(), None);
}

#[test]
fn new_keeps_every_part() {
    let mut config = RetryConfig::new(
        Schedule::new(vec![ms(7)]),
        11u8,
        |_: &u8| false,
        |_: &u8, _: Duration| {},
        |_: &u8, d: Option<Duration>| d,
    );
    assert_eq!(config.sleep, 11u8);
    assert_eq!(config.backoff.remaining(), 1);
    assert!(!(config.retryable)(&0));
    assert_eq!((config.adjust)(&0, Some(ms(3))), Some(ms(3)));
    (config.notify)(&0, ms(1));
}

#[test]
fn builders_replace_one_part_and_keep_the_rest() {
    let config = RetryConfig::new(
        Schedule::new(vec![ms(7), ms(8)]),
        1u8,
        2u8,
        3u8,
        4u8,
    );
    let config = config.with_sleep("sleep");
    assert_eq!(config.sleep, "sleep");
    assert_eq!((config.retryable, config.notify, config.adjust), (2, 3, 4));
    let config = config.with_retryable("when");
    assert_eq!(config.retryable, "when");
    assert_eq!((config.sleep, config.notify, config.adjust), ("sleep", 3, 4));
    let config = config.with_notify("notify");
    assert_eq!(config.notify, "notify");
    assert_eq!((config.sleep, config.retryable, config.adjust), ("sleep", "when", 4));
    let config = config.with_adjust("adjust");
    assert_eq!(config.adjust, "adjust");
    assert_eq!((config.sleep, config.retryable, config.notify), ("sleep", "when", "notify"));
    assert_eq!(config.backoff.remaining(), 2);
}

#[test]
fn decide_continues_with_the_delay_of_the_source() {
    let seen = RefCell::new(Vec::new());
    let mut config = RetryConfig::new(
        Schedule::new(vec![ms(10), ms(20)]),
        no_sleep,
        always_retry::<&str>,
        |e: &&str, d: Duration| seen.borrow_mut().push((e.to_string(), d)),
        identity_adjust::<&str>,
    );
    assert_eq!(config.decide(&"first"), ControlFlow::Continue(ms(10)));
    assert_eq!(config.decide(&"second"), ControlFlow::Continue(ms(20)));
    assert_eq!(config.backoff.remaining(), 0);
    assert_eq!(
        *seen.borrow(),
        vec![("first".to_string(), ms(10)), ("second".to_string(), ms(20))]
    );
}

#[test]
fn decide_stops_on_rejection_without_pulling_or_adjusting() {
    let notified = RefCell::new(0u32);
    let adjusted = RefCell::new(0u32);
    let mut config = RetryConfig::new(
        Schedule::new(vec![ms(10)]),
        no_sleep,
        |e: &u32| *e != 404,
        |_: &u32, _: Duration| *notified.borrow_mut() += 1,
        |_: &u32, d: Option<Duration>| {
            *adjusted.borrow_mut() += 1;
            d
        },
    );
    assert_eq!(config.decide(&404), ControlFlow::Break(()));
    assert_eq!(config.backoff.remaining(), 1);
    assert_eq!(*notified.borrow(), 0);
    assert_eq!(*adjusted.borrow(), 0);
    assert_eq!(config.decide(&500), ControlFlow::Continue(ms(10)));
    assert_eq!(*notified.borrow(), 1);
    assert_eq!(*adjusted.borrow(), 1);
}

#[test]
fn decide_stops_when_the_source_is_exhausted() {
    let notified = RefCell::new(0u32);
    let mut config = RetryConfig::new(
        Schedule::new(Vec::new()),
        no_sleep,
        always_retry::<u32>,
        |_: &u32, _: Duration| *notified.borrow_mut() += 1,
        identity_adjust::<u32>,
    );
    assert_eq!(config.decide(&1), ControlFlow::Break(()));
    assert_eq!(*notified.borrow(), 0);
}

#[test]
fn adjust_returning_none_forces_stop() {
    let notified = RefCell::new(0u32);
    let mut config = RetryConfig::new(
        Schedule::new(vec![ms(10), ms(10)]),
        no_sleep,
        always_retry::<u32>,
        |_: &u32, _: Duration| *notified.borrow_mut() += 1,
        |_: &u32, _: Option<Duration>| None,
    );
    assert_eq!(config.decide(&1), ControlFlow::Break(()));
    assert_eq!(*notified.borrow(), 0);
    assert_eq!(config.backoff.remaining(), 1);
}

#[test]
fn adjust_returning_some_overrides_the_delay() {
    let seen = RefCell::new(Vec::new());
    let mut config = RetryConfig::new(
        Schedule::new(vec![ms(10)]),
        no_sleep,
        always_retry::<u32>,
        |e: &u32, d: Duration| seen.borrow_mut().push((*e, d)),
        |e: &u32, d: Option<Duration>| d.map(|_| ms(u64::from(*e))),
    );
    assert_eq!(config.decide(&250), ControlFlow::Continue(ms(250)));
    assert_eq!(*seen.borrow(), vec![(250, ms(250))]);
    assert_eq!(config.decide(&300), ControlFlow::Break(()));
}

#[test]
fn adjust_may_give_a_delay_where_the_source_gave_none() {
    let mut config = RetryConfig::new(
        Schedule::new(Vec::new()),
        no_sleep,
        always_retry::<u32>,
        noop_notify::<u32>,
        |_: &u32, _: Option<Duration>| Some(ms(1)),
    );
    assert_eq!(config.decide(&1), ControlFlow::Continue(ms(1)));
}
