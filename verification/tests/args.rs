use backon_core::args::{ArgError, ArgValue, BackonArgs, Flag};
use backon_core::wrapping::{plan, Binding, ConfigError, Convention, Receiver, Shape};

fn path(text: &str) -> ArgValue {
    ArgValue::Path(text.to_string())
}

#[test]
fn every_option_is_known_by_its_name() {
    assert_eq!(Flag::named("backoff"), Some(Flag::Backoff));
    assert_eq!(Flag::named("sleep"), Some(Flag::Sleep));
    assert_eq!(Flag::named("when"), Some(Flag::When));
    assert_eq!(Flag::named("notify"), Some(Flag::Notify));
    assert_eq!(Flag::named("adjust"), Some(Flag::Adjust));
    assert_eq!(Flag::named("context"), Some(Flag::Context));
}

#[test]
fn other_names_are_unknown() {
    assert_eq!(Flag::named("retries"), None);
    assert_eq!(Flag::named(""), None);
    assert_eq!(Flag::named("Sleep"), None);
    assert_eq!(Flag::named("sleep "), None);
}

#[test]
fn new_args_hold_nothing() {
    let args = BackonArgs::new();
    for flag in [Flag::Backoff, Flag::Sleep, Flag::When, Flag::Notify, Flag::Adjust, Flag::Context] {
        assert!(!args.has_path(flag));
    }
    assert!(!args.context);
    assert_eq!(args.chain(), Vec::new());
}

#[test]
fn set_takes_each_path_once() {
    let mut args = BackonArgs::new();
    assert_eq!(args.set(Flag::Backoff, path("make_backoff")), Ok(()));
    assert_eq!(args.set(Flag::Sleep, path("tokio::time::sleep")), Ok(()));
    assert_eq!(args.set(Flag::When, path("should_retry")), Ok(()));
    assert_eq!(args.set(Flag::Notify, path("log_retry")), Ok(()));
    assert_eq!(args.set(Flag::Adjust, path("hint")), Ok(()));
    assert_eq!(args.backoff.as_deref(), Some("make_backoff"));
    assert_eq!(args.sleep.as_deref(), Some("tokio::time::sleep"));
    assert_eq!(args.when.as_deref(), Some("should_retry"));
    assert_eq!(args.notify.as_deref(), Some("log_retry"));
    assert_eq!(args.adjust.as_deref(), Some("hint"));
    assert!(args.has_path(Flag::Sleep));
    assert!(!args.has_path(Flag::Context));
    assert!(!args.context);
}

#[test]
fn a_second_path_is_refused_and_the_first_stays() {
    let mut args = BackonArgs::new();
    assert_eq!(args.set(Flag::When, path("first")), Ok(()));
    assert_eq!(
        args.set(Flag::When, path("second")),
        Err(ArgError::AlreadySpecified(Flag::When))
    );
    assert_eq!(
        args.set(Flag::When, ArgValue::Switch(true)),
        Err(ArgError::AlreadySpecified(Flag::When))
    );
    assert_eq!(args.when.as_deref(), Some("first"));
}

#[test]
fn context_is_refused_once_it_is_on() {
    let mut args = BackonArgs::new();
    assert_eq!(args.set(Flag::Context, ArgValue::Switch(false)), Ok(()));
    assert!(!args.context);
    assert_eq!(args.set(Flag::Context, ArgValue::Switch(true)), Ok(()));
    assert!(args.context);
    assert_eq!(
        args.set(Flag::Context, ArgValue::Switch(false)),
        Err(ArgError::ContextRepeated)
    );
    assert!(args.context);
}

#[test]
fn a_value_of_the_wrong_kind_is_refused() {
    let mut args = BackonArgs::new();
    assert_eq!(
        args.set(Flag::Sleep, ArgValue::Switch(true)),
        Err(ArgError::WrongValue(Flag::Sleep))
    );
    assert_eq!(args.sleep, None);
    assert_eq!(
        args.set(Flag::Context, path("yes")),
        Err(ArgError::WrongValue(Flag::Context))
    );
    assert!(!args.context);
}

#[test]
fn chain_lists_the_given_hooks_in_their_order() {
    let mut args = BackonArgs::new();
    assert_eq!(args.set(Flag::Adjust, path("a")), Ok(()));
    assert_eq!(args.set(Flag::Backoff, path("b")), Ok(()));
    assert_eq!(args.set(Flag::Sleep, path("s")), Ok(()));
    assert_eq!(args.chain(), vec![Flag::Sleep, Flag::Adjust]);
    assert_eq!(args.set(Flag::Notify, path("n")), Ok(()));
    assert_eq!(args.set(Flag::When, path("w")), Ok(()));
    assert_eq!(
        args.chain(),
        vec![Flag::Sleep, Flag::When, Flag::Notify, Flag::Adjust]
    );
}

#[test]
fn plan_reads_adjust_and_context_from_the_options() {
    let blocking = Shape { suspending: false, receiver: Receiver::Absent, bindings: vec![Binding::Identifier] };
    let suspending = Shape { suspending: true, receiver: Receiver::Shared, bindings: Vec::new() };
    let mut args = BackonArgs::new();
    assert_eq!(plan(&blocking, &args), Ok(Convention::BlockingSimple));
    assert_eq!(args.set(Flag::Context, ArgValue::Switch(true)), Ok(()));
    assert_eq!(plan(&blocking, &args), Ok(Convention::BlockingContext));
    assert_eq!(plan(&suspending, &args), Ok(Convention::SuspendingContext));
    assert_eq!(args.set(Flag::Adjust, path("hint")), Ok(()));
    assert_eq!(plan(&blocking, &args), Err(ConfigError::AdjustNeedsSuspending));
    assert_eq!(plan(&suspending, &args), Ok(Convention::SuspendingContext));
}

#[test]
fn default_args_hold_nothing() {
    let args = BackonArgs::default();
    assert_eq!(args.backoff, None);
    assert_eq!(args.sleep, None);
    assert_eq!(args.when, None);
    assert_eq!(args.notify, None);
    assert_eq!(args.adjust, None);
    assert!(!args.context);
}
