//! The options of a wrapping, as they are collected one `name = value` pair
//! after the other.

use vstd::prelude::*;

verus! {

/// The options that a wrapping knows.
#[derive(Clone, Copy, Debug, PartialEq, Eq, Structural)]
pub enum Flag {
    Backoff,
    Sleep,
    When,
    Notify,
    Adjust,
    Context,
}

/// What stands behind the `=` of an option.
#[derive(Clone, Debug)]
pub enum ArgValue {
    /// The path of a function, as text.
    Path(String),
    /// A boolean literal.
    Switch(bool),
}

/// Why an option is refused.
#[derive(Clone, Copy, Debug, PartialEq, Eq, Structural)]
pub enum ArgError {
    /// The option, one that takes a path, has a path already.
    AlreadySpecified(Flag),
    /// Context threading is switched on already.
    ContextRepeated,
    /// The value is no path where the option takes a path, or no boolean
    /// where it takes a boolean.
    WrongValue(Flag),
}

/// The options collected so far: the path given for each hook, if any, and
/// whether the context is threaded.
#[derive(Clone, Debug)]
pub struct BackonArgs {
    pub backoff: Option<String>,
    pub sleep: Option<String>,
    pub when: Option<String>,
    pub notify: Option<String>,
    pub adjust: Option<String>,
    pub context: bool,
}

/// The option that goes by the name `name`.
pub open spec fn flag_named(name: Seq<char>) -> Option<Flag> {
    if name == "backoff"@ {
        Some(Flag::Backoff)
    } else if name == "sleep"@ {
        Some(Flag::Sleep)
    } else if name == "when"@ {
        Some(Flag::When)
    } else if name == "notify"@ {
        Some(Flag::Notify)
    } else if name == "adjust"@ {
        Some(Flag::Adjust)
    } else if name == "context"@ {
        Some(Flag::Context)
    } else {
        None
    }
}

impl Flag {
    /// The option that goes by the name `name`; none where the name is
    /// unknown.
    pub fn named(name: &str) -> (flag: Option<Flag>)
        ensures
            flag == flag_named(name@),
    {
        let name = name.to_owned();
        if name == "backoff".to_owned() {
            Some(Flag::Backoff)
        } else if name == "sleep".to_owned() {
            Some(Flag::Sleep)
        } else if name == "when".to_owned() {
            Some(Flag::When)
        } else if name == "notify".to_owned() {
            Some(Flag::Notify)
        } else if name == "adjust".to_owned() {
            Some(Flag::Adjust)
        } else if name == "context".to_owned() {
            Some(Flag::Context)
        } else {
            None
        }
    }
}

impl Default for BackonArgs {
    /// No option given.
    fn default() -> (args: Self)
        ensures
            forall|flag: Flag| args.path_of(flag) is None,
            !args.context,
    {
        BackonArgs::new()
    }
}

impl BackonArgs {
    /// The path collected for `flag`. The context option has none.
    pub open spec fn path_of(self, flag: Flag) -> Option<String> {
        match flag {
            Flag::Backoff => self.backoff,
            Flag::Sleep => self.sleep,
            Flag::When => self.when,
            Flag::Notify => self.notify,
            Flag::Adjust => self.adjust,
            Flag::Context => None,
        }
    }

    /// These options with one more pair taken in.
    pub open spec fn with(self, flag: Flag, value: ArgValue) -> Self {
        match (flag, value) {
            (Flag::Backoff, ArgValue::Path(path)) => BackonArgs { backoff: Some(path), ..self },
            (Flag::Sleep, ArgValue::Path(path)) => BackonArgs { sleep: Some(path), ..self },
            (Flag::When, ArgValue::Path(path)) => BackonArgs { when: Some(path), ..self },
            (Flag::Notify, ArgValue::Path(path)) => BackonArgs { notify: Some(path), ..self },
            (Flag::Adjust, ArgValue::Path(path)) => BackonArgs { adjust: Some(path), ..self },
            (Flag::Context, ArgValue::Switch(on)) => BackonArgs { context: on, ..self },
            _ => self,
        }
    }

    /// Why the pair cannot be taken in, if it cannot: the option is given a
    /// second time, or, failing that, the value is of the wrong kind.
    pub open spec fn refusal(self, flag: Flag, value: ArgValue) -> Option<ArgError> {
        if flag == Flag::Context {
            if self.context {
                Some(ArgError::ContextRepeated)
            } else if value is Path {
                Some(ArgError::WrongValue(flag))
            } else {
                None
            }
        } else if self.path_of(flag) is Some {
            Some(ArgError::AlreadySpecified(flag))
        } else if value is Switch {
            Some(ArgError::WrongValue(flag))
        } else {
            None
        }
    }

    /// No option given: no path, no context threading.
    pub fn new() -> (args: Self)
        ensures
            forall|flag: Flag| args.path_of(flag) is None,
            !args.context,
    {
        BackonArgs { backoff: None, sleep: None, when: None, notify: None, adjust: None, context: false }
    }

    /// Whether `flag` has a path already.
    pub fn has_path(&self, flag: Flag) -> (given: bool)
        ensures
            given == self.path_of(flag) is Some,
    {
        match flag {
            Flag::Backoff => self.backoff.is_some(),
            Flag::Sleep => self.sleep.is_some(),
            Flag::When => self.when.is_some(),
            Flag::Notify => self.notify.is_some(),
            Flag::Adjust => self.adjust.is_some(),
            Flag::Context => false,
        }
    }

    /// Takes in the pair `flag = value`. A pair that is refused leaves the
    /// options as they were.
    pub fn set(&mut self, flag: Flag, value: ArgValue) -> (taken: Result<(), ArgError>)
        ensures
            match old(self).refusal(flag, value) {
                Some(error) => taken == Err::<(), ArgError>(error) && *final(self) == *old(self),
                None => taken is Ok && *final(self) == old(self).with(flag, value),
            },
    {
        if flag == Flag::Context {
            if self.context {
                return Err(ArgError::ContextRepeated);
            }
            match value {
                ArgValue::Switch(on) => {
                    self.context = on;
                    Ok(())
                },
                ArgValue::Path(_) => Err(ArgError::WrongValue(flag)),
            }
        } else {
            if self.has_path(flag) {
                return Err(ArgError::AlreadySpecified(flag));
            }
            match value {
                ArgValue::Path(path) => {
                    match flag {
                        Flag::Backoff => {
                            self.backoff = Some(path);
                        },
                        Flag::Sleep => {
                            self.sleep = Some(path);
                        },
                        Flag::When => {
                            self.when = Some(path);
                        },
                        Flag::Notify => {
                            self.notify = Some(path);
                        },
                        Flag::Adjust => {
                            self.adjust = Some(path);
                        },
                        Flag::Context => {},
                    }
                    Ok(())
                },
                ArgValue::Switch(_) => Err(ArgError::WrongValue(flag)),
            }
        }
    }

    /// The hooks that the wrapping hands to the driver, in the order in which
    /// it hands them over: sleep, when, notify, adjust, each only where a
    /// path was given for it.
    pub open spec fn hooks(self) -> Seq<Flag> {
        (if self.sleep is Some { seq![Flag::Sleep] } else { seq![] })
            + (if self.when is Some { seq![Flag::When] } else { seq![] })
            + (if self.notify is Some { seq![Flag::Notify] } else { seq![] })
            + (if self.adjust is Some { seq![Flag::Adjust] } else { seq![] })
    }

    /// The hooks that the wrapping hands to the driver, in their order.
    pub fn chain(&self) -> (hooks: Vec<Flag>)
        ensures
            hooks@ == self.hooks(),
    {
        let mut hooks: Vec<Flag> = Vec::new();
        if self.sleep.is_some() {
            hooks.push(Flag::Sleep);
        }
        if self.when.is_some() {
            hooks.push(Flag::When);
        }
        if self.notify.is_some() {
            hooks.push(Flag::Notify);
        }
        if self.adjust.is_some() {
            hooks.push(Flag::Adjust);
        }
        proof {
            assert(hooks@ =~= self.hooks());
        }
        hooks
    }
}

} // verus!
