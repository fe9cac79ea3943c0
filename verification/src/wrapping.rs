//! How an operation is wrapped: from its shape and the options of the wrapping
//! to one of the four calling conventions of the driver, or to the reason why
//! the combination is not supported.

use vstd::prelude::*;
use crate::args::BackonArgs;

verus! {

/// How an operation is bound to a receiver.
#[derive(Clone, Copy, Debug, PartialEq, Eq, Structural)]
pub enum Receiver {
    /// A free operation.
    Absent,
    /// Bound by a shared reference.
    Shared,
    /// Bound by an exclusive reference.
    Exclusive,
    /// Takes its receiver by value.
    Owned,
}

/// How a parameter of an operation binds its argument.
#[derive(Clone, Copy, Debug, PartialEq, Eq, Structural)]
pub enum Binding {
    /// To one identifier.
    Identifier,
    /// Through any other pattern.
    Pattern,
}

/// What the wrapping reads of an operation.
#[derive(Clone, Debug)]
pub struct Shape {
    /// Whether the operation suspends, rather than blocks.
    pub suspending: bool,
    pub receiver: Receiver,
    /// One entry for each parameter but the receiver, in their order.
    pub bindings: Vec<Binding>,
}

/// The four calling conventions of the driver.
#[derive(Clone, Copy, Debug, PartialEq, Eq, Structural)]
pub enum Convention {
    BlockingSimple,
    BlockingContext,
    SuspendingSimple,
    SuspendingContext,
}

/// Why a wrapping is refused.
#[derive(Clone, Copy, Debug, PartialEq, Eq, Structural)]
pub enum ConfigError {
    /// Context threading would take over a receiver that is passed by value.
    ContextOwnsReceiver,
    /// Context threading would carry an exclusive reference to the receiver
    /// across the attempts.
    ContextMutableReceiver,
    /// An adjust hook on an operation that does not suspend.
    AdjustNeedsSuspending,
    /// The parameter at this position does not bind to an identifier.
    NonIdentifierParameter(usize),
}

impl Convention {
    /// Whether the driver suspends between attempts.
    pub open spec fn suspends(self) -> bool {
        self == Convention::SuspendingSimple || self == Convention::SuspendingContext
    }

    /// Whether the driver threads a context through the attempts.
    pub open spec fn threads_context(self) -> bool {
        self == Convention::BlockingContext || self == Convention::SuspendingContext
    }
}

/// Whether `index` is the position of the first parameter that does not bind
/// to an identifier.
pub open spec fn first_pattern(bindings: Seq<Binding>, index: int) -> bool {
    &&& 0 <= index < bindings.len()
    &&& bindings[index] == Binding::Pattern
    &&& forall|i: int| 0 <= i < index ==> bindings[i] == Binding::Identifier
}

/// Whether every parameter binds to an identifier.
pub open spec fn all_identifiers(bindings: Seq<Binding>) -> bool {
    forall|i: int| 0 <= i < bindings.len() ==> bindings[i] == Binding::Identifier
}

/// Whether context threading can carry the receiver: there is none, or it is
/// a shared reference.
pub open spec fn threadable(receiver: Receiver) -> bool {
    receiver == Receiver::Absent || receiver == Receiver::Shared
}

/// The position of the first parameter that does not bind to an identifier.
pub fn find_pattern(bindings: &Vec<Binding>) -> (found: Option<usize>)
    ensures
        match found {
            Some(index) => first_pattern(bindings@, index as int),
            None => all_identifiers(bindings@),
        },
{
    let mut i: usize = 0;
    while i < bindings.len()
        invariant
            i <= bindings.len(),
            forall|j: int| 0 <= j < i ==> bindings@[j] == Binding::Identifier,
        decreases bindings.len() - i,
    {
        if bindings[i] == Binding::Pattern {
            return Some(i);
        }
        i = i + 1;
    }
    None
}

/// Selects the calling convention for an operation of the given shape,
/// wrapped with or without an adjust hook and with or without context
/// threading.
///
/// A combination that is not supported is refused, for the first of these
/// reasons that holds: context threading with a receiver passed by value,
/// context threading with an exclusive receiver, an adjust hook on a blocking
/// operation, a parameter that does not bind to an identifier.
pub fn select(shape: &Shape, adjust: bool, context: bool) -> (selected: Result<Convention, ConfigError>)
    ensures
        selected is Ok <==> (context ==> threadable(shape.receiver)) && (adjust ==> shape.suspending)
            && all_identifiers(shape.bindings@),
        selected matches Ok(convention) ==> convention.suspends() == shape.suspending
            && convention.threads_context() == context,
        selected == Err::<Convention, ConfigError>(ConfigError::ContextOwnsReceiver) <==> context
            && shape.receiver == Receiver::Owned,
        selected == Err::<Convention, ConfigError>(ConfigError::ContextMutableReceiver) <==> context
            && shape.receiver == Receiver::Exclusive,
        selected == Err::<Convention, ConfigError>(ConfigError::AdjustNeedsSuspending) <==> (context
            ==> threadable(shape.receiver)) && adjust && !shape.suspending,
        forall|index: usize|
            selected == Err::<Convention, ConfigError>(ConfigError::NonIdentifierParameter(index)) <==> (
            context ==> threadable(shape.receiver)) && (adjust ==> shape.suspending) && first_pattern(
                shape.bindings@,
                index as int,
            ),
{
    if context && shape.receiver == Receiver::Owned {
        return Err(ConfigError::ContextOwnsReceiver);
    }
    if context && shape.receiver == Receiver::Exclusive {
        return Err(ConfigError::ContextMutableReceiver);
    }
    if adjust && !shape.suspending {
        return Err(ConfigError::AdjustNeedsSuspending);
    }
    match find_pattern(&shape.bindings) {
        Some(index) => Err(ConfigError::NonIdentifierParameter(index)),
        None => Ok(
            if shape.suspending {
                if context {
                    Convention::SuspendingContext
                } else {
                    Convention::SuspendingSimple
                }
            } else {
                if context {
                    Convention::BlockingContext
                } else {
                    Convention::BlockingSimple
                }
            },
        ),
    }
}

/// One part of the context that is threaded through the attempts.
#[derive(Clone, Copy, Debug, PartialEq, Eq, Structural)]
pub enum Slot {
    /// The reference to the receiver.
    Receiver,
    /// The parameter at this position.
    Parameter(usize),
}

/// What the context of an operation is made of: the reference to its
/// receiver, where it has one, then its parameters in their order.
pub open spec fn context_of(shape: Shape) -> Seq<Slot> {
    (if shape.receiver == Receiver::Absent {
        seq![]
    } else {
        seq![Slot::Receiver]
    }) + Seq::new(shape.bindings@.len(), |i: int| Slot::Parameter(i as usize))
}

/// The parts of the context of an operation, in the order in which the
/// context holds them.
pub fn context_slots(shape: &Shape) -> (slots: Vec<Slot>)
    ensures
        slots@ == context_of(*shape),
{
    let mut slots: Vec<Slot> = Vec::new();
    if shape.receiver != Receiver::Absent {
        slots.push(Slot::Receiver);
    }
    let ghost head = slots@;
    let mut i: usize = 0;
    while i < shape.bindings.len()
        invariant
            i <= shape.bindings.len(),
            slots@ =~= head + Seq::new(i as nat, |k: int| Slot::Parameter(k as usize)),
        decreases shape.bindings.len() - i,
    {
        slots.push(Slot::Parameter(i));
        i = i + 1;
    }
    proof {
        assert(slots@ =~= context_of(*shape));
    }
    slots
}

/// Selects the calling convention for an operation of the given shape under
/// the collected options: an adjust hook is asked for where the options hold
/// a path for it.
pub fn plan(shape: &Shape, args: &BackonArgs) -> (selected: Result<Convention, ConfigError>)
    ensures
        selected is Ok <==> (args.context ==> threadable(shape.receiver)) && (args.adjust is Some
            ==> shape.suspending) && all_identifiers(shape.bindings@),
        selected matches Ok(convention) ==> convention.suspends() == shape.suspending
            && convention.threads_context() == args.context,
        selected == Err::<Convention, ConfigError>(ConfigError::ContextOwnsReceiver) <==> args.context
            && shape.receiver == Receiver::Owned,
        selected == Err::<Convention, ConfigError>(ConfigError::ContextMutableReceiver)
            <==> args.context && shape.receiver == Receiver::Exclusive,
        selected == Err::<Convention, ConfigError>(ConfigError::AdjustNeedsSuspending) <==> (
        args.context ==> threadable(shape.receiver)) && args.adjust is Some && !shape.suspending,
        forall|index: usize|
            selected == Err::<Convention, ConfigError>(ConfigError::NonIdentifierParameter(index)) <==> (
            args.context ==> threadable(shape.receiver)) && (args.adjust is Some ==> shape.suspending)
                && first_pattern(shape.bindings@, index as int),
{
    select(shape, args.adjust.is_some(), args.context)
}

} // verus!
