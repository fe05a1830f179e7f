//! The registry of live sessions and the routing of signals between them.
//!
//! The router holds, for each registered session, the handle through which a
//! signal reaches that session. What a handle is, is left to the caller: the
//! router never looks into one. It decides where a signal goes; handing the
//! signal over is the caller's part, and `delivered` turns how that ended
//! into what the sender is told.

use crate::error::{Error, ErrorView, MailboxError};
use crate::signal::{Signal, SignalView};
use vstd::hash_map::StringHashMap;
use vstd::prelude::*;

verus! {

/// Asks the router to pass a signal on to its target.
#[derive(Debug, PartialEq)]
pub struct SignalMessage(pub Signal);

/// Registers a session under `user_name`, reachable through
/// `signal_recipient`.
#[derive(Debug, PartialEq)]
pub struct JoinMessage<R> {
    pub user_name: String,
    pub signal_recipient: R,
}

/// Removes the session that is registered under this name.
#[derive(Debug, PartialEq)]
pub struct ExitMessage(pub String);

impl From<Signal> for SignalMessage {
    fn from(signal: Signal) -> (message: Self) {
        SignalMessage(signal)
    }
}

impl vstd::std_specs::convert::FromSpecImpl<Signal> for SignalMessage {
    open spec fn obeys_from_spec() -> bool {
        true
    }

    open spec fn from_spec(signal: Signal) -> Self {
        SignalMessage(signal)
    }
}

impl From<String> for ExitMessage {
    fn from(name: String) -> (message: Self) {
        ExitMessage(name)
    }
}

impl vstd::std_specs::convert::FromSpecImpl<String> for ExitMessage {
    open spec fn obeys_from_spec() -> bool {
        true
    }

    open spec fn from_spec(name: String) -> Self {
        ExitMessage(name)
    }
}

impl<R> JoinMessage<R> {
    pub fn new(user_name: String, signal_recipient: R) -> (message: Self)
        ensures
            message.user_name == user_name,
            message.signal_recipient == signal_recipient,
    {
        JoinMessage { user_name, signal_recipient }
    }
}

/// The registry after a session has joined: the name now leads to the new
/// handle, whether or not it led to one before.
pub open spec fn joined<R>(registry: Map<Seq<char>, R>, name: Seq<char>, recipient: R) -> Map<
    Seq<char>,
    R,
> {
    registry.insert(name, recipient)
}

/// The registry after a session has left: the name leads nowhere.
pub open spec fn exited<R>(registry: Map<Seq<char>, R>, name: Seq<char>) -> Map<Seq<char>, R> {
    registry.remove(name)
}

/// Where a signal goes.
pub enum Routing<R> {
    /// To the session behind this handle.
    Deliver(R),
    /// Nowhere: the signal names no target.
    Nothing,
    /// Nowhere: no session is registered under the target's name.
    NotFound(Seq<char>),
}

/// Where the router sends `signal`, given who is registered.
pub open spec fn routed<R>(registry: Map<Seq<char>, R>, signal: SignalView) -> Routing<R> {
    match signal.target() {
        None => Routing::Nothing,
        Some(target) => if registry.contains_key(target) {
            Routing::Deliver(registry[target])
        } else {
            Routing::NotFound(target)
        },
    }
}

/// What the sender of a signal is told once the hand-over has ended: the
/// target's own answer, or the failure of the target's mailbox.
pub open spec fn delivery_result(outcome: Result<Result<(), Error>, MailboxError>) -> Result<
    (),
    ErrorView,
> {
    match outcome {
        Ok(Ok(())) => Ok(()),
        Ok(Err(error)) => Err(error@),
        Err(MailboxError::Closed) => Err(ErrorView::ConnectionClosed),
        Err(MailboxError::Timeout) => Err(ErrorView::ConnectionTimeout),
    }
}

/// What the router asks its caller to do with a signal.
#[derive(Debug, PartialEq)]
pub enum Dispatch<'a, R> {
    /// Hand `signal` to `recipient`.
    Deliver { recipient: &'a R, signal: Signal },
    /// Nothing: the signal names no target.
    Nothing,
}

/// The failure of a target's mailbox, as the sender is told of it.
pub fn into_target_related_error(mailbox_error: MailboxError) -> (error: Error)
    ensures
        error@ == (match mailbox_error {
            MailboxError::Closed => ErrorView::ConnectionClosed,
            MailboxError::Timeout => ErrorView::ConnectionTimeout,
        }),
{
    match mailbox_error {
        MailboxError::Closed => Error::ConnectionClosed,
        MailboxError::Timeout => Error::ConnectionTimeout,
    }
}

/// The registry of live sessions, from a session's name to its handle.
#[verifier::reject_recursive_types(R)]
pub struct SignalRouter<R> {
    sockets: StringHashMap<R>,
}

impl<R> View for SignalRouter<R> {
    type V = Map<Seq<char>, R>;

    closed spec fn view(&self) -> Map<Seq<char>, R> {
        self.sockets@
    }
}

impl<R> Default for SignalRouter<R> {
    /// A router with nobody registered.
    fn default() -> (router: Self)
        ensures
            router@ == Map::<Seq<char>, R>::empty(),
    {
        SignalRouter { sockets: StringHashMap::new() }
    }
}

impl<R> SignalRouter<R> {
    /// The handle of the session that is registered under `target_name`.
    pub fn target(&self, target_name: &str) -> (recipient: Option<&R>)
        ensures
            match recipient {
                Some(handle) => self@.contains_key(target_name@) && *handle == self@[target_name@],
                None => !self@.contains_key(target_name@),
            },
    {
        self.sockets.get(target_name)
    }

    /// Registers a session. A name that is registered already is given the
    /// new handle.
    pub fn join(&mut self, message: JoinMessage<R>) -> (ack: Result<(), ()>)
        ensures
            ack is Ok,
            final(self)@ == joined(old(self)@, message.user_name@, message.signal_recipient),
    {
        self.sockets.insert(message.user_name, message.signal_recipient);
        Ok(())
    }

    /// Removes a session. A name that is not registered is left so.
    pub fn exit(&mut self, message: ExitMessage) -> (ack: Result<(), ()>)
        ensures
            ack is Ok,
            final(self)@ == exited(old(self)@, message.0@),
    {
        self.sockets.remove(message.0.as_str());
        Ok(())
    }

    /// Decides where a signal goes: to the handle that its target is
    /// registered with, together with the signal as it came; nowhere, where it
    /// names no target; or back to the sender as `TargetNotFound`.
    pub fn route(&self, message: SignalMessage) -> (dispatch: Result<Dispatch<'_, R>, Error>)
        ensures
            match dispatch {
                Ok(Dispatch::Deliver { recipient, signal }) => routed(self@, message.0@)
                    == Routing::Deliver(*recipient) && signal == message.0,
                Ok(Dispatch::Nothing) => routed(self@, message.0@) == Routing::<R>::Nothing,
                Err(error) => routed(self@, message.0@) matches Routing::NotFound(target)
                    && error@ == ErrorView::TargetNotFound(target),
            },
    {
        let target: String = match message.0.target() {
            Some(name) => name.clone(),
            None => { return Ok(Dispatch::Nothing); },
        };
        match self.target(target.as_str()) {
            Some(recipient) => Ok(Dispatch::Deliver { recipient, signal: message.0 }),
            None => Err(Error::TargetNotFound(target)),
        }
    }

    /// What the sender is told once the hand-over that `route` asked for has
    /// ended.
    pub fn delivered(outcome: Result<Result<(), Error>, MailboxError>) -> (result: Result<
        (),
        Error,
    >)
        ensures
            match result {
                Ok(()) => delivery_result(outcome) == Ok::<(), ErrorView>(()),
                Err(error) => delivery_result(outcome) == Err::<(), _>(error@),
            },
    {
        match outcome {
            Ok(answer) => answer,
            Err(mailbox_error) => Err(into_target_related_error(mailbox_error)),
        }
    }
}

/// A name that joins twice is registered once, with the second handle.
pub proof fn lemma_join_twice<R>(
    registry: Map<Seq<char>, R>,
    name: Seq<char>,
    first: R,
    second: R,
)
    ensures
        joined(joined(registry, name, first), name, second) == joined(registry, name, second),
        joined(joined(registry, name, first), name, second).contains_key(name),
        joined(joined(registry, name, first), name, second)[name] == second,
        joined(joined(registry, name, first), name, second).dom() == registry.dom().insert(name),
        forall|other: Seq<char>|
            other != name ==> (joined(joined(registry, name, first), name, second).contains_key(
                other,
            ) <==> registry.contains_key(other)),
{
}

/// A signal for a session that has joined goes to the handle that it joined
/// with.
pub proof fn lemma_route_after_join<R>(
    registry: Map<Seq<char>, R>,
    name: Seq<char>,
    recipient: R,
    signal: SignalView,
)
    requires
        signal.target() == Some(name),
    ensures
        routed(joined(registry, name, recipient), signal) == Routing::Deliver(recipient),
{
}

/// A signal for a name that is not registered is answered with
/// `TargetNotFound` and that name.
pub proof fn lemma_route_to_absent<R>(registry: Map<Seq<char>, R>, signal: SignalView)
    requires
        signal.target() is Some,
        !registry.contains_key(signal.target().unwrap()),
    ensures
        routed(registry, signal) == Routing::<R>::NotFound(signal.target().unwrap()),
        routed(Map::<Seq<char>, R>::empty(), signal) == Routing::<R>::NotFound(
            signal.target().unwrap(),
        ),
{
}

/// Once a session has left, a signal for it is answered with
/// `TargetNotFound`.
pub proof fn lemma_route_after_exit<R>(registry: Map<Seq<char>, R>, signal: SignalView)
    requires
        signal.target() is Some,
    ensures
        routed(exited(registry, signal.target().unwrap()), signal) == Routing::<R>::NotFound(
            signal.target().unwrap(),
        ),
{
}

/// A signal without a target goes nowhere, whoever is registered.
pub proof fn lemma_route_assign<R>(registry: Map<Seq<char>, R>, name: Seq<char>)
    ensures
        routed(registry, SignalView::Assign(name)) == Routing::<R>::Nothing,
{
}

/// The exit of a name that is not registered changes nothing, and a second
/// exit changes nothing after the first.
pub proof fn lemma_exit_idempotent<R>(registry: Map<Seq<char>, R>, name: Seq<char>)
    ensures
        !registry.contains_key(name) ==> exited(registry, name) == registry,
        exited(exited(registry, name), name) == exited(registry, name),
        !exited(registry, name).contains_key(name),
{
}

/// Joining and leaving touch one name only.
pub proof fn lemma_others_untouched<R>(
    registry: Map<Seq<char>, R>,
    name: Seq<char>,
    recipient: R,
    other: Seq<char>,
)
    requires
        other != name,
    ensures
        joined(registry, name, recipient).contains_key(other) == registry.contains_key(other),
        exited(registry, name).contains_key(other) == registry.contains_key(other),
        registry.contains_key(other) ==> joined(registry, name, recipient)[other]
            == registry[other] && exited(registry, name)[other] == registry[other],
{
}

} // verus!
