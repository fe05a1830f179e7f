//! One client's session: what it does on each event of its connection.
//!
//! A session starts out `Connecting`, is `Joined` once the router has
//! registered it, and ends `Closed`. It owns no connection and no router. On
//! each event it says what is to be done, and whoever runs the connection
//! does it and reports back how it went.

use crate::error::{Error, ErrorView, FieldName, MailboxError, ParseFailure};
use crate::json::{as_members, entries_view, json_members, json_text, write_object, Entry};
use crate::signal::deserialize::decoded;
use crate::signal::serialize::{entry, lemma_keys_differ, signal_text};
use crate::signal::{Signal, SignalView};
use crate::signal_router::{ExitMessage, JoinMessage, SignalMessage};
use vstd::pervasive::unreached;
use vstd::prelude::*;
use vstd::string::StringExecFns;

verus! {

/// Where a session stands in its life.
#[derive(Clone, Copy, Debug, PartialEq, Eq, Structural)]
pub enum SessionState {
    Connecting,
    Joined,
    Closed,
}

/// What arrives on a session's connection.
#[derive(Clone, Debug, PartialEq, Eq)]
pub enum Frame {
    /// A text message.
    Text(String),
    /// The client's request to close.
    Close,
    /// Any other frame; none of them carries a signal.
    Other,
}

/// A `Frame` with its text as a sequence of characters.
pub enum FrameView {
    Text(Seq<char>),
    Close,
    Other,
}

impl View for Frame {
    type V = FrameView;

    open spec fn view(&self) -> FrameView {
        match self {
            Frame::Text(text) => FrameView::Text(text@),
            Frame::Close => FrameView::Close,
            Frame::Other => FrameView::Other,
        }
    }
}

/// The connection broke.
#[derive(Clone, Copy, Debug, PartialEq, Eq, Structural)]
pub struct ProtocolError;

/// What a session asks of whoever runs its connection.
#[derive(Debug, PartialEq)]
pub enum Action {
    /// Nothing.
    Nothing,
    /// Write this text to the client.
    Text(String),
    /// Hand this message to the router, and report the outcome to
    /// `handle_signal_message`.
    Route(SignalMessage),
    /// End the connection.
    Stop,
}

/// An `Action` with its texts as sequences of characters.
pub enum ActionView {
    Nothing,
    Text(Seq<char>),
    Route(SignalView),
    Stop,
}

impl View for Action {
    type V = ActionView;

    open spec fn view(&self) -> ActionView {
        match self {
            Action::Nothing => ActionView::Nothing,
            Action::Text(text) => ActionView::Text(text@),
            Action::Route(message) => ActionView::Route(message.0@),
            Action::Stop => ActionView::Stop,
        }
    }
}

/// The kind under which a failure is reported to a client.
pub open spec fn error_kind(error: ErrorView) -> Seq<char> {
    match error {
        ErrorView::ParseError(_) => "parse error"@,
        ErrorView::ConnectionClosed => "connection closed"@,
        ErrorView::ConnectionTimeout => "timeout"@,
        ErrorView::TargetNotFound(_) => "target user not found"@,
        ErrorView::ServiceUnavailable => "service unavailable"@,
        ErrorView::ServiceTimeout => "service timeout"@,
    }
}

/// What is said of a text that was not accepted.
pub open spec fn parse_failure_text(failure: ParseFailure) -> Seq<char> {
    match failure {
        ParseFailure::Malformed => "message is not a JSON object"@,
        ParseFailure::MissingField(field) => "missing field `"@ + field.text() + "`"@,
        ParseFailure::EmptyField(field) => "empty field `"@ + field.text() + "`"@,
        ParseFailure::UnknownType =>
            "unknown message type, expected one of offer, answer, new_ice_candidate"@,
        ParseFailure::RelayOnly => "assign is sent by the relay only"@,
    }
}

/// What is said of a failure to the client.
pub open spec fn error_text(error: ErrorView) -> Seq<char> {
    match error {
        ErrorView::ParseError(failure) => parse_failure_text(failure),
        ErrorView::ConnectionClosed => "target user's connection is closed"@,
        ErrorView::ConnectionTimeout => "timeout occurres during send message to target user"@,
        ErrorView::TargetNotFound(name) => "user "@ + name + " is not in connection"@,
        ErrorView::ServiceUnavailable =>
            "service is unavailable, please contact to service provider"@,
        ErrorView::ServiceTimeout => "service is busy. try after"@,
    }
}

/// The text of the object that reports `error` to a client: its kind under
/// `type`, then what is said of it under `message`.
pub open spec fn diagnostic(error: ErrorView) -> Seq<char> {
    json_text(seq![("type"@, error_kind(error)), ("message"@, error_text(error))])
}

/// What a client is told where its text was not accepted.
pub open spec fn unparsed_notice() -> Seq<char> {
    "couldn't parse your message"@
}

/// A failure as it is reported to a client.
#[derive(Clone, Debug, PartialEq, Eq)]
pub struct ErrorMessage {
    pub kind: &'static str,
    pub message: String,
}

fn parse_failure_message(failure: ParseFailure) -> (message: String)
    ensures
        message@ == parse_failure_text(failure),
{
    match failure {
        ParseFailure::Malformed => "message is not a JSON object".to_owned(),
        ParseFailure::MissingField(field) => {
            let mut message = "missing field `".to_owned();
            message.append(field.as_str());
            message.append("`");
            message
        },
        ParseFailure::EmptyField(field) => {
            let mut message = "empty field `".to_owned();
            message.append(field.as_str());
            message.append("`");
            message
        },
        ParseFailure::UnknownType =>
            "unknown message type, expected one of offer, answer, new_ice_candidate".to_owned(),
        ParseFailure::RelayOnly => "assign is sent by the relay only".to_owned(),
    }
}

impl From<Error> for ErrorMessage {
    fn from(message_send_error: Error) -> (report: Self)
        ensures
            report.kind@ == error_kind(message_send_error@),
            report.message@ == error_text(message_send_error@),
    {
        match message_send_error {
            Error::ParseError(parse_error) => ErrorMessage {
                kind: "parse error",
                message: parse_failure_message(parse_error),
            },
            Error::ConnectionClosed => ErrorMessage {
                kind: "connection closed",
                message: "target user's connection is closed".to_owned(),
            },
            Error::ConnectionTimeout => ErrorMessage {
                kind: "timeout",
                message: "timeout occurres during send message to target user".to_owned(),
            },
            Error::TargetNotFound(target_user_name) => {
                let mut message = "user ".to_owned();
                message.append(target_user_name.as_str());
                message.append(" is not in connection");
                ErrorMessage { kind: "target user not found", message }
            },
            Error::ServiceUnavailable => ErrorMessage {
                kind: "service unavailable",
                message: "service is unavailable, please contact to service provider".to_owned(),
            },
            Error::ServiceTimeout => ErrorMessage {
                kind: "service timeout",
                message: "service is busy. try after".to_owned(),
            },
        }
    }
}

impl vstd::std_specs::convert::FromSpecImpl<Error> for ErrorMessage {
    open spec fn obeys_from_spec() -> bool {
        false
    }

    open spec fn from_spec(message_send_error: Error) -> Self {
        arbitrary()
    }
}

impl ErrorMessage {
    /// The text of the object that carries the report to the client. It
    /// reads back as the object with these two members.
    pub fn to_string(&self) -> (text: String)
        ensures
            text@ == json_text(seq![("type"@, self.kind@), ("message"@, self.message@)]),
            json_members(text@) == Some(
                as_members(seq![("type"@, self.kind@), ("message"@, self.message@)]),
            ),
    {
        let mut entries: Vec<Entry> = Vec::new();
        entries.push(entry("type", self.kind));
        entries.push(entry("message", self.message.as_str()));
        proof {
            lemma_keys_differ();
            assert(entries_view(entries@) =~= seq![
                ("type"@, self.kind@),
                ("message"@, self.message@),
            ]);
        }
        match write_object(&entries) {
            Some(text) => text,
            None => unreached(),
        }
    }
}

/// The failure of the router's mailbox, as the sender is told of it.
pub fn into_service_related_error(mailbox_error: MailboxError) -> (error: Error)
    ensures
        error@ == (match mailbox_error {
            MailboxError::Closed => ErrorView::ServiceUnavailable,
            MailboxError::Timeout => ErrorView::ServiceTimeout,
        }),
{
    match mailbox_error {
        MailboxError::Closed => Error::ServiceUnavailable,
        MailboxError::Timeout => Error::ServiceTimeout,
    }
}

/// The state after the router has answered the session's request to join:
/// `Joined` where it registered the session, `Closed` where it did not.
pub open spec fn after_join(
    state: SessionState,
    ack: Result<Result<(), ()>, MailboxError>,
) -> SessionState {
    if state != SessionState::Connecting {
        state
    } else {
        match ack {
            Ok(Ok(_)) => SessionState::Joined,
            _ => SessionState::Closed,
        }
    }
}

/// What a session does once the router has answered its request to join: it
/// tells the client its name, or ends the connection.
pub open spec fn on_join(
    state: SessionState,
    name: Seq<char>,
    ack: Result<Result<(), ()>, MailboxError>,
) -> ActionView {
    if state != SessionState::Connecting {
        ActionView::Nothing
    } else {
        match ack {
            Ok(Ok(_)) => ActionView::Text(signal_text(SignalView::Assign(name))),
            _ => ActionView::Stop,
        }
    }
}

/// What a session does with what arrives on its connection. A request to
/// close and a broken connection end it. A text counts while the session is
/// `Joined`: a signal goes to the router, and any other text is answered with
/// a notice. Nothing else has any effect.
pub open spec fn on_frame(state: SessionState, frame: Result<FrameView, ProtocolError>) -> ActionView {
    if state == SessionState::Closed {
        ActionView::Nothing
    } else {
        match frame {
            Err(_) => ActionView::Stop,
            Ok(FrameView::Close) => ActionView::Stop,
            Ok(FrameView::Other) => ActionView::Nothing,
            Ok(FrameView::Text(text)) => if state == SessionState::Joined {
                match decoded(text) {
                    Ok(signal) => ActionView::Route(signal),
                    Err(_) => ActionView::Text(unparsed_notice()),
                }
            } else {
                ActionView::Nothing
            },
        }
    }
}

/// The failure, if any, that the sender of a signal is told of once the
/// router has answered.
pub open spec fn routing_failure(outcome: Result<Result<(), Error>, MailboxError>) -> Option<
    ErrorView,
> {
    match outcome {
        Ok(Ok(())) => None,
        Ok(Err(error)) => Some(error@),
        Err(MailboxError::Closed) => Some(ErrorView::ServiceUnavailable),
        Err(MailboxError::Timeout) => Some(ErrorView::ServiceTimeout),
    }
}

/// What a session does once the router has answered a request to route: it
/// reports a failure to its client, and says nothing of a success.
pub open spec fn on_routed(
    state: SessionState,
    outcome: Result<Result<(), Error>, MailboxError>,
) -> ActionView {
    if state == SessionState::Closed {
        ActionView::Nothing
    } else {
        match routing_failure(outcome) {
            None => ActionView::Nothing,
            Some(error) => ActionView::Text(diagnostic(error)),
        }
    }
}

/// One client's session.
#[derive(Debug, PartialEq)]
pub struct SignalSocket {
    user_name: String,
    state: SessionState,
}

impl SignalSocket {
    /// The name that the relay gave the session.
    pub closed spec fn name(&self) -> Seq<char> {
        self.user_name@
    }

    /// Where the session stands.
    pub closed spec fn spec_state(&self) -> SessionState {
        self.state
    }

    /// A session that has not joined yet.
    pub fn new(user_name: String) -> (socket: Self)
        ensures
            socket.name() == user_name@,
            socket.spec_state() == SessionState::Connecting,
    {
        SignalSocket { user_name, state: SessionState::Connecting }
    }

    pub fn user_name(&self) -> (name: &String)
        ensures
            name@ == self.name(),
    {
        &self.user_name
    }

    #[verifier::when_used_as_spec(spec_state)]
    pub fn state(&self) -> (state: SessionState)
        ensures
            state == self.spec_state(),
    {
        self.state
    }

    /// The request with which the session joins the router: its own name,
    /// and the handle through which signals are to reach it.
    pub fn started<R>(&self, recipient: R) -> (message: JoinMessage<R>)
        ensures
            message.user_name@ == self.name(),
            message.signal_recipient == recipient,
    {
        JoinMessage::new(self.user_name.clone(), recipient)
    }

    /// Takes the router's answer to the request to join.
    pub fn joined(&mut self, ack: Result<Result<(), ()>, MailboxError>) -> (action: Action)
        ensures
            final(self).name() == old(self).name(),
            final(self).spec_state() == after_join(old(self).spec_state(), ack),
            action@ == on_join(old(self).spec_state(), old(self).name(), ack),
    {
        match self.state {
            SessionState::Connecting => {},
            _ => { return Action::Nothing; },
        }
        match ack {
            Ok(Ok(())) => {
                self.state = SessionState::Joined;
                Action::Text(Signal::assign(self.user_name.clone()).to_string())
            },
            _ => {
                self.state = SessionState::Closed;
                Action::Stop
            },
        }
    }

    /// Takes what arrived on the connection.
    pub fn handle(&self, message: Result<Frame, ProtocolError>) -> (action: Action)
        ensures
            action@ == on_frame(
                self.spec_state(),
                match message {
                    Ok(frame) => Ok(frame@),
                    Err(error) => Err(error),
                },
            ),
    {
        match self.state {
            SessionState::Closed => { return Action::Nothing; },
            _ => {},
        }
        match message {
            Err(_) => Action::Stop,
            Ok(Frame::Close) => Action::Stop,
            Ok(Frame::Other) => Action::Nothing,
            Ok(Frame::Text(text_message)) => {
                match self.state {
                    SessionState::Joined => {},
                    _ => { return Action::Nothing; },
                }
                match Signal::deserialize(text_message.as_str()) {
                    Ok(signal) => Action::Route(SignalMessage::from(signal)),
                    Err(_) => Action::Text("couldn't parse your message".to_owned()),
                }
            },
        }
    }

    /// Takes the router's answer to a request to route.
    pub fn handle_signal_message(
        &self,
        signal_routing_result: Result<Result<(), Error>, MailboxError>,
    ) -> (action: Action)
        ensures
            action@ == on_routed(self.spec_state(), signal_routing_result),
    {
        match self.state {
            SessionState::Closed => { return Action::Nothing; },
            _ => {},
        }
        let result = match signal_routing_result {
            Ok(answer) => answer,
            Err(mailbox_error) => Err(into_service_related_error(mailbox_error)),
        };
        match result {
            Ok(()) => Action::Nothing,
            Err(error) => Action::Text(ErrorMessage::from(error).to_string()),
        }
    }

    /// Takes a signal that the router passes on to this session: the text to
    /// write to the client, or `ConnectionClosed` where the session has ended.
    pub fn deliver(&self, message: &Signal) -> (action: Result<Action, Error>)
        ensures
            match action {
                Ok(written) => self.spec_state() != SessionState::Closed && written@
                    == ActionView::Text(signal_text(message@)),
                Err(error) => self.spec_state() == SessionState::Closed && error@
                    == ErrorView::ConnectionClosed,
            },
    {
        match self.state {
            SessionState::Closed => Err(Error::ConnectionClosed),
            _ => Ok(Action::Text(message.to_string())),
        }
    }

    /// Ends the session, and gives the request with which it leaves the
    /// router.
    pub fn stopped(&mut self) -> (message: ExitMessage)
        ensures
            final(self).name() == old(self).name(),
            final(self).spec_state() == SessionState::Closed,
            message.0@ == old(self).name(),
    {
        self.state = SessionState::Closed;
        ExitMessage::from(self.user_name.clone())
    }
}

/// `Closed` is final: a closed session stays closed and asks for nothing,
/// whatever happens.
pub proof fn lemma_closed_is_final(
    name: Seq<char>,
    ack: Result<Result<(), ()>, MailboxError>,
    frame: Result<FrameView, ProtocolError>,
    outcome: Result<Result<(), Error>, MailboxError>,
)
    ensures
        after_join(SessionState::Closed, ack) == SessionState::Closed,
        on_join(SessionState::Closed, name, ack) == ActionView::Nothing,
        on_frame(SessionState::Closed, frame) == ActionView::Nothing,
        on_routed(SessionState::Closed, outcome) == ActionView::Nothing,
{
}

/// No failure ends a session: neither a text that is no signal nor a signal
/// that could not be passed on makes the session ask for the connection to
/// end.
pub proof fn lemma_failures_do_not_stop(
    state: SessionState,
    text: Seq<char>,
    outcome: Result<Result<(), Error>, MailboxError>,
)
    ensures
        !(on_frame(state, Ok(FrameView::Text(text))) is Stop),
        !(on_routed(state, outcome) is Stop),
{
}

/// A signal that could not be passed on is never dropped in silence: while
/// the session is open, its client is told of the failure.
pub proof fn lemma_failures_are_reported(
    state: SessionState,
    outcome: Result<Result<(), Error>, MailboxError>,
)
    requires
        state != SessionState::Closed,
        !(outcome matches Ok(Ok(_))),
    ensures
        on_routed(state, outcome) is Text,
{
}

} // verus!
