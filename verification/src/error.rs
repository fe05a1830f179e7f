//! The closed set of failures that the relay reports to a client.

use vstd::prelude::*;

verus! {

/// A member of a signaling message on the wire.
#[derive(Clone, Copy, Debug, PartialEq, Eq, Structural)]
pub enum FieldName {
    Type,
    Name,
    Target,
    Sdp,
    Candidate,
}

impl FieldName {
    /// The member's key as it is spelled on the wire.
    pub open spec fn text(self) -> Seq<char> {
        match self {
            FieldName::Type => "type"@,
            FieldName::Name => "name"@,
            FieldName::Target => "target"@,
            FieldName::Sdp => "sdp"@,
            FieldName::Candidate => "candidate"@,
        }
    }

    pub fn as_str(&self) -> (key: &'static str)
        ensures
            key@ == self.text(),
    {
        match self {
            FieldName::Type => "type",
            FieldName::Name => "name",
            FieldName::Target => "target",
            FieldName::Sdp => "sdp",
            FieldName::Candidate => "candidate",
        }
    }
}

/// Why an inbound text was not accepted as a signaling message.
#[derive(Clone, Copy, Debug, PartialEq, Eq, Structural)]
pub enum ParseFailure {
    /// The text is not one JSON object.
    Malformed,
    /// The object has no such member, or its value is not a string.
    MissingField(FieldName),
    /// The member is there, but its text is empty.
    EmptyField(FieldName),
    /// The `type` member names no kind of message.
    UnknownType,
    /// The message is of a kind that only the relay sends.
    RelayOnly,
}

/// How handing a message to another party's mailbox failed.
#[derive(Clone, Copy, Debug, PartialEq, Eq, Structural)]
pub enum MailboxError {
    /// The mailbox no longer takes messages.
    Closed,
    /// The message was not taken in time.
    Timeout,
}

/// A failure that a session reports to its own client. None of them ends the
/// session.
#[derive(Clone, Debug, PartialEq, Eq)]
pub enum Error {
    /// The inbound text is no signaling message.
    ParseError(ParseFailure),
    /// The target's session has ended, though it is still registered.
    ConnectionClosed,
    /// The target did not take the message in time.
    ConnectionTimeout,
    /// No session is registered under the target's name.
    TargetNotFound(String),
    /// The router no longer takes requests.
    ServiceUnavailable,
    /// The router did not take the request in time.
    ServiceTimeout,
}

/// An `Error` with its text as a sequence of characters.
pub enum ErrorView {
    ParseError(ParseFailure),
    ConnectionClosed,
    ConnectionTimeout,
    TargetNotFound(Seq<char>),
    ServiceUnavailable,
    ServiceTimeout,
}

impl View for Error {
    type V = ErrorView;

    open spec fn view(&self) -> ErrorView {
        match self {
            Error::ParseError(failure) => ErrorView::ParseError(*failure),
            Error::ConnectionClosed => ErrorView::ConnectionClosed,
            Error::ConnectionTimeout => ErrorView::ConnectionTimeout,
            Error::TargetNotFound(name) => ErrorView::TargetNotFound(name@),
            Error::ServiceUnavailable => ErrorView::ServiceUnavailable,
            Error::ServiceTimeout => ErrorView::ServiceTimeout,
        }
    }
}

} // verus!
