//! The signaling messages and their wire format.
//!
//! A message is one JSON object. Its `type` member names the kind of message,
//! and each kind has its own required members, all of them strings that are
//! not empty. The relay reads no signal with an empty text; a signal that is
//! built by hand may hold one, and is then refused when its text is read.

use crate::error::FieldName;
use vstd::prelude::*;

pub mod deserialize;
pub mod laws;
pub mod serialize;

verus! {

/// A session-description offer or answer, from `name` to `target`.
#[derive(Clone, Debug, PartialEq)]
pub struct SessionDescriptionMessage {
    pub target: String,
    pub name: String,
    pub sdp: String,
}

/// An ICE candidate for `target`.
#[derive(Clone, Debug, PartialEq)]
pub struct IceCandidate {
    pub target: String,
    pub candidate: String,
}

/// One signaling message.
#[derive(Clone, Debug, PartialEq)]
pub enum Signal {
    Offer(SessionDescriptionMessage),
    Answer(SessionDescriptionMessage),
    NewIceCandidate(IceCandidate),
    /// Tells a client the name of its own session. Only the relay sends it.
    Assign(String),
}

/// A `SessionDescriptionMessage` with its texts as sequences of characters.
pub struct SessionDescriptionView {
    pub target: Seq<char>,
    pub name: Seq<char>,
    pub sdp: Seq<char>,
}

/// An `IceCandidate` with its texts as sequences of characters.
pub struct IceCandidateView {
    pub target: Seq<char>,
    pub candidate: Seq<char>,
}

/// A `Signal` with its texts as sequences of characters.
pub enum SignalView {
    Offer(SessionDescriptionView),
    Answer(SessionDescriptionView),
    NewIceCandidate(IceCandidateView),
    Assign(Seq<char>),
}

impl View for SessionDescriptionMessage {
    type V = SessionDescriptionView;

    open spec fn view(&self) -> SessionDescriptionView {
        SessionDescriptionView { target: self.target@, name: self.name@, sdp: self.sdp@ }
    }
}

impl View for IceCandidate {
    type V = IceCandidateView;

    open spec fn view(&self) -> IceCandidateView {
        IceCandidateView { target: self.target@, candidate: self.candidate@ }
    }
}

impl View for Signal {
    type V = SignalView;

    open spec fn view(&self) -> SignalView {
        match self {
            Signal::Offer(message) => SignalView::Offer(message@),
            Signal::Answer(message) => SignalView::Answer(message@),
            Signal::NewIceCandidate(candidate) => SignalView::NewIceCandidate(candidate@),
            Signal::Assign(name) => SignalView::Assign(name@),
        }
    }
}

impl SignalView {
    /// The first of the signal's texts that is empty, in the order in which
    /// they are read: `name`, `target`, `sdp`, `candidate`.
    pub open spec fn empty_field(self) -> Option<FieldName> {
        match self {
            SignalView::Offer(message) | SignalView::Answer(message) => if message.name.len()
                == 0 {
                Some(FieldName::Name)
            } else if message.target.len() == 0 {
                Some(FieldName::Target)
            } else if message.sdp.len() == 0 {
                Some(FieldName::Sdp)
            } else {
                None
            },
            SignalView::NewIceCandidate(candidate) => if candidate.target.len() == 0 {
                Some(FieldName::Target)
            } else if candidate.candidate.len() == 0 {
                Some(FieldName::Candidate)
            } else {
                None
            },
            SignalView::Assign(name) => if name.len() == 0 {
                Some(FieldName::Name)
            } else {
                None
            },
        }
    }

    /// None of the signal's texts is empty.
    pub open spec fn well_formed(self) -> bool {
        match self {
            SignalView::Offer(message) | SignalView::Answer(message) => message.name.len() > 0
                && message.target.len() > 0 && message.sdp.len() > 0,
            SignalView::NewIceCandidate(candidate) => candidate.target.len() > 0
                && candidate.candidate.len() > 0,
            SignalView::Assign(name) => name.len() > 0,
        }
    }

    /// The session that the message is addressed to; `Assign` has none.
    pub open spec fn target(self) -> Option<Seq<char>> {
        match self {
            SignalView::Offer(message) => Some(message.target),
            SignalView::Answer(message) => Some(message.target),
            SignalView::NewIceCandidate(candidate) => Some(candidate.target),
            SignalView::Assign(_) => None,
        }
    }
}

impl Signal {
    /// The message that tells a client its session's name.
    pub fn assign(user_name: String) -> (signal: Signal)
        ensures
            signal@ == SignalView::Assign(user_name@),
    {
        Signal::Assign(user_name)
    }

    /// The name of the session that the message is addressed to.
    pub fn target(&self) -> (target: Option<&String>)
        ensures
            match target {
                Some(name) => self@.target() == Some(name@),
                None => self@.target() is None,
            },
    {
        match self {
            Signal::Offer(message) => Some(&message.target),
            Signal::Answer(message) => Some(&message.target),
            Signal::NewIceCandidate(candidate) => Some(&candidate.target),
            Signal::Assign(_) => None,
        }
    }
}

} // verus!
