//! Reading a signal from a JSON object.
//!
//! The object's members are looked up by key, wherever they stand. Where a
//! key occurs more than once, its last occurrence counts. Members that no
//! kind of message asks for are passed over. A member that a kind of message
//! asks for must be there, as a string, and must not be empty.

use crate::error::{Error, ErrorView, FieldName, ParseFailure};
use crate::json::{entries_view, json_members, members_view, parse_object, Entry, Member};
use crate::signal::{
    IceCandidate, IceCandidateView, SessionDescriptionMessage, SessionDescriptionView, Signal,
    SignalView,
};
use vstd::prelude::*;

verus! {

/// The value of the last entry with this key.
pub open spec fn last_value(entries: Seq<(Seq<char>, Seq<char>)>, key: Seq<char>) -> Option<
    Seq<char>,
>
    decreases entries.len(),
{
    if entries.len() == 0 {
        None
    } else if entries.last().0 == key {
        Some(entries.last().1)
    } else {
        last_value(entries.drop_last(), key)
    }
}

/// The members whose value is a string, in their order.
pub open spec fn text_entries(members: Seq<(Seq<char>, Option<Seq<char>>)>) -> Seq<
    (Seq<char>, Seq<char>),
>
    decreases members.len(),
{
    if members.len() == 0 {
        Seq::empty()
    } else {
        let rest = text_entries(members.drop_last());
        match members.last().1 {
            Some(text) => rest.push((members.last().0, text)),
            None => rest,
        }
    }
}

/// What a member that must be there yields: its text, or the failure that
/// names it as missing.
pub open spec fn present(entries: Seq<(Seq<char>, Seq<char>)>, field: FieldName) -> Result<
    Seq<char>,
    ParseFailure,
> {
    match last_value(entries, field.text()) {
        Some(text) => Ok(text),
        None => Err(ParseFailure::MissingField(field)),
    }
}

/// What a required member yields: its text, which is not empty, or the
/// failure that names it as missing or as empty.
pub open spec fn required(entries: Seq<(Seq<char>, Seq<char>)>, field: FieldName) -> Result<
    Seq<char>,
    ParseFailure,
> {
    match last_value(entries, field.text()) {
        Some(text) => if text.len() == 0 {
            Err(ParseFailure::EmptyField(field))
        } else {
            Ok(text)
        },
        None => Err(ParseFailure::MissingField(field)),
    }
}

/// An offer or an answer needs `name`, `target` and `sdp`.
pub open spec fn visit_session_description(entries: Seq<(Seq<char>, Seq<char>)>) -> Result<
    SessionDescriptionView,
    ParseFailure,
> {
    match required(entries, FieldName::Name) {
        Err(failure) => Err(failure),
        Ok(name) => match required(entries, FieldName::Target) {
            Err(failure) => Err(failure),
            Ok(target) => match required(entries, FieldName::Sdp) {
                Err(failure) => Err(failure),
                Ok(sdp) => Ok(SessionDescriptionView { target, name, sdp }),
            },
        },
    }
}

/// An ICE candidate needs `target` and `candidate`.
pub open spec fn visit_ice_candidate(entries: Seq<(Seq<char>, Seq<char>)>) -> Result<
    IceCandidateView,
    ParseFailure,
> {
    match required(entries, FieldName::Target) {
        Err(failure) => Err(failure),
        Ok(target) => match required(entries, FieldName::Candidate) {
            Err(failure) => Err(failure),
            Ok(candidate) => Ok(IceCandidateView { target, candidate }),
        },
    }
}

/// An assignment needs `name`.
pub open spec fn visit_assigned_name(entries: Seq<(Seq<char>, Seq<char>)>) -> Result<
    Seq<char>,
    ParseFailure,
> {
    required(entries, FieldName::Name)
}

/// The signal that an object's entries spell: `type` selects the kind of
/// message, and that kind's required members are taken from the same entries.
pub open spec fn visit_signal(entries: Seq<(Seq<char>, Seq<char>)>) -> Result<
    SignalView,
    ParseFailure,
> {
    match present(entries, FieldName::Type) {
        Err(failure) => Err(failure),
        Ok(kind) => if kind == "offer"@ {
            match visit_session_description(entries) {
                Ok(message) => Ok(SignalView::Offer(message)),
                Err(failure) => Err(failure),
            }
        } else if kind == "answer"@ {
            match visit_session_description(entries) {
                Ok(message) => Ok(SignalView::Answer(message)),
                Err(failure) => Err(failure),
            }
        } else if kind == "new_ice_candidate"@ {
            match visit_ice_candidate(entries) {
                Ok(candidate) => Ok(SignalView::NewIceCandidate(candidate)),
                Err(failure) => Err(failure),
            }
        } else if kind == "assign"@ {
            match visit_assigned_name(entries) {
                Ok(name) => Ok(SignalView::Assign(name)),
                Err(failure) => Err(failure),
            }
        } else {
            Err(ParseFailure::UnknownType)
        },
    }
}

/// What the relay makes of a text that a client sent: the signal that it
/// spells, unless it is no JSON object, spells no signal, leaves a required
/// text empty, or spells a signal that only the relay sends.
pub open spec fn decoded(text: Seq<char>) -> Result<SignalView, ErrorView> {
    match json_members(text) {
        None => Err(ErrorView::ParseError(ParseFailure::Malformed)),
        Some(members) => match visit_signal(text_entries(members)) {
            Err(failure) => Err(ErrorView::ParseError(failure)),
            Ok(SignalView::Assign(_)) => Err(ErrorView::ParseError(ParseFailure::RelayOnly)),
            Ok(signal) => Ok(signal),
        },
    }
}

/// The text of the last entry with the key of `field`.
pub fn find(entries: &Vec<Entry>, field: FieldName) -> (found: Result<String, ParseFailure>)
    ensures
        match found {
            Ok(text) => present(entries_view(entries@), field) == Ok::<_, ParseFailure>(text@),
            Err(failure) => present(entries_view(entries@), field) == Err::<Seq<char>, _>(
                failure,
            ),
        },
{
    let key = field.as_str().to_owned();
    let ghost all = entries_view(entries@);
    let mut i: usize = entries.len();
    assert(all.take(i as int) =~= all);
    while i > 0
        invariant
            i <= entries.len(),
            all == entries_view(entries@),
            key@ == field.text(),
            last_value(all, key@) == last_value(all.take(i as int), key@),
        decreases i,
    {
        i = i - 1;
        assert(all.take(i + 1).drop_last() =~= all.take(i as int));
        if entries[i].key == key {
            return Ok(entries[i].value.clone());
        }
    }
    Err(ParseFailure::MissingField(field))
}

/// The text of the last entry with the key of `field`, where it is not
/// empty.
pub fn find_required(entries: &Vec<Entry>, field: FieldName) -> (found: Result<
    String,
    ParseFailure,
>)
    ensures
        match found {
            Ok(text) => required(entries_view(entries@), field) == Ok::<_, ParseFailure>(text@),
            Err(failure) => required(entries_view(entries@), field) == Err::<Seq<char>, _>(
                failure,
            ),
        },
{
    match find(entries, field) {
        Ok(text) => if text.as_str().is_empty() {
            Err(ParseFailure::EmptyField(field))
        } else {
            Ok(text)
        },
        Err(failure) => Err(failure),
    }
}

/// Reads the object of any signal.
pub struct SignalVisitor;

/// Reads the members of an offer or an answer.
pub struct SessionDescriptionVisitor;

/// Reads the members of an ICE candidate.
pub struct IceCandidateVisitor;

/// Reads the name that an assignment carries.
pub struct AssignedNameVisitor;

impl SessionDescriptionVisitor {
    pub fn visit_map(&self, entries: &Vec<Entry>) -> (message: Result<
        SessionDescriptionMessage,
        ParseFailure,
    >)
        ensures
            match message {
                Ok(m) => visit_session_description(entries_view(entries@)) == Ok::<
                    _,
                    ParseFailure,
                >(m@),
                Err(failure) => visit_session_description(entries_view(entries@)) == Err::<
                    SessionDescriptionView,
                    _,
                >(failure),
            },
    {
        let name = match find_required(entries, FieldName::Name) {
            Ok(text) => text,
            Err(failure) => { return Err(failure); },
        };
        let target = match find_required(entries, FieldName::Target) {
            Ok(text) => text,
            Err(failure) => { return Err(failure); },
        };
        let sdp = match find_required(entries, FieldName::Sdp) {
            Ok(text) => text,
            Err(failure) => { return Err(failure); },
        };
        Ok(SessionDescriptionMessage { target, name, sdp })
    }
}

impl IceCandidateVisitor {
    pub fn visit_map(&self, entries: &Vec<Entry>) -> (candidate: Result<
        IceCandidate,
        ParseFailure,
    >)
        ensures
            match candidate {
                Ok(c) => visit_ice_candidate(entries_view(entries@)) == Ok::<_, ParseFailure>(c@),
                Err(failure) => visit_ice_candidate(entries_view(entries@)) == Err::<
                    IceCandidateView,
                    _,
                >(failure),
            },
    {
        let target = match find_required(entries, FieldName::Target) {
            Ok(text) => text,
            Err(failure) => { return Err(failure); },
        };
        let candidate = match find_required(entries, FieldName::Candidate) {
            Ok(text) => text,
            Err(failure) => { return Err(failure); },
        };
        Ok(IceCandidate { target, candidate })
    }
}

impl AssignedNameVisitor {
    pub fn visit_map(&self, entries: &Vec<Entry>) -> (name: Result<String, ParseFailure>)
        ensures
            match name {
                Ok(text) => visit_assigned_name(entries_view(entries@)) == Ok::<_, ParseFailure>(
                    text@,
                ),
                Err(failure) => visit_assigned_name(entries_view(entries@)) == Err::<
                    Seq<char>,
                    _,
                >(failure),
            },
    {
        find_required(entries, FieldName::Name)
    }
}

impl SignalVisitor {
    pub fn visit_map(&self, entries: &Vec<Entry>) -> (signal: Result<Signal, ParseFailure>)
        ensures
            match signal {
                Ok(s) => visit_signal(entries_view(entries@)) == Ok::<_, ParseFailure>(s@),
                Err(failure) => visit_signal(entries_view(entries@)) == Err::<SignalView, _>(
                    failure,
                ),
            },
    {
        let kind = match find(entries, FieldName::Type) {
            Ok(text) => text,
            Err(failure) => { return Err(failure); },
        };
        if kind == "offer".to_owned() {
            match SessionDescriptionVisitor.visit_map(entries) {
                Ok(message) => Ok(Signal::Offer(message)),
                Err(failure) => Err(failure),
            }
        } else if kind == "answer".to_owned() {
            match SessionDescriptionVisitor.visit_map(entries) {
                Ok(message) => Ok(Signal::Answer(message)),
                Err(failure) => Err(failure),
            }
        } else if kind == "new_ice_candidate".to_owned() {
            match IceCandidateVisitor.visit_map(entries) {
                Ok(candidate) => Ok(Signal::NewIceCandidate(candidate)),
                Err(failure) => Err(failure),
            }
        } else if kind == "assign".to_owned() {
            match AssignedNameVisitor.visit_map(entries) {
                Ok(name) => Ok(Signal::assign(name)),
                Err(failure) => Err(failure),
            }
        } else {
            Err(ParseFailure::UnknownType)
        }
    }
}

/// Keeps the members whose value is a string.
pub fn strings_of(members: &Vec<Member>) -> (entries: Vec<Entry>)
    ensures
        entries_view(entries@) == text_entries(members_view(members@)),
{
    let ghost all = members_view(members@);
    let mut entries: Vec<Entry> = Vec::new();
    let mut i: usize = 0;
    while i < members.len()
        invariant
            i <= members.len(),
            all == members_view(members@),
            entries_view(entries@) == text_entries(all.take(i as int)),
        decreases members.len() - i,
    {
        assert(all.take(i + 1).drop_last() =~= all.take(i as int));
        match &members[i].value {
            Some(text) => {
                entries.push(Entry { key: members[i].key.clone(), value: text.clone() });
            },
            None => {},
        }
        i = i + 1;
    }
    assert(all.take(i as int) =~= all);
    entries
}

impl Signal {
    /// Reads a signal from a text that a client sent.
    pub fn deserialize(text: &str) -> (signal: Result<Signal, Error>)
        ensures
            match signal {
                Ok(s) => decoded(text@) == Ok::<_, ErrorView>(s@),
                Err(e) => decoded(text@) == Err::<SignalView, _>(e@),
            },
    {
        let members = match parse_object(text) {
            Some(list) => list,
            None => { return Err(Error::ParseError(ParseFailure::Malformed)); },
        };
        let entries = strings_of(&members);
        match SignalVisitor.visit_map(&entries) {
            Err(failure) => Err(Error::ParseError(failure)),
            Ok(Signal::Assign(_)) => Err(Error::ParseError(ParseFailure::RelayOnly)),
            Ok(signal) => Ok(signal),
        }
    }
}

} // verus!
