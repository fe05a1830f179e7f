//! Writing a signal as a JSON object.

use crate::error::{ErrorView, ParseFailure};
use crate::json::{
    as_members, distinct_keys, entries_view, json_members, json_text, write_object, Entry,
};
use crate::signal::deserialize::{decoded, last_value, text_entries, visit_signal};
use crate::signal::{Signal, SignalView};
use vstd::pervasive::unreached;
use vstd::prelude::*;

verus! {

/// The members of the object that stands for `signal` on the wire, in the
/// order in which they are written: `type` first, then the members of that
/// kind of message.
pub open spec fn signal_entries(signal: SignalView) -> Seq<(Seq<char>, Seq<char>)> {
    match signal {
        SignalView::Offer(message) => seq![
            ("type"@, "offer"@),
            ("name"@, message.name),
            ("target"@, message.target),
            ("sdp"@, message.sdp),
        ],
        SignalView::Answer(message) => seq![
            ("type"@, "answer"@),
            ("name"@, message.name),
            ("target"@, message.target),
            ("sdp"@, message.sdp),
        ],
        SignalView::NewIceCandidate(candidate) => seq![
            ("type"@, "new_ice_candidate"@),
            ("target"@, candidate.target),
            ("candidate"@, candidate.candidate),
        ],
        SignalView::Assign(name) => seq![("type"@, "assign"@), ("name"@, name)],
    }
}

/// The text that stands for `signal` on the wire.
pub open spec fn signal_text(signal: SignalView) -> Seq<char> {
    json_text(signal_entries(signal))
}

/// The keys of a signal differ from one another, and `type` differs from
/// `message`, the other key of a report.
pub proof fn lemma_keys_differ()
    ensures
        "type"@ != "name"@,
        "type"@ != "target"@,
        "type"@ != "sdp"@,
        "type"@ != "candidate"@,
        "type"@ != "message"@,
        "name"@ != "target"@,
        "name"@ != "sdp"@,
        "name"@ != "candidate"@,
        "target"@ != "sdp"@,
        "target"@ != "candidate"@,
        "sdp"@ != "candidate"@,
{
    reveal_strlit("type");
    reveal_strlit("name");
    reveal_strlit("target");
    reveal_strlit("sdp");
    reveal_strlit("candidate");
    reveal_strlit("message");
    assert("type"@.len() == 4 && "name"@.len() == 4 && "target"@.len() == 6);
    assert("sdp"@.len() == 3 && "candidate"@.len() == 9 && "message"@.len() == 7);
    assert("type"@[0] != "name"@[0]);
}

pub(crate) fn entry(key: &str, value: &str) -> (e: Entry)
    ensures
        e@ == (key@, value@),
{
    Entry { key: key.to_owned(), value: value.to_owned() }
}

impl Signal {
    /// The members of the object that stands for the signal on the wire.
    pub fn serialize(&self) -> (entries: Vec<Entry>)
        ensures
            entries_view(entries@) == signal_entries(self@),
    {
        let mut entries: Vec<Entry> = Vec::new();
        match self {
            Signal::Offer(message) => {
                entries.push(entry("type", "offer"));
                entries.push(entry("name", message.name.as_str()));
                entries.push(entry("target", message.target.as_str()));
                entries.push(entry("sdp", message.sdp.as_str()));
            },
            Signal::Answer(message) => {
                entries.push(entry("type", "answer"));
                entries.push(entry("name", message.name.as_str()));
                entries.push(entry("target", message.target.as_str()));
                entries.push(entry("sdp", message.sdp.as_str()));
            },
            Signal::NewIceCandidate(candidate) => {
                entries.push(entry("type", "new_ice_candidate"));
                entries.push(entry("target", candidate.target.as_str()));
                entries.push(entry("candidate", candidate.candidate.as_str()));
            },
            Signal::Assign(user_name) => {
                entries.push(entry("type", "assign"));
                entries.push(entry("name", user_name.as_str()));
            },
        }
        assert(entries_view(entries@) =~= signal_entries(self@));
        entries
    }
}

/// No key occurs twice among the members that stand for a signal.
pub proof fn lemma_signal_keys_distinct(signal: SignalView)
    ensures
        distinct_keys(signal_entries(signal)),
{
    lemma_keys_differ();
}

/// Entries that are seen as members and then reduced to the members with a
/// string value are the same entries again.
pub proof fn lemma_text_entries_of_members(entries: Seq<(Seq<char>, Seq<char>)>)
    ensures
        text_entries(as_members(entries)) == entries,
    decreases entries.len(),
{
    if entries.len() > 0 {
        lemma_text_entries_of_members(entries.drop_last());
        assert(as_members(entries).drop_last() =~= as_members(entries.drop_last()));
    }
}

/// What the members that `serialize` writes for a signal are read as: the
/// signal itself, unless one of its texts is empty.
pub open spec fn visited_back(signal: SignalView) -> Result<SignalView, ParseFailure> {
    match signal.empty_field() {
        Some(field) => Err(ParseFailure::EmptyField(field)),
        None => Ok(signal),
    }
}

/// What the relay makes of the text that `to_string` writes for a signal:
/// the signal itself, unless one of its texts is empty or it is an
/// assignment, which only the relay sends.
pub open spec fn read_back(signal: SignalView) -> Result<SignalView, ErrorView> {
    match signal.empty_field() {
        Some(field) => Err(ErrorView::ParseError(ParseFailure::EmptyField(field))),
        None => if signal is Assign {
            Err(ErrorView::ParseError(ParseFailure::RelayOnly))
        } else {
            Ok(signal)
        },
    }
}

/// A signal has no empty text exactly where it is well formed.
pub proof fn lemma_well_formed_has_no_empty_field(signal: SignalView)
    ensures
        signal.well_formed() <==> signal.empty_field() is None,
{
}

/// Round trip over the members: reading the members that `serialize` writes
/// for a well-formed signal gives that signal back, whatever its kind. For a
/// signal with an empty text it names the first such text.
pub proof fn lemma_visit_serialized(signal: SignalView)
    ensures
        visit_signal(signal_entries(signal)) == visited_back(signal),
        signal.well_formed() ==> visit_signal(signal_entries(signal)) == Ok::<_, ParseFailure>(
            signal,
        ),
{
    lemma_keys_differ();
    reveal_strlit("offer");
    reveal_strlit("answer");
    reveal_strlit("new_ice_candidate");
    reveal_strlit("assign");
    assert("offer"@.len() == 5 && "answer"@.len() == 6 && "new_ice_candidate"@.len() == 17);
    assert("answer"@[1] != "assign"@[1]);
    let entries = signal_entries(signal);
    reveal_with_fuel(last_value, 5);
    match signal {
        SignalView::Offer(message) => {
            assert(last_value(entries, "type"@) == Some("offer"@));
            assert(last_value(entries, "name"@) == Some(message.name));
            assert(last_value(entries, "target"@) == Some(message.target));
            assert(last_value(entries, "sdp"@) == Some(message.sdp));
        },
        SignalView::Answer(message) => {
            assert(last_value(entries, "type"@) == Some("answer"@));
            assert(last_value(entries, "name"@) == Some(message.name));
            assert(last_value(entries, "target"@) == Some(message.target));
            assert(last_value(entries, "sdp"@) == Some(message.sdp));
        },
        SignalView::NewIceCandidate(candidate) => {
            assert(last_value(entries, "type"@) == Some("new_ice_candidate"@));
            assert(last_value(entries, "target"@) == Some(candidate.target));
            assert(last_value(entries, "candidate"@) == Some(candidate.candidate));
        },
        SignalView::Assign(name) => {
            assert(last_value(entries, "type"@) == Some("assign"@));
            assert(last_value(entries, "name"@) == Some(name));
        },
    }
}

/// Round trip over the text: a text whose members are the ones that
/// `serialize` writes for a signal is read back as that signal, where the
/// signal is a well-formed offer, answer or ICE candidate. Any other signal
/// is refused: for its first empty text, or as an assignment.
pub proof fn lemma_decode_serialized(signal: SignalView, text: Seq<char>)
    requires
        json_members(text) == Some(as_members(signal_entries(signal))),
    ensures
        decoded(text) == read_back(signal),
        signal.well_formed() && !(signal is Assign) ==> decoded(text) == Ok::<_, ErrorView>(
            signal,
        ),
{
    lemma_text_entries_of_members(signal_entries(signal));
    lemma_visit_serialized(signal);
}

impl Signal {
    /// The text that stands for the signal on the wire.
    ///
    /// Round trip: the relay reads the text of a well-formed offer, answer
    /// or ICE candidate back as the same signal. The text of a signal with an
    /// empty text it refuses, and so it does the text of an assignment, as
    /// any assignment that a client sends.
    pub fn to_string(&self) -> (text: String)
        ensures
            text@ == signal_text(self@),
            json_members(text@) == Some(as_members(signal_entries(self@))),
            decoded(text@) == read_back(self@),
            self@.well_formed() && !(self@ is Assign) ==> decoded(text@) == Ok::<_, ErrorView>(
                self@,
            ),
    {
        let entries = self.serialize();
        proof {
            lemma_signal_keys_distinct(self@);
        }
        match write_object(&entries) {
            Some(text) => {
                proof {
                    lemma_decode_serialized(self@, text@);
                }
                text
            },
            None => unreached(),
        }
    }
}

} // verus!
