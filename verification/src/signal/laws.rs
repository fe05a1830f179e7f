//! What holds of reading a signal, whatever the text: which texts are
//! refused and why, that the order of an object's members does not count,
//! and that members which the protocol does not know are passed over.

use crate::error::{ErrorView, FieldName, ParseFailure};
use crate::json::{distinct_keys, json_members};
use crate::signal::deserialize::{
    decoded, last_value, present, required, text_entries, visit_signal,
};
use crate::signal::SignalView;
use vstd::prelude::*;

verus! {

/// The members with a string value keep their keys: a key that no member has
/// is the key of no entry.
pub proof fn lemma_text_entries_keys(members: Seq<(Seq<char>, Option<Seq<char>>)>, key: Seq<char>)
    requires
        forall|i: int| 0 <= i < members.len() ==> (#[trigger] members[i]).0 != key,
    ensures
        last_value(text_entries(members), key) is None,
    decreases members.len(),
{
    if members.len() > 0 {
        let rest = members.drop_last();
        assert forall|i: int| 0 <= i < rest.len() implies (#[trigger] rest[i]).0 != key by {
            assert(members[i].0 != key);
        }
        lemma_text_entries_keys(rest, key);
        match members.last().1 {
            Some(text) => {
                let entries = text_entries(members);
                assert(entries.drop_last() =~= text_entries(rest));
            },
            None => {},
        }
    }
}

/// Whatever the relay refuses, it refuses as a parse error.
pub proof fn lemma_decode_fails_with_parse_error(text: Seq<char>)
    ensures
        decoded(text) is Err ==> decoded(text)->Err_0 is ParseError,
{
}

/// A text that is no JSON object is refused.
pub proof fn lemma_decode_rejects_malformed(text: Seq<char>)
    requires
        json_members(text) is None,
    ensures
        decoded(text) == Err::<SignalView, _>(ErrorView::ParseError(ParseFailure::Malformed)),
{
}

/// An object without a `type` member is refused.
pub proof fn lemma_decode_rejects_missing_type(text: Seq<char>)
    requires
        json_members(text) is Some,
        forall|i: int|
            0 <= i < json_members(text).unwrap().len() ==> (#[trigger] json_members(
                text,
            ).unwrap()[i]).0 != "type"@,
    ensures
        decoded(text) == Err::<SignalView, _>(
            ErrorView::ParseError(ParseFailure::MissingField(FieldName::Type)),
        ),
{
    lemma_text_entries_keys(json_members(text).unwrap(), "type"@);
}

/// An object whose `type` is none of `offer`, `answer`, `new_ice_candidate`
/// and `assign` is refused.
pub proof fn lemma_decode_rejects_unknown_type(text: Seq<char>, kind: Seq<char>)
    requires
        json_members(text) is Some,
        last_value(text_entries(json_members(text).unwrap()), "type"@) == Some(kind),
        kind != "offer"@,
        kind != "answer"@,
        kind != "new_ice_candidate"@,
        kind != "assign"@,
    ensures
        decoded(text) == Err::<SignalView, _>(ErrorView::ParseError(ParseFailure::UnknownType)),
{
}

/// Whether `field` is a required member of the kind of signal that `kind`
/// names.
pub open spec fn asks_for(kind: Seq<char>, field: FieldName) -> bool {
    ||| (kind == "offer"@ || kind == "answer"@) && (field == FieldName::Name || field
        == FieldName::Target || field == FieldName::Sdp)
    ||| kind == "new_ice_candidate"@ && (field == FieldName::Target || field
        == FieldName::Candidate)
    ||| kind == "assign"@ && field == FieldName::Name
}

/// An offer or an answer without a `name`, a `target` or an `sdp` is
/// refused, and so is an ICE candidate without a `target` or a `candidate`:
/// the failure names a required member.
pub proof fn lemma_decode_rejects_missing_field(text: Seq<char>, kind: Seq<char>, field: FieldName)
    requires
        json_members(text) is Some,
        last_value(text_entries(json_members(text).unwrap()), "type"@) == Some(kind),
        asks_for(kind, field),
        forall|i: int|
            0 <= i < json_members(text).unwrap().len() ==> (#[trigger] json_members(
                text,
            ).unwrap()[i]).0 != field.text(),
    ensures
        decoded(text) is Err,
        decoded(text)->Err_0 is ParseError,
        decoded(text)->Err_0->ParseError_0 is MissingField || decoded(
            text,
        )->Err_0->ParseError_0 is EmptyField,
{
    lemma_text_entries_keys(json_members(text).unwrap(), field.text());
    reveal_strlit("offer");
    reveal_strlit("answer");
    reveal_strlit("new_ice_candidate");
    reveal_strlit("assign");
    assert("offer"@.len() == 5 && "answer"@.len() == 6 && "new_ice_candidate"@.len() == 17);
    assert("answer"@[1] != "assign"@[1]);
}

/// A signal with a required member that is empty is refused: the failure
/// names a required member.
pub proof fn lemma_decode_rejects_empty_field(text: Seq<char>, kind: Seq<char>, field: FieldName)
    requires
        json_members(text) is Some,
        last_value(text_entries(json_members(text).unwrap()), "type"@) == Some(kind),
        asks_for(kind, field),
        last_value(text_entries(json_members(text).unwrap()), field.text()) == Some(
            Seq::<char>::empty(),
        ),
    ensures
        decoded(text) is Err,
        decoded(text)->Err_0 is ParseError,
        decoded(text)->Err_0->ParseError_0 is MissingField || decoded(
            text,
        )->Err_0->ParseError_0 is EmptyField,
{
    reveal_strlit("offer");
    reveal_strlit("answer");
    reveal_strlit("new_ice_candidate");
    reveal_strlit("assign");
    assert("offer"@.len() == 5 && "answer"@.len() == 6 && "new_ice_candidate"@.len() == 17);
    assert("answer"@[1] != "assign"@[1]);
}

/// No signal that is read from entries holds an empty text.
pub proof fn lemma_visited_is_well_formed(entries: Seq<(Seq<char>, Seq<char>)>)
    ensures
        visit_signal(entries) is Ok ==> visit_signal(entries)->Ok_0.well_formed(),
{
}

/// No signal that the relay accepts holds an empty text: its `target`, and
/// its `name`, `sdp` or `candidate`, are not empty.
pub proof fn lemma_decoded_is_well_formed(text: Seq<char>, signal: SignalView)
    requires
        decoded(text) == Ok::<_, ErrorView>(signal),
    ensures
        signal.well_formed(),
        !(signal is Assign),
        signal.target() is Some,
        signal.target().unwrap().len() > 0,
{
    lemma_visited_is_well_formed(text_entries(json_members(text).unwrap()));
}

/// A key leads to a text that is not empty.
pub open spec fn filled(entries: Seq<(Seq<char>, Seq<char>)>, field: FieldName) -> bool {
    last_value(entries, field.text()) matches Some(text) && text.len() > 0
}

/// The entries spell a signal that a client may send: `type` names an
/// offer, an answer or an ICE candidate, and every member that this kind asks
/// for is there and not empty.
pub open spec fn spells_client_signal(entries: Seq<(Seq<char>, Seq<char>)>) -> bool {
    let kind = last_value(entries, "type"@);
    ||| (kind == Some("offer"@) || kind == Some("answer"@)) && filled(entries, FieldName::Name)
        && filled(entries, FieldName::Target) && filled(entries, FieldName::Sdp)
    ||| kind == Some("new_ice_candidate"@) && filled(entries, FieldName::Target) && filled(
        entries,
        FieldName::Candidate,
    )
}

/// When the relay accepts a text: exactly where it is one JSON object whose
/// string members spell a signal that a client may send.
pub proof fn lemma_decode_succeeds_exactly(text: Seq<char>)
    ensures
        decoded(text) is Ok <==> json_members(text) is Some && spells_client_signal(
            text_entries(json_members(text).unwrap()),
        ),
{
    reveal_strlit("offer");
    reveal_strlit("answer");
    reveal_strlit("new_ice_candidate");
    reveal_strlit("assign");
    assert("offer"@.len() == 5 && "answer"@.len() == 6 && "new_ice_candidate"@.len() == 17);
    assert("answer"@[1] != "assign"@[1]);
}

/// An assignment is refused, whatever it holds.
pub proof fn lemma_decode_rejects_assign(text: Seq<char>)
    requires
        json_members(text) is Some,
        last_value(text_entries(json_members(text).unwrap()), "type"@) == Some("assign"@),
    ensures
        decoded(text) is Err,
{
    reveal_strlit("offer");
    reveal_strlit("answer");
    reveal_strlit("new_ice_candidate");
    reveal_strlit("assign");
    assert("answer"@[1] != "assign"@[1]);
}

/// The keys that some kind of signal asks for.
pub open spec fn is_protocol_key(key: Seq<char>) -> bool {
    exists|field: FieldName| key == field.text()
}

/// Among entries whose keys differ, a key leads to the value of the one
/// entry that has it.
pub proof fn lemma_last_value_of_distinct(entries: Seq<(Seq<char>, Seq<char>)>, i: int)
    requires
        distinct_keys(entries),
        0 <= i < entries.len(),
    ensures
        last_value(entries, entries[i].0) == Some(entries[i].1),
    decreases entries.len(),
{
    if i < entries.len() - 1 {
        let rest = entries.drop_last();
        assert(entries[i].0 != entries[entries.len() - 1].0);
        assert forall|a: int, b: int| 0 <= a < b < rest.len() implies (#[trigger] rest[a]).0 != (
        #[trigger] rest[b]).0 by {
            assert(entries[a].0 != entries[b].0);
        }
        assert(rest[i] == entries[i]);
        lemma_last_value_of_distinct(rest, i);
    }
}

/// A key that no entry has leads to no value.
pub proof fn lemma_last_value_absent(entries: Seq<(Seq<char>, Seq<char>)>, key: Seq<char>)
    requires
        forall|i: int| 0 <= i < entries.len() ==> (#[trigger] entries[i]).0 != key,
    ensures
        last_value(entries, key) is None,
    decreases entries.len(),
{
    if entries.len() > 0 {
        let rest = entries.drop_last();
        assert(entries[entries.len() - 1].0 != key);
        assert forall|i: int| 0 <= i < rest.len() implies (#[trigger] rest[i]).0 != key by {
            assert(entries[i].0 != key);
        }
        lemma_last_value_absent(rest, key);
    }
}

/// Two lists of the same entries, each without a repeated key, give every key
/// the same value.
pub proof fn lemma_same_entries_same_value(
    first: Seq<(Seq<char>, Seq<char>)>,
    second: Seq<(Seq<char>, Seq<char>)>,
    key: Seq<char>,
)
    requires
        distinct_keys(first),
        distinct_keys(second),
        forall|e: (Seq<char>, Seq<char>)| first.contains(e) <==> second.contains(e),
    ensures
        last_value(first, key) == last_value(second, key),
{
    if exists|i: int| 0 <= i < first.len() && (#[trigger] first[i]).0 == key {
        let i = choose|i: int| 0 <= i < first.len() && (#[trigger] first[i]).0 == key;
        assert(first.contains(first[i]));
        assert(second.contains(first[i]));
        let j = choose|j: int| 0 <= j < second.len() && second[j] == first[i];
        lemma_last_value_of_distinct(first, i);
        lemma_last_value_of_distinct(second, j);
    } else {
        assert forall|j: int| 0 <= j < second.len() implies (#[trigger] second[j]).0 != key by {
            assert(second.contains(second[j]));
            assert(first.contains(second[j]));
            let i = choose|i: int| 0 <= i < first.len() && first[i] == second[j];
            assert(first[i].0 != key);
        }
        lemma_last_value_absent(first, key);
        lemma_last_value_absent(second, key);
    }
}

/// The order of an object's members does not count: two lists of the same
/// entries, each without a repeated key, spell the same signal or fail in the
/// same way.
pub proof fn lemma_order_is_irrelevant(
    first: Seq<(Seq<char>, Seq<char>)>,
    second: Seq<(Seq<char>, Seq<char>)>,
)
    requires
        distinct_keys(first),
        distinct_keys(second),
        forall|e: (Seq<char>, Seq<char>)| first.contains(e) <==> second.contains(e),
    ensures
        visit_signal(first) == visit_signal(second),
{
    lemma_same_entries_same_value(first, second, FieldName::Type.text());
    lemma_same_entries_same_value(first, second, FieldName::Name.text());
    lemma_same_entries_same_value(first, second, FieldName::Target.text());
    lemma_same_entries_same_value(first, second, FieldName::Sdp.text());
    lemma_same_entries_same_value(first, second, FieldName::Candidate.text());
}

/// An entry that is put in anywhere changes the value of no other key.
pub proof fn lemma_insert_keeps_other_keys(
    entries: Seq<(Seq<char>, Seq<char>)>,
    at: int,
    extra: (Seq<char>, Seq<char>),
    key: Seq<char>,
)
    requires
        0 <= at <= entries.len(),
        extra.0 != key,
    ensures
        last_value(entries.insert(at, extra), key) == last_value(entries, key),
    decreases entries.len(),
{
    let longer = entries.insert(at, extra);
    if at == entries.len() {
        assert(longer.last() == extra);
        assert(longer.drop_last() =~= entries);
    } else {
        assert(longer.last() == entries.last());
        assert(longer.drop_last() =~= entries.drop_last().insert(at, extra));
        lemma_insert_keeps_other_keys(entries.drop_last(), at, extra, key);
    }
}

/// Members that the protocol does not know are passed over: an entry under
/// any other key, put in anywhere, changes neither the signal that the
/// entries spell nor the way in which they fail.
pub proof fn lemma_unknown_entry_is_ignored(
    entries: Seq<(Seq<char>, Seq<char>)>,
    at: int,
    extra: (Seq<char>, Seq<char>),
)
    requires
        0 <= at <= entries.len(),
        !is_protocol_key(extra.0),
    ensures
        visit_signal(entries.insert(at, extra)) == visit_signal(entries),
{
    assert forall|field: FieldName|
        last_value(entries.insert(at, extra), field.text()) == last_value(
            entries,
            #[trigger] field.text(),
        ) by {
        lemma_insert_keeps_other_keys(entries, at, extra, field.text());
    }
    assert(last_value(entries.insert(at, extra), FieldName::Type.text()) == last_value(
        entries,
        FieldName::Type.text(),
    ));
    assert(last_value(entries.insert(at, extra), FieldName::Name.text()) == last_value(
        entries,
        FieldName::Name.text(),
    ));
    assert(last_value(entries.insert(at, extra), FieldName::Target.text()) == last_value(
        entries,
        FieldName::Target.text(),
    ));
    assert(last_value(entries.insert(at, extra), FieldName::Sdp.text()) == last_value(
        entries,
        FieldName::Sdp.text(),
    ));
    assert(last_value(entries.insert(at, extra), FieldName::Candidate.text()) == last_value(
        entries,
        FieldName::Candidate.text(),
    ));
}

} // verus!
