//! JSON objects as the signaling protocol reads and writes them.
//!
//! Reading and writing JSON text is `serde_json`'s work. This module holds the
//! two calls into it, and the plain types that carry an object's members
//! between those calls and the verified code.

use vstd::prelude::*;

verus! {

/// One `key: value` pair of an object whose values are all strings.
#[derive(Clone, Debug, PartialEq, Eq)]
pub struct Entry {
    pub key: String,
    pub value: String,
}

/// One member of a parsed object: its key and, where the value is a JSON
/// string, that string. Any other kind of value is kept as `None`.
#[derive(Clone, Debug, PartialEq, Eq)]
pub struct Member {
    pub key: String,
    pub value: Option<String>,
}

impl View for Entry {
    type V = (Seq<char>, Seq<char>);

    open spec fn view(&self) -> (Seq<char>, Seq<char>) {
        (self.key@, self.value@)
    }
}

impl View for Member {
    type V = (Seq<char>, Option<Seq<char>>);

    open spec fn view(&self) -> (Seq<char>, Option<Seq<char>>) {
        (
            self.key@,
            match self.value {
                Some(text) => Some(text@),
                None => None,
            },
        )
    }
}

/// The entries of a list, each as a pair of character sequences.
pub open spec fn entries_view(entries: Seq<Entry>) -> Seq<(Seq<char>, Seq<char>)> {
    entries.map_values(|e: Entry| e@)
}

/// The members of a list, each as a key and an optional text.
pub open spec fn members_view(members: Seq<Member>) -> Seq<(Seq<char>, Option<Seq<char>>)> {
    members.map_values(|m: Member| m@)
}

/// Entries seen as members: every value is a text.
pub open spec fn as_members(entries: Seq<(Seq<char>, Seq<char>)>) -> Seq<
    (Seq<char>, Option<Seq<char>>),
> {
    entries.map_values(|e: (Seq<char>, Seq<char>)| (e.0, Some(e.1)))
}

/// No key occurs twice.
pub open spec fn distinct_keys(entries: Seq<(Seq<char>, Seq<char>)>) -> bool {
    forall|i: int, j: int|
        0 <= i < j < entries.len() ==> (#[trigger] entries[i]).0 != (#[trigger] entries[j]).0
}

/// The members of the object that `serde_json::from_str` reads from `text`,
/// in the order in which its map hands them out; `None` where it reports an
/// error.
pub uninterp spec fn json_members(text: Seq<char>) -> Option<Seq<(Seq<char>, Option<Seq<char>>)>>;

/// The text that `serde_json::to_string` writes for the object that holds
/// `entries` in this order.
pub uninterp spec fn json_text(entries: Seq<(Seq<char>, Seq<char>)>) -> Seq<char>;

/// Calls `serde_json::from_str` to read `text` as a `serde_json::Map`.
///
/// Trusted: the result is what `json_members` names. `serde_json` reads a map
/// from the text of one JSON object and reports an error on any other text.
/// Each member of the map is handed out with its key, and with its value
/// where that is a string.
#[verifier::external_body]
pub(crate) fn parse_object(text: &str) -> (members: Option<Vec<Member>>)
    ensures
        match members {
            Some(list) => json_members(text@) == Some(members_view(list@)),
            None => json_members(text@) is None,
        },
{
    let object: serde_json::Map<String, serde_json::Value> = serde_json::from_str(text).ok()?;
    let member = |(key, value)| match value {
        serde_json::Value::String(text) => Member { key, value: Some(text) },
        serde_json::Value::Null => Member { key, value: None },
        serde_json::Value::Bool(_) => Member { key, value: None },
        serde_json::Value::Number(_) => Member { key, value: None },
        serde_json::Value::Array(_) => Member { key, value: None },
        serde_json::Value::Object(_) => Member { key, value: None },
    };
    Some(object.into_iter().map(member).collect())
}

/// Calls `serde_json::to_string` on a `serde_json::Map` that holds `entries`
/// in their order, each value as a JSON string.
///
/// Trusted: the result is what `json_text` names; `serde_json` writes a map
/// of strings without error; and it reads what it has written back as the
/// same members. No key may occur twice: a map holds each key once.
#[verifier::external_body]
pub(crate) fn write_object(entries: &Vec<Entry>) -> (text: Option<String>)
    requires
        distinct_keys(entries_view(entries@)),
    ensures
        text is Some,
        text.unwrap()@ == json_text(entries_view(entries@)),
        json_members(text.unwrap()@) == Some(as_members(entries_view(entries@))),
{
    let object: serde_json::Map<String, serde_json::Value> = entries.iter().map(
        |e| (e.key.clone(), serde_json::Value::String(e.value.clone())),
    ).collect();
    serde_json::to_string(&object).ok()
}

} // verus!
