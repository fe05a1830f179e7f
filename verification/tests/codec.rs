use signaling::error::{Error, FieldName, ParseFailure};
use signaling::json::{Entry, Member};
use signaling::signal::deserialize::{
    find, find_required, strings_of, AssignedNameVisitor, IceCandidateVisitor,
    SessionDescriptionVisitor, SignalVisitor,
};
use signaling::signal::{IceCandidate, SessionDescriptionMessage, Signal};

fn offer(name: &str, target: &str, sdp: &str) -> Signal {
    Signal::Offer(SessionDescriptionMessage {
        target: target.to_owned(),
        name: name.to_owned(),
        sdp: sdp.to_owned(),
    })
}

fn answer(name: &str, target: &str, sdp: &str) -> Signal {
    Signal::Answer(SessionDescriptionMessage {
        target: target.to_owned(),
        name: name.to_owned(),
        sdp: sdp.to_owned(),
    })
}

fn candidate(target: &str, candidate: &str) -> Signal {
    Signal::NewIceCandidate(IceCandidate {
        target: target.to_owned(),
        candidate: candidate.to_owned(),
    })
}

fn entry(key: &str, value: &str) -> Entry {
    Entry { key: key.to_owned(), value: value.to_owned() }
}

fn parse_error(failure: ParseFailure) -> Result<Signal, Error> {
    Err(Error::ParseError(failure))
}

#[test]
fn assign_builds_the_assignment() {
    assert_eq!(Signal::assign("A".to_owned()), Signal::Assign("A".to_owned()));
}

#[test]
fn target_of_each_kind() {
    assert_eq!(offer("a", "b", "s").target(), Some(&"b".to_owned()));
    assert_eq!(answer("a", "c", "s").target(), Some(&"c".to_owned()));
    assert_eq!(candidate("d", "x").target(), Some(&"d".to_owned()));
    assert_eq!(Signal::assign("A".to_owned()).target(), None);
}

#[test]
fn field_names_on_the_wire() {
    assert_eq!(FieldName::Type.as_str(), "type");
    assert_eq!(FieldName::Name.as_str(), "name");
    assert_eq!(FieldName::Target.as_str(), "target");
    assert_eq!(FieldName::Sdp.as_str(), "sdp");
    assert_eq!(FieldName::Candidate.as_str(), "candidate");
}

#[test]
fn serialize_lists_type_first() {
    assert_eq!(
        offer("caller", "callee", "dummy sdp").serialize(),
        vec![
            entry("type", "offer"),
            entry("name", "caller"),
            entry("target", "callee"),
            entry("sdp", "dummy sdp"),
        ]
    );
    assert_eq!(
        answer("callee", "caller", "s2").serialize(),
        vec![
            entry("type", "answer"),
            entry("name", "callee"),
            entry("target", "caller"),
            entry("sdp", "s2"),
        ]
    );
    assert_eq!(
        candidate("callee", "c1").serialize(),
        vec![entry("type", "new_ice_candidate"), entry("target", "callee"), entry("candidate", "c1")]
    );
    assert_eq!(
        Signal::assign("A".to_owned()).serialize(),
        vec![entry("type", "assign"), entry("name", "A")]
    );
}

#[test]
fn to_string_writes_the_object() {
    assert_eq!(
        offer("caller", "callee", "dummy sdp").to_string(),
        r#"{"type":"offer","name":"caller","target":"callee","sdp":"dummy sdp"}"#
    );
    assert_eq!(
        answer("B", "A", "dummy2").to_string(),
        r#"{"type":"answer","name":"B","target":"A","sdp":"dummy2"}"#
    );
    assert_eq!(
        candidate("B", "candidate:1 1 udp").to_string(),
        r#"{"type":"new_ice_candidate","target":"B","candidate":"candidate:1 1 udp"}"#
    );
    assert_eq!(Signal::assign("A".to_owned()).to_string(), r#"{"type":"assign","name":"A"}"#);
}

#[test]
fn to_string_escapes_text() {
    assert_eq!(
        candidate("b", "say \"hi\"\r\n\\").to_string(),
        r#"{"type":"new_ice_candidate","target":"b","candidate":"say \"hi\"\r\n\\"}"#
    );
}

#[test]
fn deserialize_reads_each_kind() {
    assert_eq!(
        Signal::deserialize(r#"{"type":"offer","name":"A","target":"B","sdp":"dummy"}"#),
        Ok(offer("A", "B", "dummy"))
    );
    assert_eq!(
        Signal::deserialize(r#"{"type":"answer","name":"B","target":"A","sdp":"dummy2"}"#),
        Ok(answer("B", "A", "dummy2"))
    );
    assert_eq!(
        Signal::deserialize(r#"{"type":"new_ice_candidate","target":"B","candidate":"c"}"#),
        Ok(candidate("B", "c"))
    );
}

#[test]
fn deserialize_ignores_order_and_extra_members() {
    assert_eq!(
        Signal::deserialize(
            r#" { "sdp" : "s", "seq": 5, "target":"B", "note": null, "type":"offer", "name":"A", "more": {"x": [1]} } "#
        ),
        Ok(offer("A", "B", "s"))
    );
}

#[test]
fn deserialize_unescapes_text() {
    assert_eq!(
        Signal::deserialize(r#"{"type":"new_ice_candidate","target":"b","candidate":"a\n\"b\"é"}"#),
        Ok(candidate("b", "a\n\"b\"\u{e9}"))
    );
}

#[test]
fn deserialize_rejects_empty_texts() {
    assert_eq!(
        Signal::deserialize(r#"{"type":"offer","name":"A","target":"","sdp":"s"}"#),
        parse_error(ParseFailure::EmptyField(FieldName::Target))
    );
    assert_eq!(
        Signal::deserialize(r#"{"type":"offer","name":"","target":"","sdp":""}"#),
        parse_error(ParseFailure::EmptyField(FieldName::Name))
    );
    assert_eq!(
        Signal::deserialize(r#"{"type":"answer","name":"A","target":"B","sdp":""}"#),
        parse_error(ParseFailure::EmptyField(FieldName::Sdp))
    );
    assert_eq!(
        Signal::deserialize(r#"{"type":"answer","name":"","target":"B"}"#),
        parse_error(ParseFailure::EmptyField(FieldName::Name))
    );
    assert_eq!(
        Signal::deserialize(r#"{"type":"new_ice_candidate","target":"","candidate":"c"}"#),
        parse_error(ParseFailure::EmptyField(FieldName::Target))
    );
    assert_eq!(
        Signal::deserialize(r#"{"type":"new_ice_candidate","target":"B","candidate":""}"#),
        parse_error(ParseFailure::EmptyField(FieldName::Candidate))
    );
    assert_eq!(
        Signal::deserialize(r#"{"type":"assign","name":""}"#),
        parse_error(ParseFailure::EmptyField(FieldName::Name))
    );
    assert_eq!(
        Signal::deserialize(r#"{"type":"offer","name":"A","target":"B","sdp":"s","sdp":""}"#),
        parse_error(ParseFailure::EmptyField(FieldName::Sdp))
    );
}

#[test]
fn deserialize_accepts_the_shortest_texts() {
    assert_eq!(
        Signal::deserialize(r#"{"type":"offer","name":"a","target":" ","sdp":"0"}"#),
        Ok(offer("a", " ", "0"))
    );
    assert_eq!(
        Signal::deserialize(r#"{"type":"offer","name":"A","target":"B","sdp":"s","":"","x":""}"#),
        Ok(offer("A", "B", "s"))
    );
}

#[test]
fn to_string_of_an_empty_text_is_written_and_refused() {
    let cases = [
        (offer("A", "", "s"), r#"{"type":"offer","name":"A","target":"","sdp":"s"}"#, FieldName::Target),
        (offer("", "", ""), r#"{"type":"offer","name":"","target":"","sdp":""}"#, FieldName::Name),
        (answer("A", "B", ""), r#"{"type":"answer","name":"A","target":"B","sdp":""}"#, FieldName::Sdp),
        (
            candidate("B", ""),
            r#"{"type":"new_ice_candidate","target":"B","candidate":""}"#,
            FieldName::Candidate,
        ),
        (Signal::assign(String::new()), r#"{"type":"assign","name":""}"#, FieldName::Name),
    ];
    for (signal, text, field) in cases {
        assert_eq!(signal.to_string(), text);
        assert_eq!(Signal::deserialize(text), parse_error(ParseFailure::EmptyField(field)));
        assert_eq!(
            SignalVisitor.visit_map(&signal.serialize()),
            Err(ParseFailure::EmptyField(field))
        );
    }
}

#[test]
fn deserialize_takes_the_last_of_a_repeated_key() {
    assert_eq!(
        Signal::deserialize(r#"{"type":"answer","type":"offer","name":"A","target":"B","sdp":"1","sdp":"2"}"#),
        Ok(offer("A", "B", "2"))
    );
}

#[test]
fn deserialize_rejects_what_is_no_object() {
    for text in ["", "not json", "null", "5", "\"offer\"", "[]", "{", "{\"type\":\"offer\"", "{} {}", "{\"type\":\"offer\",}"] {
        assert_eq!(Signal::deserialize(text), parse_error(ParseFailure::Malformed), "{text}");
    }
}

#[test]
fn deserialize_rejects_missing_type() {
    assert_eq!(Signal::deserialize("{}"), parse_error(ParseFailure::MissingField(FieldName::Type)));
    assert_eq!(
        Signal::deserialize(r#"{"name":"A","target":"B","sdp":"s"}"#),
        parse_error(ParseFailure::MissingField(FieldName::Type))
    );
    assert_eq!(
        Signal::deserialize(r#"{"type":7,"name":"A","target":"B","sdp":"s"}"#),
        parse_error(ParseFailure::MissingField(FieldName::Type))
    );
}

#[test]
fn deserialize_rejects_unknown_type() {
    for kind in ["", "Offer", "offer ", "candidate", "new-ice-candidate", "bye"] {
        let text = format!(r#"{{"type":"{kind}","name":"A","target":"B","sdp":"s","candidate":"c"}}"#);
        assert_eq!(Signal::deserialize(&text), parse_error(ParseFailure::UnknownType), "{kind}");
    }
}

#[test]
fn deserialize_rejects_missing_members() {
    assert_eq!(
        Signal::deserialize(r#"{"type":"offer","name":"A","target":"B"}"#),
        parse_error(ParseFailure::MissingField(FieldName::Sdp))
    );
    assert_eq!(
        Signal::deserialize(r#"{"type":"offer","name":"A","sdp":"s"}"#),
        parse_error(ParseFailure::MissingField(FieldName::Target))
    );
    assert_eq!(
        Signal::deserialize(r#"{"type":"answer","target":"B","sdp":"s"}"#),
        parse_error(ParseFailure::MissingField(FieldName::Name))
    );
    assert_eq!(
        Signal::deserialize(r#"{"type":"answer"}"#),
        parse_error(ParseFailure::MissingField(FieldName::Name))
    );
    assert_eq!(
        Signal::deserialize(r#"{"type":"new_ice_candidate","candidate":"c"}"#),
        parse_error(ParseFailure::MissingField(FieldName::Target))
    );
    assert_eq!(
        Signal::deserialize(r#"{"type":"new_ice_candidate","target":"B"}"#),
        parse_error(ParseFailure::MissingField(FieldName::Candidate))
    );
}

#[test]
fn deserialize_rejects_members_that_are_no_strings() {
    assert_eq!(
        Signal::deserialize(r#"{"type":"offer","name":"A","target":"B","sdp":5}"#),
        parse_error(ParseFailure::MissingField(FieldName::Sdp))
    );
    assert_eq!(
        Signal::deserialize(r#"{"type":"offer","name":"A","target":"B","sdp":"s","sdp":null}"#),
        parse_error(ParseFailure::MissingField(FieldName::Sdp))
    );
}

#[test]
fn deserialize_rejects_assign() {
    assert_eq!(
        Signal::deserialize(r#"{"type":"assign","name":"A"}"#),
        parse_error(ParseFailure::RelayOnly)
    );
    assert_eq!(
        Signal::deserialize(r#"{"type":"assign"}"#),
        parse_error(ParseFailure::MissingField(FieldName::Name))
    );
    assert_eq!(
        Signal::deserialize(&Signal::assign("A".to_owned()).to_string()),
        parse_error(ParseFailure::RelayOnly)
    );
}

#[test]
fn round_trip_through_text() {
    let signals = [
        offer("caller", "callee", "v=0\r\no=- 46117317 2 IN IP4 127.0.0.1\r\n"),
        answer("callee", "caller", "{\"not\":\"parsed\"}"),
        candidate("callee", "candidate:842163049 1 udp 1677729535 \u{4e16}\u{754c} \t\\ \"q\""),
        offer("a", "b", "c"),
        offer("type", "name", "sdp"),
    ];
    for signal in signals {
        assert_eq!(Signal::deserialize(&signal.to_string()), Ok(signal));
    }
}

#[test]
fn round_trip_through_entries() {
    let signals = [
        offer("a", "b", "s"),
        answer("b", "a", "t"),
        candidate("b", "c"),
        Signal::assign("A".to_owned()),
    ];
    for signal in signals {
        assert_eq!(SignalVisitor.visit_map(&signal.serialize()), Ok(signal));
    }
}

#[test]
fn find_takes_the_last_entry_of_a_key() {
    let entries = vec![entry("name", "first"), entry("sdp", "s"), entry("name", "second")];
    assert_eq!(find(&entries, FieldName::Name), Ok("second".to_owned()));
    assert_eq!(find(&entries, FieldName::Sdp), Ok("s".to_owned()));
    assert_eq!(
        find(&entries, FieldName::Target),
        Err(ParseFailure::MissingField(FieldName::Target))
    );
    assert_eq!(find(&Vec::new(), FieldName::Type), Err(ParseFailure::MissingField(FieldName::Type)));
    assert_eq!(find(&vec![entry("type", "")], FieldName::Type), Ok(String::new()));
}

#[test]
fn find_required_refuses_an_empty_text() {
    let entries = vec![entry("name", "first"), entry("sdp", ""), entry("name", "second")];
    assert_eq!(find_required(&entries, FieldName::Name), Ok("second".to_owned()));
    assert_eq!(
        find_required(&entries, FieldName::Sdp),
        Err(ParseFailure::EmptyField(FieldName::Sdp))
    );
    assert_eq!(
        find_required(&entries, FieldName::Target),
        Err(ParseFailure::MissingField(FieldName::Target))
    );
    let entries = vec![entry("name", "first"), entry("name", "")];
    assert_eq!(
        find_required(&entries, FieldName::Name),
        Err(ParseFailure::EmptyField(FieldName::Name))
    );
}

#[test]
fn visitors_refuse_an_empty_text() {
    assert_eq!(
        SessionDescriptionVisitor
            .visit_map(&vec![entry("target", ""), entry("name", "A"), entry("sdp", "s")]),
        Err(ParseFailure::EmptyField(FieldName::Target))
    );
    assert_eq!(
        IceCandidateVisitor.visit_map(&vec![entry("target", "B"), entry("candidate", "")]),
        Err(ParseFailure::EmptyField(FieldName::Candidate))
    );
    assert_eq!(
        AssignedNameVisitor.visit_map(&vec![entry("name", "")]),
        Err(ParseFailure::EmptyField(FieldName::Name))
    );
    assert_eq!(
        SignalVisitor.visit_map(&vec![entry("type", ""), entry("name", "A")]),
        Err(ParseFailure::UnknownType)
    );
}

#[test]
fn strings_of_keeps_the_strings_in_order() {
    let members = vec![
        Member { key: "a".to_owned(), value: Some("1".to_owned()) },
        Member { key: "b".to_owned(), value: None },
        Member { key: "c".to_owned(), value: Some("".to_owned()) },
        Member { key: "a".to_owned(), value: None },
    ];
    assert_eq!(strings_of(&members), vec![entry("a", "1"), entry("c", "")]);
    assert_eq!(strings_of(&Vec::new()), Vec::<Entry>::new());
}

#[test]
fn signal_visitor_reads_each_kind() {
    let entries = vec![
        entry("sdp", "s"),
        entry("type", "offer"),
        entry("target", "B"),
        entry("name", "A"),
        entry("candidate", "c"),
    ];
    assert_eq!(SignalVisitor.visit_map(&entries), Ok(offer("A", "B", "s")));
    let mut entries = entries;
    entries.push(entry("type", "answer"));
    assert_eq!(SignalVisitor.visit_map(&entries), Ok(answer("A", "B", "s")));
    entries.push(entry("type", "new_ice_candidate"));
    assert_eq!(SignalVisitor.visit_map(&entries), Ok(candidate("B", "c")));
    entries.push(entry("type", "assign"));
    assert_eq!(SignalVisitor.visit_map(&entries), Ok(Signal::assign("A".to_owned())));
    entries.push(entry("type", "bye"));
    assert_eq!(SignalVisitor.visit_map(&entries), Err(ParseFailure::UnknownType));
}

#[test]
fn signal_visitor_rejects_missing_type() {
    let entries = vec![entry("name", "A"), entry("target", "B"), entry("sdp", "s")];
    assert_eq!(
        SignalVisitor.visit_map(&entries),
        Err(ParseFailure::MissingField(FieldName::Type))
    );
}

#[test]
fn session_description_visitor_names_the_missing_member() {
    let visitor = SessionDescriptionVisitor;
    let all = vec![entry("target", "B"), entry("name", "A"), entry("sdp", "s")];
    assert_eq!(
        visitor.visit_map(&all),
        Ok(SessionDescriptionMessage {
            target: "B".to_owned(),
            name: "A".to_owned(),
            sdp: "s".to_owned()
        })
    );
    assert_eq!(
        visitor.visit_map(&vec![entry("target", "B"), entry("name", "A")]),
        Err(ParseFailure::MissingField(FieldName::Sdp))
    );
    assert_eq!(
        visitor.visit_map(&vec![entry("name", "A")]),
        Err(ParseFailure::MissingField(FieldName::Target))
    );
    assert_eq!(visitor.visit_map(&Vec::new()), Err(ParseFailure::MissingField(FieldName::Name)));
}

#[test]
fn ice_candidate_visitor_names_the_missing_member() {
    let visitor = IceCandidateVisitor;
    assert_eq!(
        visitor.visit_map(&vec![entry("candidate", "c"), entry("target", "B")]),
        Ok(IceCandidate { target: "B".to_owned(), candidate: "c".to_owned() })
    );
    assert_eq!(
        visitor.visit_map(&vec![entry("target", "B")]),
        Err(ParseFailure::MissingField(FieldName::Candidate))
    );
    assert_eq!(
        visitor.visit_map(&vec![entry("candidate", "c")]),
        Err(ParseFailure::MissingField(FieldName::Target))
    );
}

#[test]
fn assigned_name_visitor_reads_the_name() {
    let visitor = AssignedNameVisitor;
    assert_eq!(
        visitor.visit_map(&vec![entry("type", "assign"), entry("name", "A")]),
        Ok("A".to_owned())
    );
    assert_eq!(
        visitor.visit_map(&vec![entry("type", "assign")]),
        Err(ParseFailure::MissingField(FieldName::Name))
    );
}
