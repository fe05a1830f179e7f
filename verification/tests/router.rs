use signaling::error::{Error, MailboxError};
use signaling::signal::{IceCandidate, SessionDescriptionMessage, Signal};
use signaling::signal_router::{
    into_target_related_error, Dispatch, ExitMessage, JoinMessage, SignalMessage, SignalRouter,
};

fn offer(name: &str, target: &str, sdp: &str) -> Signal {
    Signal::Offer(SessionDescriptionMessage {
        target: target.to_owned(),
        name: name.to_owned(),
        sdp: sdp.to_owned(),
    })
}

#[test]
fn test_routing() {
    let mut router: SignalRouter<usize> = SignalRouter::default();
    let mut last_received_message: [Option<Signal>; 2] = [None, None];
    let caller_join = router.join(JoinMessage::new("caller".to_owned(), 0));
    let callee_join = router.join(JoinMessage::new("callee".to_owned(), 1));

    assert!(caller_join.is_ok());
    assert!(callee_join.is_ok());

    let signal_text = r#"{"type":"offer","name":"caller","target":"callee","sdp":"dummy sdp"}"#;
    let offer_signal: Signal = Signal::deserialize(signal_text).unwrap();

    let signal_routing = router.route(SignalMessage::from(offer_signal.clone()));
    assert!(signal_routing.is_ok());
    if let Ok(Dispatch::Deliver { recipient, signal }) = signal_routing {
        last_received_message[*recipient] = Some(signal);
    }

    let resolved_signal_ref = &last_received_message[1];
    assert!(resolved_signal_ref.is_some());
    assert_eq!(&offer_signal, resolved_signal_ref.as_ref().unwrap());
    assert!(last_received_message[0].is_none());
}

#[test]
fn messages_wrap_what_they_are_given() {
    assert_eq!(SignalMessage::from(offer("a", "b", "s")), SignalMessage(offer("a", "b", "s")));
    assert_eq!(ExitMessage::from("a".to_owned()), ExitMessage("a".to_owned()));
    let join = JoinMessage::new("a".to_owned(), 7u8);
    assert_eq!(join.user_name, "a");
    assert_eq!(join.signal_recipient, 7);
}

#[test]
fn target_finds_who_joined() {
    let mut router: SignalRouter<&str> = SignalRouter::default();
    assert_eq!(router.target("A"), None);
    assert_eq!(router.join(JoinMessage::new("A".to_owned(), "h1")), Ok(()));
    assert_eq!(router.target("A"), Some(&"h1"));
    assert_eq!(router.target("a"), None);
    assert_eq!(router.target(""), None);
}

#[test]
fn second_join_overwrites_the_first() {
    let mut router: SignalRouter<&str> = SignalRouter::default();
    assert_eq!(router.join(JoinMessage::new("A".to_owned(), "h1")), Ok(()));
    assert_eq!(router.join(JoinMessage::new("B".to_owned(), "hb")), Ok(()));
    assert_eq!(router.join(JoinMessage::new("A".to_owned(), "h2")), Ok(()));
    assert_eq!(router.target("A"), Some(&"h2"));
    assert_eq!(router.target("B"), Some(&"hb"));
    assert_eq!(
        router.route(SignalMessage(offer("B", "A", "s"))),
        Ok(Dispatch::Deliver { recipient: &"h2", signal: offer("B", "A", "s") })
    );
    assert_eq!(router.exit(ExitMessage("A".to_owned())), Ok(()));
    assert_eq!(router.target("A"), None);
    assert_eq!(router.target("B"), Some(&"hb"));
}

#[test]
fn route_to_a_target_that_never_joined() {
    let router: SignalRouter<u8> = SignalRouter::default();
    assert_eq!(
        router.route(SignalMessage(offer("x", "ghost", "s"))),
        Err(Error::TargetNotFound("ghost".to_owned()))
    );
}

#[test]
fn route_each_kind_by_its_target() {
    let mut router: SignalRouter<u8> = SignalRouter::default();
    assert_eq!(router.join(JoinMessage::new("A".to_owned(), 1)), Ok(()));
    assert_eq!(router.join(JoinMessage::new("B".to_owned(), 2)), Ok(()));
    let answer = Signal::Answer(SessionDescriptionMessage {
        target: "A".to_owned(),
        name: "B".to_owned(),
        sdp: "s".to_owned(),
    });
    assert_eq!(
        router.route(SignalMessage(answer.clone())),
        Ok(Dispatch::Deliver { recipient: &1, signal: answer })
    );
    let candidate =
        Signal::NewIceCandidate(IceCandidate { target: "B".to_owned(), candidate: "c".to_owned() });
    assert_eq!(
        router.route(SignalMessage(candidate.clone())),
        Ok(Dispatch::Deliver { recipient: &2, signal: candidate })
    );
    let absent =
        Signal::NewIceCandidate(IceCandidate { target: "C".to_owned(), candidate: "c".to_owned() });
    assert_eq!(router.route(SignalMessage(absent)), Err(Error::TargetNotFound("C".to_owned())));
}

#[test]
fn route_assign_does_nothing() {
    let mut router: SignalRouter<u8> = SignalRouter::default();
    assert_eq!(router.join(JoinMessage::new("A".to_owned(), 1)), Ok(()));
    assert_eq!(router.route(SignalMessage(Signal::assign("A".to_owned()))), Ok(Dispatch::Nothing));
}

#[test]
fn exit_of_a_name_that_never_joined() {
    let mut router: SignalRouter<u8> = SignalRouter::default();
    assert_eq!(router.exit(ExitMessage::from("never-joined".to_owned())), Ok(()));
    assert_eq!(router.target("never-joined"), None);
    assert_eq!(router.join(JoinMessage::new("A".to_owned(), 1)), Ok(()));
    assert_eq!(router.exit(ExitMessage::from("never-joined".to_owned())), Ok(()));
    assert_eq!(router.target("A"), Some(&1));
    assert_eq!(router.target("never-joined"), None);
}

#[test]
fn exit_twice_is_exit_once() {
    let mut router: SignalRouter<u8> = SignalRouter::default();
    assert_eq!(router.join(JoinMessage::new("A".to_owned(), 1)), Ok(()));
    assert_eq!(router.exit(ExitMessage("A".to_owned())), Ok(()));
    assert_eq!(router.exit(ExitMessage("A".to_owned())), Ok(()));
    assert_eq!(
        router.route(SignalMessage(offer("B", "A", "s"))),
        Err(Error::TargetNotFound("A".to_owned()))
    );
    assert_eq!(router.join(JoinMessage::new("A".to_owned(), 3)), Ok(()));
    assert_eq!(router.target("A"), Some(&3));
}

#[test]
fn mailbox_failures_of_a_target() {
    assert_eq!(into_target_related_error(MailboxError::Closed), Error::ConnectionClosed);
    assert_eq!(into_target_related_error(MailboxError::Timeout), Error::ConnectionTimeout);
}

#[test]
fn delivered_tells_the_sender() {
    assert_eq!(SignalRouter::<u8>::delivered(Ok(Ok(()))), Ok(()));
    assert_eq!(
        SignalRouter::<u8>::delivered(Ok(Err(Error::ConnectionClosed))),
        Err(Error::ConnectionClosed)
    );
    assert_eq!(
        SignalRouter::<u8>::delivered(Err(MailboxError::Closed)),
        Err(Error::ConnectionClosed)
    );
    assert_eq!(
        SignalRouter::<u8>::delivered(Err(MailboxError::Timeout)),
        Err(Error::ConnectionTimeout)
    );
}
