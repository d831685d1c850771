use chakra::address::Address;
use chakra::event::{Action, Event, LocalInput, NetworkEvent, Warning};
use chakra::flood::FloodRegistry;
use chakra::identity::PeerIdentity;
use chakra::message::{ChatMessage, Topic};
use chakra::session::{Session, StartupError, CHAT_TOPIC};

fn peer(last: u8) -> PeerIdentity {
    PeerIdentity::from_bytes(vec![0, 4, 1, 2, 3, last]).unwrap()
}

fn bytes_of(peers: &Vec<PeerIdentity>) -> Vec<Vec<u8>> {
    peers.iter().map(|peer| peer.to_bytes()).collect()
}

fn fresh_session() -> Session {
    match Session::start(peer(0), Topic::new(CHAT_TOPIC), FloodRegistry::new()) {
        Ok(session) => session,
        Err(_) => panic!("a fresh registry rejected the subscription"),
    }
}

fn established_session() -> Session {
    let mut session = fresh_session();
    let action = session.step(Event::Network(NetworkEvent::PeerResponsive(peer(1))));
    assert!(matches!(action, Action::Connected(_)));
    session
}

fn line(text: &str) -> Event {
    Event::Local(LocalInput::Line(text.to_string()))
}

#[test]
fn session_starts_unestablished_with_an_empty_view() {
    let session = fresh_session();
    assert!(!session.is_established());
    assert!(session.peers().is_empty());
    assert_eq!(session.topic().name(), "chakra-chat");
    assert_eq!(session.local_peer().to_bytes(), vec![0, 4, 1, 2, 3, 0]);
}

#[test]
fn session_cannot_start_on_a_topic_that_is_already_subscribed() {
    let mut registry = FloodRegistry::new();
    assert!(registry.subscribe(Topic::new(CHAT_TOPIC)));
    match Session::start(peer(0), Topic::new(CHAT_TOPIC), registry) {
        Err(error) => assert_eq!(error, StartupError::SubscriptionRejected),
        Ok(_) => panic!("the second subscription was accepted"),
    }
}

#[test]
fn session_starts_beside_other_subscriptions() {
    let mut registry = FloodRegistry::new();
    assert!(registry.subscribe(Topic::new("news")));
    registry.add_peer_to_view(&Topic::new(CHAT_TOPIC), peer(5));
    match Session::start(peer(0), Topic::new(CHAT_TOPIC), registry) {
        Ok(session) => {
            assert!(!session.is_established());
            assert_eq!(bytes_of(&session.peers()), vec![vec![0, 4, 1, 2, 3, 5]]);
        }
        Err(_) => panic!("the subscription was rejected"),
    }
}

#[test]
fn valid_address_is_dialed_and_nothing_is_established() {
    let mut session = fresh_session();
    match session.step(line("/ip4/127.0.0.1/tcp/4001")) {
        Action::Dial(address) => {
            assert_eq!(address.to_bytes(), vec![4, 127, 0, 0, 1, 6, 0x0f, 0xa1])
        }
        _ => panic!("the address was not dialed"),
    }
    assert!(!session.is_established());
    assert!(session.peers().is_empty());
    match session.step(line("/ip4/10.0.0.2/tcp/80")) {
        Action::Dial(address) => assert_eq!(address.to_bytes(), vec![4, 10, 0, 0, 2, 6, 0, 80]),
        _ => panic!("the second address was not dialed"),
    }
    assert!(!session.is_established());
}

#[test]
fn text_that_is_no_address_is_warned_about_and_the_session_goes_on() {
    let mut session = fresh_session();
    let action = session.step(line("hello world"));
    assert!(matches!(action, Action::Warn(Warning::NotAnAddress)));
    assert!(!action.ends_session());
    assert!(!action.shows_prompt());
    assert!(!session.is_established());
    let action = session.step(line("/ip4/127.0.0.1/tcp/not-a-port"));
    assert!(matches!(action, Action::Warn(Warning::NotAnAddress)));
    match session.step(line("/ip4/127.0.0.1/tcp/4001")) {
        Action::Dial(_) => {}
        _ => panic!("the session did not go on"),
    }
}

#[test]
fn empty_line_is_the_empty_address() {
    let session = fresh_session();
    match session.on_line("") {
        Action::Dial(address) => assert!(address.to_bytes().is_empty()),
        _ => panic!("the empty address was not dialed"),
    }
}

#[test]
fn line_is_published_once_when_established() {
    let mut session = established_session();
    let action = session.step(line("hi there"));
    assert!(action.shows_prompt());
    match action {
        Action::Publish(publication) => {
            assert_eq!(publication.topic.name(), "chakra-chat");
            assert_eq!(publication.payload, b"hi there".to_vec());
            assert_eq!(bytes_of(&publication.recipients), vec![vec![0, 4, 1, 2, 3, 1]]);
        }
        _ => panic!("the line was not published"),
    }
    assert!(session.is_established());
}

#[test]
fn address_is_chat_text_when_established() {
    let mut session = established_session();
    match session.step(line("/ip4/127.0.0.1/tcp/4001")) {
        Action::Publish(publication) => {
            assert_eq!(publication.payload, b"/ip4/127.0.0.1/tcp/4001".to_vec())
        }
        _ => panic!("the line was not published"),
    }
    match session.step(line("")) {
        Action::Publish(publication) => assert!(publication.payload.is_empty()),
        _ => panic!("the empty line was not published"),
    }
}

#[test]
fn parsed_line_is_handled_as_the_parse_result_says() {
    let session = fresh_session();
    let address = Address::from_bytes(vec![4, 8, 8, 8, 8]);
    match session.on_parsed_line("anything", Some(address)) {
        Action::Dial(address) => assert_eq!(address.to_bytes(), vec![4, 8, 8, 8, 8]),
        _ => panic!("the address was not dialed"),
    }
    assert!(matches!(
        session.on_parsed_line("/ip4/127.0.0.1/tcp/4001", None),
        Action::Warn(Warning::NotAnAddress)
    ));
    let session = established_session();
    match session.on_parsed_line("text", Some(Address::from_bytes(vec![4, 8, 8, 8, 8]))) {
        Action::Publish(publication) => assert_eq!(publication.payload, b"text".to_vec()),
        _ => panic!("the line was not published"),
    }
}

#[test]
fn established_flag_never_falls_back() {
    let mut session = established_session();
    let events = vec![
        line("hello"),
        Event::Local(LocalInput::ReadFailed),
        Event::Network(NetworkEvent::NewListenAddr(Address::from_bytes(vec![4, 127, 0, 0, 1]))),
        Event::Network(NetworkEvent::PeerResponsive(peer(2))),
        Event::Network(NetworkEvent::PeerResponsive(peer(1))),
        Event::Network(NetworkEvent::Subscribed { peer: peer(3), topic: Topic::new(CHAT_TOPIC) }),
        Event::Network(NetworkEvent::MessageReceived { source: peer(3), payload: vec![0xff] }),
        Event::Network(NetworkEvent::DialFailed),
        Event::Network(NetworkEvent::Other),
        Event::Local(LocalInput::Closed),
        line("/ip4/127.0.0.1/tcp/4001"),
    ];
    for event in events {
        session.step(event);
        assert!(session.is_established());
    }
}

#[test]
fn only_an_answered_probe_establishes() {
    let mut session = fresh_session();
    let events = vec![
        line("hello"),
        line("/ip4/127.0.0.1/tcp/4001"),
        Event::Local(LocalInput::ReadFailed),
        Event::Network(NetworkEvent::NewListenAddr(Address::from_bytes(vec![4, 127, 0, 0, 1]))),
        Event::Network(NetworkEvent::Subscribed { peer: peer(3), topic: Topic::new(CHAT_TOPIC) }),
        Event::Network(NetworkEvent::MessageReceived { source: peer(3), payload: vec![b'x'] }),
        Event::Network(NetworkEvent::DialFailed),
        Event::Network(NetworkEvent::Other),
        Event::Local(LocalInput::Closed),
    ];
    for event in events {
        session.step(event);
        assert!(!session.is_established());
    }
    session.step(Event::Network(NetworkEvent::PeerResponsive(peer(4))));
    assert!(session.is_established());
}

#[test]
fn received_message_is_rendered_once_with_its_source() {
    let mut registry = FloodRegistry::new();
    assert!(registry.subscribe(Topic::new("chat")));
    let message = ChatMessage::new(Topic::new("chat"), peer(4), b"hello".to_vec());
    let event = match registry.receive(message) {
        Some(event) => event,
        None => panic!("the message was not delivered"),
    };
    let mut session = match Session::start(peer(0), Topic::new("chat"), FloodRegistry::new()) {
        Ok(session) => session,
        Err(_) => panic!("the subscription was rejected"),
    };
    let action = session.step(Event::Network(event));
    assert!(action.shows_prompt());
    match action {
        Action::Render(line) => {
            assert_eq!(line, "\r\x1b[1m\x1b[38;5;5m[1TCcz3d]:\x1b[39m\x1b[m hello")
        }
        _ => panic!("the message was not rendered"),
    }
    let message = ChatMessage::new(Topic::new("chat"), peer(4), b"hello".to_vec());
    match session.deliver(message) {
        Action::Render(line) => {
            assert_eq!(line, "\r\x1b[1m\x1b[38;5;5m[1TCcz3d]:\x1b[39m\x1b[m hello")
        }
        _ => panic!("the message was not rendered"),
    }
}

#[test]
fn message_on_a_topic_without_subscription_is_not_rendered() {
    let session = fresh_session();
    let message = ChatMessage::new(Topic::new("news"), peer(4), b"hello".to_vec());
    assert!(matches!(session.deliver(message), Action::Nothing));
}

#[test]
fn payload_that_is_not_text_is_rendered_as_a_placeholder() {
    let mut session = fresh_session();
    let event = NetworkEvent::MessageReceived { source: peer(4), payload: vec![0xff, 0xfe, 0x68] };
    match session.step(Event::Network(event)) {
        Action::Render(line) => {
            assert_eq!(
                line,
                "\r\x1b[1m\x1b[38;5;5m[1TCcz3d]:\x1b[39m\x1b[m <message is not valid text>"
            );
            assert!(!line.contains('\u{fffd}'));
            assert!(!line.contains('h'));
        }
        _ => panic!("the message was not rendered"),
    }
}

#[test]
fn first_responsive_peer_establishes_and_the_second_changes_nothing() {
    let mut session = fresh_session();
    match session.step(Event::Network(NetworkEvent::PeerResponsive(peer(1)))) {
        Action::Connected(connected) => assert_eq!(connected.to_bytes(), vec![0, 4, 1, 2, 3, 1]),
        _ => panic!("the first probe did not connect"),
    }
    assert!(session.is_established());
    assert_eq!(bytes_of(&session.peers()), vec![vec![0, 4, 1, 2, 3, 1]]);
    let action = session.step(Event::Network(NetworkEvent::PeerResponsive(peer(2))));
    assert!(matches!(action, Action::Nothing));
    assert!(session.is_established());
    assert_eq!(bytes_of(&session.peers()), vec![vec![0, 4, 1, 2, 3, 1]]);
}

#[test]
fn second_peer_joins_the_view_when_it_subscribes() {
    let mut session = established_session();
    session.step(Event::Network(NetworkEvent::PeerResponsive(peer(2))));
    let joined = NetworkEvent::Subscribed { peer: peer(2), topic: Topic::new(CHAT_TOPIC) };
    let action = session.step(Event::Network(joined));
    assert!(action.shows_prompt());
    match action {
        Action::PeerJoined(joined) => assert_eq!(joined.to_bytes(), vec![0, 4, 1, 2, 3, 2]),
        _ => panic!("the subscription was not reported"),
    }
    assert_eq!(
        bytes_of(&session.peers()),
        vec![vec![0, 4, 1, 2, 3, 1], vec![0, 4, 1, 2, 3, 2]]
    );
    match session.step(line("to both")) {
        Action::Publish(publication) => assert_eq!(
            bytes_of(&publication.recipients),
            vec![vec![0, 4, 1, 2, 3, 1], vec![0, 4, 1, 2, 3, 2]]
        ),
        _ => panic!("the line was not published"),
    }
}

#[test]
fn subscriber_joins_before_anything_is_established() {
    let mut session = fresh_session();
    let joined = NetworkEvent::Subscribed { peer: peer(2), topic: Topic::new(CHAT_TOPIC) };
    assert!(matches!(session.step(Event::Network(joined)), Action::PeerJoined(_)));
    assert!(!session.is_established());
    assert_eq!(bytes_of(&session.peers()), vec![vec![0, 4, 1, 2, 3, 2]]);
    let elsewhere = NetworkEvent::Subscribed { peer: peer(3), topic: Topic::new("news") };
    assert!(matches!(session.step(Event::Network(elsewhere)), Action::PeerJoined(_)));
    assert_eq!(bytes_of(&session.peers()), vec![vec![0, 4, 1, 2, 3, 2]]);
}

#[test]
fn listen_address_is_reported() {
    let mut session = fresh_session();
    let address = Address::from_bytes(vec![4, 192, 168, 1, 7, 6, 0x98, 0x58]);
    match session.step(Event::Network(NetworkEvent::NewListenAddr(address))) {
        Action::ReportAddress(address) => {
            assert_eq!(address.to_bytes(), vec![4, 192, 168, 1, 7, 6, 0x98, 0x58])
        }
        _ => panic!("the address was not reported"),
    }
}

#[test]
fn failures_are_warned_about_and_do_not_end_the_session() {
    let mut session = fresh_session();
    let action = session.step(Event::Local(LocalInput::ReadFailed));
    assert!(matches!(action, Action::Warn(Warning::ReadFailed)));
    assert!(!action.ends_session());
    let action = session.step(Event::Network(NetworkEvent::DialFailed));
    assert!(matches!(action, Action::Warn(Warning::DialFailed)));
    assert!(!action.ends_session());
    let action = session.step(Event::Network(NetworkEvent::Other));
    assert!(matches!(action, Action::Nothing));
    assert!(!action.ends_session());
}

#[test]
fn end_of_input_ends_the_session() {
    let mut session = fresh_session();
    let action = session.step(Event::Local(LocalInput::Closed));
    assert!(matches!(action, Action::Stop));
    assert!(action.ends_session());
    assert!(!action.shows_prompt());
    let mut session = established_session();
    assert!(session.step(Event::Local(LocalInput::Closed)).ends_session());
}

#[test]
fn own_prompt_is_cyan_and_names_the_node() {
    let session = fresh_session();
    assert_eq!(session.prompt(), "\x1b[1m\x1b[38;5;6m[1TCcz3Z]:\x1b[39m\x1b[m ");
}

#[test]
fn message_is_shown_when_any_of_its_topics_is_subscribed() {
    let session = fresh_session();
    let topics = vec![Topic::new("news"), Topic::new(CHAT_TOPIC)];
    match session.deliver_on(&topics, peer(4), b"hello".to_vec()) {
        Action::Render(line) => {
            assert_eq!(line, "\r\x1b[1m\x1b[38;5;5m[1TCcz3d]:\x1b[39m\x1b[m hello")
        }
        _ => panic!("the message was not rendered"),
    }
    let topics = vec![Topic::new(CHAT_TOPIC)];
    assert!(matches!(session.deliver_on(&topics, peer(4), b"hello".to_vec()), Action::Render(_)));
}

#[test]
fn message_is_dropped_when_none_of_its_topics_is_subscribed() {
    let session = fresh_session();
    let topics = vec![Topic::new("news"), Topic::new("sports")];
    assert!(matches!(session.deliver_on(&topics, peer(4), b"hello".to_vec()), Action::Nothing));
    assert!(matches!(session.deliver_on(&vec![], peer(4), b"hello".to_vec()), Action::Nothing));
}
