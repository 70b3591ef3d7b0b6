use rc_stickynote::connection::{ConnectionAction, ConnectionError, ConnectionEvent, HubConnection};
use rc_stickynote::listener::{Listener, ListenerAction, ListenerEvent};
use rc_stickynote::protocol::{
    ClientHelloMessage, DisplayHelloMessage, DisplayMessage, DisplayStateMutation,
    PersonIsUpdateHelloMessage,
};
use rc_stickynote::timestamp::Timestamp;

fn status(text: &str, secs: i64) -> DisplayMessage {
    DisplayMessage {
        person_is: text.to_owned(),
        person_is_timestamp: Timestamp { secs, nanos: 0 },
    }
}

fn update_hello(text: &str, secs: i64) -> ConnectionEvent {
    ConnectionEvent::Hello(ClientHelloMessage::PersonIsUpdate(PersonIsUpdateHelloMessage {
        person_is: text.to_owned(),
        timestamp: Timestamp { secs, nanos: 0 },
    }))
}

fn display_hello() -> ConnectionEvent {
    ConnectionEvent::Hello(ClientHelloMessage::Display(DisplayHelloMessage {}))
}

fn streaming(seed: DisplayMessage) -> HubConnection {
    let (c, a) = HubConnection::new(seed).step(display_hello());
    assert!(matches!(a, ConnectionAction::SubscribeAndSend(_)));
    c
}

fn sent(a: &ConnectionAction) -> (String, Timestamp) {
    match a {
        ConnectionAction::Send(m) => (m.person_is.clone(), m.person_is_timestamp),
        _ => panic!("expected a snapshot to be sent"),
    }
}

#[test]
fn valid_update_reaches_displayer() {
    let displayer = streaming(status("whereabouts unknown", 1));
    let (updater, action) = HubConnection::new(status("whereabouts unknown", 1))
        .step(update_hello("in the lab", 1_600_000_000));
    let m = match action {
        ConnectionAction::Publish(m) => m,
        _ => panic!("expected a publish"),
    };
    assert!(!updater.is_closed());
    let (updater, action) = updater.step(ConnectionEvent::Published(true));
    assert!(matches!(action, ConnectionAction::Close));
    assert_eq!(updater.outcome(), Some(Ok(())));
    let (_, action) = displayer.step(ConnectionEvent::Update(m));
    assert_eq!(
        sent(&action),
        ("in the lab".to_owned(), Timestamp { secs: 1_600_000_000, nanos: 0 })
    );
}

#[test]
fn overlong_update_is_rejected() {
    let displayer = streaming(status("at lunch", 5));
    let (updater, action) = HubConnection::new(status("at lunch", 5))
        .step(update_hello("aaaaaaaaaaaaaaaaaaaaaaaaa", 7));
    assert!(matches!(action, ConnectionAction::Close));
    assert_eq!(updater.outcome(), Some(Err(ConnectionError::InvalidPersonIs)));
    // The displayer's state is untouched: its next heartbeat resends it.
    let (_, action) = displayer.step(ConnectionEvent::Tick);
    assert_eq!(sent(&action), ("at lunch".to_owned(), Timestamp { secs: 5, nanos: 0 }));
}

#[test]
fn displayer_first_frame_is_seed() {
    let (c, a) = HubConnection::new(status("in the lab", 9)).step(display_hello());
    match a {
        ConnectionAction::SubscribeAndSend(m) => {
            assert_eq!(m.person_is, "in the lab");
            assert_eq!(m.person_is_timestamp, Timestamp { secs: 9, nanos: 0 });
        }
        _ => panic!("expected the seed snapshot"),
    }
    assert!(!c.is_closed());
}

#[test]
fn failed_hellos_close_with_errors() {
    let cases = vec![
        (ConnectionEvent::DecodeFailed, ConnectionError::Decode),
        (ConnectionEvent::ReadFailed, ConnectionError::Read),
        (ConnectionEvent::EndOfStream, ConnectionError::DroppedBeforeHello),
    ];
    for (event, error) in cases {
        let (c, a) = HubConnection::new(status("x", 0)).step(event);
        assert!(matches!(a, ConnectionAction::Close));
        assert_eq!(c.outcome(), Some(Err(error)));
        let (c, a) = c.step(ConnectionEvent::Tick);
        assert!(matches!(a, ConnectionAction::Nothing));
        assert_eq!(c.outcome(), Some(Err(error)));
    }
}

#[test]
fn publish_without_subscribers_fails() {
    let (c, _) = HubConnection::new(status("x", 0)).step(update_hello("gone", 3));
    let (c, a) = c.step(ConnectionEvent::Published(false));
    assert!(matches!(a, ConnectionAction::Close));
    assert_eq!(c.outcome(), Some(Err(ConnectionError::NoSubscribers)));
}

#[test]
fn updater_ignores_everything_but_publish_result() {
    let (c, _) = HubConnection::new(status("x", 0)).step(update_hello("gone", 3));
    let (c, a) = c.step(ConnectionEvent::Tick);
    assert!(matches!(a, ConnectionAction::Nothing));
    let (c, a) = c.step(display_hello());
    assert!(matches!(a, ConnectionAction::Nothing));
    assert_eq!(c.outcome(), None);
}

#[test]
fn heartbeat_resends_unchanged_snapshot() {
    let mut c = streaming(status("in a meeting", 42));
    for _ in 0..3 {
        let (next, a) = c.step(ConnectionEvent::Tick);
        assert_eq!(sent(&a), ("in a meeting".to_owned(), Timestamp { secs: 42, nanos: 0 }));
        c = next;
    }
}

#[test]
fn lag_and_closed_subscription_keep_streaming() {
    let c = streaming(status("here", 1));
    let (c, a) = c.step(ConnectionEvent::Lagged);
    assert_eq!(sent(&a), ("here".to_owned(), Timestamp { secs: 1, nanos: 0 }));
    let (c, a) = c.step(ConnectionEvent::UpdatesClosed);
    assert_eq!(sent(&a), ("here".to_owned(), Timestamp { secs: 1, nanos: 0 }));
    assert!(!c.is_closed());
}

#[test]
fn write_failure_closes_displayer() {
    let c = streaming(status("here", 1));
    let (c, a) = c.step(ConnectionEvent::WriteFailed);
    assert!(matches!(a, ConnectionAction::Close));
    assert_eq!(c.outcome(), Some(Err(ConnectionError::Write)));
}

#[test]
fn listener_seeds_with_latest_status() {
    let mut l = Listener::new(status("whereabouts unknown", 1));
    let a = l.step(ListenerEvent::Update(DisplayStateMutation::SetPersonIs(
        PersonIsUpdateHelloMessage {
            person_is: "in the lab".to_owned(),
            timestamp: Timestamp { secs: 2, nanos: 0 },
        },
    )));
    assert!(matches!(a, ListenerAction::Nothing));
    assert_eq!(l.display_state.person_is, "in the lab");
    let conn = match l.step(ListenerEvent::Accepted) {
        ListenerAction::Spawn(c) => c,
        _ => panic!("expected a spawn"),
    };
    let (_, a) = conn.step(display_hello());
    match a {
        ConnectionAction::SubscribeAndSend(m) => {
            assert_eq!(m.person_is, "in the lab");
            assert_eq!(m.person_is_timestamp, Timestamp { secs: 2, nanos: 0 });
        }
        _ => panic!("expected the seed snapshot"),
    }
}

#[test]
fn listener_survives_accept_errors() {
    let mut l = Listener::new(status("here", 1));
    assert!(matches!(l.step(ListenerEvent::AcceptFailed), ListenerAction::Nothing));
    assert!(matches!(l.step(ListenerEvent::Lagged), ListenerAction::Nothing));
    assert!(matches!(l.step(ListenerEvent::UpdatesClosed), ListenerAction::Nothing));
    assert_eq!(l.display_state.person_is, "here");
}
