use rc_stickynote::client::{
    display_hello, status_update_hello, ClientEvent, DisplayData, DisplayerClient, HubLink,
    HUB_RETRY_MS, REDRAW_MS,
};
use rc_stickynote::protocol::{ClientHelloMessage, DisplayMessage};
use rc_stickynote::timestamp::Timestamp;

const T0: Timestamp = Timestamp { secs: 100, nanos: 0 };

#[test]
fn client_starts_connecting_and_draws() {
    let mut c = DisplayerClient::new(T0, 1_000);
    assert_eq!(c.link, HubLink::Connecting);
    assert_eq!(c.data.person_is, "[connecting to hub...]");
    assert!(c.step(ClientEvent::Connected, 1_100).is_none());
    assert_eq!(c.link, HubLink::Open);
    let d = c.step(ClientEvent::Wakeup, 1_200).expect("initial redraw is pending");
    assert_eq!(d.person_is, "[connecting to hub...]");
    assert!(c.step(ClientEvent::Wakeup, 1_300).is_none());
}

#[test]
fn client_follows_hub_snapshots() {
    let mut c = DisplayerClient::new(T0, 0);
    c.step(ClientEvent::Connected, 0);
    let m = DisplayMessage {
        person_is: "in the lab".to_owned(),
        person_is_timestamp: Timestamp { secs: 7, nanos: 0 },
    };
    let d = c.step(ClientEvent::Message(m), 10).expect("a snapshot triggers a redraw");
    assert_eq!(d.person_is, "in the lab");
    assert_eq!(d.person_is_timestamp, Timestamp { secs: 7, nanos: 0 });
    assert_eq!(c.last_hub_update, 10);
}

#[test]
fn client_retries_after_delay() {
    let mut c = DisplayerClient::new(T0, 0);
    c.step(ClientEvent::Connected, 0);
    let d = c.step(ClientEvent::StreamEnded, 5_000).unwrap();
    assert_eq!(d.person_is, "[cannot connect to hub!]");
    assert!(c.is_failed());
    c.step(ClientEvent::Wakeup, 5_000 + HUB_RETRY_MS);
    assert!(c.is_failed());
    c.step(ClientEvent::Wakeup, 5_001 + HUB_RETRY_MS);
    assert_eq!(c.link, HubLink::Connecting);
    assert_eq!(c.data.person_is, "[cannot connect to hub!]");
}

#[test]
fn client_redraws_periodically() {
    let mut c = DisplayerClient::new(T0, 0);
    c.step(ClientEvent::Connected, 0);
    assert!(c.step(ClientEvent::Wakeup, 0).is_some());
    assert!(c.step(ClientEvent::Wakeup, REDRAW_MS).is_none());
    assert!(c.step(ClientEvent::Wakeup, REDRAW_MS + 1).is_some());
    assert_eq!(c.last_redraw, REDRAW_MS + 1);
}

#[test]
fn connect_failure_marks_failed() {
    let mut c = DisplayerClient::new(T0, 0);
    let d = c.step(ClientEvent::ConnectFailed, 50).unwrap();
    assert_eq!(d.person_is, "[cannot connect to hub!]");
    assert_eq!(d.person_is_timestamp, T0);
    assert_eq!(c.link, HubLink::Failed);
}

#[test]
fn display_data_updates() {
    let mut d = DisplayData::new(T0);
    d.update_from_message(DisplayMessage {
        person_is: "home".to_owned(),
        person_is_timestamp: Timestamp { secs: 1, nanos: 2 },
    });
    assert_eq!(d.person_is, "home");
    d.update_for_no_connection();
    assert_eq!(d.person_is, "[cannot connect to hub!]");
    assert_eq!(d.person_is_timestamp, Timestamp { secs: 1, nanos: 2 });
}

#[test]
fn status_update_hello_checks_length() {
    match status_update_hello("in the lab".to_owned(), T0) {
        Some(ClientHelloMessage::PersonIsUpdate(u)) => {
            assert_eq!(u.person_is, "in the lab");
            assert_eq!(u.timestamp, T0);
        }
        _ => panic!("expected an update hello"),
    }
    assert!(status_update_hello("aaaaaaaaaaaaaaaaaaaaaaaaa".to_owned(), T0).is_none());
    assert!(matches!(display_hello(), ClientHelloMessage::Display(_)));
}
