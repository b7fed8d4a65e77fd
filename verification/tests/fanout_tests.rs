use kiosk_hub::fanout::BroadcastHub;
use kiosk_hub::protocol::{Payload, WebSocketMessage};

fn msg(tag: &str) -> WebSocketMessage {
    WebSocketMessage { t: Some(tag.to_string()), op: 0, d: Some(Payload::Flag(true)) }
}

#[test]
fn published_after_subscribe_is_delivered() {
    let mut hub = BroadcastHub::new(10);
    let mut sub = hub.subscribe();
    hub.publish(msg("first"));
    let got = hub.recv(&mut sub).expect("pending message");
    assert_eq!(got.t.as_deref(), Some("first"));
    assert!(hub.recv(&mut sub).is_none());
}

#[test]
fn published_before_subscribe_is_never_delivered() {
    let mut hub = BroadcastHub::new(10);
    hub.publish(msg("early"));
    let mut sub = hub.subscribe();
    assert!(hub.recv(&mut sub).is_none());
    hub.publish(msg("late"));
    let got = hub.recv(&mut sub).expect("pending message");
    assert_eq!(got.t.as_deref(), Some("late"));
}

#[test]
fn every_subscriber_sees_a_published_message() {
    let mut hub = BroadcastHub::new(10);
    let mut x = hub.subscribe();
    let mut y = hub.subscribe();
    hub.publish(msg("shared"));
    assert_eq!(hub.recv(&mut x).unwrap().t.as_deref(), Some("shared"));
    assert_eq!(hub.recv(&mut y).unwrap().t.as_deref(), Some("shared"));
}

#[test]
fn slow_subscriber_drops_oldest_messages() {
    let mut hub = BroadcastHub::new(2);
    let mut sub = hub.subscribe();
    hub.publish(msg("a"));
    hub.publish(msg("b"));
    hub.publish(msg("c"));
    // Capacity two: "a" was silently dropped, delivery resumes at "b".
    assert_eq!(hub.recv(&mut sub).unwrap().t.as_deref(), Some("b"));
    assert_eq!(hub.recv(&mut sub).unwrap().t.as_deref(), Some("c"));
    assert!(hub.recv(&mut sub).is_none());
}
