use node_link::envelope::{encode, WingsMessage};
use node_link::link::{LinkError, LinkEvent};
use node_link::registry::{endpoint_url, NodeEndpoint, Wings};

fn endpoint(id: u128, host: &str, port: i16, secure: bool) -> NodeEndpoint {
    NodeEndpoint {
        id,
        host: host.to_string(),
        port,
        secure,
        token: format!("token-{}", id),
    }
}

#[test]
fn endpoint_url_formats_scheme_host_port() {
    assert_eq!(endpoint_url("example.com", 8080, false), "ws://example.com:8080/api");
    assert_eq!(endpoint_url("example.com", 443, true), "wss://example.com:443/api");
    assert_eq!(endpoint_url("h", -1, true), "wss://h:-1/api");
}

#[test]
fn bootstrap_creates_one_supervisor_per_node() {
    let endpoints = vec![
        endpoint(1, "a.example", 80, false),
        endpoint(2, "b.example", 443, true),
    ];
    let wings = Wings::new(&endpoints);
    assert!(!wings.is_connected(1));
    assert!(!wings.is_connected(2));
    assert!(!wings.is_connected(3));
}

#[test]
fn send_before_any_successful_connect_is_refused() {
    let endpoints = vec![endpoint(7, "a.example", 80, false)];
    let wings = Wings::new(&endpoints);
    assert!(matches!(
        wings.send_to(7, &WingsMessage::Hello),
        Err(LinkError::NotConnected)
    ));
    assert!(matches!(
        wings.send_to(99, &WingsMessage::Hello),
        Err(LinkError::NotConnected)
    ));
}

#[test]
fn connect_then_events_reach_connected_and_send_works() {
    let mut wings = Wings::new(&Vec::new());
    wings.connect(5, "node.example", 8080, false, "secret").unwrap();
    assert!(!wings.is_connected(5));

    wings.step_node(5, &LinkEvent::Retry).unwrap();
    wings.step_node(5, &LinkEvent::DialOk).unwrap();
    assert!(wings.is_connected(5));

    let frame = wings.send_to(5, &WingsMessage::Hello).unwrap();
    assert_eq!(frame, encode(&WingsMessage::Hello));
}

#[test]
fn disconnect_takes_effect_immediately() {
    let mut wings = Wings::new(&Vec::new());
    wings.connect(5, "node.example", 8080, false, "secret").unwrap();
    wings.step_node(5, &LinkEvent::Retry).unwrap();
    wings.step_node(5, &LinkEvent::DialOk).unwrap();
    assert!(wings.is_connected(5));

    wings.disconnect(5).unwrap();
    assert!(!wings.is_connected(5));
    assert!(matches!(
        wings.send_to(5, &WingsMessage::Hello),
        Err(LinkError::NotConnected)
    ));
    assert!(wings.step_node(5, &LinkEvent::DialOk).is_none());
}

#[test]
fn two_consecutive_disconnects_both_succeed() {
    let mut wings = Wings::new(&Vec::new());
    wings.connect(9, "node.example", 80, false, "secret").unwrap();
    assert!(wings.disconnect(9).is_ok());
    assert!(wings.disconnect(9).is_ok());
    // An id that never existed also disconnects without error.
    assert!(wings.disconnect(1234).is_ok());
}

#[test]
fn connect_replaces_and_tears_down_the_prior_supervisor() {
    let mut wings = Wings::new(&Vec::new());
    wings.connect(5, "old.example", 80, false, "secret").unwrap();
    wings.step_node(5, &LinkEvent::Retry).unwrap();
    wings.step_node(5, &LinkEvent::DialOk).unwrap();
    assert!(wings.is_connected(5));

    // Re-configuring the node replaces its supervisor with a fresh one.
    wings.connect(5, "new.example", 443, true, "secret").unwrap();
    assert!(!wings.is_connected(5));
}

#[test]
fn per_node_operations_are_independent() {
    let mut wings = Wings::new(&Vec::new());
    wings.connect(1, "a.example", 80, false, "ta").unwrap();
    wings.connect(2, "b.example", 80, false, "tb").unwrap();
    wings.step_node(1, &LinkEvent::Retry).unwrap();
    wings.step_node(1, &LinkEvent::DialOk).unwrap();
    assert!(wings.is_connected(1));
    assert!(!wings.is_connected(2));

    wings.disconnect(2).unwrap();
    assert!(wings.is_connected(1));
}
