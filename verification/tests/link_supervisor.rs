use node_link::envelope::{encode, WingsMessage};
use node_link::link::{
    handle_frame, Frame, FrameOutcome, LinkError, LinkEvent, WingsConnection,
};

fn fresh() -> WingsConnection {
    WingsConnection::new("ws://node:8080/api".to_string(), "secret".to_string())
}

#[test]
fn send_before_any_connect_is_refused() {
    let conn = fresh();
    let got = conn.send(&WingsMessage::Hello);
    assert!(matches!(got, Err(LinkError::NotConnected)));
}

#[test]
fn successful_connect_reports_connected_and_sends() {
    let mut conn = fresh();
    let a = conn.step(&LinkEvent::Retry);
    assert!(a.dial);
    assert!(!a.notify);
    let a = conn.step(&LinkEvent::DialOk);
    assert!(a.notify);
    assert!(a.spawn_receiver);
    assert!(conn.is_connected());
    let frame = conn.send(&WingsMessage::Hello).unwrap();
    assert_eq!(frame, encode(&WingsMessage::Hello));
}

#[test]
fn three_failed_cycles_then_success_notifies_exactly_once() {
    let mut conn = fresh();
    let mut notifications: usize = 0;
    for _ in 0..3 {
        let a = conn.step(&LinkEvent::Retry);
        assert!(a.dial);
        if a.notify {
            notifications += 1;
        }
        let a = conn.step(&LinkEvent::DialErr);
        assert!(a.schedule_retry);
        if a.notify {
            notifications += 1;
        }
        assert!(!conn.is_connected());
    }
    let a = conn.step(&LinkEvent::Retry);
    if a.notify {
        notifications += 1;
    }
    let a = conn.step(&LinkEvent::DialOk);
    if a.notify {
        notifications += 1;
    }
    assert_eq!(notifications, 1);
    assert!(conn.is_connected());
}

#[test]
fn connection_loss_notifies_once_and_reconnects() {
    let mut conn = fresh();
    conn.step(&LinkEvent::Retry);
    conn.step(&LinkEvent::DialOk);
    assert!(conn.is_connected());

    // The receiver sees the stream end and signals a retry.
    let a = conn.step(&LinkEvent::StreamClosed);
    assert!(a.retry_now);
    assert!(!a.notify);

    // The retry clears the lost socket and announces the disconnection.
    let a = conn.step(&LinkEvent::Retry);
    assert!(a.notify);
    assert!(a.dial);
    assert!(!conn.is_connected());

    // Reconnection announces the new connection.
    let a = conn.step(&LinkEvent::DialOk);
    assert!(a.notify);
    assert!(conn.is_connected());
}

#[test]
fn disconnect_mid_attempt_quiesces_and_is_terminal() {
    let mut conn = fresh();
    conn.step(&LinkEvent::Retry);
    // An attempt is in flight; the supervisor is destroyed.
    let a = conn.disconnect();
    assert!(a.abort_tasks);
    assert!(!conn.is_connected());

    // The attempt's late outcome revives nothing.
    let a = conn.step(&LinkEvent::DialOk);
    assert!(!a.spawn_receiver);
    assert!(!a.notify);
    assert!(!conn.is_connected());
    let a = conn.step(&LinkEvent::Retry);
    assert!(!a.dial);
    assert!(!conn.is_connected());
    assert!(matches!(
        conn.send(&WingsMessage::Hello),
        Err(LinkError::NotConnected)
    ));
}

#[test]
fn disconnect_is_idempotent_on_the_supervisor() {
    let mut conn = fresh();
    conn.step(&LinkEvent::Retry);
    conn.step(&LinkEvent::DialOk);
    conn.disconnect();
    let a = conn.disconnect();
    assert!(!a.abort_tasks);
    assert!(!conn.is_connected());
}

#[test]
fn receiver_decisions_follow_the_frame() {
    let hello = Frame::Binary(encode(&WingsMessage::Hello));
    assert!(matches!(
        handle_frame(&hello),
        FrameOutcome::Message(WingsMessage::Hello)
    ));
    assert!(matches!(
        handle_frame(&Frame::Binary(b"nonsense".to_vec())),
        FrameOutcome::Ignored
    ));
    assert!(matches!(
        handle_frame(&Frame::Binary(b"{\"type\":\"Later\"}".to_vec())),
        FrameOutcome::Ignored
    ));
    assert!(matches!(handle_frame(&Frame::Other), FrameOutcome::Ignored));
    assert!(matches!(
        handle_frame(&Frame::Close),
        FrameOutcome::ConnectionClosed
    ));
}
