use node_link::agent::{agent_handle_frame, AgentReply};
use node_link::envelope::{encode, WingsMessage};
use node_link::link::Frame;

#[test]
fn hello_is_answered_with_world() {
    let frame = Frame::Binary(encode(&WingsMessage::Hello));
    match agent_handle_frame(&frame) {
        AgentReply::Reply(bytes) => assert_eq!(bytes, encode(&WingsMessage::World)),
        _ => panic!("expected a reply"),
    }
}

#[test]
fn world_and_noise_are_dropped() {
    let world = Frame::Binary(encode(&WingsMessage::World));
    assert!(matches!(agent_handle_frame(&world), AgentReply::Ignored));
    let noise = Frame::Binary(b"{\"type\":\"Later\"}".to_vec());
    assert!(matches!(agent_handle_frame(&noise), AgentReply::Ignored));
    let garbage = Frame::Binary(b"garbage".to_vec());
    assert!(matches!(agent_handle_frame(&garbage), AgentReply::Ignored));
    assert!(matches!(agent_handle_frame(&Frame::Other), AgentReply::Ignored));
}

#[test]
fn close_ends_the_read_loop() {
    assert!(matches!(
        agent_handle_frame(&Frame::Close),
        AgentReply::ConnectionClosed
    ));
}
