//! The node agent's side of the link: authenticating an inbound signed
//! request, answering the socket-upgrade handshake with a fresh signed
//! reply that echoes the request's timestamp, and reacting to the frames
//! of an established socket.

use vstd::prelude::*;

use crate::envelope::{encode, DecodeOutcome, WingsMessage};
use crate::link::{handle_frame, Frame, FrameOutcome};
use crate::sign::{
    is_nonce, signature_of, verify_verdict, AuthError, SignData, SignHeaders,
};

verus! {

/// The agent's copy of the shared secret, handed to request handlers.
pub struct WingToken(pub String);

/// A successfully authenticated inbound request: its verified timestamp,
/// kept so the upgrade reply can echo it.
pub struct Auth {
    pub timestamp: String,
}

impl Auth {
    /// Authenticates an inbound request from its three signature headers.
    /// A missing or unreadable header, or a signature that does not
    /// recompute under the shared token, is refused; no challenge applies
    /// to an initial request.
    pub fn from_headers(headers: &SignHeaders, token: &WingToken) -> (r: Result<Auth, AuthError>)
        ensures
            match (
                r,
                verify_verdict(
                    headers.timestamp_view(),
                    headers.nonce_view(),
                    headers.signature_view(),
                    token.0@,
                    None,
                ),
            ) {
                (Ok(auth), Ok(want)) => auth.timestamp@ == want,
                (Err(got), Err(want)) => got == want,
                _ => false,
            },
    {
        match SignData::validate_header_map(headers, token.0.as_str(), None) {
            Ok(timestamp) => Ok(Auth { timestamp }),
            Err(e) => Err(e),
        }
    }
}

/// The responder's reply to a verified upgrade request: the request's
/// timestamp echoed under a fresh nonce of the responder's own, signed
/// with the shared token. The initiator verifies this reply — with its own
/// nonce as the challenge — before trusting the socket.
pub fn upgrade_response_headers(auth: Auth, token: &WingToken) -> (r: (SignData, SignHeaders))
    ensures
        r.0.timestamp == auth.timestamp,
        is_nonce(r.0.nonce@),
        r.1.timestamp_view() == Some(auth.timestamp@),
        r.1.nonce_view() == Some(r.0.nonce@),
        r.1.signature_view() == Some(signature_of(token.0@, r.0.nonce@, auth.timestamp@)),
{
    let data = SignData::from_timestamp(auth.timestamp);
    let headers = data.to_header_map(token.0.as_str());
    (data, headers)
}

/// What the agent does with one socket frame.
pub enum AgentReply {
    /// Write these bytes back on the socket.
    Reply(Vec<u8>),
    /// Drop the frame; the connection stays open.
    Ignored,
    /// The peer closed: leave the read loop.
    ConnectionClosed,
}

/// The agent's decision for one frame: a decoded `Hello` is answered with
/// the encoded `World` envelope; every other payload — other known
/// messages, unknown tags, malformed bytes, uninteresting frame kinds — is
/// dropped without closing the connection; a close frame ends the loop.
pub fn agent_handle_frame(frame: &Frame) -> (r: AgentReply)
    ensures
        match handle_frame_outcome_spec(frame) {
            FrameOutcome::Message(m) => {
                if m is Hello {
                    r matches AgentReply::Reply(out) && out@ == crate::envelope::encoded(
                        WingsMessage::World,
                    )
                } else {
                    r is Ignored
                }
            },
            FrameOutcome::Ignored => r is Ignored,
            FrameOutcome::ConnectionClosed => r is ConnectionClosed,
        },
{
    match handle_frame(frame) {
        FrameOutcome::Message(m) => {
            match m {
                WingsMessage::Hello => AgentReply::Reply(encode(&WingsMessage::World)),
                WingsMessage::World => AgentReply::Ignored,
            }
        },
        FrameOutcome::Ignored => AgentReply::Ignored,
        FrameOutcome::ConnectionClosed => AgentReply::ConnectionClosed,
    }
}

/// The frame outcome the receiver logic assigns to a frame, at spec level.
pub open spec fn handle_frame_outcome_spec(frame: &Frame) -> FrameOutcome {
    match frame {
        Frame::Binary(b) => match crate::envelope::decode_spec(b@) {
            DecodeOutcome::Known(m) => FrameOutcome::Message(m),
            DecodeOutcome::Unknown => FrameOutcome::Ignored,
            DecodeOutcome::Malformed => FrameOutcome::Ignored,
        },
        Frame::Close => FrameOutcome::ConnectionClosed,
        Frame::Other => FrameOutcome::Ignored,
    }
}

} // verus!
