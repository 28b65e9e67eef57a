//! The orchestrator's side of the mutual authentication: signing outbound
//! plain calls and socket upgrades with the node's shared token, and
//! verifying the reply against the request's own nonce — the same
//! signature protocol in both directions.

use vstd::prelude::*;

use crate::sign::{
    is_nonce, signature_of, verify_verdict, AuthError, SignData, SignHeaders,
};

verus! {

/// Signs outbound calls to one node agent and verifies the replies,
/// holding that node's shared token.
pub struct WingsAuth {
    pub token: String,
}

impl WingsAuth {
    pub fn new(token: String) -> (r: WingsAuth)
        ensures
            r.token == token,
    {
        WingsAuth { token }
    }

    /// Signs an outbound request or socket upgrade: a fresh context and
    /// the three headers carrying its nonce, timestamp and signature under
    /// this node's token. The context is kept as the challenge that the
    /// reply is verified against.
    pub fn sign_request(&self) -> (r: (SignData, SignHeaders))
        ensures
            is_nonce(r.0.nonce@),
            r.1.timestamp_view() == Some(r.0.timestamp@),
            r.1.nonce_view() == Some(r.0.nonce@),
            r.1.signature_view() == Some(signature_of(self.token@, r.0.nonce@, r.0.timestamp@)),
    {
        let data = SignData::new();
        let headers = data.to_header_map(self.token.as_str());
        (data, headers)
    }

    /// Verifies the reply to a signed request: the responder must present
    /// a fresh, correctly signed nonce and timestamp under the same token.
    /// The request's own nonce coming back is rejected as a replay, and
    /// only then is the socket (or response) treated as trusted.
    pub fn verify_reply(&self, headers: &SignHeaders, challenge: SignData) -> (r: Result<
        String,
        AuthError,
    >)
        ensures
            match (
                r,
                verify_verdict(
                    headers.timestamp_view(),
                    headers.nonce_view(),
                    headers.signature_view(),
                    self.token@,
                    Some(challenge.nonce@),
                ),
            ) {
                (Ok(got), Ok(want)) => got@ == want,
                (Err(got), Err(want)) => got == want,
                _ => false,
            },
    {
        SignData::validate_header_map(headers, self.token.as_str(), Some(challenge))
    }
}

} // verus!
