//! The stateless mutual-authentication signature protocol: a nonce,
//! timestamp and HMAC-SHA3-512 signature triple attached to requests and
//! verified on replies, with an anti-replay check on the nonce.

use vstd::prelude::*;
use vstd::string::StringExecFns;

use hmac::{KeyInit, Mac};

use crate::hexfmt::{
    dec_of_int, dec_string_of_i64, hex_encode, hex_of, is_hex_char, lemma_hex_of_shape,
};

verus! {

/// The header carrying the timestamp of a signed request or response.
pub const TIMESTAMP_HEADER: &'static str = "x-wings-timestamp";

/// The header carrying the nonce of a signed request or response.
pub const NONCE_HEADER: &'static str = "x-wings-nonce";

/// The header carrying the signature of a signed request or response.
pub const SIGNATURE_HEADER: &'static str = "x-wings-signature";

/// The digest that HMAC-SHA3-512 computes for a key and a message. It is a
/// function of the two arguments alone; its value is given only by the
/// outside implementation.
pub uninterp spec fn hmac_sha3_512_of(key: Seq<char>, data: Seq<char>) -> Seq<u8>;

/// Relies on `hmac::SimpleHmac<sha3::Sha3_512>` (HMAC-SHA3-512): the digest
/// depends on the key and message alone and is 64 bytes long (the SHA3-512
/// output size). HMAC accepts keys of any length, so construction cannot
/// fail.
#[verifier::external_body]
fn hmac_sha3_512(key: &str, data: &str) -> (r: Vec<u8>)
    ensures
        r@ == hmac_sha3_512_of(key@, data@),
        r@.len() == 64,
{
    let mut mac = <hmac::SimpleHmac<sha3::Sha3_512> as KeyInit>::new_from_slice(key.as_bytes())
        .expect("HMAC accepts keys of any length");
    mac.update(data.as_bytes());
    mac.finalize().into_bytes().to_vec()
}

/// Relies on `chrono::Utc::now`: the current time as epoch milliseconds.
/// The result depends on the clock, so nothing is promised of it.
#[verifier::external_body]
fn now_millis() -> i64 {
    chrono::Utc::now().timestamp_millis()
}

/// Relies on `rand::rng` (a seeded thread-local generator) filling a 16-byte
/// buffer. The bytes depend on the generator state, so only the length is
/// promised.
#[verifier::external_body]
fn random_bytes_16() -> (r: Vec<u8>)
    ensures
        r@.len() == 16,
{
    let mut buf = [0u8; 16];
    rand::Rng::fill_bytes(&mut rand::rng(), &mut buf);
    buf.to_vec()
}

/// The shape of a well-formed nonce: 16 random bytes, hex-encoded.
pub open spec fn is_nonce(s: Seq<char>) -> bool {
    s.len() == 32 && forall|i: int| 0 <= i < 32 ==> is_hex_char(#[trigger] s[i])
}

/// A fresh nonce: 16 random bytes, hex-encoded to 32 lowercase hex characters.
fn random_nonce() -> (r: String)
    ensures
        is_nonce(r@),
{
    let bytes = random_bytes_16();
    let r = hex_encode(bytes.as_slice());
    proof {
        lemma_hex_of_shape(bytes@);
    }
    r
}

/// The signed message: the nonce and the timestamp joined by a dot.
pub open spec fn sign_message_of(nonce: Seq<char>, timestamp: Seq<char>) -> Seq<char> {
    nonce + seq!['.'] + timestamp
}

/// The signature carried in the headers: the hex-encoded HMAC-SHA3-512 of
/// the signed message under the node's shared token.
pub open spec fn signature_of(token: Seq<char>, nonce: Seq<char>, timestamp: Seq<char>) -> Seq<
    char,
> {
    hex_of(hmac_sha3_512_of(token, sign_message_of(nonce, timestamp)))
}

/// The ephemeral context of one handshake or request: a fresh nonce and the
/// timestamp it signs. Never persisted, and its nonce must never come back
/// as the reply to the request that carried it.
pub struct SignData {
    pub timestamp: String,
    pub nonce: String,
}

/// The three authentication headers of a request or response, as plain
/// values. `None` stands for a header that is absent or unreadable.
pub struct SignHeaders {
    pub timestamp: Option<String>,
    pub nonce: Option<String>,
    pub signature: Option<String>,
}

/// Why verification rejected a header triple.
#[derive(PartialEq, Eq, Structural, Clone, Copy, Debug)]
pub enum AuthError {
    MissingTimestamp,
    MissingNonce,
    MissingSignature,
    ReplayedNonce,
    InvalidSignature,
}

impl SignHeaders {
    /// An empty header set, with no authentication headers present.
    pub fn new() -> (r: SignHeaders)
        ensures
            r.timestamp is None,
            r.nonce is None,
            r.signature is None,
    {
        SignHeaders { timestamp: None, nonce: None, signature: None }
    }

    pub open spec fn timestamp_view(&self) -> Option<Seq<char>> {
        match self.timestamp {
            Some(ref t) => Some(t@),
            None => None,
        }
    }

    pub open spec fn nonce_view(&self) -> Option<Seq<char>> {
        match self.nonce {
            Some(ref n) => Some(n@),
            None => None,
        }
    }

    pub open spec fn signature_view(&self) -> Option<Seq<char>> {
        match self.signature {
            Some(ref s) => Some(s@),
            None => None,
        }
    }
}

/// The verdict of verification on a header triple: the received timestamp on
/// success, otherwise the first failure in the order the headers are read.
/// A supplied challenge (the verifier's own previously sent nonce) rejects
/// an equal received nonce as a replay before the signature is even
/// considered.
pub open spec fn verify_verdict(
    timestamp: Option<Seq<char>>,
    nonce: Option<Seq<char>>,
    signature: Option<Seq<char>>,
    token: Seq<char>,
    challenge: Option<Seq<char>>,
) -> Result<Seq<char>, AuthError> {
    match (timestamp, nonce, signature) {
        (None, _, _) => Err(AuthError::MissingTimestamp),
        (_, None, _) => Err(AuthError::MissingNonce),
        (_, _, None) => Err(AuthError::MissingSignature),
        (Some(ts), Some(n), Some(sig)) => {
            if challenge is Some && challenge.unwrap() == n {
                Err(AuthError::ReplayedNonce)
            } else if sig != signature_of(token, n, ts) {
                Err(AuthError::InvalidSignature)
            } else {
                Ok(ts)
            }
        },
    }
}

impl SignData {
    /// A fresh signing context: a random nonce and the current time.
    pub fn new() -> (r: SignData)
        ensures
            is_nonce(r.nonce@),
            exists|n: int| r.timestamp@ == dec_of_int(n),
    {
        let millis = now_millis();
        let timestamp = dec_string_of_i64(millis);
        let nonce = random_nonce();
        SignData { timestamp, nonce }
    }

    /// A fresh nonce signing a caller-supplied timestamp: how a responder
    /// replies to a verified request, echoing its timestamp under a nonce of
    /// the responder's own.
    pub fn from_timestamp(timestamp: String) -> (r: SignData)
        ensures
            r.timestamp == timestamp,
            is_nonce(r.nonce@),
    {
        let nonce = random_nonce();
        SignData { timestamp, nonce }
    }

    /// The signature for this context under the given token.
    fn signature(&self, token: &str) -> (r: String)
        ensures
            r@ == signature_of(token@, self.nonce@, self.timestamp@),
    {
        let mut data = self.nonce.clone();
        proof {
            reveal_strlit(".");
        }
        data.append(".");
        data.append(self.timestamp.as_str());
        assert(data@ == sign_message_of(self.nonce@, self.timestamp@));
        let digest = hmac_sha3_512(token, data.as_str());
        hex_encode(digest.as_slice())
    }

    /// Writes the three authentication headers for this context, replacing
    /// any values already present.
    pub fn add_to_header_map(&self, headers: &mut SignHeaders, token: &str)
        ensures
            final(headers).timestamp_view() == Some(self.timestamp@),
            final(headers).nonce_view() == Some(self.nonce@),
            final(headers).signature_view() == Some(
                signature_of(token@, self.nonce@, self.timestamp@),
            ),
    {
        let signature = self.signature(token);
        headers.nonce = Some(self.nonce.clone());
        headers.timestamp = Some(self.timestamp.clone());
        headers.signature = Some(signature);
    }

    /// The three authentication headers for this context, in a fresh set.
    pub fn to_header_map(&self, token: &str) -> (r: SignHeaders)
        ensures
            r.timestamp_view() == Some(self.timestamp@),
            r.nonce_view() == Some(self.nonce@),
            r.signature_view() == Some(signature_of(token@, self.nonce@, self.timestamp@)),
    {
        let mut headers = SignHeaders::new();
        self.add_to_header_map(&mut headers, token);
        headers
    }

    /// Verifies a header triple under the given token, returning the
    /// received timestamp. When `initial_data` carries the verifier's own
    /// previously sent context, a received nonce equal to its nonce is
    /// rejected as a replay, whatever the signature.
    pub fn validate_header_map(headers: &SignHeaders, token: &str, initial_data: Option<
        SignData,
    >) -> (r: Result<String, AuthError>)
        ensures
            match (
                r,
                verify_verdict(
                    headers.timestamp_view(),
                    headers.nonce_view(),
                    headers.signature_view(),
                    token@,
                    match initial_data {
                        Some(ref d) => Some(d.nonce@),
                        None => None,
                    },
                ),
            ) {
                (Ok(got), Ok(want)) => got@ == want,
                (Err(got), Err(want)) => got == want,
                _ => false,
            },
    {
        let timestamp = match &headers.timestamp {
            Some(t) => t.clone(),
            None => {
                return Err(AuthError::MissingTimestamp);
            },
        };
        let nonce = match &headers.nonce {
            Some(n) => n.clone(),
            None => {
                return Err(AuthError::MissingNonce);
            },
        };
        let signature = match &headers.signature {
            Some(s) => s.clone(),
            None => {
                return Err(AuthError::MissingSignature);
            },
        };

        if let Some(data) = initial_data {
            if data.nonce == nonce {
                return Err(AuthError::ReplayedNonce);
            }
        }

        let sign_data = SignData { timestamp, nonce };
        let correct_signature = sign_data.signature(token);
        if correct_signature != signature {
            return Err(AuthError::InvalidSignature);
        }

        Ok(sign_data.timestamp)
    }
}

/// For every token, nonce and timestamp, the headers that signing produces
/// verify successfully (no challenge supplied) and return the signed
/// timestamp.
pub proof fn lemma_sign_then_verify(token: Seq<char>, nonce: Seq<char>, timestamp: Seq<char>)
    ensures
        verify_verdict(
            Some(timestamp),
            Some(nonce),
            Some(signature_of(token, nonce, timestamp)),
            token,
            None,
        ) == Ok::<Seq<char>, AuthError>(timestamp),
{
}

/// Verification succeeds only when the received signature is exactly the
/// digest of the received nonce and timestamp under the verifier's token: a
/// signature altered to any other value is rejected.
pub proof fn lemma_verdict_pins_signature(
    timestamp: Seq<char>,
    nonce: Seq<char>,
    signature: Seq<char>,
    token: Seq<char>,
    challenge: Option<Seq<char>>,
)
    ensures
        verify_verdict(Some(timestamp), Some(nonce), Some(signature), token, challenge)
            is Ok ==> signature == signature_of(token, nonce, timestamp),
{
}

/// Replay: a received nonce equal to the verifier's own previously issued
/// nonce is always rejected, whatever the signature — even one that
/// recomputes correctly over the echoed nonce.
pub proof fn lemma_replay_rejected(
    timestamp: Seq<char>,
    nonce: Seq<char>,
    signature: Seq<char>,
    token: Seq<char>,
)
    ensures
        verify_verdict(Some(timestamp), Some(nonce), Some(signature), token, Some(nonce))
            == Err::<Seq<char>, AuthError>(AuthError::ReplayedNonce),
{
}

} // verus!
