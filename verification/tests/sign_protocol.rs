use node_link::agent::{upgrade_response_headers, Auth, WingToken};
use node_link::auth::WingsAuth;
use node_link::sign::{AuthError, SignData, SignHeaders};

fn is_lower_hex(s: &str) -> bool {
    s.chars().all(|c| c.is_ascii_digit() || ('a'..='f').contains(&c))
}

fn flip_first_char(s: &str) -> String {
    let mut out = String::new();
    let first = s.chars().next().unwrap();
    out.push(if first == '0' { '1' } else { '0' });
    out.push_str(&s[1..]);
    out
}

#[test]
fn sign_produces_well_formed_headers() {
    let data = SignData::new();
    let headers = data.to_header_map("secret-token");
    let nonce = headers.nonce.clone().unwrap();
    let timestamp = headers.timestamp.clone().unwrap();
    let signature = headers.signature.clone().unwrap();
    assert_eq!(nonce.len(), 32);
    assert!(is_lower_hex(&nonce));
    assert!(timestamp.parse::<i64>().is_ok());
    // HMAC-SHA3-512 digest: 64 bytes, 128 hex characters.
    assert_eq!(signature.len(), 128);
    assert!(is_lower_hex(&signature));
}

#[test]
fn verify_of_signed_headers_succeeds() {
    let data = SignData::new();
    let headers = data.to_header_map("secret-token");
    let got = SignData::validate_header_map(&headers, "secret-token", None);
    assert_eq!(got.unwrap(), data.timestamp);
}

#[test]
fn mutated_signature_fails() {
    let data = SignData::new();
    let mut headers = data.to_header_map("secret-token");
    let sig = headers.signature.clone().unwrap();
    headers.signature = Some(flip_first_char(&sig));
    let got = SignData::validate_header_map(&headers, "secret-token", None);
    assert!(matches!(got, Err(AuthError::InvalidSignature)));
}

#[test]
fn mutated_nonce_fails() {
    let data = SignData::new();
    let mut headers = data.to_header_map("secret-token");
    let nonce = headers.nonce.clone().unwrap();
    headers.nonce = Some(flip_first_char(&nonce));
    let got = SignData::validate_header_map(&headers, "secret-token", None);
    assert!(matches!(got, Err(AuthError::InvalidSignature)));
}

#[test]
fn mutated_timestamp_fails() {
    let data = SignData::new();
    let mut headers = data.to_header_map("secret-token");
    let ts = headers.timestamp.clone().unwrap();
    headers.timestamp = Some(format!("{}9", ts));
    let got = SignData::validate_header_map(&headers, "secret-token", None);
    assert!(matches!(got, Err(AuthError::InvalidSignature)));
}

#[test]
fn wrong_token_fails() {
    let data = SignData::new();
    let headers = data.to_header_map("secret-token");
    let got = SignData::validate_header_map(&headers, "other-token", None);
    assert!(matches!(got, Err(AuthError::InvalidSignature)));
}

#[test]
fn signature_depends_on_token() {
    let data = SignData::new();
    let with_a = data.to_header_map("token-a");
    let with_b = data.to_header_map("token-b");
    assert_ne!(with_a.signature.unwrap(), with_b.signature.unwrap());
}

#[test]
fn missing_headers_are_refused_in_order() {
    let data = SignData::new();
    let headers = data.to_header_map("secret-token");

    let empty = SignHeaders::new();
    assert!(matches!(
        SignData::validate_header_map(&empty, "secret-token", None),
        Err(AuthError::MissingTimestamp)
    ));

    let mut no_nonce = data.to_header_map("secret-token");
    no_nonce.nonce = None;
    assert!(matches!(
        SignData::validate_header_map(&no_nonce, "secret-token", None),
        Err(AuthError::MissingNonce)
    ));

    let mut no_sig = data.to_header_map("secret-token");
    no_sig.signature = None;
    assert!(matches!(
        SignData::validate_header_map(&no_sig, "secret-token", None),
        Err(AuthError::MissingSignature)
    ));

    // An intact header set still verifies.
    assert!(SignData::validate_header_map(&headers, "secret-token", None).is_ok());
}

#[test]
fn replayed_nonce_fails_even_with_correct_signature() {
    // The verifier's own previously issued nonce comes back as the peer's
    // nonce, under a signature that recomputes correctly over it.
    let challenge = SignData::new();
    let echo = SignData {
        timestamp: challenge.timestamp.clone(),
        nonce: challenge.nonce.clone(),
    };
    let headers = echo.to_header_map("secret-token");
    let got = SignData::validate_header_map(&headers, "secret-token", Some(challenge));
    assert!(matches!(got, Err(AuthError::ReplayedNonce)));
}

#[test]
fn handshake_round_trip_with_fresh_responder_nonce() {
    let token = WingToken("shared".to_string());
    let initiator = WingsAuth::new("shared".to_string());

    // Initiator signs the upgrade request.
    let (challenge, request_headers) = initiator.sign_request();

    // Responder authenticates it and replies, echoing the timestamp under
    // a fresh nonce of its own.
    let auth = Auth::from_headers(&request_headers, &token).unwrap();
    assert_eq!(auth.timestamp, challenge.timestamp);
    let (_responder_data, reply_headers) = upgrade_response_headers(auth, &token);

    // Initiator verifies the reply against its own nonce.
    let got = initiator.verify_reply(&reply_headers, challenge);
    assert!(got.is_ok());
}

#[test]
fn handshake_echoing_initiator_nonce_is_rejected() {
    let token = WingToken("shared".to_string());
    let initiator = WingsAuth::new("shared".to_string());

    let (challenge, request_headers) = initiator.sign_request();
    let auth = Auth::from_headers(&request_headers, &token).unwrap();

    // A misbehaving responder replies with the initiator's own nonce; the
    // signature recomputes correctly over that nonce.
    let echo = SignData {
        timestamp: auth.timestamp.clone(),
        nonce: challenge.nonce.clone(),
    };
    let reply_headers = echo.to_header_map("shared");

    let got = initiator.verify_reply(&reply_headers, challenge);
    assert!(matches!(got, Err(AuthError::ReplayedNonce)));
}

#[test]
fn from_timestamp_keeps_timestamp_and_draws_fresh_nonce() {
    let data = SignData::from_timestamp("12345".to_string());
    assert_eq!(data.timestamp, "12345");
    assert_eq!(data.nonce.len(), 32);
    assert!(is_lower_hex(&data.nonce));
    let other = SignData::from_timestamp("12345".to_string());
    assert_ne!(data.nonce, other.nonce);
}

#[test]
fn add_to_header_map_overwrites_existing_values() {
    let stale = SignData::new();
    let mut headers = stale.to_header_map("secret-token");
    let fresh = SignData::new();
    fresh.add_to_header_map(&mut headers, "secret-token");
    assert_eq!(headers.nonce.unwrap(), fresh.nonce);
    assert_eq!(headers.timestamp.unwrap(), fresh.timestamp);
}
