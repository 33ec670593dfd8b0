//! End-to-end tests of the handshake pipeline against independently
//! computed cryptographic values.

use scram::{ClientFirst, Error, Field, Kind, NONCE_LENGTH};

/// The random samples that make `with_rng` produce exactly `nonce`.
fn samples_for_nonce(nonce: &str) -> Vec<u8> {
    nonce
        .bytes()
        .map(|v| if v > 44 { v - 1 } else { v })
        .collect()
}

/// SaltedPassword -> ClientKey -> StoredKey -> ClientSignature -> proof,
/// computed here directly with ring, independently of the library.
fn expected_proof(password: &str, salt: &[u8], iterations: u32, auth_message: &str) -> Vec<u8> {
    let mut salted = [0u8; 32];
    ring::pbkdf2::derive(
        ring::pbkdf2::PBKDF2_HMAC_SHA256,
        std::num::NonZeroU32::new(iterations).unwrap(),
        salt,
        password.as_bytes(),
        &mut salted,
    );
    let salted_key = ring::hmac::Key::new(ring::hmac::HMAC_SHA256, &salted);
    let client_key = ring::hmac::sign(&salted_key, b"Client Key");
    let stored_key = ring::digest::digest(&ring::digest::SHA256, client_key.as_ref());
    let stored_key = ring::hmac::Key::new(ring::hmac::HMAC_SHA256, stored_key.as_ref());
    let client_signature = ring::hmac::sign(&stored_key, auth_message.as_bytes());
    client_key
        .as_ref()
        .iter()
        .zip(client_signature.as_ref())
        .map(|(k, s)| k ^ s)
        .collect()
}

/// The server signature for a transcript, computed directly with ring.
fn expected_server_signature(
    password: &str,
    salt: &[u8],
    iterations: u32,
    auth_message: &str,
) -> Vec<u8> {
    let mut salted = [0u8; 32];
    ring::pbkdf2::derive(
        ring::pbkdf2::PBKDF2_HMAC_SHA256,
        std::num::NonZeroU32::new(iterations).unwrap(),
        salt,
        password.as_bytes(),
        &mut salted,
    );
    let salted_key = ring::hmac::Key::new(ring::hmac::HMAC_SHA256, &salted);
    let server_key = ring::hmac::sign(&salted_key, b"Server Key");
    let server_key = ring::hmac::Key::new(ring::hmac::HMAC_SHA256, server_key.as_ref());
    ring::hmac::sign(&server_key, auth_message.as_bytes())
        .as_ref()
        .to_vec()
}

const CLIENT_NONCE: &str = "fyko+d2lbbFgONRv9qkxdawL";
const SERVER_NONCE: &str = "fyko+d2lbbFgONRv9qkxdawL3rfcNHYJY1ZVvWVs7j";
const SALT_B64: &str = "QSXCR+Q6sek8bf92";

fn server_first_message() -> String {
    format!("r={},s={},i=4096", SERVER_NONCE, SALT_B64)
}

#[test]
fn nonce_samples_map_back() {
    let samples = samples_for_nonce(CLIENT_NONCE);
    let client = ClientFirst::with_rng("user", "pencil", None, samples);
    let (_, message) = client.client_first();
    assert_eq!(message, format!("n,,n=user,r={}", CLIENT_NONCE));
}

#[test]
fn generated_nonce_is_fixed_length_and_comma_free() {
    for _ in 0..16 {
        let client = ClientFirst::new("user", "pencil", None).unwrap();
        let (_, message) = client.client_first();
        let nonce = message.strip_prefix("n,,n=user,r=").unwrap();
        assert_eq!(nonce.chars().count(), NONCE_LENGTH);
        assert!(!nonce.contains(','));
        assert!(nonce.chars().all(|c| (33..=125).contains(&(c as u32))));
    }
}

#[test]
fn client_first_with_authzid() {
    let samples = samples_for_nonce(CLIENT_NONCE);
    let client = ClientFirst::with_rng("user", "pencil", Some("admin"), samples);
    let (_, message) = client.client_first();
    assert_eq!(message, format!("n,a=admin,n=user,r={}", CLIENT_NONCE));
}

#[test]
fn authcid_is_escaped() {
    let samples = samples_for_nonce(CLIENT_NONCE);
    let client = ClientFirst::with_rng("a,b=c", "pencil", None, samples);
    let (_, message) = client.client_first();
    assert_eq!(message, format!("n,,n=a=2Cb=3Dc,r={}", CLIENT_NONCE));
}

#[test]
fn client_final_proof_matches_independent_derivation() {
    let samples = samples_for_nonce(CLIENT_NONCE);
    let client = ClientFirst::with_rng("user", "pencil", None, samples);
    let (state, _) = client.client_first();
    let server_first = server_first_message();
    let state = state.handle_server_first(&server_first).unwrap();
    let (_, client_final) = state.client_final();

    let client_first_bare = format!("n=user,r={}", CLIENT_NONCE);
    let cfwp = format!("c=biws,r={}", SERVER_NONCE);
    let auth_message = format!("{},{},{}", client_first_bare, server_first, cfwp);
    let salt = data_encoding::BASE64.decode(SALT_B64.as_bytes()).unwrap();
    let proof = expected_proof("pencil", &salt, 4096, &auth_message);
    let expected = format!("{},p={}", cfwp, data_encoding::BASE64.encode(&proof));
    assert_eq!(client_final, expected);
}

#[test]
fn round_trip_with_conformant_server_succeeds() {
    let samples = samples_for_nonce(CLIENT_NONCE);
    let client = ClientFirst::with_rng("user", "pencil", None, samples);
    let (state, client_first) = client.client_first();
    assert_eq!(client_first, format!("n,,n=user,r={}", CLIENT_NONCE));

    let server_first = server_first_message();
    let state = state.handle_server_first(&server_first).unwrap();
    let (state, client_final) = state.client_final();

    // The server recomputes the auth-message from its own transcript and
    // signs it with ServerKey.
    let client_first_bare = &client_first[3..];
    let cfwp = client_final.rsplit_once(",p=").unwrap().0;
    let auth_message = format!("{},{},{}", client_first_bare, server_first, cfwp);
    let salt = data_encoding::BASE64.decode(SALT_B64.as_bytes()).unwrap();
    let signature = expected_server_signature("pencil", &salt, 4096, &auth_message);
    let server_final = format!("v={}", data_encoding::BASE64.encode(&signature));
    assert_eq!(state.handle_server_final(&server_final), Ok(()));
}

#[test]
fn wrong_server_signature_is_invalid_server() {
    let samples = samples_for_nonce(CLIENT_NONCE);
    let client = ClientFirst::with_rng("user", "pencil", None, samples);
    let (state, _) = client.client_first();
    let state = state.handle_server_first(&server_first_message()).unwrap();
    let (state, _) = state.client_final();
    let forged = data_encoding::BASE64.encode(&[0u8; 32]);
    assert_eq!(
        state.handle_server_final(&format!("v={}", forged)),
        Err(Error::InvalidServer)
    );
}

#[test]
fn tampered_nonce_never_passes_silently() {
    let server_first = server_first_message();
    let salt = data_encoding::BASE64.decode(SALT_B64.as_bytes()).unwrap();
    // The genuine server's signature over the untampered transcript.
    let client_first_bare = format!("n=user,r={}", CLIENT_NONCE);
    let cfwp = format!("c=biws,r={}", SERVER_NONCE);
    let auth_message = format!("{},{},{}", client_first_bare, server_first, cfwp);
    let genuine_signature = expected_server_signature("pencil", &salt, 4096, &auth_message);
    let server_final = format!(
        "v={}",
        data_encoding::BASE64.encode(&genuine_signature)
    );

    // Flip each byte of the nonce field in turn (positions 2.. of `r=...`).
    let nonce_field_end = 2 + SERVER_NONCE.len();
    for i in 2..nonce_field_end {
        let mut bytes = server_first.clone().into_bytes();
        bytes[i] = if bytes[i] == b'x' { b'y' } else { b'x' };
        let tampered = String::from_utf8(bytes).unwrap();
        if tampered == server_first {
            continue;
        }

        let samples = samples_for_nonce(CLIENT_NONCE);
        let client = ClientFirst::with_rng("user", "pencil", None, samples);
        let (state, _) = client.client_first();
        match state.handle_server_first(&tampered) {
            Err(e) => assert_eq!(e, Error::Protocol(Kind::InvalidNonce)),
            Ok(state) => {
                let (state, _) = state.client_final();
                assert_eq!(
                    state.handle_server_final(&server_final),
                    Err(Error::InvalidServer)
                );
            }
        }
    }
}

#[test]
fn parsing_is_idempotent() {
    let message = server_first_message();
    let first = scram::parse_server_first(&message).unwrap();
    let second = scram::parse_server_first(&message).unwrap();
    assert_eq!(first.0, second.0);
    assert_eq!(first.1, second.1);
    assert_eq!(first.2, second.2);
    assert_eq!(first.0, SERVER_NONCE);
    assert_eq!(
        first.1,
        data_encoding::BASE64.decode(SALT_B64.as_bytes()).unwrap()
    );
    assert_eq!(first.2, 4096);
}
