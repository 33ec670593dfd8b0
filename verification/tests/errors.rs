//! Tests of the error taxonomy: each failure comes exactly where the
//! protocol grammar says it must.

use scram::{ClientFirst, Error, Field, Kind};

const CLIENT_NONCE: &str = "fyko+d2lbbFgONRv9qkxdawL";

fn samples_for_nonce(nonce: &str) -> Vec<u8> {
    nonce
        .bytes()
        .map(|v| if v > 44 { v - 1 } else { v })
        .collect()
}

fn awaiting_server_first() -> scram::ServerFirst {
    let samples = samples_for_nonce(CLIENT_NONCE);
    let client = ClientFirst::with_rng("user", "pencil", None, samples);
    client.client_first().0
}

fn awaiting_server_final() -> scram::ServerFinal {
    let state = awaiting_server_first();
    let server_first = format!("r={}3rfc,s=QSXCR+Q6sek8bf92,i=4096", CLIENT_NONCE);
    state
        .handle_server_first(&server_first)
        .unwrap()
        .client_final()
        .0
}

#[test]
fn short_server_first_is_expected_nonce() {
    let err = awaiting_server_first().handle_server_first("r").unwrap_err();
    assert_eq!(err, Error::Protocol(Kind::ExpectedField(Field::Nonce)));
}

#[test]
fn empty_server_first_is_expected_nonce() {
    let err = awaiting_server_first().handle_server_first("").unwrap_err();
    assert_eq!(err, Error::Protocol(Kind::ExpectedField(Field::Nonce)));
}

#[test]
fn mandatory_extension_is_rejected_unparsed() {
    let err = awaiting_server_first()
        .handle_server_first("m=foo,r=abc,s=QSXCR+Q6sek8bf92,i=4096")
        .unwrap_err();
    assert_eq!(err, Error::UnsupportedExtension);
}

#[test]
fn missing_nonce_tag_is_expected_nonce() {
    let err = awaiting_server_first()
        .handle_server_first("x=abc,s=QSXCR+Q6sek8bf92,i=4096")
        .unwrap_err();
    assert_eq!(err, Error::Protocol(Kind::ExpectedField(Field::Nonce)));
}

#[test]
fn missing_salt_field_is_expected_salt() {
    let message = format!("r={}3rfc", CLIENT_NONCE);
    let err = awaiting_server_first().handle_server_first(&message).unwrap_err();
    assert_eq!(err, Error::Protocol(Kind::ExpectedField(Field::Salt)));
}

#[test]
fn bad_base64_salt_is_invalid_salt() {
    let message = format!("r={}3rfc,s=!!!,i=4096", CLIENT_NONCE);
    let err = awaiting_server_first().handle_server_first(&message).unwrap_err();
    assert_eq!(err, Error::Protocol(Kind::InvalidField(Field::Salt)));
}

#[test]
fn missing_iterations_is_expected_iterations() {
    let message = format!("r={}3rfc,s=QSXCR+Q6sek8bf92", CLIENT_NONCE);
    let err = awaiting_server_first().handle_server_first(&message).unwrap_err();
    assert_eq!(err, Error::Protocol(Kind::ExpectedField(Field::Iterations)));
}

#[test]
fn non_numeric_iterations_is_invalid() {
    let message = format!("r={}3rfc,s=QSXCR+Q6sek8bf92,i=many", CLIENT_NONCE);
    let err = awaiting_server_first().handle_server_first(&message).unwrap_err();
    assert_eq!(err, Error::Protocol(Kind::InvalidField(Field::Iterations)));
}

#[test]
fn zero_iterations_is_invalid() {
    let message = format!("r={}3rfc,s=QSXCR+Q6sek8bf92,i=0", CLIENT_NONCE);
    let err = awaiting_server_first().handle_server_first(&message).unwrap_err();
    assert_eq!(err, Error::Protocol(Kind::InvalidField(Field::Iterations)));
}

#[test]
fn oversized_iterations_is_invalid() {
    let message = format!("r={}3rfc,s=QSXCR+Q6sek8bf92,i=65536", CLIENT_NONCE);
    let err = awaiting_server_first().handle_server_first(&message).unwrap_err();
    assert_eq!(err, Error::Protocol(Kind::InvalidField(Field::Iterations)));
}

#[test]
fn foreign_nonce_is_invalid_nonce() {
    let err = awaiting_server_first()
        .handle_server_first("r=somebodyelse,s=QSXCR+Q6sek8bf92,i=4096")
        .unwrap_err();
    assert_eq!(err, Error::Protocol(Kind::InvalidNonce));
}

#[test]
fn truncated_client_nonce_is_invalid_nonce() {
    let message = format!("r={},s=QSXCR+Q6sek8bf92,i=4096", &CLIENT_NONCE[..23]);
    let err = awaiting_server_first().handle_server_first(&message).unwrap_err();
    assert_eq!(err, Error::Protocol(Kind::InvalidNonce));
}

#[test]
fn short_server_final_is_expected_verify_or_error() {
    let err = awaiting_server_final().handle_server_final("v").unwrap_err();
    assert_eq!(
        err,
        Error::Protocol(Kind::ExpectedField(Field::VerifyOrError))
    );
}

#[test]
fn unknown_server_final_field_is_expected_verify_or_error() {
    let err = awaiting_server_final().handle_server_final("x=abc").unwrap_err();
    assert_eq!(
        err,
        Error::Protocol(Kind::ExpectedField(Field::VerifyOrError))
    );
}

#[test]
fn bad_base64_verifier_is_invalid_verify_or_error() {
    let err = awaiting_server_final().handle_server_final("v=!!!").unwrap_err();
    assert_eq!(
        err,
        Error::Protocol(Kind::InvalidField(Field::VerifyOrError))
    );
}

#[test]
fn server_error_field_is_authentication_failure() {
    let err = awaiting_server_final()
        .handle_server_final("e=invalid-encoding")
        .unwrap_err();
    assert_eq!(err, Error::Authentication("invalid-encoding".to_string()));
}

#[test]
fn unextended_client_nonce_is_invalid_nonce() {
    let message = format!("r={},s=QSXCR+Q6sek8bf92,i=4096", CLIENT_NONCE);
    let err = awaiting_server_first().handle_server_first(&message).unwrap_err();
    assert_eq!(err, Error::Protocol(Kind::InvalidNonce));
}
