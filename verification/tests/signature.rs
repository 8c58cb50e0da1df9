use ed25519_dalek::{Signer, SigningKey};
use echo_server::error::Error;
use echo_server::middleware::validate_signature::{
    canonical_message, decimal_digits, signature_is_valid, verify_request, RequireValidSignature,
    MAX_BODY, SIGNATURE_HEADER_NAME, TIMESTAMP_HEADER_NAME,
};

fn signing_key() -> SigningKey {
    SigningKey::from_bytes(&[7u8; 32])
}

fn public_key() -> [u8; 32] {
    signing_key().verifying_key().to_bytes()
}

fn sign(timestamp: &str, body: &[u8]) -> String {
    let text = String::from_utf8_lossy(body);
    let message = format!("{}.{}.{}", timestamp, body.len(), text);
    hex::encode(signing_key().sign(message.as_bytes()).to_bytes())
}

#[test]
fn header_names_are_the_protocol_names() {
    assert_eq!(SIGNATURE_HEADER_NAME, "X-Ed25519-Signature");
    assert_eq!(TIMESTAMP_HEADER_NAME, "X-Ed25519-Timestamp");
    assert_eq!(MAX_BODY, 1024 * 1024 * 100);
}

#[test]
fn numbers_are_written_in_decimal() {
    assert_eq!(decimal_digits(0), b"0".to_vec());
    assert_eq!(decimal_digits(7), b"7".to_vec());
    assert_eq!(decimal_digits(10), b"10".to_vec());
    assert_eq!(decimal_digits(104857600), b"104857600".to_vec());
    assert_eq!(decimal_digits(usize::MAX), usize::MAX.to_string().into_bytes());
}

#[test]
fn message_is_timestamp_length_and_text() {
    assert_eq!(
        canonical_message(b"1700000000", 13, b"{\"id\":\"abc\"}\n"),
        b"1700000000.13.{\"id\":\"abc\"}\n".to_vec()
    );
    assert_eq!(canonical_message(b"", 0, b""), b".0.".to_vec());
}

#[test]
fn valid_signature_is_accepted() {
    let body = b"{\"client_id\":\"abc\"}";
    let signature = sign("1700000000", body);
    assert_eq!(
        signature_is_valid(signature.as_bytes(), b"1700000000", body, &public_key()),
        Ok(true)
    );
    assert_eq!(
        signature_is_valid(signature.to_uppercase().as_bytes(), b"1700000000", body, &public_key()),
        Ok(true)
    );
}

#[test]
fn signature_depends_on_body_timestamp_and_key() {
    let body = b"{\"client_id\":\"abc\"}";
    let signature = sign("1700000000", body);
    let key = public_key();
    assert_eq!(
        signature_is_valid(signature.as_bytes(), b"1700000000", b"{\"client_id\":\"abd\"}", &key),
        Ok(false)
    );
    assert_eq!(
        signature_is_valid(signature.as_bytes(), b"1700000000", b"{\"client_id\":\"abc\"} ", &key),
        Ok(false)
    );
    assert_eq!(signature_is_valid(signature.as_bytes(), b"1700000001", body, &key), Ok(false));
    let other = SigningKey::from_bytes(&[8u8; 32]).verifying_key().to_bytes();
    assert_eq!(signature_is_valid(signature.as_bytes(), b"1700000000", body, &other), Ok(false));
    for _ in 0..2 {
        assert_eq!(signature_is_valid(signature.as_bytes(), b"1700000000", body, &key), Ok(true));
    }
}

#[test]
fn length_is_that_of_the_body_as_received() {
    let body = [b'a', 0xff, b'b'];
    let message = "5.3.a\u{fffd}b";
    let signature = hex::encode(signing_key().sign(message.as_bytes()).to_bytes());
    assert_eq!(signature_is_valid(signature.as_bytes(), b"5", &body, &public_key()), Ok(true));
    let lossy_length = "5.5.a\u{fffd}b";
    let signature = hex::encode(signing_key().sign(lossy_length.as_bytes()).to_bytes());
    assert_eq!(signature_is_valid(signature.as_bytes(), b"5", &body, &public_key()), Ok(false));
}

#[test]
fn malformed_signature_is_an_error() {
    let key = public_key();
    assert_eq!(signature_is_valid(b"xyz!", b"1", b"body", &key), Err(Error::Hex));
    assert_eq!(signature_is_valid(b"abc", b"1", b"body", &key), Err(Error::Hex));
    assert_eq!(signature_is_valid(b"abcd", b"1", b"body", &key), Err(Error::Signature));
    assert_eq!(signature_is_valid(b"", b"1", b"body", &key), Err(Error::Signature));
    let long = "ab".repeat(65);
    assert_eq!(signature_is_valid(long.as_bytes(), b"1", b"body", &key), Err(Error::Signature));
}

#[test]
fn bytes_that_are_no_key_verify_nothing() {
    let body = b"body";
    let signature = sign("1", body);
    let mut no_key = [0xffu8; 32];
    no_key[0] = 0x02;
    assert_eq!(signature_is_valid(signature.as_bytes(), b"1", body, &no_key), Ok(false));
    assert_eq!(signature_is_valid(signature.as_bytes(), b"1", body, &[0u8; 32]), Ok(false));
}

#[test]
fn unsigned_deployment_admits_every_request() {
    assert_eq!(verify_request(false, None, None, b"body", &public_key()), Ok(()));
    assert_eq!(verify_request(false, Some(b"zz"), None, b"body", &public_key()), Ok(()));
}

#[test]
fn valid_signature_without_timestamp_is_missing_timestamp() {
    let body = b"body";
    let signature = sign("1700000000", body);
    assert_eq!(
        verify_request(true, Some(signature.as_bytes()), None, body, &public_key()),
        Err(Error::MissingTimestampHeader)
    );
    assert_eq!(
        verify_request(true, Some(b"not even hex"), None, body, &public_key()),
        Err(Error::MissingTimestampHeader)
    );
}

#[test]
fn missing_headers_have_their_own_errors() {
    let key = public_key();
    assert_eq!(
        verify_request(true, None, Some(b"1700000000"), b"body", &key),
        Err(Error::MissingSignatureHeader)
    );
    assert_eq!(verify_request(true, None, None, b"body", &key), Err(Error::MissingAllSignatureHeader));
    assert_eq!(
        verify_request(true, Some(&[0xc3, 0x28]), Some(b"1700000000"), b"body", &key),
        Err(Error::MissingSignatureHeader)
    );
    assert_eq!(
        verify_request(true, Some(b"abcd"), Some(&[0x80]), b"body", &key),
        Err(Error::MissingTimestampHeader)
    );
}

#[test]
fn signed_request_is_admitted_and_tampered_request_is_not() {
    let body = b"{\"message\":\"hello\"}";
    let signature = sign("1700000000", body);
    let key = public_key();
    assert_eq!(
        verify_request(true, Some(signature.as_bytes()), Some(b"1700000000"), body, &key),
        Ok(())
    );
    assert_eq!(
        verify_request(true, Some(signature.as_bytes()), Some(b"1700000000"), b"{}", &key),
        Err(Error::MissingAllSignatureHeader)
    );
    assert_eq!(
        verify_request(true, Some(b"abc"), Some(b"1700000000"), body, &key),
        Err(Error::Hex)
    );
    assert_eq!(
        verify_request(true, Some(b"abcd"), Some(b"1700000000"), body, &key),
        Err(Error::Signature)
    );
}

#[test]
fn oversized_body_fails_before_verification() {
    let body = vec![b'a'; MAX_BODY + 1];
    assert_eq!(
        verify_request(true, Some(b"abc"), Some(b"1"), &body, &public_key()),
        Err(Error::ToBytesError)
    );
    assert_eq!(verify_request(true, None, None, &body, &public_key()), Err(Error::ToBytesError));
    assert_eq!(verify_request(false, None, None, &body, &public_key()), Ok(()));
}

#[test]
fn extraction_is_wrapped_or_reported() {
    assert_eq!(RequireValidSignature::wrap(Some(5u8)), Ok(RequireValidSignature(5u8)));
    assert_eq!(RequireValidSignature::<u8>::wrap(None), Err(Error::FromRequestError));
    let RequireValidSignature(inner) = RequireValidSignature("payload");
    assert_eq!(inner, "payload");
}

#[test]
fn message_signed_with_another_declared_length_never_verifies() {
    let key = public_key();
    for declared in ["1700000000.4.abc", "1700000000.2.abc", "1700000000.03.abc", "1700000000..abc"] {
        let signature = hex::encode(signing_key().sign(declared.as_bytes()).to_bytes());
        assert_eq!(signature_is_valid(signature.as_bytes(), b"1700000000", b"abc", &key), Ok(false));
    }
    let signature = hex::encode(signing_key().sign(b"1700000000.3.abc").to_bytes());
    assert_eq!(signature_is_valid(signature.as_bytes(), b"1700000000", b"abc", &key), Ok(true));
}

#[test]
fn message_signed_for_another_timestamp_never_verifies() {
    let key = public_key();
    let signature = sign("17.00", b"abc");
    assert_eq!(signature_is_valid(signature.as_bytes(), b"17.00", b"abc", &key), Ok(true));
    assert_eq!(signature_is_valid(signature.as_bytes(), b"17.01", b"abc", &key), Ok(false));
    assert_eq!(signature_is_valid(signature.as_bytes(), b"17", b"abc", &key), Ok(false));
}
