use echo_server::error::{Error, ErrorKind};
use echo_server::handlers::{
    authenticate_client, bearer_token, ensure_authenticated, error_field, resolve_client,
    tenant_scope, validate_jwt, validate_tenant_request, AuthOutcome, AuthPolicy, ErrorField,
    ErrorLocation, Response, ResponseError, ResponseStatus, DECENTRALIZED_IDENTIFIER_PREFIX,
};
use echo_server::jwt_validation::{claims_of, Claims, JwtValidationClient};
use echo_server::text::{header_text, is_readable, remove_matches, str_eq, trim_start_matches};

fn now() -> u64 {
    std::time::SystemTime::now().duration_since(std::time::UNIX_EPOCH).unwrap().as_secs()
}

fn token(secret: &str, sub: Option<&str>, exp: u64) -> String {
    let mut claims = serde_json::Map::new();
    if let Some(sub) = sub {
        claims.insert("sub".to_owned(), serde_json::Value::String(sub.to_owned()));
    }
    claims.insert("exp".to_owned(), serde_json::Value::from(exp));
    jsonwebtoken::encode(
        &jsonwebtoken::Header::default(),
        &serde_json::Value::Object(claims),
        &jsonwebtoken::EncodingKey::from_secret(secret.as_bytes()),
    )
    .unwrap()
}

fn never(_: String, _: String) -> Option<String> {
    panic!("no token was presented")
}

fn refuse(_: Option<String>) -> bool {
    false
}

#[test]
fn prefix_is_the_did_key_prefix() {
    assert_eq!(DECENTRALIZED_IDENTIFIER_PREFIX, "did:key:");
}

#[test]
fn text_helpers_compare_trim_and_remove() {
    assert!(str_eq("abc", "abc"));
    assert!(!str_eq("abc", "abd"));
    assert_eq!(trim_start_matches("did:key:did:key:x", "did:key:"), "x");
    assert_eq!(trim_start_matches("xdid:key:", "did:key:"), "xdid:key:");
    assert_eq!(trim_start_matches("did:key", "did:key:"), "did:key");
    assert_eq!(trim_start_matches("ééa", "é"), "a");
    assert_eq!(trim_start_matches("abc", ""), "abc");
    assert_eq!(remove_matches("Bearer abc", "Bearer "), "abc");
    assert_eq!(remove_matches("Bearer Bearer a Bearer b", "Bearer "), "a b");
    assert_eq!(remove_matches("aaa", "aa"), "a");
    assert_eq!(remove_matches("abc", ""), "abc");
    assert_eq!(remove_matches("Bearer", "Bearer "), "Bearer");
    assert_eq!(
        remove_matches("xBearer Bearer y", "Bearer "),
        "xBearer Bearer y".replace("Bearer ", "")
    );
}

#[test]
fn header_is_text_when_every_byte_is_visible() {
    assert_eq!(header_text(b"Bearer abc.def"), Some("Bearer abc.def".to_owned()));
    assert_eq!(header_text(b"tab\there ~"), Some("tab\there ~".to_owned()));
    assert_eq!(header_text(b""), Some(String::new()));
    assert_eq!(header_text(b"line\nbreak"), None);
    assert_eq!(header_text(&[0x7f]), None);
    assert_eq!(header_text(&[b'a', 0xe9]), None);
}

#[test]
fn bearer_token_is_the_header_without_the_marker() {
    assert_eq!(bearer_token(Some(b"Bearer abc.def.ghi")), Ok("abc.def.ghi".to_owned()));
    assert_eq!(bearer_token(Some(b"abc.def.ghi")), Ok("abc.def.ghi".to_owned()));
    assert_eq!(bearer_token(None), Err(Error::InvalidAuthentication));
    assert_eq!(bearer_token(Some(&[0x80, 0x81])), Err(Error::InvalidAuthentication));
}

#[test]
fn claims_follow_the_decoding() {
    assert_eq!(claims_of(Some("project".to_owned())), Ok(Claims { sub: "project".to_owned() }));
    assert_eq!(claims_of(None), Err(Error::InvalidAuthentication));
}

#[test]
fn tenant_token_is_checked_against_the_secret_and_the_clock() {
    let client = JwtValidationClient::new("secret".to_owned());
    let good = token("secret", Some("project"), now() + 3600);
    assert_eq!(client.is_valid_token(&good), Ok(Claims { sub: "project".to_owned() }));
    let forged = token("other secret", Some("project"), now() + 3600);
    assert_eq!(client.is_valid_token(&forged), Err(Error::InvalidAuthentication));
    let expired = token("secret", Some("project"), now() - 3600);
    assert_eq!(client.is_valid_token(&expired), Err(Error::InvalidAuthentication));
    let nameless = token("secret", None, now() + 3600);
    assert_eq!(client.is_valid_token(&nameless), Err(Error::InvalidAuthentication));
    assert_eq!(client.is_valid_token("not a token"), Err(Error::InvalidAuthentication));
}

#[test]
fn tenant_request_needs_a_token_for_its_project() {
    let client = JwtValidationClient::new("secret".to_owned());
    let good = format!("Bearer {}", token("secret", Some("project"), now() + 3600));
    assert_eq!(
        validate_jwt(&client, Some(good.as_bytes())),
        Ok(Claims { sub: "project".to_owned() })
    );
    assert_eq!(validate_tenant_request(&client, Some(good.as_bytes()), Some("project")), Ok(()));
    assert_eq!(validate_tenant_request(&client, Some(good.as_bytes()), None), Ok(()));
    assert_eq!(
        validate_tenant_request(&client, Some(good.as_bytes()), Some("another")),
        Err(Error::InvalidAuthentication)
    );
    let bare = token("secret", Some("project"), now() + 3600);
    assert_eq!(validate_tenant_request(&client, Some(bare.as_bytes()), Some("project")), Ok(()));
    assert_eq!(
        validate_tenant_request(&client, None, Some("project")),
        Err(Error::InvalidAuthentication)
    );
    assert_eq!(validate_tenant_request(&client, None, None), Err(Error::InvalidAuthentication));
    assert_eq!(
        validate_tenant_request(&client, Some(b"Bearer forged"), None),
        Err(Error::InvalidAuthentication)
    );
    assert_eq!(validate_jwt(&client, Some(&[0xff])), Err(Error::InvalidAuthentication));
}

#[test]
fn scope_is_the_project_of_the_token() {
    let claims = Claims { sub: "project".to_owned() };
    assert_eq!(tenant_scope(&claims, Some("project")), Ok(()));
    assert_eq!(tenant_scope(&claims, Some("Project")), Err(Error::InvalidAuthentication));
    assert_eq!(tenant_scope(&claims, None), Ok(()));
}

#[test]
fn client_without_token_passes_by_default() {
    assert!(AuthPolicy::default().anonymous_allowed);
    assert_eq!(authenticate_client(AuthPolicy::default(), None, "aud", never, refuse), Ok(true));
    assert_eq!(
        resolve_client(AuthPolicy::default(), None, "aud", never, refuse),
        Ok(AuthOutcome { client_id: None, scope_match: true })
    );
    let strict = AuthPolicy { anonymous_allowed: false };
    assert_eq!(
        authenticate_client(strict, None, "aud", never, refuse),
        Err(Error::InvalidAuthentication)
    );
}

#[test]
fn client_token_is_verified_and_its_issuer_checked() {
    let verify = |token: String, audience: String| {
        assert_eq!(token, "header.claims.signature");
        assert_eq!(audience, "https://push.example");
        Some("issuer".to_owned())
    };
    let header: &[u8] = b"header.claims.signature";
    let policy = AuthPolicy::default();
    assert_eq!(
        authenticate_client(policy, Some(header), "https://push.example", verify, |id| {
            id == Some("issuer".to_owned())
        }),
        Ok(true)
    );
    assert_eq!(
        authenticate_client(policy, Some(header), "https://push.example", verify, |id| {
            id == Some("another".to_owned())
        }),
        Ok(false)
    );
    assert_eq!(
        resolve_client(policy, Some(header), "https://push.example", verify, |_| true),
        Ok(AuthOutcome { client_id: Some("issuer".to_owned()), scope_match: true })
    );
}

#[test]
fn client_token_that_is_refused_or_unreadable_fails() {
    let policy = AuthPolicy::default();
    assert_eq!(
        authenticate_client(policy, Some(b"forged"), "aud", |_: String, _: String| None, refuse),
        Err(Error::Jwt)
    );
    assert_eq!(
        authenticate_client(policy, Some(&[0xde, 0xad]), "aud", never, refuse),
        Err(Error::InvalidAuthentication)
    );
}

#[test]
fn responses_are_built_as_given() {
    assert_eq!(
        Response::new_success(201),
        Response { status: ResponseStatus::Success, status_code: 201, errors: None, fields: None }
    );
    assert_eq!(Response::default(), Response::new_success(200));
    let failure = Response::new_failure(
        400,
        vec![ResponseError { name: "token".to_owned(), message: "empty".to_owned() }],
        vec![ErrorField {
            field: "token".to_owned(),
            description: "must not be empty".to_owned(),
            location: ErrorLocation::Body,
        }],
    );
    assert_eq!(failure.status, ResponseStatus::Failure);
    assert_eq!(failure.status_code, 400);
    assert_eq!(failure.errors.unwrap()[0].name, "token");
    assert_eq!(failure.fields.unwrap()[0].location, ErrorLocation::Body);
    let empty = Response::new_failure(500, Vec::new(), Vec::new());
    assert_eq!(empty.errors, Some(Vec::new()));
    assert_eq!(empty.fields, Some(Vec::new()));
}

#[test]
fn errors_fall_into_their_families() {
    assert_eq!(Error::InvalidAuthentication.kind(), ErrorKind::Authentication);
    assert_eq!(Error::MissingTimestampHeader.kind(), ErrorKind::Authentication);
    assert_eq!(Error::InvalidMultipartBody.kind(), ErrorKind::Validation);
    assert_eq!(Error::EmptyField("token".to_owned()).kind(), ErrorKind::Validation);
    assert_eq!(Error::BadApnsCredentials.kind(), ErrorKind::Credential);
    assert_eq!(Error::BadFcmApiKey.kind(), ErrorKind::Credential);
    assert_eq!(Error::BadDeviceToken("x".to_owned()).kind(), ErrorKind::Delivery);
    assert_eq!(Error::InternalSerializationError.kind(), ErrorKind::Internal);
    assert!(Error::BadFcmV1Credentials.is_credential_error());
    assert!(!Error::BadDeviceToken("x".to_owned()).is_credential_error());
    assert!(!Error::InvalidAuthentication.is_credential_error());
}

#[test]
fn header_is_readable_when_every_byte_is_visible() {
    assert!(is_readable(b"Bearer abc"));
    assert!(is_readable(b""));
    assert!(is_readable(b"\t ~"));
    assert!(!is_readable(b"\r\n"));
    assert!(!is_readable(&[31]));
    assert!(!is_readable(&[127]));
    assert!(!is_readable(&[b'a', 200]));
}

#[test]
fn only_an_authenticated_sender_goes_on() {
    assert_eq!(ensure_authenticated(true), Ok(()));
    assert_eq!(ensure_authenticated(false), Err(Error::InvalidAuthentication));
}

#[test]
fn failures_have_their_status_and_name() {
    assert_eq!(Error::InvalidAuthentication.status_code(), 401);
    assert_eq!(Error::MissingAllSignatureHeader.status_code(), 401);
    assert_eq!(Error::TenantNotFound("t".to_owned()).status_code(), 404);
    assert_eq!(Error::ClientNotFound("c".to_owned()).status_code(), 404);
    assert_eq!(Error::ProviderNotFound("p".to_owned()).status_code(), 404);
    assert_eq!(Error::InvalidMultipartBody.status_code(), 400);
    assert_eq!(Error::BadApnsCredentials.status_code(), 400);
    assert_eq!(Error::BadDeviceToken("d".to_owned()).status_code(), 400);
    assert_eq!(Error::InternalSerializationError.status_code(), 500);
    assert_eq!(Error::Store("connection refused".to_owned()).status_code(), 500);
    assert_eq!(Error::Store("connection refused".to_owned()).kind(), ErrorKind::Internal);
    assert_eq!(Error::InvalidAuthentication.name(), "InvalidAuthentication");
    assert_eq!(Error::EmptyField("token".to_owned()).name(), "EmptyField");
    assert_eq!(Error::Store("x".to_owned()).name(), "Store");
    assert_eq!(ErrorKind::Internal.message(), "Internal error");
    assert_eq!(ErrorKind::Validation.message(), "The request is not valid");
}

#[test]
fn failure_is_reported_with_its_field() {
    let response = Response::from_error(&Error::EmptyField("token".to_owned()));
    assert_eq!(
        response,
        Response::new_failure(
            400,
            vec![ResponseError {
                name: "EmptyField".to_owned(),
                message: "The request is not valid".to_owned(),
            }],
            vec![ErrorField {
                field: "token".to_owned(),
                description: "The request is not valid".to_owned(),
                location: ErrorLocation::Body,
            }],
        )
    );
    let response = Response::from_error(&Error::MissingTimestampHeader);
    assert_eq!(response.status_code, 401);
    let fields = response.fields.unwrap();
    assert_eq!(fields[0].field, "X-Ed25519-Timestamp");
    assert_eq!(fields[0].location, ErrorLocation::Header);
    assert_eq!(
        error_field(&Error::TenantNotFound("t".to_owned())).unwrap().location,
        ErrorLocation::Path
    );
    assert_eq!(error_field(&Error::BadApnsCredentials), None);
}

#[test]
fn internal_failure_tells_the_caller_nothing_of_its_cause() {
    let response = Response::from_error(&Error::Store("password of the database".to_owned()));
    assert_eq!(response.status, ResponseStatus::Failure);
    assert_eq!(response.status_code, 500);
    assert_eq!(
        response.errors,
        Some(vec![ResponseError { name: "Store".to_owned(), message: "Internal error".to_owned() }])
    );
    assert_eq!(response.fields, Some(Vec::new()));
}
