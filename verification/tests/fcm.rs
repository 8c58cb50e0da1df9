use echo_server::blob::DecryptedPayloadBlob;
use echo_server::error::{Error, FcmErrorReason, FcmFailure};
use echo_server::providers::fcm::{
    set_message_priority_high, FcmData, FcmMessage, FcmProvider, Notification, Priority,
};
use echo_server::providers::{
    LegacyPushMessage, MessagePayload, ProviderKind, PushMessage, RawPushMessage, ENCRYPTED_FLAG,
};

fn raw() -> RawPushMessage {
    RawPushMessage { topic: "topic".to_owned(), tag: 1100, message: "ciphertext".to_owned() }
}

fn payload(flags: u32, blob: &str) -> MessagePayload {
    MessagePayload { topic: "topic".to_owned(), flags, blob: blob.to_owned() }
}

fn legacy(flags: u32, blob: &str) -> PushMessage {
    PushMessage::LegacyPushMessage(LegacyPushMessage {
        id: "message-id".to_owned(),
        payload: payload(flags, blob),
    })
}

// {"title":"Hello","body":"World"}
const PLAINTEXT_BLOB: &str = "eyJ0aXRsZSI6IkhlbGxvIiwiYm9keSI6IldvcmxkIn0=";

#[test]
fn provider_is_made_of_its_api_key() {
    let provider = FcmProvider::new("api-key".to_owned());
    assert_eq!(provider.api_key, "api-key");
    assert_eq!(provider.clone(), provider);
    assert_ne!(provider, FcmProvider::new("other".to_owned()));
    assert_eq!(provider.description(), "[FcmProvider] api_key = api-key");
}

#[test]
fn priority_high_also_marks_content_available() {
    let mut message = FcmMessage {
        api_key: "k".to_owned(),
        to: "d".to_owned(),
        data: FcmData::Raw(raw()),
        notification: None,
        priority: Some(Priority::Normal),
        content_available: None,
    };
    set_message_priority_high(&mut message);
    assert_eq!(message.priority, Some(Priority::High));
    assert_eq!(message.content_available, Some(true));
    assert_eq!(message.api_key, "k");
    assert_eq!(message.data, FcmData::Raw(raw()));
}

#[test]
fn raw_message_is_sent_silently_with_high_priority() {
    let provider = FcmProvider::new("api-key".to_owned());
    let message = provider.build_message("device".to_owned(), PushMessage::RawPushMessage(raw()));
    assert_eq!(
        message,
        Ok(FcmMessage {
            api_key: "api-key".to_owned(),
            to: "device".to_owned(),
            data: FcmData::Raw(raw()),
            notification: None,
            priority: Some(Priority::High),
            content_available: Some(true),
        })
    );
}

#[test]
fn encrypted_payload_is_sent_like_a_raw_message() {
    let provider = FcmProvider::new("api-key".to_owned());
    let message = provider.build_message("device".to_owned(), legacy(ENCRYPTED_FLAG, "opaque"));
    assert_eq!(
        message,
        Ok(FcmMessage {
            api_key: "api-key".to_owned(),
            to: "device".to_owned(),
            data: FcmData::Payload(payload(1, "opaque")),
            notification: None,
            priority: Some(Priority::High),
            content_available: Some(true),
        })
    );
    assert!(payload(3, "x").is_encrypted());
    assert!(!payload(2, "x").is_encrypted());
    assert!(!payload(0, "x").is_encrypted());
}

#[test]
fn plaintext_payload_is_shown_with_title_and_body() {
    let provider = FcmProvider::new("api-key".to_owned());
    let message = provider.build_message("device".to_owned(), legacy(0, PLAINTEXT_BLOB));
    assert_eq!(
        message,
        Ok(FcmMessage {
            api_key: "api-key".to_owned(),
            to: "device".to_owned(),
            data: FcmData::Payload(payload(0, PLAINTEXT_BLOB)),
            notification: Some(Notification { title: "Hello".to_owned(), body: "World".to_owned() }),
            priority: None,
            content_available: None,
        })
    );
}

#[test]
fn unreadable_blob_fails_the_plaintext_message() {
    let provider = FcmProvider::new("api-key".to_owned());
    assert_eq!(
        provider.build_message("device".to_owned(), legacy(0, "not base64!")),
        Err(Error::Base64Decode)
    );
    // {"title":"Hello"}
    assert_eq!(
        provider.build_message("device".to_owned(), legacy(2, "eyJ0aXRsZSI6IkhlbGxvIn0=")),
        Err(Error::InvalidBlob)
    );
}

#[test]
fn blob_is_base64_of_a_json_object() {
    assert_eq!(
        DecryptedPayloadBlob::from_base64_encoded(PLAINTEXT_BLOB),
        Ok(DecryptedPayloadBlob { title: "Hello".to_owned(), body: "World".to_owned() })
    );
    // {"title":1,"body":"World"}
    assert_eq!(
        DecryptedPayloadBlob::from_base64_encoded("eyJ0aXRsZSI6MSwiYm9keSI6IldvcmxkIn0="),
        Err(Error::InvalidBlob)
    );
    // ["title","body"]
    assert_eq!(
        DecryptedPayloadBlob::from_base64_encoded("WyJ0aXRsZSIsImJvZHkiXQ=="),
        Err(Error::InvalidBlob)
    );
    // {"title":
    assert_eq!(DecryptedPayloadBlob::from_base64_encoded("eyJ0aXRsZSI6"), Err(Error::InvalidBlob));
    assert_eq!(DecryptedPayloadBlob::from_base64_encoded("e"), Err(Error::Base64Decode));
}

#[test]
fn unregistered_token_is_a_bad_device_token() {
    assert_eq!(
        FcmProvider::normalize_response(Ok(Some(FcmErrorReason::NotRegistered))),
        Err(Error::BadDeviceToken("Token is not registered".to_owned()))
    );
    assert_eq!(
        FcmProvider::normalize_response(Ok(Some(FcmErrorReason::MissingRegistration))),
        Err(Error::BadDeviceToken("Missing registration for token".to_owned()))
    );
    assert_eq!(
        FcmProvider::normalize_response(Ok(Some(FcmErrorReason::InvalidRegistration))),
        Err(Error::BadDeviceToken("Invalid token registration".to_owned()))
    );
}

#[test]
fn credential_problems_are_credential_errors() {
    let apns = FcmProvider::normalize_response(Ok(Some(FcmErrorReason::InvalidApnsCredential)));
    assert_eq!(apns, Err(Error::BadApnsCredentials));
    assert!(apns.unwrap_err().is_credential_error());
    let key = FcmProvider::normalize_response(Err(FcmFailure::Unauthorized));
    assert_eq!(key, Err(Error::BadFcmApiKey));
    assert!(key.unwrap_err().is_credential_error());
}

#[test]
fn other_answers_are_passed_on() {
    assert_eq!(FcmProvider::normalize_response(Ok(None)), Ok(()));
    for reason in [
        FcmErrorReason::InvalidPackageName,
        FcmErrorReason::MismatchSenderId,
        FcmErrorReason::InvalidParameters,
        FcmErrorReason::MessageTooBig,
        FcmErrorReason::InvalidDataKey,
        FcmErrorReason::InvalidTtl,
        FcmErrorReason::Unavailable,
        FcmErrorReason::InternalServerError,
        FcmErrorReason::DeviceMessageRateExceeded,
        FcmErrorReason::TopicsMessageRateExceeded,
    ] {
        let result = FcmProvider::normalize_response(Ok(Some(reason)));
        assert_eq!(result, Err(Error::FcmResponse(reason)));
        assert!(!result.unwrap_err().is_credential_error());
    }
    assert_eq!(
        FcmProvider::normalize_response(Err(FcmFailure::ServerError)),
        Err(Error::Fcm(FcmFailure::ServerError))
    );
    assert_eq!(
        FcmProvider::normalize_response(Err(FcmFailure::InvalidMessage("bad".to_owned()))),
        Err(Error::Fcm(FcmFailure::InvalidMessage("bad".to_owned())))
    );
}

#[test]
fn providers_are_known_by_name_in_any_case() {
    for (kind, name) in [
        (ProviderKind::Apns, "apns"),
        (ProviderKind::ApnsSandbox, "apns-sandbox"),
        (ProviderKind::Fcm, "fcm"),
        (ProviderKind::FcmV1, "fcm_v1"),
    ] {
        assert_eq!(kind.as_str(), name);
        assert_eq!(ProviderKind::from_lowercase(name), Some(kind));
        assert_eq!(ProviderKind::from_name(name), Ok(kind));
        assert_eq!(ProviderKind::from_name(&name.to_uppercase()), Ok(kind));
        assert_eq!(ProviderKind::from_lowercase(&name.to_uppercase()), None);
    }
    assert_eq!(ProviderKind::from_name("Noop"), Err(Error::ProviderNotFound("Noop".to_owned())));
    assert_eq!(ProviderKind::from_lowercase("apns_sandbox"), None);
}

#[test]
fn raw_message_to_an_unregistered_token_is_a_bad_device_token() {
    let provider = FcmProvider::new("api-key".to_owned());
    let result = provider.send_notification(
        "device".to_owned(),
        PushMessage::RawPushMessage(raw()),
        |message: FcmMessage| {
            assert_eq!(message.to, "device");
            assert_eq!(message.api_key, "api-key");
            assert_eq!(message.data, FcmData::Raw(raw()));
            assert_eq!(message.priority, Some(Priority::High));
            assert_eq!(message.content_available, Some(true));
            assert_eq!(message.notification, None);
            Ok(Some(FcmErrorReason::NotRegistered))
        },
    );
    assert_eq!(result, Err(Error::BadDeviceToken("Token is not registered".to_owned())));
}

#[test]
fn sent_message_is_delivered_or_fails_as_the_answer_says() {
    let provider = FcmProvider::new("api-key".to_owned());
    assert_eq!(
        provider.send_notification("device".to_owned(), legacy(0, PLAINTEXT_BLOB), |message| {
            assert_eq!(
                message.notification,
                Some(Notification { title: "Hello".to_owned(), body: "World".to_owned() })
            );
            Ok(None)
        }),
        Ok(())
    );
    assert_eq!(
        provider.send_notification("device".to_owned(), legacy(1, "opaque"), |_| {
            Err(FcmFailure::Unauthorized)
        }),
        Err(Error::BadFcmApiKey)
    );
}

#[test]
fn nothing_is_sent_where_no_message_can_be_built() {
    let provider = FcmProvider::new("api-key".to_owned());
    let result = provider.send_notification(
        "device".to_owned(),
        legacy(0, "not base64!"),
        |_: FcmMessage| -> Result<Option<FcmErrorReason>, FcmFailure> {
            panic!("a message was sent")
        },
    );
    assert_eq!(result, Err(Error::Base64Decode));
}
