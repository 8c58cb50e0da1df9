use vstd::prelude::*;
use vstd::string::StringExecFns;
use crate::blob::{json_text, DecryptedPayloadBlob};
use crate::encoding::base64_decoding;
use crate::error::{Error, FcmErrorReason, FcmFailure};
use crate::providers::{LegacyPushMessage, MessagePayload, PushMessage, RawPushMessage};

verus! {

/// How urgently Firebase is to deliver a message.
#[derive(Clone, Copy, Debug, PartialEq, Eq, Structural)]
pub enum Priority {
    Normal,
    High,
}

/// What a device shows for a plaintext message.
#[derive(Debug, PartialEq, Eq)]
pub struct Notification {
    pub title: String,
    pub body: String,
}

/// The data that a message to Firebase carries.
#[derive(Debug, PartialEq, Eq)]
pub enum FcmData {
    Raw(RawPushMessage),
    Payload(MessagePayload),
}

/// A message to one device, as it is handed to Firebase.
#[derive(Debug, PartialEq, Eq)]
pub struct FcmMessage {
    pub api_key: String,
    pub to: String,
    pub data: FcmData,
    pub notification: Option<Notification>,
    pub priority: Option<Priority>,
    pub content_available: Option<bool>,
}

/// Marks a message for delivery with high priority and as content for the
/// application, without which a message of data alone only arrives while
/// the application is active.
pub fn set_message_priority_high(message: &mut FcmMessage)
    ensures
        *final(message) == (FcmMessage {
            priority: Some(Priority::High),
            content_available: Some(true),
            ..*old(message)
        }),
{
    message.priority = Some(Priority::High);
    message.content_available = Some(true);
}

/// What Firebase answered to a message, or why the request failed: the
/// reason of a refusal, if the answer holds one.
pub type FcmOutcome = Result<Option<FcmErrorReason>, FcmFailure>;

/// Sends push messages through the legacy Firebase API with a tenant's API
/// key.
#[derive(Debug, PartialEq, Eq)]
pub struct FcmProvider {
    pub api_key: String,
}

impl Clone for FcmProvider {
    fn clone(&self) -> (copy: Self)
        ensures
            copy == *self,
    {
        FcmProvider { api_key: self.api_key.clone() }
    }
}

impl FcmProvider {
    pub fn new(api_key: String) -> (provider: FcmProvider)
        ensures
            provider.api_key == api_key,
    {
        FcmProvider { api_key }
    }

    /// The provider in words, for logs.
    pub fn description(&self) -> (text: String)
        ensures
            text@ == "[FcmProvider] api_key = "@ + self.api_key@,
    {
        "[FcmProvider] api_key = ".to_owned().concat(self.api_key.as_str())
    }

    /// Whether a message is delivered silently: a raw message always is,
    /// and so is one with an encrypted payload.
    pub open spec fn silent(body: PushMessage) -> bool {
        match body {
            PushMessage::RawPushMessage(_) => true,
            PushMessage::LegacyPushMessage(message) => message.payload.is_encrypted(),
        }
    }

    /// Whether `result` is the message to hand to Firebase for a device, or
    /// the reason why there is none.
    ///
    /// A message that is delivered silently carries its data, raw or
    /// payload, with high priority and marked as content for the
    /// application, and shows nothing. A plaintext message carries its
    /// payload and shows the title and body of its blob; a blob that cannot
    /// be read fails as `DecryptedPayloadBlob::from_base64_encoded` says.
    pub open spec fn builds(
        &self,
        token: String,
        body: PushMessage,
        result: Result<FcmMessage, Error>,
    ) -> bool {
        match body {
            PushMessage::RawPushMessage(message) => result == Ok::<FcmMessage, Error>(
                FcmMessage {
                    api_key: self.api_key,
                    to: token,
                    data: FcmData::Raw(message),
                    notification: None,
                    priority: Some(Priority::High),
                    content_available: Some(true),
                },
            ),
            PushMessage::LegacyPushMessage(message) => if message.payload.is_encrypted() {
                result == Ok::<FcmMessage, Error>(
                    FcmMessage {
                        api_key: self.api_key,
                        to: token,
                        data: FcmData::Payload(message.payload),
                        notification: None,
                        priority: Some(Priority::High),
                        content_available: Some(true),
                    },
                )
            } else {
                match base64_decoding(message.payload.blob@) {
                    None => result == Err::<FcmMessage, Error>(Error::Base64Decode),
                    Some(document) => match (
                        json_text(document, "title"@),
                        json_text(document, "body"@),
                    ) {
                        (Some(title), Some(text)) => {
                            &&& result is Ok
                            &&& result->Ok_0.api_key == self.api_key
                            &&& result->Ok_0.to == token
                            &&& result->Ok_0.data == FcmData::Payload(message.payload)
                            &&& result->Ok_0.notification is Some
                            &&& result->Ok_0.notification->0.title@ == title
                            &&& result->Ok_0.notification->0.body@ == text
                            &&& result->Ok_0.priority is None
                            &&& result->Ok_0.content_available is None
                        },
                        _ => result == Err::<FcmMessage, Error>(Error::InvalidBlob),
                    },
                }
            },
        }
    }

    /// The message to hand to Firebase for a device, as `builds` says.
    pub fn build_message(&self, token: String, body: PushMessage) -> (result: Result<
        FcmMessage,
        Error,
    >)
        ensures
            self.builds(token, body, result),
    {
        match body {
            PushMessage::RawPushMessage(message) => {
                let mut fcm_message = FcmMessage {
                    api_key: self.api_key.clone(),
                    to: token,
                    data: FcmData::Raw(message),
                    notification: None,
                    priority: None,
                    content_available: None,
                };
                set_message_priority_high(&mut fcm_message);
                Ok(fcm_message)
            },
            PushMessage::LegacyPushMessage(LegacyPushMessage { id: _, payload }) => {
                if payload.is_encrypted() {
                    let mut fcm_message = FcmMessage {
                        api_key: self.api_key.clone(),
                        to: token,
                        data: FcmData::Payload(payload),
                        notification: None,
                        priority: None,
                        content_available: None,
                    };
                    set_message_priority_high(&mut fcm_message);
                    Ok(fcm_message)
                } else {
                    let blob = DecryptedPayloadBlob::from_base64_encoded(payload.blob.as_str())?;
                    Ok(
                        FcmMessage {
                            api_key: self.api_key.clone(),
                            to: token,
                            data: FcmData::Payload(payload),
                            notification: Some(Notification { title: blob.title, body: blob.body }),
                            priority: None,
                            content_available: None,
                        },
                    )
                }
            },
        }
    }

    /// Whether an outcome stands for a delivered message.
    pub open spec fn delivered(outcome: FcmOutcome) -> bool {
        outcome == Ok::<Option<FcmErrorReason>, FcmFailure>(None)
    }

    /// Whether `result` is what an answer of Firebase comes to in the
    /// shared shape.
    ///
    /// An answer without a reason is a delivered message. A registration
    /// that is missing, invalid or unknown is `BadDeviceToken`, with a
    /// description of which; a problem with the APNS credentials behind
    /// Firebase is `BadApnsCredentials`; a rejected API key is
    /// `BadFcmApiKey`. Any other reason or failure is passed on as it came.
    pub open spec fn normalizes(outcome: FcmOutcome, result: Result<(), Error>) -> bool {
        match outcome {
            Ok(None) => result is Ok,
            Ok(Some(FcmErrorReason::MissingRegistration)) => (result matches Err(
                Error::BadDeviceToken(description),
            ) && description@ == "Missing registration for token"@),
            Ok(Some(FcmErrorReason::InvalidRegistration)) => (result matches Err(
                Error::BadDeviceToken(description),
            ) && description@ == "Invalid token registration"@),
            Ok(Some(FcmErrorReason::NotRegistered)) => (result matches Err(
                Error::BadDeviceToken(description),
            ) && description@ == "Token is not registered"@),
            Ok(Some(FcmErrorReason::InvalidApnsCredential)) => result == Err::<(), Error>(
                Error::BadApnsCredentials,
            ),
            Ok(Some(reason)) => result == Err::<(), Error>(Error::FcmResponse(reason)),
            Err(FcmFailure::Unauthorized) => result == Err::<(), Error>(Error::BadFcmApiKey),
            Err(failure) => result == Err::<(), Error>(Error::Fcm(failure)),
        }
    }

    /// Brings what Firebase answered into the shared shape, as
    /// `normalizes` says. Only a problem with the APNS credentials and a
    /// rejected API key come out as credential errors.
    pub fn normalize_response(outcome: FcmOutcome) -> (result: Result<(), Error>)
        ensures
            Self::normalizes(outcome, result),
            result is Ok <==> Self::delivered(outcome),
            (result is Err && result->Err_0.is_credential_error()) <==> (outcome == Ok::<
                Option<FcmErrorReason>,
                FcmFailure,
            >(Some(FcmErrorReason::InvalidApnsCredential)) || outcome == Err::<
                Option<FcmErrorReason>,
                FcmFailure,
            >(FcmFailure::Unauthorized)),
    {
        match outcome {
            Ok(None) => Ok(()),
            Ok(Some(reason)) => match reason {
                FcmErrorReason::MissingRegistration => Err(
                    Error::BadDeviceToken("Missing registration for token".to_owned()),
                ),
                FcmErrorReason::InvalidRegistration => Err(
                    Error::BadDeviceToken("Invalid token registration".to_owned()),
                ),
                FcmErrorReason::NotRegistered => Err(
                    Error::BadDeviceToken("Token is not registered".to_owned()),
                ),
                FcmErrorReason::InvalidApnsCredential => Err(Error::BadApnsCredentials),
                reason => Err(Error::FcmResponse(reason)),
            },
            Err(failure) => match failure {
                FcmFailure::Unauthorized => Err(Error::BadFcmApiKey),
                failure => Err(Error::Fcm(failure)),
            },
        }
    }

    /// Sends a message to a device, once. `send` stands for the connection
    /// to Firebase: it takes the message and hands back what Firebase
    /// answered.
    ///
    /// Where no message can be built nothing is sent and the reason is the
    /// result. Otherwise the message that `builds` describes is handed to
    /// `send`, and the result is what its answer comes to by `normalizes`.
    pub fn send_notification<S>(&self, token: String, body: PushMessage, send: S) -> (result: Result<
        (),
        Error,
    >) where S: FnOnce(FcmMessage) -> FcmOutcome
        requires
            forall|message: FcmMessage| call_requires(send, (message,)),
        ensures
            exists|built: Result<FcmMessage, Error>| #[trigger]
                self.builds(token, body, built) && (match built {
                    Err(error) => result == Err::<(), Error>(error),
                    Ok(message) => exists|outcome: FcmOutcome| #[trigger]
                        call_ensures(send, (message,), outcome) && Self::normalizes(
                            outcome,
                            result,
                        ),
                }),
    {
        let built = self.build_message(token, body);
        match built {
            Err(error) => {
                assert(self.builds(token, body, Err::<FcmMessage, Error>(error)));
                Err(error)
            },
            Ok(message) => {
                let ghost handed = message;
                let outcome = send(message);
                let result = Self::normalize_response(outcome);
                assert(self.builds(token, body, Ok::<FcmMessage, Error>(handed)));
                assert(call_ensures(send, (handed,), outcome) && Self::normalizes(outcome, result));
                result
            },
        }
    }
}

} // verus!
