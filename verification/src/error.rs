use vstd::prelude::*;

verus! {

/// Why the legacy Firebase endpoint refused a message it had received.
#[derive(Clone, Copy, Debug, PartialEq, Eq, Structural)]
pub enum FcmErrorReason {
    MissingRegistration,
    InvalidRegistration,
    NotRegistered,
    InvalidPackageName,
    MismatchSenderId,
    InvalidParameters,
    MessageTooBig,
    InvalidDataKey,
    InvalidTtl,
    Unavailable,
    InternalServerError,
    DeviceMessageRateExceeded,
    TopicsMessageRateExceeded,
    InvalidApnsCredential,
}

/// Why a request to the legacy Firebase endpoint did not produce a response
/// body at all.
#[derive(Debug, PartialEq, Eq)]
pub enum FcmFailure {
    /// The endpoint rejected the API key.
    Unauthorized,
    /// The endpoint rejected the message as malformed.
    InvalidMessage(String),
    /// The endpoint could not process the request.
    ServerError,
}

/// Broad families of failure; they decide how a failure is reported and
/// whether it counts against the tenant's credentials.
#[derive(Clone, Copy, Debug, PartialEq, Eq, Structural)]
pub enum ErrorKind {
    Authentication,
    Validation,
    Credential,
    Delivery,
    Internal,
}

/// Everything that can go wrong while serving a request.
#[derive(Debug, PartialEq, Eq)]
pub enum Error {
    /// The caller presented no acceptable proof of identity.
    InvalidAuthentication,
    /// A signed request carried a timestamp but no signature.
    MissingSignatureHeader,
    /// A signed request carried a signature but no timestamp.
    MissingTimestampHeader,
    /// A signed request carried neither header, or carried both and the
    /// signature did not verify.
    MissingAllSignatureHeader,
    /// The signature header is not hexadecimal text.
    Hex,
    /// The decoded signature does not have the length of an Ed25519 signature.
    Signature,
    /// The bearer token is not a valid signed token for this service.
    Jwt,
    /// The request body is larger than the service accepts.
    ToBytesError,
    /// The inner extractor rejected the request.
    FromRequestError,
    /// The submitted credential fields match no accepted combination.
    InvalidMultipartBody,
    /// A required field was submitted empty; carries the field's name.
    EmptyField(String),
    /// The named provider does not exist.
    ProviderNotFound(String),
    /// The tenant is not set up for the named provider.
    ProviderNotAvailable(String),
    /// No tenant has this id.
    TenantNotFound(String),
    /// No client has this id within the tenant.
    ClientNotFound(String),
    /// The APNS credentials are unusable or were rejected.
    BadApnsCredentials,
    /// The legacy Firebase API key is missing or was rejected.
    BadFcmApiKey,
    /// The Firebase v1 service-account credentials are missing or were
    /// rejected.
    BadFcmV1Credentials,
    /// The provider does not know the device token; carries a description.
    BadDeviceToken(String),
    /// A refusal by the legacy Firebase endpoint with no shared equivalent.
    FcmResponse(FcmErrorReason),
    /// A failed request to the legacy Firebase endpoint with no shared
    /// equivalent.
    Fcm(FcmFailure),
    /// The plaintext notification blob is not base64 text.
    Base64Decode,
    /// The plaintext notification blob is not the expected JSON object.
    InvalidBlob,
    /// The outbound payload could not be encoded.
    InternalSerializationError,
    /// The store failed; carries what it reported, which no caller is
    /// shown.
    Store(String),
}

impl Error {
    /// The family a failure belongs to.
    pub open spec fn spec_kind(&self) -> ErrorKind {
        match *self {
            Error::InvalidAuthentication
            | Error::MissingSignatureHeader
            | Error::MissingTimestampHeader
            | Error::MissingAllSignatureHeader
            | Error::Hex
            | Error::Signature
            | Error::Jwt => ErrorKind::Authentication,
            Error::ToBytesError
            | Error::FromRequestError
            | Error::InvalidMultipartBody
            | Error::EmptyField(_)
            | Error::ProviderNotFound(_)
            | Error::ProviderNotAvailable(_)
            | Error::TenantNotFound(_)
            | Error::ClientNotFound(_)
            | Error::Base64Decode
            | Error::InvalidBlob => ErrorKind::Validation,
            Error::BadApnsCredentials
            | Error::BadFcmApiKey
            | Error::BadFcmV1Credentials => ErrorKind::Credential,
            Error::BadDeviceToken(_) | Error::FcmResponse(_) | Error::Fcm(_) => ErrorKind::Delivery,
            Error::InternalSerializationError | Error::Store(_) => ErrorKind::Internal,
        }
    }

    #[verifier::when_used_as_spec(spec_kind)]
    pub fn kind(&self) -> (k: ErrorKind)
        ensures
            k == self.spec_kind(),
    {
        match self {
            Error::InvalidAuthentication
            | Error::MissingSignatureHeader
            | Error::MissingTimestampHeader
            | Error::MissingAllSignatureHeader
            | Error::Hex
            | Error::Signature
            | Error::Jwt => ErrorKind::Authentication,
            Error::ToBytesError
            | Error::FromRequestError
            | Error::InvalidMultipartBody
            | Error::EmptyField(_)
            | Error::ProviderNotFound(_)
            | Error::ProviderNotAvailable(_)
            | Error::TenantNotFound(_)
            | Error::ClientNotFound(_)
            | Error::Base64Decode
            | Error::InvalidBlob => ErrorKind::Validation,
            Error::BadApnsCredentials
            | Error::BadFcmApiKey
            | Error::BadFcmV1Credentials => ErrorKind::Credential,
            Error::BadDeviceToken(_) | Error::FcmResponse(_) | Error::Fcm(_) => ErrorKind::Delivery,
            Error::InternalSerializationError | Error::Store(_) => ErrorKind::Internal,
        }
    }

    /// A send that fails with such an error is the event on which the
    /// tenant is suspended.
    pub open spec fn spec_is_credential_error(&self) -> bool {
        self.spec_kind() == ErrorKind::Credential
    }

    #[verifier::when_used_as_spec(spec_is_credential_error)]
    pub fn is_credential_error(&self) -> (b: bool)
        ensures
            b == self.spec_is_credential_error(),
    {
        match self.kind() {
            ErrorKind::Credential => true,
            _ => false,
        }
    }

    /// The HTTP status that reports the failure: 401 where the caller
    /// could not be authenticated, 404 where what the request names does
    /// not exist, 500 for an internal failure, and 400 otherwise.
    pub open spec fn spec_status_code(&self) -> u16 {
        match *self {
            Error::TenantNotFound(_) | Error::ClientNotFound(_) | Error::ProviderNotFound(_) => 404,
            _ => match self.spec_kind() {
                ErrorKind::Authentication => 401,
                ErrorKind::Internal => 500,
                _ => 400,
            },
        }
    }

    #[verifier::when_used_as_spec(spec_status_code)]
    pub fn status_code(&self) -> (code: u16)
        ensures
            code == self.spec_status_code(),
    {
        match self {
            Error::TenantNotFound(_) | Error::ClientNotFound(_) | Error::ProviderNotFound(_) => 404,
            _ => match self.kind() {
                ErrorKind::Authentication => 401,
                ErrorKind::Internal => 500,
                _ => 400,
            },
        }
    }

    /// The name under which the failure is reported.
    pub open spec fn spec_name(&self) -> Seq<char> {
        match *self {
            Error::InvalidAuthentication => "InvalidAuthentication"@,
            Error::MissingSignatureHeader => "MissingSignatureHeader"@,
            Error::MissingTimestampHeader => "MissingTimestampHeader"@,
            Error::MissingAllSignatureHeader => "MissingAllSignatureHeader"@,
            Error::Hex => "Hex"@,
            Error::Signature => "Signature"@,
            Error::Jwt => "Jwt"@,
            Error::ToBytesError => "ToBytesError"@,
            Error::FromRequestError => "FromRequestError"@,
            Error::InvalidMultipartBody => "InvalidMultipartBody"@,
            Error::EmptyField(_) => "EmptyField"@,
            Error::ProviderNotFound(_) => "ProviderNotFound"@,
            Error::ProviderNotAvailable(_) => "ProviderNotAvailable"@,
            Error::TenantNotFound(_) => "TenantNotFound"@,
            Error::ClientNotFound(_) => "ClientNotFound"@,
            Error::BadApnsCredentials => "BadApnsCredentials"@,
            Error::BadFcmApiKey => "BadFcmApiKey"@,
            Error::BadFcmV1Credentials => "BadFcmV1Credentials"@,
            Error::BadDeviceToken(_) => "BadDeviceToken"@,
            Error::FcmResponse(_) => "FcmResponse"@,
            Error::Fcm(_) => "Fcm"@,
            Error::Base64Decode => "Base64Decode"@,
            Error::InvalidBlob => "InvalidBlob"@,
            Error::InternalSerializationError => "InternalSerializationError"@,
            Error::Store(_) => "Store"@,
        }
    }

    pub fn name(&self) -> (name: &'static str)
        ensures
            name@ == self.spec_name(),
    {
        match self {
            Error::InvalidAuthentication => "InvalidAuthentication",
            Error::MissingSignatureHeader => "MissingSignatureHeader",
            Error::MissingTimestampHeader => "MissingTimestampHeader",
            Error::MissingAllSignatureHeader => "MissingAllSignatureHeader",
            Error::Hex => "Hex",
            Error::Signature => "Signature",
            Error::Jwt => "Jwt",
            Error::ToBytesError => "ToBytesError",
            Error::FromRequestError => "FromRequestError",
            Error::InvalidMultipartBody => "InvalidMultipartBody",
            Error::EmptyField(_) => "EmptyField",
            Error::ProviderNotFound(_) => "ProviderNotFound",
            Error::ProviderNotAvailable(_) => "ProviderNotAvailable",
            Error::TenantNotFound(_) => "TenantNotFound",
            Error::ClientNotFound(_) => "ClientNotFound",
            Error::BadApnsCredentials => "BadApnsCredentials",
            Error::BadFcmApiKey => "BadFcmApiKey",
            Error::BadFcmV1Credentials => "BadFcmV1Credentials",
            Error::BadDeviceToken(_) => "BadDeviceToken",
            Error::FcmResponse(_) => "FcmResponse",
            Error::Fcm(_) => "Fcm",
            Error::Base64Decode => "Base64Decode",
            Error::InvalidBlob => "InvalidBlob",
            Error::InternalSerializationError => "InternalSerializationError",
            Error::Store(_) => "Store",
        }
    }
}

impl ErrorKind {
    /// What a caller is told of a failure of this family. It says nothing
    /// of what went wrong inside.
    pub open spec fn spec_message(&self) -> Seq<char> {
        match *self {
            ErrorKind::Authentication => "The request could not be authenticated"@,
            ErrorKind::Validation => "The request is not valid"@,
            ErrorKind::Credential => "The push credentials were rejected"@,
            ErrorKind::Delivery => "The message could not be delivered"@,
            ErrorKind::Internal => "Internal error"@,
        }
    }

    pub fn message(&self) -> (message: &'static str)
        ensures
            message@ == self.spec_message(),
    {
        match self {
            ErrorKind::Authentication => "The request could not be authenticated",
            ErrorKind::Validation => "The request is not valid",
            ErrorKind::Credential => "The push credentials were rejected",
            ErrorKind::Delivery => "The message could not be delivered",
            ErrorKind::Internal => "Internal error",
        }
    }
}

} // verus!
