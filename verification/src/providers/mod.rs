use vstd::prelude::*;
use crate::error::Error;
use crate::providers::fcm::FcmProvider;
use crate::text::{lowercase, str_eq, to_lowercase};

pub mod apns;
pub mod fcm;

verus! {

/// The push providers that a client can be registered for.
#[derive(Clone, Copy, Debug, PartialEq, Eq, Structural)]
pub enum ProviderKind {
    Apns,
    ApnsSandbox,
    Fcm,
    FcmV1,
}

impl ProviderKind {
    /// The name under which the provider is registered and reported.
    pub open spec fn spec_as_str(&self) -> Seq<char> {
        match *self {
            ProviderKind::Apns => "apns"@,
            ProviderKind::ApnsSandbox => "apns-sandbox"@,
            ProviderKind::Fcm => "fcm"@,
            ProviderKind::FcmV1 => "fcm_v1"@,
        }
    }

    pub fn as_str(&self) -> (name: &'static str)
        ensures
            name@ == self.spec_as_str(),
    {
        match self {
            ProviderKind::Apns => "apns",
            ProviderKind::ApnsSandbox => "apns-sandbox",
            ProviderKind::Fcm => "fcm",
            ProviderKind::FcmV1 => "fcm_v1",
        }
    }

    /// The provider that a name in lowercase stands for, if any.
    pub open spec fn spec_from_lowercase(lower: Seq<char>) -> Option<ProviderKind> {
        if lower == "apns"@ {
            Some(ProviderKind::Apns)
        } else if lower == "apns-sandbox"@ {
            Some(ProviderKind::ApnsSandbox)
        } else if lower == "fcm"@ {
            Some(ProviderKind::Fcm)
        } else if lower == "fcm_v1"@ {
            Some(ProviderKind::FcmV1)
        } else {
            None
        }
    }

    /// The provider that a name in lowercase stands for, if any.
    pub fn from_lowercase(lower: &str) -> (kind: Option<ProviderKind>)
        ensures
            kind == Self::spec_from_lowercase(lower@),
    {
        if str_eq(lower, "apns") {
            Some(ProviderKind::Apns)
        } else if str_eq(lower, "apns-sandbox") {
            Some(ProviderKind::ApnsSandbox)
        } else if str_eq(lower, "fcm") {
            Some(ProviderKind::Fcm)
        } else if str_eq(lower, "fcm_v1") {
            Some(ProviderKind::FcmV1)
        } else {
            None
        }
    }

    /// The provider that a name stands for, in any case. A name of no
    /// provider is reported as it was given.
    pub fn from_name(name: &str) -> (result: Result<ProviderKind, Error>)
        ensures
            match Self::spec_from_lowercase(lowercase(name@)) {
                Some(kind) => result == Ok::<ProviderKind, Error>(kind),
                None => result matches Err(Error::ProviderNotFound(unknown)) && unknown@ == name@,
            },
    {
        let lower = to_lowercase(name);
        match Self::from_lowercase(lower.as_str()) {
            Some(kind) => Ok(kind),
            None => Err(Error::ProviderNotFound(name.to_owned())),
        }
    }
}

/// Every provider is found again under its own name.
pub proof fn lemma_provider_names_distinct(kind: ProviderKind)
    ensures
        ProviderKind::spec_from_lowercase(kind.spec_as_str()) == Some(kind),
{
    reveal_strlit("apns");
    reveal_strlit("apns-sandbox");
    reveal_strlit("fcm");
    reveal_strlit("fcm_v1");
    assert("apns"@.len() == 4 && "apns-sandbox"@.len() == 12);
    assert("fcm"@.len() == 3 && "fcm_v1"@.len() == 6);
}

/// The payload of a message that is addressed to a client by topic:
/// a blob, and flags that say how to read it.
#[derive(Debug, PartialEq, Eq)]
pub struct MessagePayload {
    pub topic: String,
    pub flags: u32,
    pub blob: String,
}

/// The flag of a payload whose blob is encrypted.
pub const ENCRYPTED_FLAG: u32 = 1;

impl MessagePayload {
    /// Whether the blob is encrypted. An encrypted blob is delivered
    /// silently; a plaintext blob is shown as a notification.
    pub open spec fn spec_is_encrypted(&self) -> bool {
        self.flags & ENCRYPTED_FLAG == ENCRYPTED_FLAG
    }

    #[verifier::when_used_as_spec(spec_is_encrypted)]
    pub fn is_encrypted(&self) -> (encrypted: bool)
        ensures
            encrypted == self.spec_is_encrypted(),
    {
        self.flags & ENCRYPTED_FLAG == ENCRYPTED_FLAG
    }
}

/// A message with an id of its own and a payload.
#[derive(Debug, PartialEq, Eq)]
pub struct LegacyPushMessage {
    pub id: String,
    pub payload: MessagePayload,
}

/// A message that is ciphertext throughout and is never shown by the
/// provider.
#[derive(Debug, PartialEq, Eq)]
pub struct RawPushMessage {
    pub topic: String,
    pub tag: u32,
    pub message: String,
}

/// A message to push to one device.
#[derive(Debug, PartialEq, Eq)]
pub enum PushMessage {
    RawPushMessage(RawPushMessage),
    LegacyPushMessage(LegacyPushMessage),
}

/// A push provider, set up with the credentials of one tenant.
#[derive(Debug, PartialEq, Eq)]
pub enum Provider {
    /// APNS, authenticated by a client certificate.
    ApnsCertificate { sandbox: bool, topic: String, certificate: String, password: String },
    /// APNS, authenticated by signed tokens.
    ApnsToken { sandbox: bool, topic: String, pkcs8_pem: String, key_id: String, team_id: String },
    /// The legacy Firebase API.
    Fcm(FcmProvider),
    /// The Firebase v1 API.
    FcmV1 { credentials: String },
}

impl Provider {
    /// The kind of provider that this is.
    pub open spec fn spec_kind(&self) -> ProviderKind {
        match *self {
            Provider::ApnsCertificate { sandbox, .. } | Provider::ApnsToken { sandbox, .. } => if sandbox {
                ProviderKind::ApnsSandbox
            } else {
                ProviderKind::Apns
            },
            Provider::Fcm(_) => ProviderKind::Fcm,
            Provider::FcmV1 { .. } => ProviderKind::FcmV1,
        }
    }

    #[verifier::when_used_as_spec(spec_kind)]
    pub fn kind(&self) -> (kind: ProviderKind)
        ensures
            kind == self.spec_kind(),
    {
        let sandbox = match self {
            Provider::ApnsCertificate { sandbox, .. } => *sandbox,
            Provider::ApnsToken { sandbox, .. } => *sandbox,
            Provider::Fcm(_) => {
                return ProviderKind::Fcm;
            },
            Provider::FcmV1 { .. } => {
                return ProviderKind::FcmV1;
            },
        };
        if sandbox {
            ProviderKind::ApnsSandbox
        } else {
            ProviderKind::Apns
        }
    }
}

} // verus!
