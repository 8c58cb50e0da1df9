use vstd::prelude::*;
use crate::error::Error;
use crate::providers::fcm::FcmProvider;
use crate::providers::{Provider, ProviderKind};
use crate::text::{clone_text, str_eq};

verus! {

/// Which of the two APNS authentication schemes a tenant uses.
#[derive(Clone, Copy, Debug, PartialEq, Eq, Structural)]
pub enum ApnsType {
    Certificate,
    Token,
}

/// New APNS authentication material for a tenant: exactly one of the two
/// schemes.
#[derive(Debug, PartialEq, Eq)]
pub enum TenantApnsUpdateAuth {
    Certificate { apns_certificate: String, apns_certificate_password: String },
    Token { apns_pkcs8_pem: String, apns_key_id: String, apns_team_id: String },
}

/// What a `TenantApnsUpdateAuth` holds, as text.
pub enum ApnsAuthView {
    Certificate { certificate: Seq<char>, password: Seq<char> },
    Token { pkcs8_pem: Seq<char>, key_id: Seq<char>, team_id: Seq<char> },
}

impl View for TenantApnsUpdateAuth {
    type V = ApnsAuthView;

    open spec fn view(&self) -> ApnsAuthView {
        match *self {
            TenantApnsUpdateAuth::Certificate { apns_certificate, apns_certificate_password } =>
                ApnsAuthView::Certificate {
                    certificate: apns_certificate@,
                    password: apns_certificate_password@,
                },
            TenantApnsUpdateAuth::Token { apns_pkcs8_pem, apns_key_id, apns_team_id } =>
                ApnsAuthView::Token {
                    pkcs8_pem: apns_pkcs8_pem@,
                    key_id: apns_key_id@,
                    team_id: apns_team_id@,
                },
        }
    }
}

impl Clone for TenantApnsUpdateAuth {
    fn clone(&self) -> (copy: Self)
        ensures
            copy == *self,
    {
        match self {
            TenantApnsUpdateAuth::Certificate { apns_certificate, apns_certificate_password } =>
                TenantApnsUpdateAuth::Certificate {
                    apns_certificate: apns_certificate.clone(),
                    apns_certificate_password: apns_certificate_password.clone(),
                },
            TenantApnsUpdateAuth::Token { apns_pkcs8_pem, apns_key_id, apns_team_id } =>
                TenantApnsUpdateAuth::Token {
                    apns_pkcs8_pem: apns_pkcs8_pem.clone(),
                    apns_key_id: apns_key_id.clone(),
                    apns_team_id: apns_team_id.clone(),
                },
        }
    }
}

/// Identifies the tenant to provision.
#[derive(Debug, PartialEq, Eq)]
pub struct TenantUpdateParams {
    pub id: String,
}

/// A new APNS topic for a tenant.
#[derive(Debug, PartialEq, Eq)]
pub struct TenantApnsUpdateParams {
    pub apns_topic: String,
}

/// A new legacy Firebase API key for a tenant.
#[derive(Debug, PartialEq, Eq)]
pub struct TenantFcmUpdateParams {
    pub fcm_api_key: String,
}

/// New Firebase v1 service-account credentials for a tenant.
#[derive(Debug, PartialEq, Eq)]
pub struct TenantFcmV1UpdateParams {
    pub fcm_v1_credentials: String,
}

/// A tenant: its push credentials and whether they are known to be bad.
#[derive(Debug, PartialEq, Eq)]
pub struct Tenant {
    pub id: String,
    pub fcm_api_key: Option<String>,
    pub fcm_v1_credentials: Option<String>,
    pub apns_type: Option<ApnsType>,
    pub apns_topic: Option<String>,
    pub apns_certificate: Option<String>,
    pub apns_certificate_password: Option<String>,
    pub apns_pkcs8_pem: Option<String>,
    pub apns_key_id: Option<String>,
    pub apns_team_id: Option<String>,
    pub suspended: bool,
}

/// What a `Tenant` holds, as text.
pub struct TenantView {
    pub id: Seq<char>,
    pub fcm_api_key: Option<Seq<char>>,
    pub fcm_v1_credentials: Option<Seq<char>>,
    pub apns_type: Option<ApnsType>,
    pub apns_topic: Option<Seq<char>>,
    pub apns_certificate: Option<Seq<char>>,
    pub apns_certificate_password: Option<Seq<char>>,
    pub apns_pkcs8_pem: Option<Seq<char>>,
    pub apns_key_id: Option<Seq<char>>,
    pub apns_team_id: Option<Seq<char>>,
    pub suspended: bool,
}

impl View for Tenant {
    type V = TenantView;

    open spec fn view(&self) -> TenantView {
        TenantView {
            id: self.id@,
            fcm_api_key: self.fcm_api_key.deep_view(),
            fcm_v1_credentials: self.fcm_v1_credentials.deep_view(),
            apns_type: self.apns_type,
            apns_topic: self.apns_topic.deep_view(),
            apns_certificate: self.apns_certificate.deep_view(),
            apns_certificate_password: self.apns_certificate_password.deep_view(),
            apns_pkcs8_pem: self.apns_pkcs8_pem.deep_view(),
            apns_key_id: self.apns_key_id.deep_view(),
            apns_team_id: self.apns_team_id.deep_view(),
            suspended: self.suspended,
        }
    }
}

impl TenantView {
    /// A tenant as provisioned: no credentials, not suspended.
    pub open spec fn provisioned(id: Seq<char>) -> TenantView {
        TenantView {
            id,
            fcm_api_key: None,
            fcm_v1_credentials: None,
            apns_type: None,
            apns_topic: None,
            apns_certificate: None,
            apns_certificate_password: None,
            apns_pkcs8_pem: None,
            apns_key_id: None,
            apns_team_id: None,
            suspended: false,
        }
    }

    /// The APNS authentication fields hold one scheme or none, never parts
    /// of both.
    pub open spec fn well_formed(self) -> bool {
        match self.apns_type {
            Some(ApnsType::Certificate) => {
                &&& self.apns_certificate is Some
                &&& self.apns_certificate_password is Some
                &&& self.apns_pkcs8_pem is None
                &&& self.apns_key_id is None
                &&& self.apns_team_id is None
            },
            Some(ApnsType::Token) => {
                &&& self.apns_certificate is None
                &&& self.apns_certificate_password is None
                &&& self.apns_pkcs8_pem is Some
                &&& self.apns_key_id is Some
                &&& self.apns_team_id is Some
            },
            None => {
                &&& self.apns_certificate is None
                &&& self.apns_certificate_password is None
                &&& self.apns_pkcs8_pem is None
                &&& self.apns_key_id is None
                &&& self.apns_team_id is None
            },
        }
    }

    /// The APNS authentication material that the tenant holds: that of
    /// the scheme it uses, where every part of it is there.
    pub open spec fn apns_auth(self) -> Option<ApnsAuthView> {
        match self.apns_type {
            Some(ApnsType::Certificate) => match (
                self.apns_certificate,
                self.apns_certificate_password,
            ) {
                (Some(certificate), Some(password)) => Some(
                    ApnsAuthView::Certificate { certificate, password },
                ),
                _ => None,
            },
            Some(ApnsType::Token) => match (self.apns_pkcs8_pem, self.apns_key_id, self.apns_team_id) {
                (Some(pkcs8_pem), Some(key_id), Some(team_id)) => Some(
                    ApnsAuthView::Token { pkcs8_pem, key_id, team_id },
                ),
                _ => None,
            },
            None => None,
        }
    }

    /// Whether a value is the provider of the given kind, set up with what
    /// the tenant holds for it.
    pub open spec fn provides(self, kind: ProviderKind, provider: Provider) -> bool {
        match kind {
            ProviderKind::Apns | ProviderKind::ApnsSandbox => match (
                self.apns_topic,
                self.apns_auth(),
            ) {
                (Some(apns_topic), Some(ApnsAuthView::Certificate { certificate: held, password: word })) => {
                    &&& provider matches Provider::ApnsCertificate {
                        sandbox,
                        topic,
                        certificate,
                        password,
                    }
                    &&& sandbox == (kind == ProviderKind::ApnsSandbox)
                    &&& topic@ == apns_topic
                    &&& certificate@ == held
                    &&& password@ == word
                },
                (Some(apns_topic), Some(ApnsAuthView::Token { pkcs8_pem: held, key_id: key, team_id: team })) => {
                    &&& provider matches Provider::ApnsToken {
                        sandbox,
                        topic,
                        pkcs8_pem,
                        key_id,
                        team_id,
                    }
                    &&& sandbox == (kind == ProviderKind::ApnsSandbox)
                    &&& topic@ == apns_topic
                    &&& pkcs8_pem@ == held
                    &&& key_id@ == key
                    &&& team_id@ == team
                },
                _ => false,
            },
            ProviderKind::Fcm => match self.fcm_api_key {
                Some(key) => provider matches Provider::Fcm(fcm) && fcm.api_key@ == key,
                None => false,
            },
            ProviderKind::FcmV1 => match self.fcm_v1_credentials {
                Some(held) => provider matches Provider::FcmV1 { credentials } && credentials@
                    == held,
                None => false,
            },
        }
    }

    /// The error of a provider whose credentials are missing; it is a
    /// credential error for every kind.
    pub open spec fn missing_credentials(kind: ProviderKind) -> Error {
        match kind {
            ProviderKind::Apns | ProviderKind::ApnsSandbox => Error::BadApnsCredentials,
            ProviderKind::Fcm => Error::BadFcmApiKey,
            ProviderKind::FcmV1 => Error::BadFcmV1Credentials,
        }
    }

    /// Whether the tenant holds what a provider needs: for either APNS
    /// endpoint a topic and authentication material, for Firebase the API
    /// key or the credentials of the API in question.
    pub open spec fn supports(self, kind: ProviderKind) -> bool {
        match kind {
            ProviderKind::Apns | ProviderKind::ApnsSandbox => self.apns_topic is Some
                && self.apns_auth() is Some,
            ProviderKind::Fcm => self.fcm_api_key is Some,
            ProviderKind::FcmV1 => self.fcm_v1_credentials is Some,
        }
    }

    /// The providers that the tenant supports, APNS first.
    pub open spec fn providers(self) -> Seq<ProviderKind> {
        (if self.supports(ProviderKind::Apns) {
            seq![ProviderKind::Apns, ProviderKind::ApnsSandbox]
        } else {
            seq![]
        }) + (if self.supports(ProviderKind::Fcm) {
            seq![ProviderKind::Fcm]
        } else {
            seq![]
        }) + (if self.supports(ProviderKind::FcmV1) {
            seq![ProviderKind::FcmV1]
        } else {
            seq![]
        })
    }

    /// The tenant with a new APNS topic.
    pub open spec fn with_apns_topic(self, topic: Seq<char>) -> TenantView {
        TenantView { apns_topic: Some(topic), ..self }
    }

    /// The tenant with new APNS authentication material, which replaces
    /// whatever scheme it had.
    pub open spec fn with_apns_auth(self, auth: ApnsAuthView) -> TenantView {
        match auth {
            ApnsAuthView::Certificate { certificate, password } => TenantView {
                apns_type: Some(ApnsType::Certificate),
                apns_certificate: Some(certificate),
                apns_certificate_password: Some(password),
                apns_pkcs8_pem: None,
                apns_key_id: None,
                apns_team_id: None,
                ..self
            },
            ApnsAuthView::Token { pkcs8_pem, key_id, team_id } => TenantView {
                apns_type: Some(ApnsType::Token),
                apns_certificate: None,
                apns_certificate_password: None,
                apns_pkcs8_pem: Some(pkcs8_pem),
                apns_key_id: Some(key_id),
                apns_team_id: Some(team_id),
                ..self
            },
        }
    }

    /// The tenant without any APNS configuration.
    pub open spec fn without_apns(self) -> TenantView {
        TenantView {
            apns_type: None,
            apns_topic: None,
            apns_certificate: None,
            apns_certificate_password: None,
            apns_pkcs8_pem: None,
            apns_key_id: None,
            apns_team_id: None,
            ..self
        }
    }

    /// The tenant with a new legacy Firebase API key.
    pub open spec fn with_fcm(self, api_key: Seq<char>) -> TenantView {
        TenantView { fcm_api_key: Some(api_key), ..self }
    }

    /// The tenant without a legacy Firebase API key.
    pub open spec fn without_fcm(self) -> TenantView {
        TenantView { fcm_api_key: None, ..self }
    }

    /// The tenant with new Firebase v1 credentials.
    pub open spec fn with_fcm_v1(self, credentials: Seq<char>) -> TenantView {
        TenantView { fcm_v1_credentials: Some(credentials), ..self }
    }

    /// The tenant without Firebase v1 credentials.
    pub open spec fn without_fcm_v1(self) -> TenantView {
        TenantView { fcm_v1_credentials: None, ..self }
    }

    /// The tenant, suspended.
    pub open spec fn suspend(self) -> TenantView {
        TenantView { suspended: true, ..self }
    }

    /// The tenant, active.
    pub open spec fn unsuspend(self) -> TenantView {
        TenantView { suspended: false, ..self }
    }
}

impl Clone for Tenant {
    fn clone(&self) -> (copy: Self)
        ensures
            copy == *self,
    {
        Tenant {
            id: self.id.clone(),
            fcm_api_key: clone_text(&self.fcm_api_key),
            fcm_v1_credentials: clone_text(&self.fcm_v1_credentials),
            apns_type: self.apns_type,
            apns_topic: clone_text(&self.apns_topic),
            apns_certificate: clone_text(&self.apns_certificate),
            apns_certificate_password: clone_text(&self.apns_certificate_password),
            apns_pkcs8_pem: clone_text(&self.apns_pkcs8_pem),
            apns_key_id: clone_text(&self.apns_key_id),
            apns_team_id: clone_text(&self.apns_team_id),
            suspended: self.suspended,
        }
    }
}

impl Tenant {
    /// A tenant as provisioned: no credentials, not suspended.
    pub fn new(id: String) -> (tenant: Tenant)
        ensures
            tenant@ == TenantView::provisioned(id@),
    {
        Tenant {
            id,
            fcm_api_key: None,
            fcm_v1_credentials: None,
            apns_type: None,
            apns_topic: None,
            apns_certificate: None,
            apns_certificate_password: None,
            apns_pkcs8_pem: None,
            apns_key_id: None,
            apns_team_id: None,
            suspended: false,
        }
    }

    /// Whether the tenant holds what a provider needs.
    pub fn supports(&self, kind: ProviderKind) -> (supported: bool)
        ensures
            supported == self@.supports(kind),
    {
        match kind {
            ProviderKind::Apns | ProviderKind::ApnsSandbox => self.apns_topic.is_some() && (
            match self.apns_type {
                Some(ApnsType::Certificate) => self.apns_certificate.is_some()
                    && self.apns_certificate_password.is_some(),
                Some(ApnsType::Token) => self.apns_pkcs8_pem.is_some() && self.apns_key_id.is_some()
                    && self.apns_team_id.is_some(),
                None => false,
            }),
            ProviderKind::Fcm => self.fcm_api_key.is_some(),
            ProviderKind::FcmV1 => self.fcm_v1_credentials.is_some(),
        }
    }

    /// The providers that the tenant supports: each supported one, and no
    /// other.
    pub fn providers(&self) -> (supported: Vec<ProviderKind>)
        ensures
            supported@ == self@.providers(),
            forall|kind: ProviderKind| supported@.contains(kind) <==> self@.supports(kind),
    {
        let mut supported: Vec<ProviderKind> = Vec::new();
        if self.supports(ProviderKind::Apns) {
            supported.push(ProviderKind::Apns);
            supported.push(ProviderKind::ApnsSandbox);
        }
        if self.supports(ProviderKind::Fcm) {
            supported.push(ProviderKind::Fcm);
        }
        if self.supports(ProviderKind::FcmV1) {
            supported.push(ProviderKind::FcmV1);
        }
        proof {
            assert(supported@ =~= self@.providers());
            assert forall|kind: ProviderKind| supported@.contains(kind) <==> self@.supports(
                kind,
            ) by {
                if self@.supports(kind) {
                    if self@.supports(ProviderKind::Apns) {
                        assert(supported@[0] == ProviderKind::Apns);
                        assert(supported@[1] == ProviderKind::ApnsSandbox);
                    }
                    if self@.supports(ProviderKind::Fcm) && kind == ProviderKind::Fcm {
                        let at = if self@.supports(ProviderKind::Apns) {
                            2int
                        } else {
                            0int
                        };
                        assert(supported@[at] == kind);
                    }
                    if self@.supports(ProviderKind::FcmV1) && kind == ProviderKind::FcmV1 {
                        assert(supported@[supported@.len() - 1] == kind);
                    }
                }
            }
        }
        supported
    }

    /// The provider of the given kind, set up with the tenant's
    /// credentials for it. A tenant without them cannot send through the
    /// provider: that is a credential error, `BadApnsCredentials` for
    /// either APNS endpoint, `BadFcmApiKey` or `BadFcmV1Credentials` for
    /// Firebase.
    pub fn provider(&self, kind: ProviderKind) -> (result: Result<Provider, Error>)
        ensures
            self@.supports(kind) ==> result is Ok && self@.provides(kind, result->Ok_0)
                && result->Ok_0.kind() == kind,
            !self@.supports(kind) ==> result is Err && result->Err_0
                == TenantView::missing_credentials(kind) && result->Err_0.is_credential_error(),
    {
        match kind {
            ProviderKind::Apns | ProviderKind::ApnsSandbox => {
                let sandbox = match kind {
                    ProviderKind::ApnsSandbox => true,
                    _ => false,
                };
                let topic = match &self.apns_topic {
                    Some(topic) => topic.clone(),
                    None => {
                        return Err(Error::BadApnsCredentials);
                    },
                };
                match self.apns_type {
                    Some(ApnsType::Certificate) => match (
                        &self.apns_certificate,
                        &self.apns_certificate_password,
                    ) {
                        (Some(certificate), Some(password)) => Ok(
                            Provider::ApnsCertificate {
                                sandbox,
                                topic,
                                certificate: certificate.clone(),
                                password: password.clone(),
                            },
                        ),
                        _ => Err(Error::BadApnsCredentials),
                    },
                    Some(ApnsType::Token) => match (
                        &self.apns_pkcs8_pem,
                        &self.apns_key_id,
                        &self.apns_team_id,
                    ) {
                        (Some(pkcs8_pem), Some(key_id), Some(team_id)) => Ok(
                            Provider::ApnsToken {
                                sandbox,
                                topic,
                                pkcs8_pem: pkcs8_pem.clone(),
                                key_id: key_id.clone(),
                                team_id: team_id.clone(),
                            },
                        ),
                        _ => Err(Error::BadApnsCredentials),
                    },
                    None => Err(Error::BadApnsCredentials),
                }
            },
            ProviderKind::Fcm => match &self.fcm_api_key {
                Some(api_key) => Ok(Provider::Fcm(FcmProvider::new(api_key.clone()))),
                None => Err(Error::BadFcmApiKey),
            },
            ProviderKind::FcmV1 => match &self.fcm_v1_credentials {
                Some(credentials) => Ok(Provider::FcmV1 { credentials: credentials.clone() }),
                None => Err(Error::BadFcmV1Credentials),
            },
        }
    }

    /// Replaces the APNS authentication material, whatever scheme the
    /// tenant had.
    pub fn set_apns_auth(&mut self, auth: TenantApnsUpdateAuth)
        ensures
            final(self)@ == old(self)@.with_apns_auth(auth@),
    {
        match auth {
            TenantApnsUpdateAuth::Certificate { apns_certificate, apns_certificate_password } => {
                self.apns_type = Some(ApnsType::Certificate);
                self.apns_certificate = Some(apns_certificate);
                self.apns_certificate_password = Some(apns_certificate_password);
                self.apns_pkcs8_pem = None;
                self.apns_key_id = None;
                self.apns_team_id = None;
            },
            TenantApnsUpdateAuth::Token { apns_pkcs8_pem, apns_key_id, apns_team_id } => {
                self.apns_type = Some(ApnsType::Token);
                self.apns_certificate = None;
                self.apns_certificate_password = None;
                self.apns_pkcs8_pem = Some(apns_pkcs8_pem);
                self.apns_key_id = Some(apns_key_id);
                self.apns_team_id = Some(apns_team_id);
            },
        }
    }

    /// Removes the whole APNS configuration.
    pub fn clear_apns(&mut self)
        ensures
            final(self)@ == old(self)@.without_apns(),
    {
        self.apns_type = None;
        self.apns_topic = None;
        self.apns_certificate = None;
        self.apns_certificate_password = None;
        self.apns_pkcs8_pem = None;
        self.apns_key_id = None;
        self.apns_team_id = None;
    }
}

/// Suspension is idempotent: to suspend a suspended tenant, or to unsuspend
/// an active one, changes nothing, and so does a second suspension or
/// unsuspension after a first.
pub proof fn lemma_suspension_idempotent(tenant: TenantView)
    ensures
        tenant.suspended ==> tenant.suspend() == tenant,
        !tenant.suspended ==> tenant.unsuspend() == tenant,
        tenant.suspend().suspend() == tenant.suspend(),
        tenant.unsuspend().unsuspend() == tenant.unsuspend(),
{
}

/// A store that was asked to suspend a suspended tenant, or to unsuspend
/// an active one, holds what it held before, and hands back the tenant as
/// it was.
pub proof fn lemma_repeated_suspension_changes_nothing(
    before: Map<Seq<char>, TenantView>,
    after: Map<Seq<char>, TenantView>,
    id: Seq<char>,
    result: Result<Tenant, Error>,
)
    requires
        before.contains_key(id),
        (before[id].suspended && MemoryTenantStore::updated(
            before,
            after,
            id,
            before[id].suspend(),
            result,
        )) || (!before[id].suspended && MemoryTenantStore::updated(
            before,
            after,
            id,
            before[id].unsuspend(),
            result,
        )),
    ensures
        after == before,
        result is Ok,
        result->Ok_0@ == before[id],
{
    assert(before.insert(id, before[id]) =~= before);
}

/// Of the two APNS authentication schemes only the one set last is held:
/// new material replaces earlier material of either scheme, it is what
/// the tenant then holds, and the fields of the other scheme are absent.
pub proof fn lemma_latest_apns_auth_wins(tenant: TenantView, first: ApnsAuthView, second: ApnsAuthView)
    ensures
        tenant.with_apns_auth(first).with_apns_auth(second) == tenant.with_apns_auth(second),
        tenant.with_apns_auth(second).well_formed(),
        tenant.with_apns_auth(second).apns_auth() == Some(second),
        second is Token ==> {
            &&& tenant.with_apns_auth(first).with_apns_auth(second).apns_certificate is None
            &&& tenant.with_apns_auth(first).with_apns_auth(
                second,
            ).apns_certificate_password is None
        },
        second is Certificate ==> {
            &&& tenant.with_apns_auth(first).with_apns_auth(second).apns_pkcs8_pem is None
            &&& tenant.with_apns_auth(first).with_apns_auth(second).apns_key_id is None
            &&& tenant.with_apns_auth(first).with_apns_auth(second).apns_team_id is None
        },
{
}

/// The tenants of one deployment, held in memory and found by id.
pub struct MemoryTenantStore {
    tenants: Vec<Tenant>,
}

impl View for MemoryTenantStore {
    type V = Map<Seq<char>, TenantView>;

    closed spec fn view(&self) -> Map<Seq<char>, TenantView> {
        Map::new(|id: Seq<char>| self.holds(id), |id: Seq<char>| self.tenants@[self.slot(id)]@)
    }
}

impl MemoryTenantStore {
    spec fn holds(&self, id: Seq<char>) -> bool {
        exists|i: int| 0 <= i < self.tenants@.len() && #[trigger] self.tenants@[i].id@ == id
    }

    spec fn slot(&self, id: Seq<char>) -> int {
        choose|i: int| 0 <= i < self.tenants@.len() && #[trigger] self.tenants@[i].id@ == id
    }

    #[verifier::type_invariant]
    spec fn sound(&self) -> bool {
        &&& forall|i: int, j: int|
            0 <= i < j < self.tenants@.len() ==> #[trigger] self.tenants@[i].id@
                != #[trigger] self.tenants@[j].id@
        &&& forall|i: int|
            0 <= i < self.tenants@.len() ==> (#[trigger] self.tenants@[i])@.well_formed()
    }

    proof fn lemma_slot(&self, i: int)
        requires
            self.sound(),
            0 <= i < self.tenants@.len(),
        ensures
            self.holds(self.tenants@[i].id@),
            self.slot(self.tenants@[i].id@) == i,
            self@.contains_key(self.tenants@[i].id@),
            self@[self.tenants@[i].id@] == self.tenants@[i]@,
    {
    }

    /// A store without tenants.
    pub fn new() -> (store: MemoryTenantStore)
        ensures
            store@ == Map::<Seq<char>, TenantView>::empty(),
    {
        let store = MemoryTenantStore { tenants: Vec::new() };
        assert(store@ =~= Map::<Seq<char>, TenantView>::empty());
        store
    }

    fn position(&self, id: &str) -> (found: Option<usize>)
        ensures
            match found {
                Some(i) => i < self.tenants@.len() && self.tenants@[i as int].id@ == id@
                    && self@.contains_key(id@) && self@[id@] == self.tenants@[i as int]@,
                None => !self@.contains_key(id@) && !self.holds(id@),
            },
    {
        proof {
            use_type_invariant(self);
        }
        let mut i: usize = 0;
        while i < self.tenants.len()
            invariant
                self.sound(),
                i <= self.tenants@.len(),
                forall|j: int| 0 <= j < i ==> self.tenants@[j].id@ != id@,
            decreases self.tenants@.len() - i,
        {
            if str_eq(self.tenants[i].id.as_str(), id) {
                proof {
                    self.lemma_slot(i as int);
                }
                return Some(i);
            }
            i += 1;
        }
        None
    }

    fn put(&mut self, i: usize, tenant: Tenant)
        requires
            i < old(self).tenants@.len(),
            tenant.id@ == old(self).tenants@[i as int].id@,
            tenant@.well_formed(),
        ensures
            final(self)@ == old(self)@.insert(tenant.id@, tenant@),
    {
        proof {
            use_type_invariant(&*self);
        }
        let ghost before = *self;
        let ghost stored = tenant;
        let mut tenants: Vec<Tenant> = Vec::new();
        core::mem::swap(&mut self.tenants, &mut tenants);
        tenants.set(i, tenant);
        self.tenants = tenants;
        proof {
            let after = *self;
            assert(after.sound());
            assert forall|id: Seq<char>| after.holds(id) == before.holds(id) by {
                if after.holds(id) {
                    let j = after.slot(id);
                    assert(before.tenants@[j].id@ == id);
                }
                if before.holds(id) {
                    let j = before.slot(id);
                    assert(after.tenants@[j].id@ == id);
                }
            }
            assert forall|id: Seq<char>| before.holds(id) implies after@[id] == (if id
                == stored.id@ {
                stored@
            } else {
                before@[id]
            }) by {
                let j = before.slot(id);
                before.lemma_slot(j);
                after.lemma_slot(j);
            }
            before.lemma_slot(i as int);
            assert(after@ =~= before@.insert(stored.id@, stored@));
        }
    }

    /// What an update of the tenant `id` to `new` leaves behind and
    /// returns: the new tenant, stored and handed back, where the tenant
    /// exists; nothing changed and `TenantNotFound` with the id where it
    /// does not.
    pub open spec fn updated(
        before: Map<Seq<char>, TenantView>,
        after: Map<Seq<char>, TenantView>,
        id: Seq<char>,
        new: TenantView,
        result: Result<Tenant, Error>,
    ) -> bool {
        if before.contains_key(id) {
            &&& after == before.insert(id, new)
            &&& result is Ok
            &&& result->Ok_0@ == new
            &&& new.id == id
            &&& new.well_formed()
        } else {
            &&& after == before
            &&& result matches Err(Error::TenantNotFound(missing))
            &&& missing@ == id
        }
    }

    /// Provisions a tenant without credentials. Where the id is taken the
    /// store stays as it is and the existing tenant is returned.
    pub fn create_tenant(&mut self, params: TenantUpdateParams) -> (result: Result<Tenant, Error>)
        ensures
            result is Ok,
            result->Ok_0@.well_formed(),
            result->Ok_0@.id == params.id@,
            old(self)@.contains_key(params.id@) ==> final(self)@ == old(self)@ && result->Ok_0@
                == old(self)@[params.id@],
            !old(self)@.contains_key(params.id@) ==> result->Ok_0@ == TenantView::provisioned(
                params.id@,
            ) && final(self)@ == old(self)@.insert(
                params.id@,
                TenantView::provisioned(params.id@),
            ),
    {
        proof {
            use_type_invariant(&*self);
        }
        match self.position(params.id.as_str()) {
            Some(i) => Ok(self.tenants[i].clone()),
            None => {
                let ghost before = *self;
                let tenant = Tenant::new(params.id);
                let copy = tenant.clone();
                let mut tenants: Vec<Tenant> = Vec::new();
                core::mem::swap(&mut self.tenants, &mut tenants);
                tenants.push(tenant);
                proof {
                    let last = before.tenants@.len() as int;
                    assert(tenants@[last] == copy);
                    assert forall|i: int, j: int| 0 <= i < j < tenants@.len() implies (
                    #[trigger] tenants@[i]).id@ != (#[trigger] tenants@[j]).id@ by {
                        if j == last {
                            assert(before.tenants@[i].id@ != copy.id@);
                        }
                    }
                }
                self.tenants = tenants;
                proof {
                    let after = *self;
                    let last = before.tenants@.len() as int;
                    assert(after.sound());
                    after.lemma_slot(last);
                    assert forall|id: Seq<char>| id != copy.id@ implies after.holds(id)
                        == before.holds(id) by {
                        if after.holds(id) {
                            let j = after.slot(id);
                            assert(before.tenants@[j].id@ == id);
                        }
                        if before.holds(id) {
                            let j = before.slot(id);
                            assert(after.tenants@[j].id@ == id);
                        }
                    }
                    assert forall|id: Seq<char>| before.holds(id) implies after@[id]
                        == before@[id] by {
                        let j = before.slot(id);
                        before.lemma_slot(j);
                        after.lemma_slot(j);
                    }
                    assert(after@ =~= before@.insert(copy.id@, copy@));
                }
                Ok(copy)
            },
        }
    }

    /// The tenant with this id.
    pub fn get_tenant(&self, id: &str) -> (result: Result<Tenant, Error>)
        ensures
            Self::updated(self@, self@, id@, self@[id@], result),
    {
        proof {
            use_type_invariant(self);
        }
        match self.position(id) {
            Some(i) => {
                assert(self@.insert(id@, self@[id@]) =~= self@);
                Ok(self.tenants[i].clone())
            },
            None => Err(Error::TenantNotFound(id.to_owned())),
        }
    }

    /// Sets the tenant's APNS topic and leaves the rest as it is.
    pub fn update_tenant_apns(&mut self, id: &str, params: TenantApnsUpdateParams) -> (result: Result<Tenant, Error>)
        ensures
            Self::updated(old(self)@, final(self)@, id@, old(self)@[id@].with_apns_topic(params.apns_topic@), result),
    {
        match self.position(id) {
            Some(i) => {
                proof {
                    use_type_invariant(&*self);
                }
                let mut tenant = self.tenants[i].clone();
                tenant.apns_topic = Some(params.apns_topic);
                let copy = tenant.clone();
                self.put(i, tenant);
                Ok(copy)
            },
            None => Err(Error::TenantNotFound(id.to_owned())),
        }
    }

    /// Replaces the tenant's APNS authentication material: only the scheme
    /// given stays, the fields of the other are cleared.
    pub fn update_tenant_apns_auth(&mut self, id: &str, auth: TenantApnsUpdateAuth) -> (result: Result<Tenant, Error>)
        ensures
            Self::updated(old(self)@, final(self)@, id@, old(self)@[id@].with_apns_auth(auth@), result),
    {
        match self.position(id) {
            Some(i) => {
                proof {
                    use_type_invariant(&*self);
                }
                let mut tenant = self.tenants[i].clone();
                tenant.set_apns_auth(auth);
                let copy = tenant.clone();
                self.put(i, tenant);
                Ok(copy)
            },
            None => Err(Error::TenantNotFound(id.to_owned())),
        }
    }

    /// Removes the tenant's whole APNS configuration.
    pub fn update_tenant_delete_apns(&mut self, id: &str) -> (result: Result<Tenant, Error>)
        ensures
            Self::updated(old(self)@, final(self)@, id@, old(self)@[id@].without_apns(), result),
    {
        match self.position(id) {
            Some(i) => {
                proof {
                    use_type_invariant(&*self);
                }
                let mut tenant = self.tenants[i].clone();
                tenant.clear_apns();
                let copy = tenant.clone();
                self.put(i, tenant);
                Ok(copy)
            },
            None => Err(Error::TenantNotFound(id.to_owned())),
        }
    }

    /// Sets the tenant's legacy Firebase API key.
    pub fn update_tenant_fcm(&mut self, id: &str, params: TenantFcmUpdateParams) -> (result: Result<Tenant, Error>)
        ensures
            Self::updated(old(self)@, final(self)@, id@, old(self)@[id@].with_fcm(params.fcm_api_key@), result),
    {
        match self.position(id) {
            Some(i) => {
                proof {
                    use_type_invariant(&*self);
                }
                let mut tenant = self.tenants[i].clone();
                tenant.fcm_api_key = Some(params.fcm_api_key);
                let copy = tenant.clone();
                self.put(i, tenant);
                Ok(copy)
            },
            None => Err(Error::TenantNotFound(id.to_owned())),
        }
    }

    /// Removes the tenant's legacy Firebase API key.
    pub fn update_tenant_delete_fcm(&mut self, id: &str) -> (result: Result<Tenant, Error>)
        ensures
            Self::updated(old(self)@, final(self)@, id@, old(self)@[id@].without_fcm(), result),
    {
        match self.position(id) {
            Some(i) => {
                proof {
                    use_type_invariant(&*self);
                }
                let mut tenant = self.tenants[i].clone();
                tenant.fcm_api_key = None;
                let copy = tenant.clone();
                self.put(i, tenant);
                Ok(copy)
            },
            None => Err(Error::TenantNotFound(id.to_owned())),
        }
    }

    /// Sets the tenant's Firebase v1 credentials.
    pub fn update_tenant_fcm_v1(&mut self, id: &str, params: TenantFcmV1UpdateParams) -> (result: Result<Tenant, Error>)
        ensures
            Self::updated(old(self)@, final(self)@, id@, old(self)@[id@].with_fcm_v1(params.fcm_v1_credentials@), result),
    {
        match self.position(id) {
            Some(i) => {
                proof {
                    use_type_invariant(&*self);
                }
                let mut tenant = self.tenants[i].clone();
                tenant.fcm_v1_credentials = Some(params.fcm_v1_credentials);
                let copy = tenant.clone();
                self.put(i, tenant);
                Ok(copy)
            },
            None => Err(Error::TenantNotFound(id.to_owned())),
        }
    }

    /// Removes the tenant's Firebase v1 credentials.
    pub fn update_tenant_delete_fcm_v1(&mut self, id: &str) -> (result: Result<Tenant, Error>)
        ensures
            Self::updated(old(self)@, final(self)@, id@, old(self)@[id@].without_fcm_v1(), result),
    {
        match self.position(id) {
            Some(i) => {
                proof {
                    use_type_invariant(&*self);
                }
                let mut tenant = self.tenants[i].clone();
                tenant.fcm_v1_credentials = None;
                let copy = tenant.clone();
                self.put(i, tenant);
                Ok(copy)
            },
            None => Err(Error::TenantNotFound(id.to_owned())),
        }
    }

    /// Marks the tenant's credentials as known to be bad.
    pub fn suspend_tenant(&mut self, id: &str) -> (result: Result<Tenant, Error>)
        ensures
            Self::updated(old(self)@, final(self)@, id@, old(self)@[id@].suspend(), result),
    {
        match self.position(id) {
            Some(i) => {
                proof {
                    use_type_invariant(&*self);
                }
                let mut tenant = self.tenants[i].clone();
                tenant.suspended = true;
                let copy = tenant.clone();
                self.put(i, tenant);
                Ok(copy)
            },
            None => Err(Error::TenantNotFound(id.to_owned())),
        }
    }

    /// Marks the tenant as active again.
    pub fn unsuspend_tenant(&mut self, id: &str) -> (result: Result<Tenant, Error>)
        ensures
            Self::updated(old(self)@, final(self)@, id@, old(self)@[id@].unsuspend(), result),
    {
        match self.position(id) {
            Some(i) => {
                proof {
                    use_type_invariant(&*self);
                }
                let mut tenant = self.tenants[i].clone();
                tenant.suspended = false;
                let copy = tenant.clone();
                self.put(i, tenant);
                Ok(copy)
            },
            None => Err(Error::TenantNotFound(id.to_owned())),
        }
    }

    /// Removes the tenant with this id, if there is one.
    pub fn delete_tenant(&mut self, id: &str) -> (result: Result<(), Error>)
        ensures
            result is Ok,
            final(self)@ == old(self)@.remove(id@),
    {
        proof {
            use_type_invariant(&*self);
        }
        let ghost before = *self;
        match self.position(id) {
            Some(i) => {
                let mut tenants: Vec<Tenant> = Vec::new();
                core::mem::swap(&mut self.tenants, &mut tenants);
                tenants.remove(i);
                self.tenants = tenants;
                proof {
                    let after = *self;
                    assert(after.sound());
                    assert forall|key: Seq<char>| after.holds(key) == (before.holds(key) && key
                        != id@) by {
                        if after.holds(key) {
                            let j = after.slot(key);
                            if j < i {
                                assert(before.tenants@[j].id@ == key);
                            } else {
                                assert(before.tenants@[j + 1].id@ == key);
                            }
                        }
                        if before.holds(key) && key != id@ {
                            let j = before.slot(key);
                            if j < i {
                                assert(after.tenants@[j].id@ == key);
                            } else {
                                assert(after.tenants@[j - 1].id@ == key);
                            }
                        }
                    }
                    assert forall|key: Seq<char>| after.holds(key) implies after@[key]
                        == before@[key] by {
                        let j = after.slot(key);
                        after.lemma_slot(j);
                        if j < i {
                            before.lemma_slot(j);
                        } else {
                            before.lemma_slot(j + 1);
                        }
                    }
                    assert(after@ =~= before@.remove(id@));
                }
            },
            None => {
                assert(self@ =~= before@.remove(id@));
            },
        }
        Ok(())
    }

    /// Takes note of how a send for a tenant ended. A send that failed with
    /// a credential error shows the tenant's credentials to be bad, and the
    /// tenant is suspended; any other outcome leaves every tenant as it is.
    /// A tenant that is gone is not an error here.
    pub fn record_send(&mut self, id: &str, outcome: &Result<(), Error>)
        ensures
            final(self)@ == (if outcome is Err && outcome->Err_0.is_credential_error()
                && old(self)@.contains_key(id@) {
                old(self)@.insert(id@, old(self)@[id@].suspend())
            } else {
                old(self)@
            }),
    {
        let credentials_failed = match outcome {
            Err(error) => error.is_credential_error(),
            Ok(_) => false,
        };
        if credentials_failed {
            let _ = self.suspend_tenant(id);
        }
    }
}

} // verus!
