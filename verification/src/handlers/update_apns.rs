use vstd::prelude::*;
use crate::encoding::{base64_encodable, base64_encode, base64_encoding};
use crate::error::Error;
use crate::providers::apns::{check_sandbox, rejected_outright};
use crate::stores::tenant::{
    ApnsAuthView, MemoryTenantStore, Tenant, TenantApnsUpdateAuth, TenantApnsUpdateParams,
    TenantView,
};
use crate::text::{lowercase, str_eq, to_lowercase};

verus! {

/// The six fields of an APNS credential form, each as submitted or absent.
#[derive(Debug, PartialEq, Eq)]
pub struct ApnsUpdateBody {
    pub apns_topic: Option<String>,
    pub apns_certificate: Option<String>,
    pub apns_certificate_password: Option<String>,
    pub apns_pkcs8_pem: Option<String>,
    pub apns_key_id: Option<String>,
    pub apns_team_id: Option<String>,
}

/// What an `ApnsUpdateBody` holds, as text.
pub struct ApnsUpdateBodyView {
    pub topic: Option<Seq<char>>,
    pub certificate: Option<Seq<char>>,
    pub certificate_password: Option<Seq<char>>,
    pub pkcs8_pem: Option<Seq<char>>,
    pub key_id: Option<Seq<char>>,
    pub team_id: Option<Seq<char>>,
}

impl View for ApnsUpdateBody {
    type V = ApnsUpdateBodyView;

    open spec fn view(&self) -> ApnsUpdateBodyView {
        ApnsUpdateBodyView {
            topic: self.apns_topic.deep_view(),
            certificate: self.apns_certificate.deep_view(),
            certificate_password: self.apns_certificate_password.deep_view(),
            pkcs8_pem: self.apns_pkcs8_pem.deep_view(),
            key_id: self.apns_key_id.deep_view(),
            team_id: self.apns_team_id.deep_view(),
        }
    }
}

/// The normalized form of an accepted submission: what to store.
#[derive(Debug, PartialEq, Eq)]
pub struct ApnsSqlUpdate {
    pub topic: Option<String>,
    pub auth: Option<TenantApnsUpdateAuth>,
}

/// What an `ApnsSqlUpdate` holds, as text.
pub struct ApnsSqlUpdateView {
    pub topic: Option<Seq<char>>,
    pub auth: Option<ApnsAuthView>,
}

impl View for ApnsSqlUpdate {
    type V = ApnsSqlUpdateView;

    open spec fn view(&self) -> ApnsSqlUpdateView {
        ApnsSqlUpdateView {
            topic: self.topic.deep_view(),
            auth: match self.auth {
                Some(auth) => Some(auth@),
                None => None,
            },
        }
    }
}

impl ApnsUpdateBodyView {
    /// Nothing but a topic was submitted.
    pub open spec fn topic_only(self) -> bool {
        &&& self.topic is Some
        &&& self.certificate is None
        &&& self.certificate_password is None
        &&& self.pkcs8_pem is None
        &&& self.key_id is None
        &&& self.team_id is None
    }

    /// A certificate was submitted, with or without a password, and no
    /// part of a token.
    pub open spec fn certificate_auth(self) -> bool {
        &&& self.certificate is Some
        &&& self.pkcs8_pem is None
        &&& self.key_id is None
        &&& self.team_id is None
    }

    /// All three parts of a token were submitted, and no part of a
    /// certificate.
    pub open spec fn token_auth(self) -> bool {
        &&& self.certificate is None
        &&& self.certificate_password is None
        &&& self.pkcs8_pem is Some
        &&& self.key_id is Some
        &&& self.team_id is Some
    }

    /// The submission is one of the accepted combinations.
    pub open spec fn accepted(self) -> bool {
        self.topic_only() || self.certificate_auth() || self.token_auth()
    }

    /// The authentication material that the submission carries; a missing
    /// certificate password counts as the empty password.
    pub open spec fn auth(self) -> Option<ApnsAuthView> {
        if self.certificate_auth() {
            Some(
                ApnsAuthView::Certificate {
                    certificate: self.certificate->0,
                    password: match self.certificate_password {
                        Some(password) => password,
                        None => Seq::empty(),
                    },
                },
            )
        } else if self.token_auth() {
            Some(
                ApnsAuthView::Token {
                    pkcs8_pem: self.pkcs8_pem->0,
                    key_id: self.key_id->0,
                    team_id: self.team_id->0,
                },
            )
        } else {
            None
        }
    }

    /// What an accepted submission asks to store.
    pub open spec fn update(self) -> ApnsSqlUpdateView {
        ApnsSqlUpdateView { topic: self.topic, auth: self.auth() }
    }
}

/// Which of the six fields a submission carries.
pub struct Presence {
    pub topic: bool,
    pub certificate: bool,
    pub certificate_password: bool,
    pub pkcs8_pem: bool,
    pub key_id: bool,
    pub team_id: bool,
}

/// The accepted combinations of fields, one by one.
pub enum ApnsUpdateRow {
    Topic,
    TopicCertificatePassword,
    TopicCertificate,
    CertificatePassword,
    Certificate,
    TopicToken,
    Token,
}

impl ApnsUpdateRow {
    /// The fields that this combination carries, and no others.
    pub open spec fn presence(self) -> Presence {
        let certificate = self is TopicCertificatePassword || self is TopicCertificate
            || self is CertificatePassword || self is Certificate;
        let token = self is TopicToken || self is Token;
        Presence {
            topic: self is Topic || self is TopicCertificatePassword || self is TopicCertificate
                || self is TopicToken,
            certificate,
            certificate_password: self is TopicCertificatePassword || self is CertificatePassword,
            pkcs8_pem: token,
            key_id: token,
            team_id: token,
        }
    }
}

impl ApnsUpdateBodyView {
    /// The fields that the submission carries.
    pub open spec fn presence(self) -> Presence {
        Presence {
            topic: self.topic is Some,
            certificate: self.certificate is Some,
            certificate_password: self.certificate_password is Some,
            pkcs8_pem: self.pkcs8_pem is Some,
            key_id: self.key_id is Some,
            team_id: self.team_id is Some,
        }
    }
}

/// The accepted combinations divide the submissions: a submission is
/// accepted exactly when it carries the fields of one combination, no two
/// combinations carry the same fields, and an accepted submission is
/// normalized to the topic and the authentication material of its
/// combination, with the empty password where none was submitted.
pub proof fn lemma_accepted_combinations_partition(body: ApnsUpdateBodyView)
    ensures
        body.accepted() <==> exists|row: ApnsUpdateRow| #[trigger] row.presence() == body.presence(),
        forall|a: ApnsUpdateRow, b: ApnsUpdateRow|
            #[trigger] a.presence() == #[trigger] b.presence() ==> a == b,
        forall|row: ApnsUpdateRow| #[trigger]
            row.presence() == body.presence() ==> {
                &&& body.update().topic == (if row.presence().topic {
                    body.topic
                } else {
                    None
                })
                &&& body.update().auth == (if row.presence().certificate {
                    Some(
                        ApnsAuthView::Certificate {
                            certificate: body.certificate->0,
                            password: if row.presence().certificate_password {
                                body.certificate_password->0
                            } else {
                                Seq::empty()
                            },
                        },
                    )
                } else if row.presence().pkcs8_pem {
                    Some(
                        ApnsAuthView::Token {
                            pkcs8_pem: body.pkcs8_pem->0,
                            key_id: body.key_id->0,
                            team_id: body.team_id->0,
                        },
                    )
                } else {
                    None
                })
            },
{
    if body.accepted() {
        let row = if body.topic_only() {
            ApnsUpdateRow::Topic
        } else if body.certificate_auth() {
            if body.topic is Some {
                if body.certificate_password is Some {
                    ApnsUpdateRow::TopicCertificatePassword
                } else {
                    ApnsUpdateRow::TopicCertificate
                }
            } else if body.certificate_password is Some {
                ApnsUpdateRow::CertificatePassword
            } else {
                ApnsUpdateRow::Certificate
            }
        } else if body.topic is Some {
            ApnsUpdateRow::TopicToken
        } else {
            ApnsUpdateRow::Token
        };
        assert(row.presence() == body.presence());
    }
}

impl ApnsUpdateBody {
    /// Decides which accepted combination the submission is, if any, and
    /// normalizes it.
    pub fn validate(&self) -> (result: Result<ApnsSqlUpdate, Error>)
        ensures
            self@.accepted() ==> result is Ok && result->Ok_0@ == self@.update(),
            !self@.accepted() ==> result is Err && result->Err_0 == Error::InvalidMultipartBody,
    {
        match (
            &self.apns_topic,
            &self.apns_certificate,
            &self.apns_certificate_password,
            &self.apns_pkcs8_pem,
            &self.apns_key_id,
            &self.apns_team_id,
        ) {
            (Some(topic), None, None, None, None, None) => Ok(
                ApnsSqlUpdate { topic: Some(topic.clone()), auth: None },
            ),
            (topic, Some(certificate), password, None, None, None) => Ok(
                ApnsSqlUpdate {
                    topic: topic.clone(),
                    auth: Some(
                        TenantApnsUpdateAuth::Certificate {
                            apns_certificate: certificate.clone(),
                            apns_certificate_password: match password {
                                Some(password) => password.clone(),
                                None => String::new(),
                            },
                        },
                    ),
                },
            ),
            (topic, None, None, Some(pkcs8_pem), Some(key_id), Some(team_id)) => Ok(
                ApnsSqlUpdate {
                    topic: topic.clone(),
                    auth: Some(
                        TenantApnsUpdateAuth::Token {
                            apns_pkcs8_pem: pkcs8_pem.clone(),
                            apns_key_id: key_id.clone(),
                            apns_team_id: team_id.clone(),
                        },
                    ),
                },
            ),
            _ => Err(Error::InvalidMultipartBody),
        }
    }
}

/// The fields of the credential form that are read; any other field is
/// `Unknown` and is passed over.
#[derive(Clone, Copy, Debug, PartialEq, Eq, Structural)]
pub enum ApnsFormField {
    Topic,
    Certificate,
    CertificatePassword,
    Pkcs8Pem,
    KeyId,
    TeamId,
    Unknown,
}

impl ApnsFormField {
    /// The field that a name in lowercase stands for.
    pub open spec fn spec_of_lowercase(lower: Seq<char>) -> ApnsFormField {
        if lower == "apns_topic"@ {
            ApnsFormField::Topic
        } else if lower == "apns_certificate"@ {
            ApnsFormField::Certificate
        } else if lower == "apns_certificate_password"@ {
            ApnsFormField::CertificatePassword
        } else if lower == "apns_pkcs8_pem"@ {
            ApnsFormField::Pkcs8Pem
        } else if lower == "apns_key_id"@ {
            ApnsFormField::KeyId
        } else if lower == "apns_team_id"@ {
            ApnsFormField::TeamId
        } else {
            ApnsFormField::Unknown
        }
    }

    /// The field that a name in lowercase stands for.
    pub fn of_lowercase(lower: &str) -> (field: ApnsFormField)
        ensures
            field == Self::spec_of_lowercase(lower@),
    {
        if str_eq(lower, "apns_topic") {
            ApnsFormField::Topic
        } else if str_eq(lower, "apns_certificate") {
            ApnsFormField::Certificate
        } else if str_eq(lower, "apns_certificate_password") {
            ApnsFormField::CertificatePassword
        } else if str_eq(lower, "apns_pkcs8_pem") {
            ApnsFormField::Pkcs8Pem
        } else if str_eq(lower, "apns_key_id") {
            ApnsFormField::KeyId
        } else if str_eq(lower, "apns_team_id") {
            ApnsFormField::TeamId
        } else {
            ApnsFormField::Unknown
        }
    }

    /// The field that a part of the form is, by its name in any case; a
    /// part without a name is unknown.
    pub fn of(name: Option<&str>) -> (field: ApnsFormField)
        ensures
            field == (match name {
                Some(name) => Self::spec_of_lowercase(lowercase(name@)),
                None => ApnsFormField::Unknown,
            }),
    {
        match name {
            Some(name) => {
                let lower = to_lowercase(name);
                Self::of_lowercase(lower.as_str())
            },
            None => ApnsFormField::Unknown,
        }
    }

    /// Whether the field carries a file, which is kept as base64 text,
    /// rather than text.
    pub open spec fn spec_is_file(&self) -> bool {
        *self == ApnsFormField::Certificate || *self == ApnsFormField::Pkcs8Pem
    }

    #[verifier::when_used_as_spec(spec_is_file)]
    pub fn is_file(&self) -> (file: bool)
        ensures
            file == self.spec_is_file(),
    {
        match self {
            ApnsFormField::Certificate | ApnsFormField::Pkcs8Pem => true,
            _ => false,
        }
    }
}

impl ApnsUpdateBodyView {
    /// A form of which nothing has been read yet.
    pub open spec fn empty() -> ApnsUpdateBodyView {
        ApnsUpdateBodyView {
            topic: None,
            certificate: None,
            certificate_password: None,
            pkcs8_pem: None,
            key_id: None,
            team_id: None,
        }
    }

    /// The form after one more part was read. A part replaces an earlier
    /// part of the same field; an unknown part changes nothing.
    pub open spec fn with_field(self, field: ApnsFormField, content: Seq<char>) -> ApnsUpdateBodyView {
        match field {
            ApnsFormField::Topic => ApnsUpdateBodyView { topic: Some(content), ..self },
            ApnsFormField::Certificate => ApnsUpdateBodyView { certificate: Some(content), ..self },
            ApnsFormField::CertificatePassword => ApnsUpdateBodyView {
                certificate_password: Some(content),
                ..self
            },
            ApnsFormField::Pkcs8Pem => ApnsUpdateBodyView { pkcs8_pem: Some(content), ..self },
            ApnsFormField::KeyId => ApnsUpdateBodyView { key_id: Some(content), ..self },
            ApnsFormField::TeamId => ApnsUpdateBodyView { team_id: Some(content), ..self },
            ApnsFormField::Unknown => self,
        }
    }
}

impl ApnsUpdateBody {
    /// A form of which nothing has been read yet.
    pub fn new() -> (body: ApnsUpdateBody)
        ensures
            body@ == ApnsUpdateBodyView::empty(),
    {
        ApnsUpdateBody {
            apns_topic: None,
            apns_certificate: None,
            apns_certificate_password: None,
            apns_pkcs8_pem: None,
            apns_key_id: None,
            apns_team_id: None,
        }
    }

    fn put(&mut self, field: ApnsFormField, content: String)
        ensures
            final(self)@ == old(self)@.with_field(field, content@),
    {
        match field {
            ApnsFormField::Topic => {
                self.apns_topic = Some(content);
            },
            ApnsFormField::Certificate => {
                self.apns_certificate = Some(content);
            },
            ApnsFormField::CertificatePassword => {
                self.apns_certificate_password = Some(content);
            },
            ApnsFormField::Pkcs8Pem => {
                self.apns_pkcs8_pem = Some(content);
            },
            ApnsFormField::KeyId => {
                self.apns_key_id = Some(content);
            },
            ApnsFormField::TeamId => {
                self.apns_team_id = Some(content);
            },
            ApnsFormField::Unknown => {},
        }
    }

    /// Takes in a part of the form that was read as text. Only a field
    /// that carries text takes it; on any other field nothing changes.
    pub fn accept_text(&mut self, field: ApnsFormField, text: String)
        ensures
            final(self)@ == (if field.is_file() {
                old(self)@
            } else {
                old(self)@.with_field(field, text@)
            }),
    {
        if !field.is_file() {
            self.put(field, text);
        }
    }

    /// Takes in a part of the form that was read as a file, and keeps it
    /// as base64 text. Only a field that carries a file takes it; on any
    /// other field nothing changes.
    pub fn accept_file(&mut self, field: ApnsFormField, data: &[u8])
        requires
            base64_encodable(data@.len()),
        ensures
            final(self)@ == (if field.is_file() {
                old(self)@.with_field(field, base64_encoding(data@))
            } else {
                old(self)@
            }),
    {
        if field.is_file() {
            let encoded = base64_encode(data);
            self.put(field, encoded);
        }
    }
}

/// The answer to an accepted update.
#[derive(Clone, Copy, Debug, PartialEq, Eq, Structural)]
pub struct UpdateTenantApnsResponse {
    pub success: bool,
}

/// A call on the tenant store that an update asks for.
#[derive(Debug, PartialEq, Eq)]
pub enum StoreCall {
    UpdateTopic(TenantApnsUpdateParams),
    UpdateAuth(TenantApnsUpdateAuth),
    Unsuspend,
}

/// Where an update stands while a call on the tenant store is under way.
#[derive(Debug, PartialEq, Eq)]
pub enum ApnsUpdateFlow {
    /// The topic is being written; `auth` is still to be written.
    AfterTopic { auth: Option<TenantApnsUpdateAuth> },
    /// The authentication material is being written.
    AfterAuth,
    /// The tenant is being unsuspended.
    AfterUnsuspend,
}

/// What an update does next: a call on the tenant store, whose outcome
/// goes to `ApnsUpdateFlow::advance`, or the answer to the caller.
#[derive(Debug, PartialEq, Eq)]
pub enum ApnsUpdateStep {
    Call { call: StoreCall, flow: ApnsUpdateFlow },
    Respond(Result<UpdateTenantApnsResponse, Error>),
}

impl ApnsUpdateFlow {
    /// The first step of an update whose credentials have passed the
    /// sandbox check: the topic is written first where there is one, else
    /// the authentication material; an update of nothing is rejected.
    pub open spec fn spec_begin(update: ApnsSqlUpdate) -> ApnsUpdateStep {
        match update.topic {
            Some(topic) => ApnsUpdateStep::Call {
                call: StoreCall::UpdateTopic(TenantApnsUpdateParams { apns_topic: topic }),
                flow: ApnsUpdateFlow::AfterTopic { auth: update.auth },
            },
            None => match update.auth {
                Some(auth) => ApnsUpdateStep::Call {
                    call: StoreCall::UpdateAuth(auth),
                    flow: ApnsUpdateFlow::AfterAuth,
                },
                None => ApnsUpdateStep::Respond(Err(Error::InvalidMultipartBody)),
            },
        }
    }

    /// The step after a call on the store has come back. A failed call
    /// ends the update with its error. After the topic the authentication
    /// material is written, where there is any. After new authentication
    /// material a tenant that is suspended is unsuspended. Otherwise the
    /// update has succeeded.
    pub open spec fn spec_advance(self, outcome: Result<Tenant, Error>) -> ApnsUpdateStep {
        match outcome {
            Err(error) => ApnsUpdateStep::Respond(Err(error)),
            Ok(tenant) => match self {
                ApnsUpdateFlow::AfterTopic { auth: Some(auth) } => ApnsUpdateStep::Call {
                    call: StoreCall::UpdateAuth(auth),
                    flow: ApnsUpdateFlow::AfterAuth,
                },
                ApnsUpdateFlow::AfterAuth if tenant.suspended => ApnsUpdateStep::Call {
                    call: StoreCall::Unsuspend,
                    flow: ApnsUpdateFlow::AfterUnsuspend,
                },
                _ => ApnsUpdateStep::Respond(Ok(UpdateTenantApnsResponse { success: true })),
            },
        }
    }

    pub fn begin(update: ApnsSqlUpdate) -> (step: ApnsUpdateStep)
        ensures
            step == Self::spec_begin(update),
    {
        match update.topic {
            Some(topic) => ApnsUpdateStep::Call {
                call: StoreCall::UpdateTopic(TenantApnsUpdateParams { apns_topic: topic }),
                flow: ApnsUpdateFlow::AfterTopic { auth: update.auth },
            },
            None => match update.auth {
                Some(auth) => ApnsUpdateStep::Call {
                    call: StoreCall::UpdateAuth(auth),
                    flow: ApnsUpdateFlow::AfterAuth,
                },
                None => ApnsUpdateStep::Respond(Err(Error::InvalidMultipartBody)),
            },
        }
    }

    pub fn advance(self, outcome: Result<Tenant, Error>) -> (step: ApnsUpdateStep)
        ensures
            step == self.spec_advance(outcome),
    {
        match outcome {
            Err(error) => ApnsUpdateStep::Respond(Err(error)),
            Ok(tenant) => match self {
                ApnsUpdateFlow::AfterTopic { auth: Some(auth) } => ApnsUpdateStep::Call {
                    call: StoreCall::UpdateAuth(auth),
                    flow: ApnsUpdateFlow::AfterAuth,
                },
                ApnsUpdateFlow::AfterAuth => {
                    if tenant.suspended {
                        ApnsUpdateStep::Call {
                            call: StoreCall::Unsuspend,
                            flow: ApnsUpdateFlow::AfterUnsuspend,
                        }
                    } else {
                        ApnsUpdateStep::Respond(Ok(UpdateTenantApnsResponse { success: true }))
                    }
                },
                _ => ApnsUpdateStep::Respond(Ok(UpdateTenantApnsResponse { success: true })),
            },
        }
    }
}

impl ApnsSqlUpdateView {
    /// The tenant after the update was stored: with the new topic, where
    /// the update has one, and with the new authentication material and
    /// active, where it has any. An update of the topic alone leaves the
    /// suspension as it is.
    pub open spec fn applied(self, tenant: TenantView) -> TenantView {
        let with_topic = match self.topic {
            Some(topic) => tenant.with_apns_topic(topic),
            None => tenant,
        };
        match self.auth {
            Some(auth) => with_topic.with_apns_auth(auth).unsuspend(),
            None => with_topic,
        }
    }

    /// What storing the update for tenant `id` leaves behind and answers:
    /// an update of nothing is rejected, an unknown tenant is reported, and
    /// otherwise the tenant is replaced by the updated one and the answer
    /// is success.
    pub open spec fn stored(
        self,
        before: Map<Seq<char>, TenantView>,
        after: Map<Seq<char>, TenantView>,
        id: Seq<char>,
        result: Result<UpdateTenantApnsResponse, Error>,
    ) -> bool {
        if self.topic is None && self.auth is None {
            after == before && result == Err::<UpdateTenantApnsResponse, Error>(
                Error::InvalidMultipartBody,
            )
        } else if !before.contains_key(id) {
            &&& after == before
            &&& result matches Err(Error::TenantNotFound(missing))
            &&& missing@ == id
        } else {
            &&& after == before.insert(id, self.applied(before[id]))
            &&& result == Ok::<UpdateTenantApnsResponse, Error>(
                UpdateTenantApnsResponse { success: true },
            )
        }
    }
}

/// How an update bears on suspension: an update of the topic alone leaves
/// the tenant suspended or active as it was, and an update with
/// authentication material leaves it active.
pub proof fn lemma_update_and_suspension(update: ApnsSqlUpdateView, tenant: TenantView)
    ensures
        update.auth is None ==> update.applied(tenant).suspended == tenant.suspended,
        update.auth is Some ==> !update.applied(tenant).suspended,
        update.auth is Some ==> update.applied(tenant).apns_auth() == update.auth,
        update.topic is Some ==> update.applied(tenant).apns_topic == update.topic,
        tenant.well_formed() ==> update.applied(tenant).well_formed(),
{
}

spec fn steps_left(step: ApnsUpdateStep) -> nat {
    match step {
        ApnsUpdateStep::Call { call: StoreCall::UpdateTopic(_), .. } => 3,
        ApnsUpdateStep::Call { call: StoreCall::UpdateAuth(_), .. } => 2,
        ApnsUpdateStep::Call { call: StoreCall::Unsuspend, .. } => 1,
        ApnsUpdateStep::Respond(_) => 0,
    }
}

spec fn on_track(
    before: Map<Seq<char>, TenantView>,
    now: Map<Seq<char>, TenantView>,
    id: Seq<char>,
    update: ApnsSqlUpdate,
    step: ApnsUpdateStep,
) -> bool {
    let with_topic = match update.topic {
        Some(topic) => before[id].with_apns_topic(topic@),
        None => before[id],
    };
    match step {
        ApnsUpdateStep::Call {
            call: StoreCall::UpdateTopic(params),
            flow: ApnsUpdateFlow::AfterTopic { auth },
        } => update.topic == Some(params.apns_topic) && auth == update.auth && now == before,
        ApnsUpdateStep::Call { call: StoreCall::UpdateAuth(auth), flow: ApnsUpdateFlow::AfterAuth } => {
            &&& update.auth == Some(auth)
            &&& if update.topic is Some {
                before.contains_key(id) && now == before.insert(id, with_topic)
            } else {
                now == before
            }
        },
        ApnsUpdateStep::Call { call: StoreCall::Unsuspend, flow: ApnsUpdateFlow::AfterUnsuspend } => {
            &&& update.auth is Some
            &&& before.contains_key(id)
            &&& now == before.insert(id, with_topic.with_apns_auth(update.auth->0@))
        },
        ApnsUpdateStep::Call { .. } => false,
        ApnsUpdateStep::Respond(result) => update@.stored(before, now, id, result),
    }
}

/// Stores an update whose credentials have passed the sandbox check, one
/// call on the store after another as `ApnsUpdateFlow` orders them: the
/// topic, then the authentication material, then the unsuspension that new
/// authentication material earns a suspended tenant.
pub fn store_update(store: &mut MemoryTenantStore, id: &str, update: ApnsSqlUpdate) -> (result:
    Result<UpdateTenantApnsResponse, Error>)
    ensures
        update@.stored(old(store)@, final(store)@, id@, result),
{
    let ghost before = store@;
    let ghost plan = update;
    let mut step = ApnsUpdateFlow::begin(update);
    loop
        invariant
            before == old(store)@,
            plan == update,
            on_track(before, store@, id@, plan, step),
        decreases steps_left(step),
    {
        match step {
            ApnsUpdateStep::Respond(result) => {
                return result;
            },
            ApnsUpdateStep::Call { call, flow } => {
                let ghost now = store@;
                let outcome = match call {
                    StoreCall::UpdateTopic(params) => store.update_tenant_apns(id, params),
                    StoreCall::UpdateAuth(auth) => store.update_tenant_apns_auth(id, auth),
                    StoreCall::Unsuspend => store.unsuspend_tenant(id),
                };
                step = flow.advance(outcome);
                proof {
                    if now.contains_key(id@) {
                        assert(now.insert(id@, store@[id@]) =~= before.insert(id@, store@[id@]));
                    }
                }
            },
        }
    }
}

/// Validates a submission in full: it must be an accepted combination,
/// and the credentials that it carries must pass the sandbox check.
///
/// A submission that is no accepted combination is `InvalidMultipartBody`.
/// Whether credentials pass is for the APNS library to say; credentials
/// that do not are `BadApnsCredentials`. Credentials that are turned down
/// outright never pass: key material that is not base64, a certificate
/// password with a zero byte in it, a signing key that is too long. A
/// submission of a topic alone needs no check.
pub fn checked_update(body: &ApnsUpdateBody) -> (result: Result<ApnsSqlUpdate, Error>)
    ensures
        !body@.accepted() ==> result == Err::<ApnsSqlUpdate, Error>(Error::InvalidMultipartBody),
        body@.accepted() ==> {
            &&& result is Ok ==> result->Ok_0@ == body@.update()
            &&& result is Err ==> result->Err_0 == Error::BadApnsCredentials && body@.auth() is Some
            &&& body@.auth() is None ==> result is Ok
            &&& body@.auth() is Some && rejected_outright(body@.auth()->0) ==> result is Err
        },
{
    let update = body.validate()?;
    match &update.auth {
        Some(auth) => {
            check_sandbox(auth)?;
        },
        None => {},
    }
    Ok(update)
}

/// Serves a request to update a tenant's APNS configuration, given what
/// the check of the caller's token came to and the form as it was read.
///
/// Nothing is stored unless the caller is authenticated, the tenant exists,
/// the form is an accepted combination and its credentials pass the sandbox
/// check. Whether they pass is for the APNS library to say; a rejected
/// update fails with `BadApnsCredentials` and leaves the tenant as it was,
/// and credentials that are turned down outright are always rejected. An
/// update of the topic alone needs no check and always succeeds.
pub fn handler(
    store: &mut MemoryTenantStore,
    authentication: Result<(), Error>,
    id: &str,
    body: &ApnsUpdateBody,
) -> (result: Result<UpdateTenantApnsResponse, Error>)
    ensures
        authentication is Err ==> result is Err && result->Err_0 == authentication->Err_0,
        authentication is Ok && !old(store)@.contains_key(id@) ==> (result matches Err(
            Error::TenantNotFound(missing),
        ) && missing@ == id@),
        authentication is Ok && old(store)@.contains_key(id@) && !body@.accepted() ==> result
            == Err::<UpdateTenantApnsResponse, Error>(Error::InvalidMultipartBody),
        authentication is Ok && old(store)@.contains_key(id@) && body@.accepted() ==> {
            &&& result is Err ==> result->Err_0 == Error::BadApnsCredentials && body@.auth() is Some
            &&& body@.auth() is None ==> result is Ok
            &&& body@.auth() is Some && rejected_outright(body@.auth()->0) ==> result is Err
        },
        result is Err ==> final(store)@ == old(store)@,
        result is Ok ==> result->Ok_0.success && final(store)@ == old(store)@.insert(
            id@,
            body@.update().applied(old(store)@[id@]),
        ),
{
    match authentication {
        Err(error) => {
            return Err(error);
        },
        Ok(()) => {},
    }
    match store.get_tenant(id) {
        Err(error) => {
            return Err(error);
        },
        Ok(_) => {},
    }
    let update = checked_update(body)?;
    store_update(store, id, update)
}

} // verus!
