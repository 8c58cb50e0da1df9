use vstd::prelude::*;
use crate::error::Error;
use crate::handlers::{
    authenticate_client, ensure_authenticated, AuthPolicy, Response, ResponseStatus,
    DECENTRALIZED_IDENTIFIER_PREFIX,
};
use crate::providers::ProviderKind;
use crate::stores::client::{Client, ClientView, MemoryClientStore};
use crate::stores::tenant::{MemoryTenantStore, Tenant, TenantView};
use crate::text::{
    ascii_chars, is_header_text, lowercase, str_eq, trim_start_matches, without_prefixes,
};

verus! {

/// A request to register a device for a client.
#[derive(Debug, PartialEq, Eq)]
pub struct RegisterBody {
    pub client_id: String,
    pub push_type: String,
    pub token: String,
    pub always_raw: Option<bool>,
}

impl RegisterBody {
    /// The id under which the client is stored: the submitted id without
    /// the prefix of a decentralized identifier.
    pub open spec fn stored_id(&self) -> Seq<char> {
        without_prefixes(self.client_id@, DECENTRALIZED_IDENTIFIER_PREFIX@)
    }

    /// The client that the request registers for a tenant with a provider:
    /// with the submitted token, and taking plaintext unless the request
    /// says otherwise.
    pub open spec fn client(&self, tenant_id: Seq<char>, kind: ProviderKind) -> ClientView {
        ClientView {
            tenant_id,
            push_type: kind,
            token: self.token@,
            always_raw: match self.always_raw {
                Some(always_raw) => always_raw,
                None => false,
            },
        }
    }

    /// What registering the request for tenant `tenant_id` leaves behind
    /// and answers. The provider must exist, the tenant must exist and
    /// support it, and the token must not be empty: each is checked in this
    /// order and reported by its own error, with nothing stored. Otherwise
    /// the client is stored under its tenant and id, and the answer is
    /// success.
    pub open spec fn registered(
        &self,
        tenants: Map<Seq<char>, TenantView>,
        before: Map<(Seq<char>, Seq<char>), ClientView>,
        after: Map<(Seq<char>, Seq<char>), ClientView>,
        tenant_id: Seq<char>,
        result: Result<Response, Error>,
    ) -> bool {
        match ProviderKind::spec_from_lowercase(lowercase(self.push_type@)) {
            None => {
                &&& after == before
                &&& result matches Err(Error::ProviderNotFound(name))
                &&& name@ == self.push_type@
            },
            Some(kind) => if !tenants.contains_key(tenant_id) {
                &&& after == before
                &&& result matches Err(Error::TenantNotFound(missing))
                &&& missing@ == tenant_id
            } else if !tenants[tenant_id].supports(kind) {
                &&& after == before
                &&& result matches Err(Error::ProviderNotAvailable(name))
                &&& name@ == kind.spec_as_str()
            } else if self.token@.len() == 0 {
                &&& after == before
                &&& result matches Err(Error::EmptyField(field))
                &&& field@ == "token"@
            } else {
                &&& after == before.insert(
                    (tenant_id, self.stored_id()),
                    self.client(tenant_id, kind),
                )
                &&& result == Ok::<Response, Error>(
                    Response {
                        status: ResponseStatus::Success,
                        status_code: 200,
                        errors: None,
                        fields: None,
                    },
                )
            },
        }
    }
}

impl RegisterBody {
    /// The provider that the request names, in any case.
    pub fn provider(&self) -> (result: Result<ProviderKind, Error>)
        ensures
            match ProviderKind::spec_from_lowercase(lowercase(self.push_type@)) {
                Some(kind) => result == Ok::<ProviderKind, Error>(kind),
                None => result matches Err(Error::ProviderNotFound(name)) && name@
                    == self.push_type@,
            },
    {
        ProviderKind::from_name(self.push_type.as_str())
    }

    /// The client that the request registers with its tenant, and the id
    /// to store it under. A provider that the tenant does not support is
    /// `ProviderNotAvailable` with the provider's name; otherwise an empty
    /// token is `EmptyField` with the name `token`.
    pub fn into_client(self, tenant_id: &str, tenant: &Tenant, kind: ProviderKind) -> (result: Result<
        (String, Client),
        Error,
    >)
        ensures
            !tenant@.supports(kind) ==> (result matches Err(Error::ProviderNotAvailable(name))
                && name@ == kind.spec_as_str()),
            tenant@.supports(kind) && self.token@.len() == 0 ==> (result matches Err(
                Error::EmptyField(field),
            ) && field@ == "token"@),
            tenant@.supports(kind) && self.token@.len() > 0 ==> {
                &&& result is Ok
                &&& result->Ok_0.0@ == self.stored_id()
                &&& result->Ok_0.1@ == self.client(tenant_id@, kind)
            },
    {
        if !tenant.supports(kind) {
            return Err(Error::ProviderNotAvailable(kind.as_str().to_owned()));
        }
        if self.token.as_str().unicode_len() == 0 {
            return Err(Error::EmptyField("token".to_owned()));
        }
        let client_id = trim_start_matches(self.client_id.as_str(), DECENTRALIZED_IDENTIFIER_PREFIX);
        let always_raw = match self.always_raw {
            Some(always_raw) => always_raw,
            None => false,
        };
        let client = Client {
            tenant_id: tenant_id.to_owned(),
            push_type: kind,
            token: self.token,
            always_raw,
        };
        Ok((client_id, client))
    }
}

/// Registers a device for a client of a tenant, for a request whose
/// sender has been authenticated.
pub fn register(
    tenants: &MemoryTenantStore,
    clients: &mut MemoryClientStore,
    tenant_id: &str,
    body: RegisterBody,
) -> (result: Result<Response, Error>)
    ensures
        body.registered(tenants@, old(clients)@, final(clients)@, tenant_id@, result),
{
    let push_type = body.provider()?;
    let tenant = tenants.get_tenant(tenant_id)?;
    let (client_id, client) = body.into_client(tenant_id, &tenant, push_type)?;
    clients.create_client(tenant_id, client_id.as_str(), client)?;
    Ok(Response::default())
}

/// A request that was registered is fetched again as it was submitted:
/// under the submitted id without its prefix, with the provider that the
/// request names, the submitted token, and the always-raw flag as
/// submitted, or off where none was.
pub proof fn lemma_registered_request_is_fetched(
    body: RegisterBody,
    tenants: Map<Seq<char>, TenantView>,
    before: Map<(Seq<char>, Seq<char>), ClientView>,
    after: Map<(Seq<char>, Seq<char>), ClientView>,
    tenant_id: Seq<char>,
    result: Result<Response, Error>,
    fetch: Result<Client, Error>,
)
    requires
        body.registered(tenants, before, after, tenant_id, result),
        result is Ok,
        MemoryClientStore::fetched(after, tenant_id, body.stored_id(), fetch),
    ensures
        fetch is Ok,
        fetch->Ok_0@.token == body.token@,
        Some(fetch->Ok_0@.push_type) == ProviderKind::spec_from_lowercase(
            lowercase(body.push_type@),
        ),
        fetch->Ok_0@.always_raw == (body.always_raw == Some(true)),
        fetch->Ok_0@.tenant_id == tenant_id,
{
}

/// Whether a token was issued by the client that a request names. A
/// request without the issuer of a token was issued by nobody.
pub fn issued_by(issuer: &Option<String>, client_id: &str) -> (same: bool)
    ensures
        same == (*issuer matches Some(id) && id@ == client_id@),
{
    match issuer {
        Some(id) => str_eq(id.as_str(), client_id),
        None => false,
    }
}

/// Serves a request to register a device for a client of a tenant.
///
/// The sender is authenticated first, by `authenticate_client` with the
/// deployment's public address as the audience: the issuer of an accepted
/// token must be the client that the request names. A request without a
/// token passes or fails as the policy says. A sender that is turned down
/// is `InvalidAuthentication` and nothing is stored; otherwise the request
/// is registered as `RegisterBody::registered` says.
pub fn handler<V>(
    tenants: &MemoryTenantStore,
    clients: &mut MemoryClientStore,
    policy: AuthPolicy,
    auth_header: Option<&[u8]>,
    public_url: &str,
    verify: V,
    tenant_id: &str,
    body: RegisterBody,
) -> (result: Result<Response, Error>) where V: FnOnce(String, String) -> Option<String>
    requires
        forall|token: String, audience: String| call_requires(verify, (token, audience)),
    ensures
        match auth_header {
            None => if policy.anonymous_allowed {
                body.registered(tenants@, old(clients)@, final(clients)@, tenant_id@, result)
            } else {
                final(clients)@ == old(clients)@ && result == Err::<Response, Error>(
                    Error::InvalidAuthentication,
                )
            },
            Some(value) => if !is_header_text(value@) {
                final(clients)@ == old(clients)@ && result == Err::<Response, Error>(
                    Error::InvalidAuthentication,
                )
            } else {
                exists|token: String, audience: String, issuer: Option<String>|
                    {
                        &&& token@ == ascii_chars(value@)
                        &&& audience@ == public_url@
                        &&& #[trigger] call_ensures(verify, (token, audience), issuer)
                        &&& match issuer {
                            None => final(clients)@ == old(clients)@ && result == Err::<
                                Response,
                                Error,
                            >(Error::Jwt),
                            Some(id) => if id@ == body.client_id@ {
                                body.registered(
                                    tenants@,
                                    old(clients)@,
                                    final(clients)@,
                                    tenant_id@,
                                    result,
                                )
                            } else {
                                final(clients)@ == old(clients)@ && result == Err::<
                                    Response,
                                    Error,
                                >(Error::InvalidAuthentication)
                            },
                        }
                    }
            },
        },
{
    let requested = body.client_id.clone();
    let check = |client_id: Option<String>| -> (same: bool)
        ensures
            same == (client_id matches Some(id) && id@ == requested@),
        {
            issued_by(&client_id, requested.as_str())
        };
    let authenticated = authenticate_client(policy, auth_header, public_url, verify, check)?;
    ensure_authenticated(authenticated)?;
    register(tenants, clients, tenant_id, body)
}

} // verus!
