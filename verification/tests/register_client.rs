use echo_server::error::Error;
use echo_server::handlers::register_client::{handler, issued_by, register, RegisterBody};
use echo_server::handlers::{AuthPolicy, Response, ResponseStatus};
use echo_server::providers::ProviderKind;
use echo_server::stores::client::{Client, MemoryClientStore};
use echo_server::stores::tenant::{MemoryTenantStore, TenantFcmUpdateParams, TenantUpdateParams};

fn tenants() -> MemoryTenantStore {
    let mut tenants = MemoryTenantStore::new();
    tenants.create_tenant(TenantUpdateParams { id: "tenant".to_owned() }).unwrap();
    tenants
        .update_tenant_fcm("tenant", TenantFcmUpdateParams { fcm_api_key: "key".to_owned() })
        .unwrap();
    tenants
}

fn request(client_id: &str, push_type: &str, token: &str, always_raw: Option<bool>) -> RegisterBody {
    RegisterBody {
        client_id: client_id.to_owned(),
        push_type: push_type.to_owned(),
        token: token.to_owned(),
        always_raw,
    }
}

fn never(_: String, _: String) -> Option<String> {
    panic!("no token was presented")
}

#[test]
fn registration_stores_the_client_without_the_prefix() {
    let tenants = tenants();
    let mut clients = MemoryClientStore::new();
    let response = register(
        &tenants,
        &mut clients,
        "tenant",
        request("did:key:z6Mk", "FCM", "device", Some(true)),
    );
    assert_eq!(
        response,
        Ok(Response { status: ResponseStatus::Success, status_code: 200, errors: None, fields: None })
    );
    assert_eq!(
        clients.get_client("tenant", "z6Mk"),
        Ok(Client {
            tenant_id: "tenant".to_owned(),
            push_type: ProviderKind::Fcm,
            token: "device".to_owned(),
            always_raw: true,
        })
    );
    assert_eq!(
        clients.get_client("tenant", "did:key:z6Mk"),
        Err(Error::ClientNotFound("did:key:z6Mk".to_owned()))
    );
}

#[test]
fn registration_removes_every_leading_prefix_and_defaults_to_plaintext() {
    let tenants = tenants();
    let mut clients = MemoryClientStore::new();
    register(&tenants, &mut clients, "tenant", request("did:key:did:key:abc", "fcm", "d", None))
        .unwrap();
    let client = clients.get_client("tenant", "abc").unwrap();
    assert!(!client.always_raw);
    register(&tenants, &mut clients, "tenant", request("plain:did:key:", "fcm", "e", None)).unwrap();
    assert_eq!(clients.get_client("tenant", "plain:did:key:").unwrap().token, "e");
}

#[test]
fn registration_checks_provider_tenant_support_and_token_in_order() {
    let tenants = tenants();
    let mut clients = MemoryClientStore::new();
    assert_eq!(
        register(&tenants, &mut clients, "nobody", request("c", "Carrier-Pigeon", "", None)),
        Err(Error::ProviderNotFound("Carrier-Pigeon".to_owned()))
    );
    assert_eq!(
        register(&tenants, &mut clients, "nobody", request("c", "apns", "", None)),
        Err(Error::TenantNotFound("nobody".to_owned()))
    );
    assert_eq!(
        register(&tenants, &mut clients, "tenant", request("c", "APNS-Sandbox", "", None)),
        Err(Error::ProviderNotAvailable("apns-sandbox".to_owned()))
    );
    assert_eq!(
        register(&tenants, &mut clients, "tenant", request("c", "fcm", "", None)),
        Err(Error::EmptyField("token".to_owned()))
    );
    assert_eq!(clients.get_client("tenant", "c"), Err(Error::ClientNotFound("c".to_owned())));
}

#[test]
fn request_without_token_passes_while_the_policy_allows() {
    let tenants = tenants();
    let mut clients = MemoryClientStore::new();
    let response = handler(
        &tenants,
        &mut clients,
        AuthPolicy::default(),
        None,
        "https://push.example",
        never,
        "tenant",
        request("client", "fcm", "device", None),
    );
    assert_eq!(response, Ok(Response::default()));
    assert_eq!(clients.get_client("tenant", "client").unwrap().token, "device");

    let response = handler(
        &tenants,
        &mut clients,
        AuthPolicy { anonymous_allowed: false },
        None,
        "https://push.example",
        never,
        "tenant",
        request("other", "fcm", "device", None),
    );
    assert_eq!(response, Err(Error::InvalidAuthentication));
    assert_eq!(clients.get_client("tenant", "other"), Err(Error::ClientNotFound("other".to_owned())));
}

#[test]
fn request_must_come_from_the_client_it_names() {
    let tenants = tenants();
    let mut clients = MemoryClientStore::new();
    let issuer = |token: String, audience: String| {
        assert_eq!(token, "signed.by.client");
        assert_eq!(audience, "https://push.example");
        Some("client".to_owned())
    };
    let response = handler(
        &tenants,
        &mut clients,
        AuthPolicy::default(),
        Some(b"signed.by.client"),
        "https://push.example",
        issuer,
        "tenant",
        request("someone-else", "fcm", "device", None),
    );
    assert_eq!(response, Err(Error::InvalidAuthentication));
    assert_eq!(
        clients.get_client("tenant", "someone-else"),
        Err(Error::ClientNotFound("someone-else".to_owned()))
    );

    let response = handler(
        &tenants,
        &mut clients,
        AuthPolicy::default(),
        Some(b"signed.by.client"),
        "https://push.example",
        issuer,
        "tenant",
        request("client", "fcm", "device", None),
    );
    assert_eq!(response, Ok(Response::default()));
    assert_eq!(clients.get_client("tenant", "client").unwrap().token, "device");
}

#[test]
fn request_with_a_refused_token_is_turned_down() {
    let tenants = tenants();
    let mut clients = MemoryClientStore::new();
    let response = handler(
        &tenants,
        &mut clients,
        AuthPolicy::default(),
        Some(b"forged"),
        "https://push.example",
        |_: String, _: String| None,
        "tenant",
        request("client", "fcm", "device", None),
    );
    assert_eq!(response, Err(Error::Jwt));
    let response = handler(
        &tenants,
        &mut clients,
        AuthPolicy::default(),
        Some(&[0xff, 0xfe]),
        "https://push.example",
        never,
        "tenant",
        request("client", "fcm", "device", None),
    );
    assert_eq!(response, Err(Error::InvalidAuthentication));
    assert_eq!(clients.get_client("tenant", "client"), Err(Error::ClientNotFound("client".to_owned())));
}

#[test]
fn request_names_its_provider_and_becomes_a_client() {
    let tenant = tenants().get_tenant("tenant").unwrap();
    let body = request("did:key:abc", "Fcm", "device", None);
    assert_eq!(body.provider(), Ok(ProviderKind::Fcm));
    assert_eq!(
        body.into_client("tenant", &tenant, ProviderKind::Fcm),
        Ok((
            "abc".to_owned(),
            Client {
                tenant_id: "tenant".to_owned(),
                push_type: ProviderKind::Fcm,
                token: "device".to_owned(),
                always_raw: false,
            }
        ))
    );
    assert_eq!(
        request("abc", "fcm", "device", None).into_client("tenant", &tenant, ProviderKind::FcmV1),
        Err(Error::ProviderNotAvailable("fcm_v1".to_owned()))
    );
    assert_eq!(
        request("abc", "fcm", "", None).into_client("tenant", &tenant, ProviderKind::Fcm),
        Err(Error::EmptyField("token".to_owned()))
    );
    assert_eq!(
        request("abc", "telegraph", "device", None).provider(),
        Err(Error::ProviderNotFound("telegraph".to_owned()))
    );
}

#[test]
fn token_is_issued_by_the_client_it_names_or_by_nobody() {
    assert!(issued_by(&Some("client".to_owned()), "client"));
    assert!(!issued_by(&Some("client".to_owned()), "Client"));
    assert!(!issued_by(&Some("did:key:client".to_owned()), "client"));
    assert!(!issued_by(&None, "client"));
    assert!(!issued_by(&None, ""));
}
