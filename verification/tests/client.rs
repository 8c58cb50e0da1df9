use echo_server::error::Error;
use echo_server::providers::ProviderKind;
use echo_server::stores::client::{Client, MemoryClientStore};
use echo_server::stores::delete_tenant;
use echo_server::stores::tenant::{MemoryTenantStore, TenantUpdateParams};

fn client(tenant: &str, kind: ProviderKind, token: &str, always_raw: bool) -> Client {
    Client {
        tenant_id: tenant.to_owned(),
        push_type: kind,
        token: token.to_owned(),
        always_raw,
    }
}

#[test]
fn registered_client_is_fetched_as_registered() {
    let mut clients = MemoryClientStore::new();
    for (id, kind, token, always_raw) in [
        ("a", ProviderKind::Fcm, "token-a", false),
        ("b", ProviderKind::Apns, "token-b", true),
        ("c", ProviderKind::ApnsSandbox, "token-c", false),
        ("d", ProviderKind::FcmV1, "token-d", true),
    ] {
        assert_eq!(clients.create_client("tenant", id, client("tenant", kind, token, always_raw)), Ok(()));
        let fetched = clients.get_client("tenant", id).unwrap();
        assert_eq!(fetched.token, token);
        assert_eq!(fetched.push_type, kind);
        assert_eq!(fetched.always_raw, always_raw);
    }
    assert_eq!(clients.get_client("tenant", "a").unwrap().token, "token-a");
}

#[test]
fn client_is_keyed_by_tenant_and_id() {
    let mut clients = MemoryClientStore::new();
    clients.create_client("one", "id", client("one", ProviderKind::Fcm, "first", false)).unwrap();
    clients.create_client("two", "id", client("two", ProviderKind::Apns, "second", true)).unwrap();
    assert_eq!(clients.get_client("one", "id").unwrap().token, "first");
    assert_eq!(clients.get_client("two", "id").unwrap().token, "second");
    assert_eq!(clients.get_client("one", "other"), Err(Error::ClientNotFound("other".to_owned())));
}

#[test]
fn registering_again_replaces_the_client() {
    let mut clients = MemoryClientStore::new();
    clients.create_client("t", "id", client("t", ProviderKind::Fcm, "old", false)).unwrap();
    clients.create_client("t", "id", client("t", ProviderKind::Apns, "new", true)).unwrap();
    assert_eq!(clients.get_client("t", "id"), Ok(client("t", ProviderKind::Apns, "new", true)));
}

#[test]
fn client_without_token_is_not_stored() {
    let mut clients = MemoryClientStore::new();
    assert_eq!(
        clients.create_client("t", "id", client("t", ProviderKind::Fcm, "", false)),
        Err(Error::EmptyField("token".to_owned()))
    );
    assert_eq!(clients.get_client("t", "id"), Err(Error::ClientNotFound("id".to_owned())));
}

#[test]
fn deleted_client_is_gone() {
    let mut clients = MemoryClientStore::new();
    clients.create_client("t", "a", client("t", ProviderKind::Fcm, "ta", false)).unwrap();
    clients.create_client("t", "b", client("t", ProviderKind::Fcm, "tb", false)).unwrap();
    assert_eq!(clients.delete_client("t", "a"), Ok(()));
    assert_eq!(clients.get_client("t", "a"), Err(Error::ClientNotFound("a".to_owned())));
    assert_eq!(clients.get_client("t", "b").unwrap().token, "tb");
    assert_eq!(clients.delete_client("t", "a"), Err(Error::ClientNotFound("a".to_owned())));
}

#[test]
fn clients_of_a_deleted_tenant_are_gone() {
    let mut clients = MemoryClientStore::new();
    clients.create_client("one", "a", client("one", ProviderKind::Fcm, "1a", false)).unwrap();
    clients.create_client("two", "a", client("two", ProviderKind::Fcm, "2a", true)).unwrap();
    clients.create_client("one", "b", client("one", ProviderKind::Apns, "1b", false)).unwrap();
    clients.create_client("two", "b", client("two", ProviderKind::Apns, "2b", false)).unwrap();
    clients.create_client("one", "c", client("one", ProviderKind::FcmV1, "1c", false)).unwrap();
    clients.delete_tenant_clients("one");
    for id in ["a", "b", "c"] {
        assert_eq!(clients.get_client("one", id), Err(Error::ClientNotFound(id.to_owned())));
    }
    assert_eq!(clients.get_client("two", "a"), Ok(client("two", ProviderKind::Fcm, "2a", true)));
    assert_eq!(clients.get_client("two", "b"), Ok(client("two", ProviderKind::Apns, "2b", false)));
    clients.delete_tenant_clients("nobody");
    assert_eq!(clients.get_client("two", "a").unwrap().token, "2a");
}

#[test]
fn deleting_a_tenant_deletes_its_clients() {
    let mut tenants = MemoryTenantStore::new();
    tenants.create_tenant(TenantUpdateParams { id: "one".to_owned() }).unwrap();
    tenants.create_tenant(TenantUpdateParams { id: "two".to_owned() }).unwrap();
    let mut clients = MemoryClientStore::new();
    clients.create_client("one", "a", client("one", ProviderKind::Fcm, "1a", false)).unwrap();
    clients.create_client("two", "a", client("two", ProviderKind::Fcm, "2a", false)).unwrap();
    assert_eq!(delete_tenant(&mut tenants, &mut clients, "one"), Ok(()));
    assert_eq!(tenants.get_tenant("one"), Err(Error::TenantNotFound("one".to_owned())));
    assert!(tenants.get_tenant("two").is_ok());
    assert_eq!(clients.get_client("one", "a"), Err(Error::ClientNotFound("a".to_owned())));
    assert_eq!(clients.get_client("two", "a").unwrap().token, "2a");
}
