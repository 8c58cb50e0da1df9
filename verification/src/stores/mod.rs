use vstd::prelude::*;
use crate::error::Error;
use crate::stores::client::MemoryClientStore;
use crate::stores::tenant::MemoryTenantStore;

pub mod client;
pub mod tenant;

verus! {

/// Deletes a tenant and, with it, every client that is registered for it.
/// The clients of other tenants stay as they are.
pub fn delete_tenant(tenants: &mut MemoryTenantStore, clients: &mut MemoryClientStore, id: &str) -> (result:
    Result<(), Error>)
    ensures
        result is Ok,
        final(tenants)@ == old(tenants)@.remove(id@),
        forall|key: (Seq<char>, Seq<char>)| #[trigger]
            final(clients)@.contains_key(key) <==> old(clients)@.contains_key(key) && key.0 != id@,
        forall|key: (Seq<char>, Seq<char>)| #[trigger]
            final(clients)@.contains_key(key) ==> final(clients)@[key] == old(clients)@[key],
{
    clients.delete_tenant_clients(id);
    tenants.delete_tenant(id)
}

} // verus!
