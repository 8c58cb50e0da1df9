use vstd::prelude::*;
use crate::error::Error;
use crate::providers::ProviderKind;
use crate::text::str_eq;

verus! {

/// A registered device: the provider that reaches it, its token there, and
/// whether it only ever takes encrypted payloads.
#[derive(Debug, PartialEq, Eq)]
pub struct Client {
    pub tenant_id: String,
    pub push_type: ProviderKind,
    pub token: String,
    pub always_raw: bool,
}

/// What a `Client` holds, as text.
pub struct ClientView {
    pub tenant_id: Seq<char>,
    pub push_type: ProviderKind,
    pub token: Seq<char>,
    pub always_raw: bool,
}

impl View for Client {
    type V = ClientView;

    open spec fn view(&self) -> ClientView {
        ClientView {
            tenant_id: self.tenant_id@,
            push_type: self.push_type,
            token: self.token@,
            always_raw: self.always_raw,
        }
    }
}

impl Clone for Client {
    fn clone(&self) -> (copy: Self)
        ensures
            copy == *self,
    {
        Client {
            tenant_id: self.tenant_id.clone(),
            push_type: self.push_type,
            token: self.token.clone(),
            always_raw: self.always_raw,
        }
    }
}

struct Entry {
    tenant_id: String,
    id: String,
    client: Client,
}

impl Entry {
    spec fn key(&self) -> (Seq<char>, Seq<char>) {
        (self.tenant_id@, self.id@)
    }
}

/// The registered clients of one deployment, held in memory and found by
/// tenant id and client id.
pub struct MemoryClientStore {
    entries: Vec<Entry>,
}

impl View for MemoryClientStore {
    type V = Map<(Seq<char>, Seq<char>), ClientView>;

    closed spec fn view(&self) -> Map<(Seq<char>, Seq<char>), ClientView> {
        Map::new(
            |key: (Seq<char>, Seq<char>)| self.holds(key),
            |key: (Seq<char>, Seq<char>)| self.entries@[self.slot(key)].client@,
        )
    }
}

impl MemoryClientStore {
    spec fn holds(&self, key: (Seq<char>, Seq<char>)) -> bool {
        exists|i: int| 0 <= i < self.entries@.len() && #[trigger] self.entries@[i].key() == key
    }

    spec fn slot(&self, key: (Seq<char>, Seq<char>)) -> int {
        choose|i: int| 0 <= i < self.entries@.len() && #[trigger] self.entries@[i].key() == key
    }

    #[verifier::type_invariant]
    spec fn sound(&self) -> bool {
        &&& forall|i: int, j: int|
            0 <= i < j < self.entries@.len() ==> #[trigger] self.entries@[i].key()
                != #[trigger] self.entries@[j].key()
        &&& forall|i: int|
            0 <= i < self.entries@.len() ==> (#[trigger] self.entries@[i]).client.token@.len() > 0
    }

    proof fn lemma_slot(&self, i: int)
        requires
            self.sound(),
            0 <= i < self.entries@.len(),
        ensures
            self.holds(self.entries@[i].key()),
            self.slot(self.entries@[i].key()) == i,
            self@.contains_key(self.entries@[i].key()),
            self@[self.entries@[i].key()] == self.entries@[i].client@,
    {
    }

    /// What fetching the client `id` of tenant `tenant_id` from a store
    /// that holds `clients` returns: the client, where it is registered,
    /// and `ClientNotFound` with the id, where it is not.
    pub open spec fn fetched(
        clients: Map<(Seq<char>, Seq<char>), ClientView>,
        tenant_id: Seq<char>,
        id: Seq<char>,
        result: Result<Client, Error>,
    ) -> bool {
        if clients.contains_key((tenant_id, id)) {
            &&& result is Ok
            &&& result->Ok_0@ == clients[(tenant_id, id)]
            &&& result->Ok_0@.token.len() > 0
        } else {
            &&& result matches Err(Error::ClientNotFound(missing))
            &&& missing@ == id
        }
    }

    /// A store without clients.
    pub fn new() -> (store: MemoryClientStore)
        ensures
            store@ == Map::<(Seq<char>, Seq<char>), ClientView>::empty(),
    {
        let store = MemoryClientStore { entries: Vec::new() };
        assert(store@ =~= Map::<(Seq<char>, Seq<char>), ClientView>::empty());
        store
    }

    fn position(&self, tenant_id: &str, id: &str) -> (found: Option<usize>)
        ensures
            match found {
                Some(i) => i < self.entries@.len() && self.entries@[i as int].key() == (
                    tenant_id@,
                    id@,
                ) && self@.contains_key((tenant_id@, id@)) && self@[(tenant_id@, id@)]
                    == self.entries@[i as int].client@,
                None => !self@.contains_key((tenant_id@, id@)) && !self.holds((tenant_id@, id@)),
            },
    {
        proof {
            use_type_invariant(self);
        }
        let mut i: usize = 0;
        while i < self.entries.len()
            invariant
                self.sound(),
                i <= self.entries@.len(),
                forall|j: int| 0 <= j < i ==> self.entries@[j].key() != (tenant_id@, id@),
            decreases self.entries@.len() - i,
        {
            if str_eq(self.entries[i].tenant_id.as_str(), tenant_id) && str_eq(
                self.entries[i].id.as_str(),
                id,
            ) {
                proof {
                    self.lemma_slot(i as int);
                }
                return Some(i);
            }
            i += 1;
        }
        None
    }

    /// Registers a client under its tenant and id, in place of any client
    /// registered there before. A client without a device token is not
    /// registered.
    pub fn create_client(&mut self, tenant_id: &str, id: &str, client: Client) -> (result: Result<
        (),
        Error,
    >)
        ensures
            client.token@.len() > 0 ==> result is Ok && final(self)@ == old(self)@.insert(
                (tenant_id@, id@),
                client@,
            ),
            client.token@.len() == 0 ==> final(self)@ == old(self)@ && (result matches Err(
                Error::EmptyField(field),
            ) && field@ == "token"@),
    {
        proof {
            use_type_invariant(&*self);
        }
        if client.token.as_str().unicode_len() == 0 {
            return Err(Error::EmptyField("token".to_owned()));
        }
        let ghost before = *self;
        let ghost key = (tenant_id@, id@);
        let ghost stored = client;
        let found = self.position(tenant_id, id);
        let entry = Entry { tenant_id: tenant_id.to_owned(), id: id.to_owned(), client };
        let mut entries: Vec<Entry> = Vec::new();
        core::mem::swap(&mut self.entries, &mut entries);
        match found {
            Some(i) => {
                entries.set(i, entry);
                self.entries = entries;
                proof {
                    let after = *self;
                    assert(after.sound());
                    assert forall|k: (Seq<char>, Seq<char>)| after.holds(k) == before.holds(k) by {
                        if after.holds(k) {
                            let j = after.slot(k);
                            assert(before.entries@[j].key() == k);
                        }
                        if before.holds(k) {
                            let j = before.slot(k);
                            assert(after.entries@[j].key() == k);
                        }
                    }
                    assert forall|k: (Seq<char>, Seq<char>)| before.holds(k) implies after@[k] == (
                    if k == key {
                        stored@
                    } else {
                        before@[k]
                    }) by {
                        let j = before.slot(k);
                        before.lemma_slot(j);
                        after.lemma_slot(j);
                    }
                    before.lemma_slot(i as int);
                    assert(after@ =~= before@.insert(key, stored@));
                }
            },
            None => {
                entries.push(entry);
                proof {
                    let last = before.entries@.len() as int;
                    assert(entries@[last].key() == key);
                    assert forall|i: int, j: int| 0 <= i < j < entries@.len() implies (
                    #[trigger] entries@[i]).key() != (#[trigger] entries@[j]).key() by {
                        if j == last {
                            assert(before.entries@[i].key() != key);
                        }
                    }
                }
                self.entries = entries;
                proof {
                    let after = *self;
                    let last = before.entries@.len() as int;
                    assert(after.sound());
                    after.lemma_slot(last);
                    assert forall|k: (Seq<char>, Seq<char>)| k != key implies after.holds(k)
                        == before.holds(k) by {
                        if after.holds(k) {
                            let j = after.slot(k);
                            assert(before.entries@[j].key() == k);
                        }
                        if before.holds(k) {
                            let j = before.slot(k);
                            assert(after.entries@[j].key() == k);
                        }
                    }
                    assert forall|k: (Seq<char>, Seq<char>)| before.holds(k) implies after@[k]
                        == before@[k] by {
                        let j = before.slot(k);
                        before.lemma_slot(j);
                        after.lemma_slot(j);
                    }
                    assert(after@ =~= before@.insert(key, stored@));
                }
            },
        }
        Ok(())
    }

    /// The client registered under this tenant and id.
    pub fn get_client(&self, tenant_id: &str, id: &str) -> (result: Result<Client, Error>)
        ensures
            Self::fetched(self@, tenant_id@, id@, result),
    {
        proof {
            use_type_invariant(self);
        }
        match self.position(tenant_id, id) {
            Some(i) => Ok(self.entries[i].client.clone()),
            None => Err(Error::ClientNotFound(id.to_owned())),
        }
    }

    /// Removes the client registered under this tenant and id; where there
    /// is none, nothing changes and `ClientNotFound` reports the id.
    pub fn delete_client(&mut self, tenant_id: &str, id: &str) -> (result: Result<(), Error>)
        ensures
            final(self)@ == old(self)@.remove((tenant_id@, id@)),
            old(self)@.contains_key((tenant_id@, id@)) ==> result is Ok,
            !old(self)@.contains_key((tenant_id@, id@)) ==> (result matches Err(
                Error::ClientNotFound(missing),
            ) && missing@ == id@),
    {
        proof {
            use_type_invariant(&*self);
        }
        let ghost before = *self;
        let ghost key = (tenant_id@, id@);
        match self.position(tenant_id, id) {
            Some(i) => {
                let mut entries: Vec<Entry> = Vec::new();
                core::mem::swap(&mut self.entries, &mut entries);
                entries.remove(i);
                self.entries = entries;
                proof {
                    let after = *self;
                    assert(after.sound());
                    assert forall|k: (Seq<char>, Seq<char>)| after.holds(k) == (before.holds(k)
                        && k != key) by {
                        if after.holds(k) {
                            let j = after.slot(k);
                            if j < i {
                                assert(before.entries@[j].key() == k);
                            } else {
                                assert(before.entries@[j + 1].key() == k);
                            }
                        }
                        if before.holds(k) && k != key {
                            let j = before.slot(k);
                            if j < i {
                                assert(after.entries@[j].key() == k);
                            } else {
                                assert(after.entries@[j - 1].key() == k);
                            }
                        }
                    }
                    assert forall|k: (Seq<char>, Seq<char>)| after.holds(k) implies after@[k]
                        == before@[k] by {
                        let j = after.slot(k);
                        after.lemma_slot(j);
                        if j < i {
                            before.lemma_slot(j);
                        } else {
                            before.lemma_slot(j + 1);
                        }
                    }
                    assert(after@ =~= before@.remove(key));
                }
                Ok(())
            },
            None => {
                assert(self@ =~= before@.remove(key));
                Err(Error::ClientNotFound(id.to_owned()))
            },
        }
    }

    /// Removes every client of a tenant, as the deletion of the tenant
    /// asks; the clients of other tenants stay as they are.
    pub fn delete_tenant_clients(&mut self, tenant_id: &str)
        ensures
            forall|key: (Seq<char>, Seq<char>)| #[trigger]
                final(self)@.contains_key(key) <==> old(self)@.contains_key(key) && key.0
                    != tenant_id@,
            forall|key: (Seq<char>, Seq<char>)| #[trigger]
                final(self)@.contains_key(key) ==> final(self)@[key] == old(self)@[key],
    {
        proof {
            use_type_invariant(&*self);
        }
        let ghost before = *self;
        let mut rest: Vec<Entry> = Vec::new();
        core::mem::swap(&mut self.entries, &mut rest);
        let mut kept: Vec<Entry> = Vec::new();
        let ghost mut origin: Seq<int> = Seq::empty();
        while rest.len() > 0
            invariant
                before.sound(),
                rest@ == before.entries@.subrange(0, rest@.len() as int),
                rest@.len() <= before.entries@.len(),
                Self::kept_from(before.entries@, tenant_id@, rest@.len() as int, kept@, origin),
            decreases rest@.len(),
        {
            let ghost at = rest@.len() - 1;
            let ghost earlier = origin;
            let entry = rest.pop().unwrap();
            assert(entry == before.entries@[at]);
            if !str_eq(entry.tenant_id.as_str(), tenant_id) {
                kept.push(entry);
                proof {
                    origin = origin.push(at);
                    assert(origin[earlier.len() as int] == at);
                }
            }
            proof {
                assert forall|from: int|
                    at <= from < before.entries@.len() && (
                    #[trigger] before.entries@[from]).tenant_id@ != tenant_id@ implies 0
                    <= Self::kept_at(origin, from) < origin.len() && origin[Self::kept_at(
                    origin,
                    from,
                )] == from by {
                    if from != at {
                        let i = Self::kept_at(earlier, from);
                        assert(origin[i] == from);
                    }
                }
            }
        }
        proof {
            assert forall|i: int, j: int| 0 <= i < j < kept@.len() implies (
            #[trigger] kept@[i]).key() != (#[trigger] kept@[j]).key() by {
                assert(origin[i] > origin[j]);
                assert(before.entries@[origin[j]].key() != before.entries@[origin[i]].key());
            }
            assert forall|i: int| 0 <= i < kept@.len() implies (
            #[trigger] kept@[i]).client.token@.len() > 0 by {
                assert(before.entries@[origin[i]].client.token@.len() > 0);
            }
        }
        self.entries = kept;
        proof {
            let after = *self;
            assert(after.sound());
            assert forall|key: (Seq<char>, Seq<char>)| #[trigger]
                after@.contains_key(key) <==> before@.contains_key(key) && key.0
                    != tenant_id@ by {
                if after.holds(key) {
                    let i = after.slot(key);
                    assert(before.entries@[origin[i]].key() == key);
                }
                if before.holds(key) && key.0 != tenant_id@ {
                    let j = before.slot(key);
                    let i = Self::kept_at(origin, j);
                    assert(after.entries@[i].key() == key);
                }
            }
            assert forall|key: (Seq<char>, Seq<char>)| #[trigger]
                after@.contains_key(key) implies after@[key] == before@[key] by {
                let i = after.slot(key);
                after.lemma_slot(i);
                before.lemma_slot(origin[i]);
            }
        }
    }

    spec fn kept_at(origin: Seq<int>, from: int) -> int {
        choose|i: int| 0 <= i < origin.len() && origin[i] == from
    }

    /// Of the entries from index `done` on, `kept` holds those of other
    /// tenants, each once; `origin` says where each came from.
    spec fn kept_from(
        entries: Seq<Entry>,
        tenant_id: Seq<char>,
        done: int,
        kept: Seq<Entry>,
        origin: Seq<int>,
    ) -> bool {
        &&& origin.len() == kept.len()
        &&& forall|i: int|
            0 <= i < kept.len() ==> done <= #[trigger] origin[i] < entries.len() && entries[origin[i]]
                == kept[i] && kept[i].tenant_id@ != tenant_id
        &&& forall|i: int, j: int|
            0 <= i < j < kept.len() ==> #[trigger] origin[i] > #[trigger] origin[j]
        &&& forall|from: int|
            done <= from < entries.len() && (#[trigger] entries[from]).tenant_id@ != tenant_id
                ==> 0 <= Self::kept_at(origin, from) < origin.len() && origin[Self::kept_at(
                origin,
                from,
            )] == from
    }
}

/// A client that was registered is fetched again as it was registered:
/// with the same provider, token and always-raw flag.
pub proof fn lemma_registered_client_is_fetched(
    before: Map<(Seq<char>, Seq<char>), ClientView>,
    after: Map<(Seq<char>, Seq<char>), ClientView>,
    tenant_id: Seq<char>,
    id: Seq<char>,
    client: ClientView,
    fetch: Result<Client, Error>,
)
    requires
        after == before.insert((tenant_id, id), client),
        MemoryClientStore::fetched(after, tenant_id, id, fetch),
    ensures
        fetch is Ok,
        fetch->Ok_0@ == client,
        fetch->Ok_0@.push_type == client.push_type,
        fetch->Ok_0@.token == client.token,
        fetch->Ok_0@.always_raw == client.always_raw,
{
}

} // verus!
