use std::collections::HashMap;
use vstd::prelude::*;

use crate::client::{ConnectionId, WsClient};

verus! {

broadcast use vstd::std_specs::hash::group_hash_axioms;

/// Why the registry refused an operation.
#[derive(Clone, Copy, Debug, PartialEq, Eq, Structural)]
pub enum RegistryError {
    /// A handle with this identifier is registered already.
    DuplicateId(ConnectionId),
}

/// One structural change of the registry.
#[derive(Clone, Copy, Debug, PartialEq, Eq, Structural)]
pub enum RegistryOp {
    Insert(WsClient),
    Remove(ConnectionId),
}

/// The registry's contents after `op`: an insert under an identifier that is
/// present already changes nothing.
pub open spec fn apply_op(m: Map<u128, WsClient>, op: RegistryOp) -> Map<u128, WsClient> {
    match op {
        RegistryOp::Insert(c) => if m.contains_key(c.id.value) {
            m
        } else {
            m.insert(c.id.value, c)
        },
        RegistryOp::Remove(id) => m.remove(id.value),
    }
}

/// The registry's contents after the operations of `ops`, in order.
pub open spec fn apply_ops(m: Map<u128, WsClient>, ops: Seq<RegistryOp>) -> Map<u128, WsClient>
    decreases ops.len(),
{
    if ops.len() == 0 {
        m
    } else {
        apply_op(apply_ops(m, ops.drop_last()), ops.last())
    }
}

/// Every handle is filed under its own identifier.
pub open spec fn keyed_by_id(m: Map<u128, WsClient>) -> bool {
    forall|k: u128| #[trigger] m.contains_key(k) ==> m[k].id.value == k
}

/// Whatever order whole inserts and removes come in, the registry only ever
/// exposes live handles: each one is filed under its own identifier, was
/// inserted by one of the operations, and no later operation removed it.
pub proof fn lemma_history_exposes_only_live(ops: Seq<RegistryOp>, k: u128)
    ensures
        keyed_by_id(apply_ops(Map::empty(), ops)),
        apply_ops(Map::empty(), ops).contains_key(k) ==> exists|i: int|
            0 <= i < ops.len() && ops[i] == RegistryOp::Insert(apply_ops(Map::empty(), ops)[k])
                && forall|j: int|
                i < j < ops.len() ==> ops[j] != RegistryOp::Remove(ConnectionId { value: k }),
    decreases ops.len(),
{
    let m = apply_ops(Map::empty(), ops);
    if ops.len() > 0 {
        let pre = ops.drop_last();
        let last = ops.last();
        let mp = apply_ops(Map::empty(), pre);
        lemma_history_exposes_only_live(pre, k);
        assert(m == apply_op(mp, last));
        if m.contains_key(k) {
            let fresh = match last {
                RegistryOp::Insert(c) => c.id.value == k && !mp.contains_key(k),
                RegistryOp::Remove(_) => false,
            };
            if fresh {
                let i = ops.len() - 1;
                assert(ops[i] == RegistryOp::Insert(m[k]));
            } else {
                assert(mp.contains_key(k) && m[k] == mp[k]);
                let i = choose|i: int|
                    0 <= i < pre.len() && pre[i] == RegistryOp::Insert(mp[k]) && forall|j: int|
                        i < j < pre.len() ==> pre[j] != RegistryOp::Remove(ConnectionId { value: k });
                assert(ops[i] == RegistryOp::Insert(m[k]));
                assert forall|j: int| i < j < ops.len() implies ops[j] != RegistryOp::Remove(
                    ConnectionId { value: k },
                ) by {
                    if j < pre.len() {
                        assert(ops[j] == pre[j]);
                    }
                }
            }
        }
    }
}

/// The directory of live connections, keyed by connection identifier.
pub struct SessionRegistry {
    clients: HashMap<u128, WsClient>,
}

impl View for SessionRegistry {
    type V = Map<u128, WsClient>;

    closed spec fn view(&self) -> Map<u128, WsClient> {
        self.clients@
    }
}

impl SessionRegistry {
    pub open spec fn wf(&self) -> bool {
        keyed_by_id(self@)
    }

    /// An empty registry.
    pub fn new() -> (r: SessionRegistry)
        ensures
            r@ == Map::<u128, WsClient>::empty(),
            r.wf(),
    {
        SessionRegistry { clients: HashMap::new() }
    }

    /// Registers `client` under its identifier and hands it back; an
    /// identifier that is registered already is refused and nothing changes.
    pub fn insert(&mut self, client: WsClient) -> (r: Result<WsClient, RegistryError>)
        requires
            old(self).wf(),
        ensures
            final(self).wf(),
            final(self)@ == apply_op(old(self)@, RegistryOp::Insert(client)),
            old(self)@.contains_key(client.id.value) ==> r == Err::<WsClient, RegistryError>(
                RegistryError::DuplicateId(client.id),
            ) && final(self)@ == old(self)@,
            !old(self)@.contains_key(client.id.value) ==> r == Ok::<WsClient, RegistryError>(
                client,
            ) && final(self)@ == old(self)@.insert(client.id.value, client),
    {
        if self.clients.contains_key(&client.id.value) {
            return Err(RegistryError::DuplicateId(client.id));
        }
        self.clients.insert(client.id.value, client);
        Ok(client)
    }

    /// The handle registered under `id`, if any.
    pub fn lookup(&self, id: ConnectionId) -> (r: Option<WsClient>)
        requires
            self.wf(),
        ensures
            r == (if self@.contains_key(id.value) {
                Some(self@[id.value])
            } else {
                None
            }),
            r matches Some(c) ==> c.id == id,
    {
        match self.clients.get(&id.value) {
            Some(c) => Some(*c),
            None => None,
        }
    }

    /// Takes the handle registered under `id` out and returns it; an
    /// identifier that is not registered changes nothing.
    pub fn remove(&mut self, id: ConnectionId) -> (r: Option<WsClient>)
        requires
            old(self).wf(),
        ensures
            final(self).wf(),
            final(self)@ == apply_op(old(self)@, RegistryOp::Remove(id)),
            final(self)@ == old(self)@.remove(id.value),
            !final(self)@.contains_key(id.value),
            r == (if old(self)@.contains_key(id.value) {
                Some(old(self)@[id.value])
            } else {
                None
            }),
    {
        self.clients.remove(&id.value)
    }

    /// Whether a handle is registered under `id`.
    pub fn contains(&self, id: ConnectionId) -> (r: bool)
        ensures
            r == self@.contains_key(id.value),
    {
        self.clients.contains_key(&id.value)
    }

    /// The number of registered handles.
    pub fn len(&self) -> (r: usize)
        ensures
            r == self@.len(),
    {
        self.clients.len()
    }
}

} // verus!
