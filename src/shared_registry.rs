use vstd::prelude::*;
use vstd::rwlock::{RwLock, RwLockPredicate};

use crate::client::{ConnectionId, WsClient};
use crate::registry::{RegistryError, SessionRegistry};

verus! {

/// What the lock keeps true of the registry it guards.
pub struct KeyedById {}

impl RwLockPredicate<SessionRegistry> for KeyedById {
    open spec fn inv(self, v: SessionRegistry) -> bool {
        v.wf()
    }
}

/// The registry shared between connection tasks: any number of lookups
/// proceed together, while an insert or a remove holds it alone for the
/// structural change only.
pub struct SharedRegistry {
    lock: RwLock<SessionRegistry, KeyedById>,
}

impl SharedRegistry {
    #[verifier::type_invariant]
    spec fn guards_keyed_registry(self) -> bool {
        self.lock.pred() == KeyedById {}
    }

    /// An empty shared registry.
    pub fn new() -> (r: SharedRegistry) {
        SharedRegistry { lock: RwLock::new(SessionRegistry::new(), Ghost(KeyedById {})) }
    }

    /// Registers `client` unless its identifier is registered already.
    pub fn insert(&self, client: WsClient) -> (r: Result<WsClient, RegistryError>)
        ensures
            r == Ok::<WsClient, RegistryError>(client) || r == Err::<WsClient, RegistryError>(
                RegistryError::DuplicateId(client.id),
            ),
    {
        proof {
            use_type_invariant(self);
        }
        let (mut reg, handle) = self.lock.acquire_write();
        let r = reg.insert(client);
        handle.release_write(reg);
        r
    }

    /// The handle registered under `id`, if any: never one of another
    /// identifier.
    pub fn lookup(&self, id: ConnectionId) -> (r: Option<WsClient>)
        ensures
            r matches Some(c) ==> c.id == id,
    {
        proof {
            use_type_invariant(self);
        }
        let handle = self.lock.acquire_read();
        let r = handle.borrow().lookup(id);
        handle.release_read();
        r
    }

    /// Takes the handle registered under `id` out, if any: never one of
    /// another identifier.
    pub fn remove(&self, id: ConnectionId) -> (r: Option<WsClient>)
        ensures
            r matches Some(c) ==> c.id == id,
    {
        proof {
            use_type_invariant(self);
        }
        let (mut reg, handle) = self.lock.acquire_write();
        let r = reg.remove(id);
        handle.release_write(reg);
        r
    }

    /// Whether a handle is registered under `id` at the moment of the call.
    pub fn contains(&self, id: ConnectionId) -> (r: bool) {
        let handle = self.lock.acquire_read();
        let r = handle.borrow().contains(id);
        handle.release_read();
        r
    }
}

} // verus!
