use vstd::prelude::*;

verus! {

/// Identifier of one connection, assigned at admission and fixed for the
/// connection's lifetime.
#[derive(Clone, Copy, Debug, PartialEq, Eq, Structural)]
pub struct ConnectionId {
    pub value: u128,
}

/// The handle of one live connection: its identifier and when it was
/// created. Both are fixed, so a copy may be consulted by anyone.
#[derive(Clone, Copy, Debug, PartialEq, Eq, Structural)]
pub struct WsClient {
    pub id: ConnectionId,
    pub created_at_ms: u64,
}

/// Relies on `uuid::Uuid::new_v4`, read back whole with `as_u128`: a random
/// value whose version field (bits 76 to 79) is 4 and whose variant field
/// (bits 62 and 63) is `0b10`. It panics only where the system refuses to
/// hand out random bytes.
#[verifier::external_body]
fn random_v4_id() -> (r: u128)
    ensures
        (r >> 76u128) & 0xfu128 == 4,
        (r >> 62u128) & 0x3u128 == 2,
{
    uuid::Uuid::new_v4().as_u128()
}

impl WsClient {
    /// A handle with a freshly drawn random identifier.
    pub fn new(created_at_ms: u64) -> (r: WsClient)
        ensures
            r.created_at_ms == created_at_ms,
            (r.id.value >> 76u128) & 0xfu128 == 4,
            (r.id.value >> 62u128) & 0x3u128 == 2,
    {
        let value = random_v4_id();
        WsClient { id: ConnectionId { value }, created_at_ms }
    }

    /// A handle with the given identifier.
    pub fn with_id(id: ConnectionId, created_at_ms: u64) -> (r: WsClient)
        ensures
            r.id == id,
            r.created_at_ms == created_at_ms,
    {
        WsClient { id, created_at_ms }
    }

    pub fn id(&self) -> (r: ConnectionId)
        ensures
            r == self.id,
    {
        self.id
    }
}

} // verus!
