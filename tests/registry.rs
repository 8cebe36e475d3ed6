use std::sync::Arc;

use ws_game_server::client::{ConnectionId, WsClient};
use ws_game_server::registry::{RegistryError, SessionRegistry};
use ws_game_server::shared_registry::SharedRegistry;

fn client(value: u128) -> WsClient {
    WsClient::with_id(ConnectionId { value }, 1_000)
}

#[test]
fn insert_lookup_remove_lookup() {
    let mut reg = SessionRegistry::new();
    let a = client(0xA);
    assert_eq!(reg.insert(a), Ok(a));
    assert_eq!(reg.lookup(a.id), Some(a));
    assert_eq!(reg.remove(a.id), Some(a));
    assert_eq!(reg.lookup(a.id), None);
    assert_eq!(reg.len(), 0);
}

#[test]
fn duplicate_insert_is_refused_and_keeps_the_first() {
    let mut reg = SessionRegistry::new();
    let first = WsClient::with_id(ConnectionId { value: 7 }, 1);
    let second = WsClient::with_id(ConnectionId { value: 7 }, 2);
    assert_eq!(reg.insert(first), Ok(first));
    assert_eq!(reg.insert(second), Err(RegistryError::DuplicateId(ConnectionId { value: 7 })));
    assert_eq!(reg.lookup(ConnectionId { value: 7 }), Some(first));
    assert_eq!(reg.len(), 1);
}

#[test]
fn removing_a_missing_id_is_a_no_op() {
    let mut reg = SessionRegistry::new();
    let a = client(1);
    reg.insert(a).unwrap();
    assert_eq!(reg.remove(ConnectionId { value: 2 }), None);
    assert_eq!(reg.remove(ConnectionId { value: 2 }), None);
    assert!(reg.contains(a.id));
    assert_eq!(reg.len(), 1);
}

#[test]
fn lookups_only_find_live_handles_in_any_order() {
    let mut reg = SessionRegistry::new();
    let a = client(1);
    let b = client(2);
    let c = client(u128::MAX);
    reg.insert(a).unwrap();
    reg.insert(b).unwrap();
    reg.remove(a.id);
    reg.insert(c).unwrap();
    reg.remove(c.id);
    reg.insert(a).unwrap();
    assert_eq!(reg.lookup(a.id), Some(a));
    assert_eq!(reg.lookup(b.id), Some(b));
    assert_eq!(reg.lookup(c.id), None);
    assert_eq!(reg.len(), 2);
}

#[test]
fn shared_insert_lookup_remove_lookup() {
    let reg = SharedRegistry::new();
    let a = client(0xA);
    assert_eq!(reg.insert(a), Ok(a));
    assert_eq!(reg.insert(a), Err(RegistryError::DuplicateId(a.id)));
    assert_eq!(reg.lookup(a.id), Some(a));
    assert!(reg.contains(a.id));
    assert_eq!(reg.remove(a.id), Some(a));
    assert_eq!(reg.lookup(a.id), None);
    assert_eq!(reg.remove(a.id), None);
}

#[test]
fn shared_registry_across_tasks() {
    let rt = tokio::runtime::Builder::new_multi_thread().worker_threads(4).build().unwrap();
    let reg = Arc::new(SharedRegistry::new());
    rt.block_on(async {
        let mut tasks = Vec::new();
        for t in 0..8u128 {
            let reg = reg.clone();
            tasks.push(tokio::spawn(async move {
                for i in 0..100u128 {
                    let c = client(t * 1000 + i);
                    assert_eq!(reg.insert(c), Ok(c));
                    assert_eq!(reg.lookup(c.id), Some(c));
                    if i % 2 == 0 {
                        assert_eq!(reg.remove(c.id), Some(c));
                        assert_eq!(reg.lookup(c.id), None);
                    }
                }
            }));
        }
        for t in tasks {
            t.await.unwrap();
        }
    });
    for t in 0..8u128 {
        for i in 0..100u128 {
            let id = ConnectionId { value: t * 1000 + i };
            assert_eq!(reg.contains(id), i % 2 == 1);
        }
    }
}

#[test]
fn fresh_clients_carry_random_v4_ids() {
    let a = WsClient::new(5);
    let b = WsClient::new(5);
    assert_eq!(a.created_at_ms, 5);
    assert_eq!((a.id.value >> 76) & 0xf, 4);
    assert_eq!((a.id.value >> 62) & 0x3, 2);
    assert_ne!(a.id, b.id);
    assert_eq!(a.id(), a.id);
}
