use p2p_chat::store::{SecretStore, SessionState};

#[test]
fn new_store_knows_nobody() {
    let store = SecretStore::new();
    assert_eq!(store.get("Q"), None);
    assert_eq!(store.state("Q"), SessionState::NoSecret);
}

#[test]
fn put_then_get() {
    let mut store = SecretStore::new();
    store.put("Q", [1u8; 32]);
    store.put("R", [2u8; 32]);
    assert_eq!(store.get("Q"), Some([1u8; 32]));
    assert_eq!(store.get("R"), Some([2u8; 32]));
    assert_eq!(store.get("S"), None);
    assert_eq!(store.state("Q"), SessionState::Established);
}

#[test]
fn put_overwrites() {
    let mut store = SecretStore::new();
    store.put("Q", [1u8; 32]);
    store.put("R", [2u8; 32]);
    store.put("Q", [3u8; 32]);
    assert_eq!(store.get("Q"), Some([3u8; 32]));
    assert_eq!(store.get("R"), Some([2u8; 32]));
}

#[test]
fn put_is_idempotent() {
    let mut store = SecretStore::new();
    store.put("Q", [1u8; 32]);
    store.put("Q", [1u8; 32]);
    assert_eq!(store.get("Q"), Some([1u8; 32]));
}

#[test]
fn offer_is_remembered_until_a_secret_arrives() {
    let mut store = SecretStore::new();
    store.mark_offered("Q");
    assert_eq!(store.state("Q"), SessionState::OfferSent);
    assert_eq!(store.get("Q"), None);
    store.mark_offered("Q");
    assert_eq!(store.state("Q"), SessionState::OfferSent);
    store.put("Q", [4u8; 32]);
    assert_eq!(store.state("Q"), SessionState::Established);
    assert_eq!(store.get("Q"), Some([4u8; 32]));
}

#[test]
fn offer_does_not_disturb_a_secret() {
    let mut store = SecretStore::new();
    store.put("Q", [4u8; 32]);
    store.mark_offered("Q");
    assert_eq!(store.state("Q"), SessionState::Established);
    assert_eq!(store.get("Q"), Some([4u8; 32]));
}

#[test]
fn peers_are_told_apart_exactly() {
    let mut store = SecretStore::new();
    store.put("peer", [1u8; 32]);
    assert_eq!(store.get("Peer"), None);
    assert_eq!(store.get("peer "), None);
    assert_eq!(store.get("pee"), None);
    assert_eq!(store.get(""), None);
    store.put("", [2u8; 32]);
    assert_eq!(store.get(""), Some([2u8; 32]));
    assert_eq!(store.get("peer"), Some([1u8; 32]));
}
