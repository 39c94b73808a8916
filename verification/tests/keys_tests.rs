use p2p_chat::keys::{
    array_from_slice, load_or_generate_ecdh_key, load_or_generate_keypair, EcdhKeyPair,
    NodeIdentity,
};

fn bytes32(text: &str) -> [u8; 32] {
    let bytes = hex::decode(text).unwrap();
    let mut array = [0u8; 32];
    array.copy_from_slice(&bytes);
    array
}

const ALICE_SECRET: &str = "77076d0a7318a57d3c16c17251b26645df4c2f87ebc0992ab177fba51db92c2a";
const ALICE_PUBLIC: &str = "8520f0098930a754748b7ddcb43ef75a0dbf3a0d26381af4eba4a98eaa9b4e6a";
const BOB_SECRET: &str = "5dab087e624a8a4b79e17f8b83800ee66f3bb1292618b6fd1c2f8b27ff88e0eb";
const BOB_PUBLIC: &str = "de9edb7d7b7dc1b4d35b61c2ece435373f8343c85b78674dadfc7e146f882b4f";
const SHARED: &str = "4a5d9d5ba4ce2de1728e3bf480350f25e07e21c947d19e3376f09b3c1e161742";

#[test]
fn public_key_of_a_known_scalar() {
    let alice = EcdhKeyPair::from_secret(bytes32(ALICE_SECRET));
    assert_eq!(alice.secret(), bytes32(ALICE_SECRET));
    assert_eq!(alice.public(), bytes32(ALICE_PUBLIC));
    let bob = EcdhKeyPair::from_secret(bytes32(BOB_SECRET));
    assert_eq!(bob.public(), bytes32(BOB_PUBLIC));
}

#[test]
fn public_key_in_hexadecimal() {
    let alice = EcdhKeyPair::from_secret(bytes32(ALICE_SECRET));
    assert_eq!(alice.public_hex(), ALICE_PUBLIC);
    let bob = EcdhKeyPair::from_secret(bytes32(BOB_SECRET));
    assert_eq!(bob.public_hex(), BOB_PUBLIC);
}

#[test]
fn agreement_gives_the_known_secret() {
    let alice = EcdhKeyPair::from_secret(bytes32(ALICE_SECRET));
    let bob = EcdhKeyPair::from_secret(bytes32(BOB_SECRET));
    assert_eq!(alice.agree(&bob.public()), bytes32(SHARED));
    assert_eq!(bob.agree(&alice.public()), bytes32(SHARED));
}

#[test]
fn agreement_is_symmetric_for_fresh_pairs() {
    let a = EcdhKeyPair::generate().unwrap();
    let b = EcdhKeyPair::generate().unwrap();
    assert_ne!(a.secret(), b.secret());
    assert_eq!(a.agree(&b.public()), b.agree(&a.public()));
}

#[test]
fn array_from_slice_wants_32_bytes() {
    let bytes: Vec<u8> = (0u8..32).collect();
    let array = array_from_slice(&bytes).unwrap();
    assert_eq!(&array[..], &bytes[..]);
    assert_eq!(array_from_slice(&bytes[..31]), None);
    assert_eq!(array_from_slice(&[0u8; 33]), None);
    assert_eq!(array_from_slice(&[]), None);
}

#[test]
fn stored_scalar_is_used() {
    let stored = bytes32(ALICE_SECRET);
    let load = load_or_generate_ecdh_key(Some(stored.to_vec())).unwrap();
    assert!(!load.generated);
    assert_eq!(load.key.secret(), stored);
    assert_eq!(load.key.public(), bytes32(ALICE_PUBLIC));
}

#[test]
fn missing_scalar_is_generated() {
    let first = load_or_generate_ecdh_key(None).unwrap();
    let second = load_or_generate_ecdh_key(None).unwrap();
    assert!(first.generated);
    assert!(second.generated);
    assert_ne!(first.key.secret(), second.key.secret());
}

#[test]
fn scalar_of_wrong_length_is_replaced() {
    let load = load_or_generate_ecdh_key(Some(vec![1u8; 31])).unwrap();
    assert!(load.generated);
    let load = load_or_generate_ecdh_key(Some(vec![1u8; 33])).unwrap();
    assert!(load.generated);
    let load = load_or_generate_ecdh_key(Some(vec![])).unwrap();
    assert!(load.generated);
}

#[test]
fn missing_identity_is_generated_and_reads_back() {
    let first = load_or_generate_keypair(None).unwrap();
    assert!(first.generated);
    let encoding = first.identity.encoding().clone();
    assert!(!encoding.is_empty());
    let again = load_or_generate_keypair(Some(encoding.clone())).unwrap();
    assert!(!again.generated);
    assert_eq!(again.identity.encoding(), &encoding);
}

#[test]
fn fresh_identities_differ() {
    let first = load_or_generate_keypair(None).unwrap();
    let second = load_or_generate_keypair(None).unwrap();
    assert_ne!(first.identity.encoding(), second.identity.encoding());
}

#[test]
fn unreadable_identity_is_replaced() {
    let garbage = vec![0xffu8; 40];
    let load = load_or_generate_keypair(Some(garbage.clone())).unwrap();
    assert!(load.generated);
    assert_ne!(load.identity.encoding(), &garbage);
    assert!(NodeIdentity::from_encoding(garbage).is_none());
    assert!(NodeIdentity::from_encoding(vec![]).is_none());
}

#[test]
fn identity_encoding_is_the_overlay_key_pair() {
    let keypair = libp2p::identity::Keypair::generate_ed25519();
    let encoding = keypair.to_protobuf_encoding().unwrap();
    let identity = NodeIdentity::from_encoding(encoding.clone()).unwrap();
    assert_eq!(identity.encoding(), &encoding);
    assert_eq!(identity.keypair().public().to_peer_id(), keypair.public().to_peer_id());
}

#[test]
fn generated_identity_holds_the_pair_it_encodes() {
    let identity = NodeIdentity::generate().unwrap();
    let back = libp2p::identity::Keypair::from_protobuf_encoding(identity.encoding()).unwrap();
    assert_eq!(back.public().to_peer_id(), identity.keypair().public().to_peer_id());
}

#[test]
fn identity_from_a_seed_is_the_ed25519_pair_of_that_seed() {
    let seed = [7u8; 32];
    let expected = libp2p::identity::Keypair::ed25519_from_bytes(seed).unwrap();
    let identity = NodeIdentity::from_seed(seed);
    assert_eq!(identity.encoding(), &expected.to_protobuf_encoding().unwrap());
    assert_eq!(identity.keypair().public().to_peer_id(), expected.public().to_peer_id());
}

#[test]
fn identity_from_a_seed_depends_on_the_seed_alone() {
    let first = NodeIdentity::from_seed([1u8; 32]);
    let again = NodeIdentity::from_seed([1u8; 32]);
    let other = NodeIdentity::from_seed([2u8; 32]);
    assert_eq!(first.encoding(), again.encoding());
    assert_ne!(first.encoding(), other.encoding());
    assert_ne!(first.encoding(), &vec![1u8; 32]);
}

#[test]
fn identity_from_a_seed_reads_back() {
    let identity = NodeIdentity::from_seed([9u8; 32]);
    let back = NodeIdentity::from_encoding(identity.encoding().clone()).unwrap();
    assert_eq!(back.encoding(), identity.encoding());
    assert_eq!(
        back.keypair().public().to_peer_id(),
        identity.keypair().public().to_peer_id()
    );
    let load = load_or_generate_keypair(Some(identity.encoding().clone())).unwrap();
    assert!(!load.generated);
    assert_eq!(load.identity.encoding(), identity.encoding());
}

#[test]
fn generated_identity_is_an_ed25519_pair() {
    let load = load_or_generate_keypair(Some(vec![1, 2, 3])).unwrap();
    assert!(load.generated);
    assert_eq!(load.identity.keypair().key_type(), libp2p::identity::KeyType::Ed25519);
    let fresh = load_or_generate_keypair(None).unwrap();
    assert_eq!(fresh.identity.keypair().key_type(), libp2p::identity::KeyType::Ed25519);
}
