//! Key material of a node: the pair used for pairwise key agreement, and the
//! long-term identity under which the node is known to the overlay.

use crate::cipher::random_array;
use crate::hexcode::{hex_encode, hex_text};
use libp2p::identity::Keypair;
use vstd::pervasive::unreached;
use vstd::prelude::*;
use x25519_dalek::{PublicKey, StaticSecret};

verus! {

/// Bytes in a private scalar, in a public key and in a shared secret.
pub const SECRET_LEN: usize = 32;

/// The X25519 public key of a private scalar.
pub uninterp spec fn x25519_public(secret: Seq<u8>) -> Seq<u8>;

/// The X25519 shared secret of a private scalar and another party's public
/// key.
pub uninterp spec fn x25519_shared(secret: Seq<u8>, public: Seq<u8>) -> Seq<u8>;

/// The identity key pair that a serialized form holds, if it holds one.
pub uninterp spec fn identity_keypair(encoding: Seq<u8>) -> Option<Keypair>;

/// The serialized form of the Ed25519 identity key pair made from a seed of
/// 32 bytes.
pub uninterp spec fn ed25519_identity(seed: Seq<u8>) -> Seq<u8>;

/// Agreement with `public` is symmetric: whoever combines a scalar of their
/// own with `public` obtains what `secret` obtains from the public key of
/// that scalar.
pub open spec fn agreement_is_symmetric(secret: Seq<u8>, public: Seq<u8>) -> bool {
    forall|other: Seq<u8>|
        other.len() == SECRET_LEN ==> #[trigger] x25519_shared(other, public) == x25519_shared(
            secret,
            x25519_public(other),
        )
}

/// Calls `PublicKey::from` on the `StaticSecret` made of `secret`. The second
/// clause is the defining property of the Diffie-Hellman function, taken on
/// trust: combining any scalar with the key returned gives what `secret`
/// gives with the public key of that scalar.
#[verifier::external_body]
pub(crate) fn x25519_public_key(secret: &[u8; 32]) -> (public: [u8; 32])
    ensures
        public@ == x25519_public(secret@),
        agreement_is_symmetric(secret@, public@),
{
    PublicKey::from(&StaticSecret::from(*secret)).to_bytes()
}

/// Calls `StaticSecret::diffie_hellman` on the `StaticSecret` made of
/// `secret` and the `PublicKey` made of `their_public`.
#[verifier::external_body]
pub(crate) fn x25519_agree(secret: &[u8; 32], their_public: &[u8; 32]) -> (shared: [u8; 32])
    ensures
        shared@ == x25519_shared(secret@, their_public@),
{
    StaticSecret::from(*secret).diffie_hellman(&PublicKey::from(*their_public)).to_bytes()
}

/// The overlay's identity key pair, carried through as it is.
#[verifier::external_type_specification]
#[verifier::external_body]
pub struct ExKeypair(Keypair);

/// Calls `Keypair::from_protobuf_encoding`, which accepts or refuses the
/// bytes, and makes the key pair, by what the bytes hold and nothing else.
#[verifier::external_body]
pub(crate) fn decode_keypair(encoding: &[u8]) -> (keypair: Option<Keypair>)
    ensures
        keypair == identity_keypair(encoding@),
{
    Keypair::from_protobuf_encoding(encoding).ok()
}

/// Calls `Keypair::ed25519_from_bytes`, which accepts any 32 bytes as the
/// secret of an Ed25519 pair and makes the pair from them alone. The pair is
/// the one that its serialized form holds.
#[verifier::external_body]
pub(crate) fn keypair_from_seed(seed: [u8; 32]) -> (keypair: Option<Keypair>)
    ensures
        keypair is Some,
        keypair == identity_keypair(ed25519_identity(seed@)),
{
    Keypair::ed25519_from_bytes(seed).ok()
}

/// Whether `keypair` is the Ed25519 pair made from `seed`.
pub open spec fn is_made_from(keypair: Keypair, seed: Seq<u8>) -> bool {
    seed.len() == SECRET_LEN && identity_keypair(ed25519_identity(seed)) == Some(keypair)
}

/// Whether a pair made from a seed was written, and written as the
/// serialized form of that seed.
pub open spec fn serializes(keypair: Keypair, encoding: Option<Vec<u8>>) -> bool {
    forall|seed: Seq<u8>| #[trigger]
        is_made_from(keypair, seed) ==> encoding is Some && encoding->0@ == ed25519_identity(seed)
}

/// Calls `Keypair::to_protobuf_encoding`. What it writes reads back as the
/// key pair that was written, and an Ed25519 pair is always written.
#[verifier::external_body]
pub(crate) fn encode_keypair(keypair: &Keypair) -> (encoding: Option<Vec<u8>>)
    ensures
        encoding matches Some(e) ==> identity_keypair(e@) == Some(*keypair),
        serializes(*keypair, encoding),
{
    keypair.to_protobuf_encoding().ok()
}

/// The array that holds exactly the bytes of `bytes`, when there are 32.
pub fn array_from_slice(bytes: &[u8]) -> (array: Option<[u8; 32]>)
    ensures
        array is Some <==> bytes@.len() == SECRET_LEN,
        array matches Some(a) ==> a@ == bytes@,
{
    if bytes.len() != SECRET_LEN {
        return None;
    }
    let mut array = [0u8; 32];
    let mut i: usize = 0;
    while i < SECRET_LEN
        invariant
            i <= SECRET_LEN,
            bytes@.len() == SECRET_LEN,
            forall|j: int| 0 <= j < i ==> array@[j] == bytes@[j],
        decreases SECRET_LEN - i,
    {
        array[i] = bytes[i];
        i += 1;
    }
    assert(array@ =~= bytes@);
    Some(array)
}

/// The mathematical value of an [`EcdhKeyPair`].
pub struct KeyPairView {
    pub secret: Seq<u8>,
    pub public: Seq<u8>,
}

impl KeyPairView {
    /// `public` is the public key of `secret`, and agreement with it is
    /// symmetric.
    pub open spec fn wf(self) -> bool {
        &&& self.secret.len() == SECRET_LEN
        &&& self.public.len() == SECRET_LEN
        &&& self.public == x25519_public(self.secret)
        &&& agreement_is_symmetric(self.secret, self.public)
    }

    /// The hexadecimal text in which the public key is advertised.
    pub open spec fn public_hex(self) -> Seq<char> {
        hex_text(self.public)
    }

    /// The secret shared with the holder of `their_public`.
    pub open spec fn shared_with(self, their_public: Seq<u8>) -> Seq<u8> {
        x25519_shared(self.secret, their_public)
    }
}

/// The key pair used only for pairwise key agreement: a private scalar and
/// the public key derived from it.
pub struct EcdhKeyPair {
    secret: [u8; 32],
    public: [u8; 32],
}

impl View for EcdhKeyPair {
    type V = KeyPairView;

    closed spec fn view(&self) -> KeyPairView {
        KeyPairView { secret: self.secret@, public: self.public@ }
    }
}

impl EcdhKeyPair {
    #[verifier::type_invariant]
    pub open spec fn inv(self) -> bool {
        self@.wf()
    }

    /// The pair whose private scalar is `secret`.
    pub fn from_secret(secret: [u8; 32]) -> (pair: EcdhKeyPair)
        ensures
            pair@.secret == secret@,
            pair@.wf(),
    {
        let public = x25519_public_key(&secret);
        EcdhKeyPair { secret, public }
    }

    /// A pair whose private scalar is drawn from the operating system's
    /// random source; `None` when that source fails.
    pub fn generate() -> (pair: Option<EcdhKeyPair>)
        ensures
            pair matches Some(p) ==> p@.wf(),
    {
        match random_array::<32>() {
            Some(secret) => Some(EcdhKeyPair::from_secret(secret)),
            None => None,
        }
    }

    /// The private scalar, for persisting it.
    pub fn secret(&self) -> (secret: [u8; 32])
        ensures
            secret@ == self@.secret,
            self@.wf(),
    {
        proof {
            use_type_invariant(self);
        }
        self.secret
    }

    /// The public key.
    pub fn public(&self) -> (public: [u8; 32])
        ensures
            public@ == self@.public,
            self@.wf(),
    {
        proof {
            use_type_invariant(self);
        }
        self.public
    }

    /// The public key as the hexadecimal text that a handshake carries.
    pub fn public_hex(&self) -> (text: String)
        ensures
            text@ == self@.public_hex(),
    {
        hex_encode(self.public.as_slice())
    }

    /// The secret shared with the holder of `their_public`.
    pub fn agree(&self, their_public: &[u8; 32]) -> (shared: [u8; 32])
        ensures
            shared@ == self@.shared_with(their_public@),
    {
        x25519_agree(&self.secret, their_public)
    }
}

/// A key pair obtained at startup, and whether it has yet to be persisted.
pub struct KeyLoad {
    pub key: EcdhKeyPair,
    /// The pair is new: its private scalar is to be written back.
    pub generated: bool,
}

/// The private scalar that persisted bytes hold: all of them, when there are
/// exactly 32.
pub open spec fn stored_scalar(stored: Option<Vec<u8>>) -> Option<Seq<u8>> {
    match stored {
        Some(bytes) => if bytes@.len() == SECRET_LEN {
            Some(bytes@)
        } else {
            None
        },
        None => None,
    }
}

/// The key-agreement pair for this run: the persisted scalar when `stored`
/// holds exactly 32 bytes, else a fresh one that the caller persists.
/// `None` only when a fresh scalar is needed and none can be drawn.
pub fn load_or_generate_ecdh_key(stored: Option<Vec<u8>>) -> (load: Option<KeyLoad>)
    ensures
        load matches Some(l) ==> l.key@.wf(),
        stored_scalar(stored) matches Some(scalar) ==> load matches Some(l) && l.key@.secret
            == scalar && !l.generated,
        stored_scalar(stored) is None ==> (load matches Some(l) ==> l.generated),
{
    if let Some(bytes) = stored {
        if let Some(secret) = array_from_slice(bytes.as_slice()) {
            return Some(KeyLoad { key: EcdhKeyPair::from_secret(secret), generated: false });
        }
    }
    match EcdhKeyPair::generate() {
        Some(key) => Some(KeyLoad { key, generated: true }),
        None => None,
    }
}

/// The long-term identity of the node: the key pair from which its network
/// identifier derives, and the serialized form in which it is persisted.
pub struct NodeIdentity {
    keypair: Keypair,
    encoding: Vec<u8>,
}

impl View for NodeIdentity {
    type V = Seq<u8>;

    closed spec fn view(&self) -> Seq<u8> {
        self.encoding@
    }
}

impl NodeIdentity {
    #[verifier::type_invariant]
    pub closed spec fn inv(self) -> bool {
        identity_keypair(self@) == Some(self.keypair)
    }

    /// The identity that `encoding` holds, when it reads back as a key pair.
    pub fn from_encoding(encoding: Vec<u8>) -> (identity: Option<NodeIdentity>)
        ensures
            identity is Some <==> identity_decodes(encoding@),
            identity matches Some(i) ==> i@ == encoding@,
    {
        match decode_keypair(encoding.as_slice()) {
            Some(keypair) => Some(NodeIdentity { keypair, encoding }),
            None => None,
        }
    }

    /// The Ed25519 identity whose secret is `seed`.
    pub fn from_seed(seed: [u8; 32]) -> (identity: NodeIdentity)
        ensures
            identity@ == ed25519_identity(seed@),
            identity_decodes(identity@),
    {
        match keypair_from_seed(seed) {
            Some(keypair) => {
                let written = encode_keypair(&keypair);
                assert(is_made_from(keypair, seed@));
                match written {
                    Some(encoding) => NodeIdentity { keypair, encoding },
                    None => unreached(),
                }
            },
            None => unreached(),
        }
    }

    /// A fresh identity, its secret drawn from the operating system's
    /// random source; `None` only when that source fails.
    pub fn generate() -> (identity: Option<NodeIdentity>)
        ensures
            identity matches Some(i) ==> is_fresh_identity(i@),
    {
        match random_array::<32>() {
            Some(seed) => Some(NodeIdentity::from_seed(seed)),
            None => None,
        }
    }

    /// The key pair that the serialized form holds, for the overlay identity.
    pub fn keypair(&self) -> (keypair: &Keypair)
        ensures
            identity_keypair(self@) == Some(*keypair),
    {
        proof {
            use_type_invariant(self);
        }
        &self.keypair
    }

    /// The serialized key pair, for persisting it.
    pub fn encoding(&self) -> (encoding: &Vec<u8>)
        ensures
            encoding@ == self@,
            identity_decodes(self@),
    {
        proof {
            use_type_invariant(self);
        }
        &self.encoding
    }
}

/// Whether a serialized identity key pair can be read back.
pub open spec fn identity_decodes(encoding: Seq<u8>) -> bool {
    identity_keypair(encoding) is Some
}

/// Whether `encoding` is the serialized form of an Ed25519 identity made
/// from some seed of 32 bytes, and so reads back.
pub open spec fn is_fresh_identity(encoding: Seq<u8>) -> bool {
    &&& identity_decodes(encoding)
    &&& exists|seed: Seq<u8>| seed.len() == SECRET_LEN && encoding == #[trigger] ed25519_identity(seed)
}

/// An identity obtained at startup, and whether it has yet to be persisted.
pub struct IdentityLoad {
    pub identity: NodeIdentity,
    /// The identity is new: its encoding is to be written back.
    pub generated: bool,
}

/// The identity that persisted bytes hold, when they read back as a key
/// pair.
pub open spec fn stored_identity(stored: Option<Vec<u8>>) -> Option<Seq<u8>> {
    match stored {
        Some(bytes) => if identity_decodes(bytes@) {
            Some(bytes@)
        } else {
            None
        },
        None => None,
    }
}

/// The identity for this run: the persisted one when `stored` reads back as
/// a key pair, else a fresh one that the caller persists. `None` only when a
/// fresh identity is needed and no secret can be drawn for it.
pub fn load_or_generate_keypair(stored: Option<Vec<u8>>) -> (load: Option<IdentityLoad>)
    ensures
        load matches Some(l) ==> identity_decodes(l.identity@),
        stored_identity(stored) matches Some(encoding) ==> load matches Some(l) && l.identity@
            == encoding && !l.generated,
        stored_identity(stored) is None ==> (load matches Some(l) ==> l.generated
            && is_fresh_identity(l.identity@)),
{
    if let Some(bytes) = stored {
        if let Some(identity) = NodeIdentity::from_encoding(bytes) {
            return Some(IdentityLoad { identity, generated: false });
        }
    }
    match NodeIdentity::generate() {
        Some(identity) => Some(IdentityLoad { identity, generated: true }),
        None => None,
    }
}

} // verus!
