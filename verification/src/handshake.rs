//! The pairwise handshake: two peers exchange key-agreement public keys and
//! each derives the secret that both then share.
//!
//! With respect to one peer a node has no secret, or has sent an offer and
//! waits, or holds a secret. An offer goes out when a message is to be sent
//! and no secret is on file. Whoever receives an offer files the secret and
//! acknowledges; whoever receives the acknowledgment files the secret and
//! stays silent.

use crate::hexcode::{hex_bytes, hex_decode};
use crate::keys::{array_from_slice, EcdhKeyPair, KeyPairView, SECRET_LEN};
use crate::router::{inbox_topic, inbox_topic_spec};
use crate::store::{after_offer, SecretStore, Sessions};
use crate::wire::{action_views, Action, ActionView, Notification, NotificationView, WireMessage, WireMessageView};
use vstd::prelude::*;

verus! {

/// The public key that a handshake carries, when it is the hexadecimal text
/// of exactly 32 bytes.
pub open spec fn accepted_key(pub_key: Seq<char>) -> Option<Seq<u8>> {
    match hex_bytes(pub_key) {
        Some(key) => if key.len() == SECRET_LEN {
            Some(key)
        } else {
            None
        },
        None => None,
    }
}

/// The offer that opens a handshake.
pub open spec fn offer_of(keys: KeyPairView) -> WireMessageView {
    WireMessageView::Handshake { pub_key: keys.public_hex(), is_reply: false }
}

/// The acknowledgment of an offer.
pub open spec fn reply_of(keys: KeyPairView) -> WireMessageView {
    WireMessageView::Handshake { pub_key: keys.public_hex(), is_reply: true }
}

/// What a step of the handshake leaves behind: the sessions afterwards, and
/// what is to be done.
pub struct HandshakeStep {
    pub sessions: Sessions,
    pub actions: Seq<ActionView>,
}

/// The step taken when an offer goes out to `peer`: the peer is awaited,
/// unless it is known already, and the offer is what is to be published to
/// its inbox.
pub open spec fn on_initiate(keys: KeyPairView, sessions: Sessions, peer: Seq<char>) -> (
    Sessions,
    WireMessageView,
) {
    (after_offer(sessions, peer), offer_of(keys))
}

/// The step taken for a handshake whose key was accepted and gave `shared`:
/// the secret goes on file, the observers are told, and an offer, but not a
/// reply, is acknowledged.
pub open spec fn on_agreement(
    keys: KeyPairView,
    sessions: Sessions,
    sender: Seq<char>,
    shared: Seq<u8>,
    is_reply: bool,
) -> HandshakeStep {
    let established = ActionView::Notify(NotificationView::HandshakeComplete(sender));
    HandshakeStep {
        sessions: sessions.insert(sender, Some(shared)),
        actions: if is_reply {
            seq![established]
        } else {
            seq![
                established,
                ActionView::PublishEnvelope {
                    topic: inbox_topic_spec(sender),
                    envelope: reply_of(keys),
                },
            ]
        },
    }
}

/// The step taken for a handshake from `sender`. One whose key is not the
/// hexadecimal text of 32 bytes is discarded.
pub open spec fn on_handshake(
    keys: KeyPairView,
    sessions: Sessions,
    sender: Seq<char>,
    pub_key: Seq<char>,
    is_reply: bool,
) -> HandshakeStep {
    match accepted_key(pub_key) {
        Some(their_public) => on_agreement(
            keys,
            sessions,
            sender,
            keys.shared_with(their_public),
            is_reply,
        ),
        None => HandshakeStep { sessions, actions: Seq::empty() },
    }
}

/// Opens a handshake with `peer`: notes that an offer goes out and returns
/// the offer, which is to be published to the inbox of `peer`.
pub fn initiate(keys: &EcdhKeyPair, store: &mut SecretStore, peer: &str) -> (offer: WireMessage)
    ensures
        final(store)@ == on_initiate(keys@, old(store)@, peer@).0,
        offer@ == on_initiate(keys@, old(store)@, peer@).1,
{
    store.mark_offered(peer);
    WireMessage::Handshake { pub_key: keys.public_hex(), is_reply: false }
}

/// Puts the secret agreed with `sender` on file and returns what is to be
/// done: tell the observers and, for an offer, acknowledge it.
pub fn complete(
    keys: &EcdhKeyPair,
    store: &mut SecretStore,
    sender: &str,
    shared: [u8; 32],
    is_reply: bool,
) -> (actions: Vec<Action>)
    ensures
        final(store)@ == on_agreement(keys@, old(store)@, sender@, shared@, is_reply).sessions,
        action_views(actions@) == on_agreement(
            keys@,
            old(store)@,
            sender@,
            shared@,
            is_reply,
        ).actions,
{
    store.put(sender, shared);
    let mut actions = vec![Action::Notify(Notification::HandshakeComplete(sender.to_owned()))];
    if !is_reply {
        let reply = WireMessage::Handshake { pub_key: keys.public_hex(), is_reply: true };
        actions.push(Action::PublishEnvelope { topic: inbox_topic(sender), envelope: reply });
    }
    assert(action_views(actions@) =~= on_agreement(
        keys@,
        old(store)@,
        sender@,
        shared@,
        is_reply,
    ).actions);
    actions
}

/// Reacts to a handshake from `sender`: derives the shared secret from the
/// key it carries and completes the handshake, or discards it when the key
/// is not the hexadecimal text of 32 bytes.
pub fn receive(
    keys: &EcdhKeyPair,
    store: &mut SecretStore,
    sender: &str,
    pub_key: &str,
    is_reply: bool,
) -> (actions: Vec<Action>)
    ensures
        final(store)@ == on_handshake(keys@, old(store)@, sender@, pub_key@, is_reply).sessions,
        action_views(actions@) == on_handshake(
            keys@,
            old(store)@,
            sender@,
            pub_key@,
            is_reply,
        ).actions,
{
    if let Some(bytes) = hex_decode(pub_key) {
        if let Some(their_public) = array_from_slice(bytes.as_slice()) {
            let shared = keys.agree(&their_public);
            return complete(keys, store, sender, shared, is_reply);
        }
    }
    let actions: Vec<Action> = Vec::new();
    assert(action_views(actions@) =~= Seq::<ActionView>::empty());
    actions
}

} // verus!
