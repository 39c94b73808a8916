//! What holds of the handshake and of the node's state whatever the inputs.

use crate::cipher::{
    aes_gcm_opened, base64_bytes, decrypt_spec, read_text_spec, split_frame_spec,
};
use crate::engine::{
    encrypted_placeholder, new_message, on_delivery, on_event, on_send, EngineView,
};
use crate::handshake::{offer_of, reply_of};
use crate::hexcode::lemma_hex_round_trip;
use crate::router::{
    classify_spec, inbox_topic_spec, origin_of, route_spec, Origin, ENCRYPTED_CHANNEL,
    ENCRYPTED_TOPIC, PUBLIC_CHANNEL,
};
use crate::store::{established_secret, session_state, SessionState};
use crate::wire::{
    ActionView, NetworkEventView, NotificationView, SendOutcomeView, WireMessageView,
};
use vstd::prelude::*;

verus! {

/// Whether an action publishes anything to the overlay.
pub open spec fn publishes(action: ActionView) -> bool {
    action is Publish || action is PublishEnvelope
}

/// Whether none of the actions publishes anything to the overlay.
pub open spec fn publishes_nothing(actions: Seq<ActionView>) -> bool {
    forall|i: int| 0 <= i < actions.len() ==> !publishes(#[trigger] actions[i])
}

/// Whether every secret on file in `before` is still on file in `after`
/// for the same peer, and every peer known in `before` is known in `after`.
pub open spec fn keeps_sessions(before: EngineView, after: EngineView) -> bool {
    forall|peer: Seq<char>|
        #![trigger before.sessions.dom().contains(peer)]
        #![trigger after.sessions.dom().contains(peer)]
        {
            &&& before.sessions.dom().contains(peer) ==> after.sessions.dom().contains(peer)
            &&& established_secret(before.sessions, peer) is Some ==> established_secret(
                after.sessions,
                peer,
            ) is Some
        }
}

/// An inbox topic is neither of the two broadcast topics.
pub proof fn lemma_inbox_is_no_broadcast_topic(peer: Seq<char>)
    ensures
        inbox_topic_spec(peer) != crate::router::PUBLIC_TOPIC@,
        inbox_topic_spec(peer) != crate::router::ENCRYPTED_TOPIC@,
{
    reveal_strlit("phantom-global");
    reveal_strlit("encrypted-chat");
    reveal_strlit("inbox-");
    assert(inbox_topic_spec(peer)[0] == 'i');
    assert(crate::router::PUBLIC_TOPIC@[0] == 'p');
    assert(crate::router::ENCRYPTED_TOPIC@[0] == 'e');
}

/// A node hears what is sent to it: whatever is published on the channel
/// named by a node's identifier arrives in that node's inbox, and what is
/// published on a broadcast channel arrives as a broadcast at every node.
pub proof fn lemma_routes_reach_their_subscribers(id: Seq<char>, other: Option<Seq<char>>)
    ensures
        classify_spec(id) is Private ==> origin_of(route_spec(id), Some(id)) == Origin::Inbox,
        origin_of(route_spec(PUBLIC_CHANNEL@), other) == Origin::PublicBroadcast,
        origin_of(route_spec(ENCRYPTED_CHANNEL@), other) == Origin::EncryptedBroadcast,
{
    lemma_inbox_is_no_broadcast_topic(id);
    reveal_strlit("phantom-global");
    reveal_strlit("encrypted-chat");
    reveal_strlit("global-gossip");
    assert(crate::router::PUBLIC_TOPIC@[0] != crate::router::ENCRYPTED_TOPIC@[0]);
    assert(PUBLIC_CHANNEL@.len() != ENCRYPTED_CHANNEL@.len());
}

/// A network event changes the session of no peer but the one it came
/// from.
pub proof fn lemma_event_touches_only_its_source(
    state: EngineView,
    event: NetworkEventView,
    peer: Seq<char>,
)
    requires
        event matches NetworkEventView::Message { source, .. } ==> source != peer,
    ensures
        on_event(state, event).state.sessions.dom().contains(peer) == state.sessions.dom().contains(
            peer,
        ),
        established_secret(on_event(state, event).state.sessions, peer) == established_secret(
            state.sessions,
            peer,
        ),
{
}

/// Decryption returns no text but what the cipher opened: whenever a token
/// decrypts, its bytes hold a nonce and a sealed part that the cipher
/// accepted under the key, and the text is what the opened bytes spell.
/// Whether the cipher accepts an altered sealed part is the cipher's
/// affair; when it refuses, decryption fails.
pub proof fn lemma_plaintext_is_what_the_cipher_opened(token: Seq<char>, key: Seq<u8>)
    ensures
        decrypt_spec(token, key) is Ok ==> {
            &&& base64_bytes(token) matches Ok(raw)
            &&& split_frame_spec(raw) matches Some((nonce, sealed))
            &&& aes_gcm_opened(key, nonce, sealed) matches Ok(bytes)
            &&& decrypt_spec(token, key) == read_text_spec(bytes)
        },
        (base64_bytes(token) matches Ok(raw) && split_frame_spec(raw) matches Some((nonce, sealed))
            && aes_gcm_opened(key, nonce, sealed) is Err) ==> decrypt_spec(token, key) is Err,
{
}

/// A publication on the encrypted broadcast channel is never dropped: it
/// is shown as its plaintext when it decrypts under the static key, and as
/// the marked raw text when it does not, in one notification either way,
/// and the state stays as it is.
pub proof fn lemma_encrypted_broadcast_is_shown_or_marked(
    state: EngineView,
    source: Seq<char>,
    text: Seq<char>,
    envelope: Option<WireMessageView>,
)
    ensures
        ({
            let step = on_delivery(state, source, ENCRYPTED_TOPIC@, text, envelope);
            &&& step.state == state
            &&& decrypt_spec(text, state.broadcast_key) matches Ok(plain) ==> step.actions
                == seq![new_message(source, plain, ENCRYPTED_TOPIC@)]
            &&& decrypt_spec(text, state.broadcast_key) is Err ==> step.actions == seq![
                new_message(source, encrypted_placeholder(text), ENCRYPTED_TOPIC@),
            ]
        }),
{
    reveal_strlit("phantom-global");
    reveal_strlit("encrypted-chat");
    assert(crate::router::PUBLIC_TOPIC@[0] != ENCRYPTED_TOPIC@[0]);
}

/// Handshake convergence. Let A, known as `a_id`, be asked to send to
/// `b_id`, a peer with which it has no secret on file, so that it publishes
/// an offer; let B, known as `b_id`, receive that offer on the topic it was
/// published on, and let A receive what B publishes in return. Then each
/// holds a secret for the other, and the two secrets are the same.
pub proof fn lemma_handshake_converges(
    a: EngineView,
    b: EngineView,
    a_id: Seq<char>,
    b_id: Seq<char>,
    message: Seq<char>,
    nonce: Option<Seq<u8>>,
    offer_text: Seq<char>,
    reply_text: Seq<char>,
)
    requires
        a.keys.wf(),
        b.keys.wf(),
        a.local_peer_id == Some(a_id),
        b.local_peer_id == Some(b_id),
        classify_spec(b_id) is Private,
        established_secret(a.sessions, b_id) is None,
    ensures
        ({
            let (a_waiting, outcome) = on_send(a, b_id, message, nonce);
            let at_b = on_delivery(b, a_id, route_spec(b_id), offer_text, Some(offer_of(a.keys)));
            let at_a = on_delivery(
                a_waiting,
                b_id,
                inbox_topic_spec(a_id),
                reply_text,
                Some(reply_of(b.keys)),
            );
            &&& outcome == SendOutcomeView::HandshakeStarted { peer: b_id, offer: offer_of(a.keys) }
            &&& at_b.actions == seq![
                ActionView::Notify(NotificationView::HandshakeComplete(a_id)),
                ActionView::PublishEnvelope {
                    topic: inbox_topic_spec(a_id),
                    envelope: reply_of(b.keys),
                },
            ]
            &&& at_a.actions == seq![ActionView::Notify(NotificationView::HandshakeComplete(b_id))]
            &&& session_state(at_a.state.sessions, b_id) == SessionState::Established
            &&& session_state(at_b.state.sessions, a_id) == SessionState::Established
            &&& established_secret(at_a.state.sessions, b_id) == established_secret(
                at_b.state.sessions,
                a_id,
            )
        }),
{
    lemma_inbox_is_no_broadcast_topic(a_id);
    lemma_inbox_is_no_broadcast_topic(b_id);
    lemma_hex_round_trip(a.keys.public);
    lemma_hex_round_trip(b.keys.public);
    // Agreement is symmetric: what B derives from A's public key is what A
    // derives from B's.
    assert(b.keys.shared_with(a.keys.public) == a.keys.shared_with(b.keys.public));
}

/// Reply suppression: a node that receives a handshake marked as a reply
/// publishes nothing in return, on whatever topic and from whomever it
/// came.
pub proof fn lemma_reply_is_not_answered(
    state: EngineView,
    source: Seq<char>,
    topic: Seq<char>,
    text: Seq<char>,
    pub_key: Seq<char>,
)
    ensures
        publishes_nothing(
            on_delivery(
                state,
                source,
                topic,
                text,
                Some(WireMessageView::Handshake { pub_key, is_reply: true }),
            ).actions,
        ),
{
}

/// The only thing a node ever publishes in reaction to a network event is
/// the acknowledgment of an offer, sent to the inbox of the peer that made
/// the offer.
pub proof fn lemma_only_offers_are_answered(state: EngineView, event: NetworkEventView)
    ensures
        forall|i: int|
            0 <= i < on_event(state, event).actions.len() && publishes(
                #[trigger] on_event(state, event).actions[i],
            ) ==> {
                &&& event matches NetworkEventView::Message { source, envelope, .. }
                &&& envelope matches Some(WireMessageView::Handshake { is_reply, .. })
                &&& !is_reply
                &&& on_event(state, event).actions[i] == (ActionView::PublishEnvelope {
                    topic: inbox_topic_spec(source),
                    envelope: reply_of(state.keys),
                })
            },
{
}

/// Nothing is ever removed from the store: after a network event every
/// peer that was known is still known, and every peer with a secret on file
/// still has one.
pub proof fn lemma_events_keep_sessions(state: EngineView, event: NetworkEventView)
    ensures
        keeps_sessions(state, on_event(state, event).state),
        on_event(state, event).state.keys == state.keys,
        on_event(state, event).state.local_peer_id == state.local_peer_id,
{
}

/// A request to send removes nothing from the store either, and leaves a
/// secret that is on file as it is.
pub proof fn lemma_sending_keeps_sessions(
    state: EngineView,
    channel: Seq<char>,
    message: Seq<char>,
    nonce: Option<Seq<u8>>,
)
    ensures
        keeps_sessions(state, on_send(state, channel, message, nonce).0),
        forall|peer: Seq<char>|
            established_secret(state.sessions, peer) is Some ==> #[trigger] established_secret(
                on_send(state, channel, message, nonce).0.sessions,
                peer,
            ) == established_secret(state.sessions, peer),
{
}

/// The list of listen addresses only grows: what was listed before a
/// network event is listed after it, in the same places.
pub proof fn lemma_listen_addresses_only_grow(state: EngineView, event: NetworkEventView)
    ensures
        state.listen_addresses.is_prefix_of(on_event(state, event).state.listen_addresses),
{
}

/// A request to send to a peer with no secret on file leaves the handshake
/// at offer sent, and a repeated request while no secret is on file sends
/// the same offer again and changes nothing.
pub proof fn lemma_offer_is_repeated(
    state: EngineView,
    peer: Seq<char>,
    message: Seq<char>,
    nonce: Option<Seq<u8>>,
)
    requires
        classify_spec(peer) is Private,
        established_secret(state.sessions, peer) is None,
    ensures
        ({
            let (waiting, first) = on_send(state, peer, message, nonce);
            let (still_waiting, second) = on_send(waiting, peer, message, nonce);
            &&& session_state(waiting.sessions, peer) == SessionState::OfferSent
            &&& first is HandshakeStarted
            &&& second == first
            &&& still_waiting == waiting
        }),
{
    let (waiting, first) = on_send(state, peer, message, nonce);
    assert(crate::store::after_offer(waiting.sessions, peer) == waiting.sessions);
}

} // verus!
