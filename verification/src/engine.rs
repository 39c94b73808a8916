//! The node's reactions: what it does with each network event and each
//! queued command, and what it answers to a caller who wants to send.
//!
//! Every reaction is a function from the state and the input to the next
//! state and a list of actions. The program that owns the swarm carries the
//! actions out.

use crate::address::{is_multiaddr, multiaddr_parses, LISTEN_ADDRESS};
use crate::cipher::{
    decrypt_message, decrypt_spec, encrypt_with_nonce, random_array, randomness_fault, token_of,
    CipherError, CipherErrorKind, NONCE_LEN,
};
use crate::handshake;
use crate::handshake::{on_agreement, on_handshake, on_initiate, HandshakeStep};
use crate::keys::{EcdhKeyPair, KeyPairView};
use crate::router::{
    classify, classify_spec, classify_topic, inbox_topic, inbox_topic_spec, origin_of, topic_name,
    topic_of, Channel, ChannelView, Origin, ENCRYPTED_TOPIC, PUBLIC_TOPIC, UNKNOWN_CHANNEL,
};
use crate::store::{established_secret, session_state, SecretStore, SessionState, Sessions};
use crate::text::enclose;
use crate::wire::{
    action_views, envelope_view, Action, ActionView, Command, CommandView, NetworkEvent,
    NetworkEventView, Notification, NotificationView, SendOutcome, SendOutcomeView, WireMessage,
    WireMessageView,
};
use vstd::prelude::*;

verus! {

/// What a caller is told of the node's identifier before it is known.
pub const INITIALIZING: &'static str = "Initializing...";

/// The mathematical value of an [`Engine`].
pub struct EngineView {
    /// The node's own identifier, once known.
    pub local_peer_id: Option<Seq<char>>,
    /// The addresses on which the node listens, oldest first.
    pub listen_addresses: Seq<Seq<char>>,
    /// The handshakes begun, each with its secret once one is on file.
    pub sessions: Sessions,
    /// The node's key-agreement pair.
    pub keys: KeyPairView,
    /// The static key of the encrypted broadcast channel.
    pub broadcast_key: Seq<u8>,
}

/// A reaction: the state afterwards, and what is to be done.
pub struct Step {
    pub state: EngineView,
    pub actions: Seq<ActionView>,
}

/// The notification of a chat message.
pub open spec fn new_message(sender: Seq<char>, content: Seq<char>, channel: Seq<char>) -> ActionView {
    ActionView::Notify(NotificationView::NewMessage { sender, content, channel })
}

/// What stands for an encrypted broadcast that does not decrypt.
pub open spec fn encrypted_placeholder(text: Seq<char>) -> Seq<char> {
    "(Encrypted: "@ + text + ")"@
}

/// What stands for a private message that does not decrypt.
pub open spec fn failed_placeholder(detail: Seq<char>) -> Seq<char> {
    "(Decryption Failed: "@ + detail + ")"@
}

/// What stands for a private message from a peer with no secret on file.
pub open spec fn no_key_placeholder() -> Seq<char> {
    "(No shared key established)"@
}

/// What stands for an inbox payload that is no envelope.
pub open spec fn unknown_placeholder(text: Seq<char>) -> Seq<char> {
    "(Unknown Format: "@ + text + ")"@
}

/// The state in which the handshake left the sessions, and what is to be
/// done.
pub open spec fn after_handshake(state: EngineView, step: HandshakeStep) -> Step {
    Step { state: EngineView { sessions: step.sessions, ..state }, actions: step.actions }
}

/// What is shown for a private message from `sender`.
pub open spec fn private_content(sessions: Sessions, sender: Seq<char>, content: Seq<char>) -> Seq<
    char,
> {
    match established_secret(sessions, sender) {
        Some(secret) => match decrypt_spec(content, secret) {
            Ok(text) => text,
            Err(fault) => failed_placeholder(fault.detail),
        },
        None => no_key_placeholder(),
    }
}

/// What is shown for a publication on the encrypted broadcast channel.
pub open spec fn broadcast_content(key: Seq<u8>, text: Seq<char>) -> Seq<char> {
    match decrypt_spec(text, key) {
        Ok(plain) => plain,
        Err(_) => encrypted_placeholder(text),
    }
}

/// The reaction to a delivery on the node's own inbox.
pub open spec fn on_inbox(
    state: EngineView,
    sender: Seq<char>,
    text: Seq<char>,
    envelope: Option<WireMessageView>,
) -> Step {
    match envelope {
        Some(WireMessageView::Handshake { pub_key, is_reply }) => after_handshake(
            state,
            on_handshake(state.keys, state.sessions, sender, pub_key, is_reply),
        ),
        Some(WireMessageView::Message { content }) => Step {
            state,
            actions: seq![
                new_message(sender, private_content(state.sessions, sender, content), sender),
            ],
        },
        Some(WireMessageView::Typing { is_typing }) => Step {
            state,
            actions: seq![
                ActionView::Notify(NotificationView::PeerTyping { peer_id: sender, is_typing }),
            ],
        },
        None => Step {
            state,
            actions: seq![new_message(sender, unknown_placeholder(text), sender)],
        },
    }
}

/// The reaction to a delivered publication.
pub open spec fn on_delivery(
    state: EngineView,
    source: Seq<char>,
    topic: Seq<char>,
    text: Seq<char>,
    envelope: Option<WireMessageView>,
) -> Step {
    match origin_of(topic, state.local_peer_id) {
        Origin::PublicBroadcast => Step {
            state,
            actions: seq![new_message(source, text, PUBLIC_TOPIC@)],
        },
        Origin::EncryptedBroadcast => Step {
            state,
            actions: seq![
                new_message(source, broadcast_content(state.broadcast_key, text), ENCRYPTED_TOPIC@),
            ],
        },
        Origin::Inbox => on_inbox(state, source, text, envelope),
        Origin::Unknown => Step {
            state,
            actions: seq![new_message(source, text, UNKNOWN_CHANNEL@)],
        },
    }
}

/// For each discovered peer in turn: make it an explicit gossip peer, then
/// tell the observers.
pub open spec fn discovery_actions(peers: Seq<Seq<char>>) -> Seq<ActionView> {
    Seq::new(
        2 * peers.len(),
        |i: int|
            if i % 2 == 0 {
                ActionView::AddPeer { peer: peers[i / 2] }
            } else {
                ActionView::Notify(NotificationView::PeerDiscovered(peers[i / 2]))
            },
    )
}

/// For each expired peer in turn: stop treating it as an explicit gossip
/// peer, then tell the observers.
pub open spec fn expiry_actions(peers: Seq<Seq<char>>) -> Seq<ActionView> {
    Seq::new(
        2 * peers.len(),
        |i: int|
            if i % 2 == 0 {
                ActionView::RemovePeer { peer: peers[i / 2] }
            } else {
                ActionView::Notify(NotificationView::PeerExpired(peers[i / 2]))
            },
    )
}

/// The reaction to a network event.
pub open spec fn on_event(state: EngineView, event: NetworkEventView) -> Step {
    match event {
        NetworkEventView::NewListenAddr { address } => Step {
            state: EngineView {
                listen_addresses: state.listen_addresses.push(address),
                ..state
            },
            actions: seq![ActionView::Notify(NotificationView::ListenAddress(address))],
        },
        NetworkEventView::PeersDiscovered { peers } => Step {
            state,
            actions: discovery_actions(peers),
        },
        NetworkEventView::PeersExpired { peers } => Step { state, actions: expiry_actions(peers) },
        NetworkEventView::Message { source, topic, text, envelope } => on_delivery(
            state,
            source,
            topic,
            text,
            envelope,
        ),
    }
}

/// What the node does when its overlay identity is known: subscribe to the
/// three fixed topics, listen, and tell the observers who it is.
pub open spec fn on_start(state: EngineView, id: Seq<char>) -> Step {
    Step {
        state: EngineView { local_peer_id: Some(id), ..state },
        actions: seq![
            ActionView::Subscribe { topic: PUBLIC_TOPIC@ },
            ActionView::Subscribe { topic: ENCRYPTED_TOPIC@ },
            ActionView::Subscribe { topic: inbox_topic_spec(id) },
            ActionView::Listen { address: LISTEN_ADDRESS@ },
            ActionView::Notify(NotificationView::LocalPeerId(id)),
        ],
    }
}

/// What is published for `payload` on the encrypted broadcast channel when
/// the nonce drawn is `nonce`: the token, or the payload itself where no
/// token can be made.
pub open spec fn published_text(payload: Seq<char>, key: Seq<u8>, nonce: Option<Seq<u8>>) -> Seq<
    char,
> {
    match nonce {
        Some(n) => match token_of(payload, key, n) {
            Ok(token) => token,
            Err(_) => payload,
        },
        None => payload,
    }
}

/// What is done about a request to dial, given whether the address reads as
/// one: an address that does not is dropped.
pub open spec fn dial_actions_spec(address: Seq<char>, parses: bool) -> Seq<ActionView> {
    if parses {
        seq![ActionView::Dial { address }]
    } else {
        Seq::empty()
    }
}

/// The reaction to a queued command when the nonce drawn, if any, is
/// `nonce`.
pub open spec fn on_command(state: EngineView, command: CommandView, nonce: Option<Seq<u8>>) -> Seq<
    ActionView,
> {
    match command {
        CommandView::Dial { address } => dial_actions_spec(address, multiaddr_parses(address)),
        CommandView::Publish { channel, payload } => {
            let kind = classify_spec(channel);
            seq![
                ActionView::Publish {
                    topic: topic_of(kind),
                    data: if kind is EncryptedBroadcast {
                        published_text(payload, state.broadcast_key, nonce)
                    } else {
                        payload
                    },
                },
            ]
        },
    }
}

/// What becomes of a message for `peer` under the secret on file, when the
/// nonce drawn, if any, is `nonce`.
pub open spec fn private_outcome(
    peer: Seq<char>,
    message: Seq<char>,
    secret: Seq<u8>,
    nonce: Option<Seq<u8>>,
) -> SendOutcomeView {
    match nonce {
        Some(n) => match token_of(message, secret, n) {
            Ok(token) => SendOutcomeView::Private {
                peer,
                envelope: WireMessageView::Message { content: token },
            },
            Err(fault) => SendOutcomeView::Failed { error: fault },
        },
        None => SendOutcomeView::Failed { error: randomness_fault() },
    }
}

/// The state after a request to send, and what became of the request, when
/// the nonce drawn, if any, is `nonce`.
pub open spec fn on_send(
    state: EngineView,
    channel: Seq<char>,
    message: Seq<char>,
    nonce: Option<Seq<u8>>,
) -> (EngineView, SendOutcomeView) {
    match classify_spec(channel) {
        ChannelView::Private(peer) => match established_secret(state.sessions, peer) {
            Some(secret) => (state, private_outcome(peer, message, secret, nonce)),
            None => (
                EngineView { sessions: on_initiate(state.keys, state.sessions, peer).0, ..state },
                SendOutcomeView::HandshakeStarted {
                    peer,
                    offer: on_initiate(state.keys, state.sessions, peer).1,
                },
            ),
        },
        _ => (state, SendOutcomeView::Broadcast { channel, text: message }),
    }
}

/// What is sent as a typing indicator: something only on a private channel
/// with a secret on file.
pub open spec fn on_typing(state: EngineView, channel: Seq<char>, is_typing: bool) -> Option<
    SendOutcomeView,
> {
    match classify_spec(channel) {
        ChannelView::Private(peer) => if established_secret(state.sessions, peer) is Some {
            Some(
                SendOutcomeView::Private { peer, envelope: WireMessageView::Typing { is_typing } },
            )
        } else {
            None
        },
        _ => None,
    }
}

/// Whether a chat message that was enveloped for a peer reads back as
/// `message` under the secret on file for that peer.
pub open spec fn reads_back(state: EngineView, outcome: SendOutcomeView, message: Seq<char>) -> bool {
    outcome matches SendOutcomeView::Private {
        peer,
        envelope: WireMessageView::Message { content },
    } ==> private_content(state.sessions, peer, content) == message
}

/// Whether what is published for `payload` is the payload itself or a
/// token that decrypts to it under `key`.
pub open spec fn carries(data: Seq<char>, payload: Seq<char>, key: Seq<u8>) -> bool {
    data == payload || decrypt_spec(data, key) == Ok::<Seq<char>, crate::cipher::CipherFault>(
        payload,
    )
}

/// Whether the actions taken for a command to publish are one publication
/// that carries the payload.
pub open spec fn delivers(command: CommandView, actions: Seq<ActionView>, key: Seq<u8>) -> bool {
    match command {
        CommandView::Publish { payload, .. } => actions.len() == 1 && match actions[0] {
            ActionView::Publish { data, .. } => carries(data, payload, key),
            _ => false,
        },
        CommandView::Dial { .. } => true,
    }
}

/// The nonce inside an optional array.
pub open spec fn option_nonce(nonce: Option<[u8; 12]>) -> Option<Seq<u8>> {
    match nonce {
        Some(n) => Some(n@),
        None => None,
    }
}

/// The outcome inside an optional value.
pub open spec fn option_outcome(outcome: Option<SendOutcome>) -> Option<SendOutcomeView> {
    match outcome {
        Some(o) => Some(o@),
        None => None,
    }
}

/// Whether `nonce` is absent or has the length of a nonce.
pub open spec fn is_draw(nonce: Option<Seq<u8>>) -> bool {
    nonce matches Some(n) ==> n.len() == NONCE_LEN
}

/// The state of a node: who it is, where it listens, with whom it shares a
/// secret, and its keys.
pub struct Engine {
    local_peer_id: Option<String>,
    listen_addresses: Vec<String>,
    secrets: SecretStore,
    keys: EcdhKeyPair,
    broadcast_key: [u8; 32],
}

impl View for Engine {
    type V = EngineView;

    closed spec fn view(&self) -> EngineView {
        EngineView {
            local_peer_id: match self.local_peer_id {
                Some(id) => Some(id@),
                None => None,
            },
            listen_addresses: self.listen_addresses.deep_view(),
            sessions: self.secrets@,
            keys: self.keys@,
            broadcast_key: self.broadcast_key@,
        }
    }
}

fn chat(sender: &str, content: String, channel: &str) -> (action: Action)
    ensures
        action@ == new_message(sender@, content@, channel@),
{
    Action::Notify(
        Notification::NewMessage { sender: sender.to_owned(), content, channel: channel.to_owned() },
    )
}

fn copy_texts(texts: &Vec<String>) -> (copy: Vec<String>)
    ensures
        copy.deep_view() == texts.deep_view(),
{
    let mut copy: Vec<String> = Vec::new();
    let mut i: usize = 0;
    while i < texts.len()
        invariant
            i <= texts@.len(),
            copy@.len() == i,
            forall|j: int| 0 <= j < i ==> copy@[j]@ == texts@[j]@,
        decreases texts@.len() - i,
    {
        copy.push(texts[i].clone());
        i += 1;
    }
    assert(copy.deep_view() =~= texts.deep_view());
    copy
}

/// The command that asks the node to connect to the peer at `address`.
pub fn connect_peer(address: &str) -> (command: Command)
    ensures
        command@ == (CommandView::Dial { address: address@ }),
{
    Command::Dial { address: address.to_owned() }
}

/// What is done about a request to dial `address`, given whether the
/// address reads as one.
pub fn dial_actions(address: String, parses: bool) -> (actions: Vec<Action>)
    ensures
        action_views(actions@) == dial_actions_spec(address@, parses),
{
    let mut actions: Vec<Action> = Vec::new();
    if parses {
        actions.push(Action::Dial { address });
    }
    assert(action_views(actions@) =~= dial_actions_spec(address@, parses));
    actions
}

impl Engine {
    /// A node that is not started yet: it has no identifier, listens
    /// nowhere and shares no secret.
    pub fn new(keys: EcdhKeyPair, broadcast_key: [u8; 32]) -> (engine: Engine)
        ensures
            engine@ == (EngineView {
                local_peer_id: None,
                listen_addresses: Seq::empty(),
                sessions: Map::empty(),
                keys: keys@,
                broadcast_key: broadcast_key@,
            }),
            engine@.keys.wf(),
    {
        proof {
            use_type_invariant(&keys);
        }
        let engine = Engine {
            local_peer_id: None,
            listen_addresses: Vec::new(),
            secrets: SecretStore::new(),
            keys,
            broadcast_key,
        };
        assert(engine.listen_addresses.deep_view() =~= Seq::<Seq<char>>::empty());
        engine
    }

    /// Records the node's identifier, now that the overlay identity exists,
    /// and returns what is to be done at startup.
    pub fn start(&mut self, local_peer_id: String) -> (actions: Vec<Action>)
        ensures
            final(self)@ == on_start(old(self)@, local_peer_id@).state,
            action_views(actions@) == on_start(old(self)@, local_peer_id@).actions,
    {
        let actions = vec![
            Action::Subscribe { topic: PUBLIC_TOPIC.to_owned() },
            Action::Subscribe { topic: ENCRYPTED_TOPIC.to_owned() },
            Action::Subscribe { topic: inbox_topic(local_peer_id.as_str()) },
            Action::Listen { address: LISTEN_ADDRESS.to_owned() },
            Action::Notify(Notification::LocalPeerId(local_peer_id.clone())),
        ];
        self.local_peer_id = Some(local_peer_id);
        assert(action_views(actions@) =~= on_start(old(self)@, local_peer_id@).actions);
        actions
    }

    /// The node's identifier, or a placeholder while it is not known.
    pub fn get_local_peer_id(&self) -> (id: String)
        ensures
            id@ == match self@.local_peer_id {
                Some(known) => known,
                None => INITIALIZING@,
            },
    {
        match &self.local_peer_id {
            Some(id) => id.clone(),
            None => INITIALIZING.to_owned(),
        }
    }

    /// The addresses on which the node listens, oldest first.
    pub fn get_listen_addresses(&self) -> (addresses: Vec<String>)
        ensures
            addresses.deep_view() == self@.listen_addresses,
    {
        copy_texts(&self.listen_addresses)
    }

    /// Where the handshake with `peer` stands.
    pub fn session_state(&self, peer: &str) -> (state: SessionState)
        ensures
            state == session_state(self@.sessions, peer@),
    {
        self.secrets.state(peer)
    }

    /// The secret shared with `peer`, if one is on file.
    pub fn shared_secret(&self, peer: &str) -> (secret: Option<[u8; 32]>)
        ensures
            crate::store::option_secret(secret) == established_secret(self@.sessions, peer@),
    {
        self.secrets.get(peer)
    }

    /// The node's key-agreement public key, in hexadecimal. The node's key
    /// pair is well-formed at all times.
    pub fn public_key_hex(&self) -> (text: String)
        ensures
            text@ == self@.keys.public_hex(),
            self@.keys.wf(),
    {
        proof {
            use_type_invariant(&self.keys);
        }
        self.keys.public_hex()
    }

    /// Puts the secret agreed with `sender` on file and returns what is to
    /// be done: tell the observers and, for an offer, acknowledge it.
    pub fn complete_handshake(&mut self, sender: &str, shared: [u8; 32], is_reply: bool) -> (actions:
        Vec<Action>)
        ensures
            final(self)@ == after_handshake(
                old(self)@,
                on_agreement(old(self)@.keys, old(self)@.sessions, sender@, shared@, is_reply),
            ).state,
            action_views(actions@) == on_agreement(
                old(self)@.keys,
                old(self)@.sessions,
                sender@,
                shared@,
                is_reply,
            ).actions,
    {
        handshake::complete(&self.keys, &mut self.secrets, sender, shared, is_reply)
    }

    /// Reacts to a handshake from `sender`: files the secret derived from
    /// the key it carries and acknowledges an offer, or discards the
    /// handshake when the key is not the hexadecimal text of 32 bytes.
    pub fn receive_handshake(&mut self, sender: &str, pub_key: &str, is_reply: bool) -> (actions:
        Vec<Action>)
        ensures
            final(self)@ == after_handshake(
                old(self)@,
                on_handshake(old(self)@.keys, old(self)@.sessions, sender@, pub_key@, is_reply),
            ).state,
            action_views(actions@) == on_handshake(
                old(self)@.keys,
                old(self)@.sessions,
                sender@,
                pub_key@,
                is_reply,
            ).actions,
    {
        handshake::receive(&self.keys, &mut self.secrets, sender, pub_key, is_reply)
    }

    /// Reacts to a delivery on the node's own inbox.
    pub fn handle_inbox(&mut self, sender: &str, text: &str, envelope: Option<WireMessage>) -> (actions:
        Vec<Action>)
        ensures
            final(self)@ == on_inbox(old(self)@, sender@, text@, envelope_view(envelope)).state,
            action_views(actions@) == on_inbox(
                old(self)@,
                sender@,
                text@,
                envelope_view(envelope),
            ).actions,
    {
        let ghost expected = on_inbox(old(self)@, sender@, text@, envelope_view(envelope)).actions;
        match envelope {
            Some(WireMessage::Handshake { pub_key, is_reply }) => self.receive_handshake(
                sender,
                pub_key.as_str(),
                is_reply,
            ),
            Some(WireMessage::Message { content }) => {
                let shown = match self.secrets.get(sender) {
                    Some(secret) => match decrypt_message(content.as_str(), &secret) {
                        Ok(plain) => plain,
                        Err(error) => enclose("(Decryption Failed: ", error.detail.as_str(), ")"),
                    },
                    None => "(No shared key established)".to_owned(),
                };
                let actions = vec![chat(sender, shown, sender)];
                assert(action_views(actions@) =~= expected);
                actions
            },
            Some(WireMessage::Typing { is_typing }) => {
                let actions = vec![
                    Action::Notify(
                        Notification::PeerTyping { peer_id: sender.to_owned(), is_typing },
                    ),
                ];
                assert(action_views(actions@) =~= expected);
                actions
            },
            None => {
                let actions = vec![chat(sender, enclose("(Unknown Format: ", text, ")"), sender)];
                assert(action_views(actions@) =~= expected);
                actions
            },
        }
    }

    /// Reacts to a delivered publication: classifies it by topic, gives it
    /// the cryptographic treatment of its channel, and returns what is to be
    /// done.
    pub fn handle_delivery(
        &mut self,
        source: &str,
        topic: &str,
        text: &str,
        envelope: Option<WireMessage>,
    ) -> (actions: Vec<Action>)
        ensures
            final(self)@ == on_delivery(
                old(self)@,
                source@,
                topic@,
                text@,
                envelope_view(envelope),
            ).state,
            action_views(actions@) == on_delivery(
                old(self)@,
                source@,
                topic@,
                text@,
                envelope_view(envelope),
            ).actions,
    {
        let ghost expected = on_delivery(
            old(self)@,
            source@,
            topic@,
            text@,
            envelope_view(envelope),
        ).actions;
        let origin = match &self.local_peer_id {
            Some(id) => classify_topic(topic, Some(id.as_str())),
            None => classify_topic(topic, None),
        };
        match origin {
            Origin::PublicBroadcast => {
                let actions = vec![chat(source, text.to_owned(), PUBLIC_TOPIC)];
                assert(action_views(actions@) =~= expected);
                actions
            },
            Origin::EncryptedBroadcast => {
                let shown = match decrypt_message(text, &self.broadcast_key) {
                    Ok(plain) => plain,
                    Err(_) => enclose("(Encrypted: ", text, ")"),
                };
                let actions = vec![chat(source, shown, ENCRYPTED_TOPIC)];
                assert(action_views(actions@) =~= expected);
                actions
            },
            Origin::Inbox => self.handle_inbox(source, text, envelope),
            Origin::Unknown => {
                let actions = vec![chat(source, text.to_owned(), UNKNOWN_CHANNEL)];
                assert(action_views(actions@) =~= expected);
                actions
            },
        }
    }

    /// Reacts to a network event and returns what is to be done.
    pub fn handle_event(&mut self, event: NetworkEvent) -> (actions: Vec<Action>)
        ensures
            final(self)@ == on_event(old(self)@, event@).state,
            action_views(actions@) == on_event(old(self)@, event@).actions,
    {
        match event {
            NetworkEvent::NewListenAddr { address } => {
                let actions = vec![Action::Notify(Notification::ListenAddress(address.clone()))];
                self.listen_addresses.push(address);
                assert(self.listen_addresses.deep_view() =~= old(self).listen_addresses.deep_view().push(
                    address@,
                ));
                assert(action_views(actions@) =~= on_event(old(self)@, event@).actions);
                actions
            },
            NetworkEvent::PeersDiscovered { peers } => {
                let mut actions: Vec<Action> = Vec::new();
                let mut i: usize = 0;
                while i < peers.len()
                    invariant
                        i <= peers@.len(),
                        actions@.len() == 2 * i,
                        forall|j: int|
                            0 <= j < 2 * i ==> (#[trigger] actions@[j])@ == discovery_actions(
                                peers.deep_view(),
                            )[j],
                    decreases peers@.len() - i,
                {
                    actions.push(Action::AddPeer { peer: peers[i].clone() });
                    actions.push(Action::Notify(Notification::PeerDiscovered(peers[i].clone())));
                    i += 1;
                }
                assert(action_views(actions@) =~= discovery_actions(peers.deep_view()));
                actions
            },
            NetworkEvent::PeersExpired { peers } => {
                let mut actions: Vec<Action> = Vec::new();
                let mut i: usize = 0;
                while i < peers.len()
                    invariant
                        i <= peers@.len(),
                        actions@.len() == 2 * i,
                        forall|j: int|
                            0 <= j < 2 * i ==> (#[trigger] actions@[j])@ == expiry_actions(
                                peers.deep_view(),
                            )[j],
                    decreases peers@.len() - i,
                {
                    actions.push(Action::RemovePeer { peer: peers[i].clone() });
                    actions.push(Action::Notify(Notification::PeerExpired(peers[i].clone())));
                    i += 1;
                }
                assert(action_views(actions@) =~= expiry_actions(peers.deep_view()));
                actions
            },
            NetworkEvent::Message { source, topic, text, envelope } => self.handle_delivery(
                source.as_str(),
                topic.as_str(),
                text.as_str(),
                envelope,
            ),
        }
    }

    /// Reacts to a queued command with the nonce that was drawn for it, if
    /// any, and returns what is to be done.
    pub fn handle_command_with(&self, command: Command, nonce: Option<[u8; 12]>) -> (actions: Vec<
        Action,
    >)
        ensures
            action_views(actions@) == on_command(self@, command@, option_nonce(nonce)),
            delivers(command@, action_views(actions@), self@.broadcast_key),
    {
        match command {
            Command::Dial { address } => {
                let parses = is_multiaddr(address.as_str());
                dial_actions(address, parses)
            },
            Command::Publish { channel, payload } => {
                let kind = classify(channel.as_str());
                let topic = topic_name(&kind);
                let data = match (kind, nonce) {
                    (Channel::EncryptedBroadcast, Some(n)) => match encrypt_with_nonce(
                        payload.as_str(),
                        &self.broadcast_key,
                        &n,
                    ) {
                        Ok(token) => token,
                        Err(_) => payload,
                    },
                    _ => payload,
                };
                let actions = vec![Action::Publish { topic, data }];
                assert(action_views(actions@) =~= on_command(self@, command@, option_nonce(nonce)));
                actions
            },
        }
    }

    /// Reacts to a queued command and returns what is to be done. A payload
    /// for the encrypted broadcast channel is encrypted under the static
    /// key with a fresh nonce, and goes out as it is where that fails.
    /// The observers are told nothing of what the node itself publishes:
    /// whoever asked for the publication shows it.
    pub fn handle_command(&self, command: Command) -> (actions: Vec<Action>)
        ensures
            exists|nonce: Option<Seq<u8>>|
                is_draw(nonce) && action_views(actions@) == #[trigger] on_command(
                    self@,
                    command@,
                    nonce,
                ),
            delivers(command@, action_views(actions@), self@.broadcast_key),
    {
        let encrypts = match &command {
            Command::Publish { channel, .. } => match classify(channel.as_str()) {
                Channel::EncryptedBroadcast => true,
                _ => false,
            },
            Command::Dial { .. } => false,
        };
        let nonce = if encrypts {
            random_array::<12>()
        } else {
            None
        };
        let ghost drawn = option_nonce(nonce);
        let ghost asked = command@;
        let actions = self.handle_command_with(command, nonce);
        assert(is_draw(drawn) && action_views(actions@) == on_command(self@, asked, drawn));
        actions
    }

    /// Answers a request to send `message` on `channel`, with the nonce that
    /// was drawn for it, if any.
    pub fn send_message_with(&mut self, channel: &str, message: &str, nonce: Option<[u8; 12]>) -> (outcome:
        SendOutcome)
        ensures
            final(self)@ == on_send(old(self)@, channel@, message@, option_nonce(nonce)).0,
            outcome@ == on_send(old(self)@, channel@, message@, option_nonce(nonce)).1,
            reads_back(old(self)@, outcome@, message@),
    {
        match classify(channel) {
            Channel::Private(peer) => match self.secrets.get(peer.as_str()) {
                Some(secret) => match nonce {
                    Some(n) => match encrypt_with_nonce(message, &secret, &n) {
                        Ok(token) => SendOutcome::Private {
                            peer,
                            envelope: WireMessage::Message { content: token },
                        },
                        Err(error) => SendOutcome::Failed { error },
                    },
                    None => SendOutcome::Failed {
                        error: CipherError {
                            kind: CipherErrorKind::Encryption,
                            detail: "No randomness available".to_owned(),
                        },
                    },
                },
                None => {
                    let offer = handshake::initiate(&self.keys, &mut self.secrets, peer.as_str());
                    SendOutcome::HandshakeStarted { peer, offer }
                },
            },
            _ => SendOutcome::Broadcast { channel: channel.to_owned(), text: message.to_owned() },
        }
    }

    /// Answers a request to send `message` on `channel`. On a broadcast
    /// channel the text is passed on. On a private channel it is encrypted
    /// under the secret on file with a fresh nonce; with no secret on file
    /// an offer goes out instead, and the caller is asked to retry.
    pub fn send_message(&mut self, channel: &str, message: &str) -> (outcome: SendOutcome)
        ensures
            exists|nonce: Option<Seq<u8>>|
                is_draw(nonce) && (final(self)@, outcome@) == #[trigger] on_send(
                    old(self)@,
                    channel@,
                    message@,
                    nonce,
                ),
            reads_back(old(self)@, outcome@, message@),
    {
        let encrypts = match classify(channel) {
            Channel::Private(peer) => self.secrets.get(peer.as_str()).is_some(),
            _ => false,
        };
        let nonce = if encrypts {
            random_array::<12>()
        } else {
            None
        };
        let outcome = self.send_message_with(channel, message, nonce);
        assert(is_draw(option_nonce(nonce)) && (self@, outcome@) == on_send(
            old(self)@,
            channel@,
            message@,
            option_nonce(nonce),
        ));
        outcome
    }

    /// Answers a request to signal typing on `channel`: an envelope for the
    /// peer on a private channel with a secret on file, nothing otherwise.
    pub fn send_typing_indicator(&self, channel: &str, is_typing: bool) -> (outcome: Option<
        SendOutcome,
    >)
        ensures
            option_outcome(outcome) == on_typing(self@, channel@, is_typing),
    {
        match classify(channel) {
            Channel::Private(peer) => match self.secrets.get(peer.as_str()) {
                Some(_) => Some(
                    SendOutcome::Private { peer, envelope: WireMessage::Typing { is_typing } },
                ),
                None => None,
            },
            _ => None,
        }
    }
}

} // verus!
