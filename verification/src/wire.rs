//! What travels between peers, what callers ask of the node, what the
//! network tells it, and what it asks of the network in return.

use crate::cipher::{CipherError, CipherFault};
use vstd::prelude::*;

verus! {

/// The tagged payload of every publication on a private inbox topic.
#[derive(Clone, Debug, PartialEq, Eq)]
pub enum WireMessage {
    /// A key-agreement public key in hexadecimal; `is_reply` tells an
    /// acknowledgment from an initial offer.
    Handshake { pub_key: String, is_reply: bool },
    /// A chat message: a token made under the secret shared with the
    /// recipient.
    Message { content: String },
    /// An ephemeral presence signal. It travels in the clear, inside the
    /// envelope, also once a secret is shared: it says nothing but that the
    /// sender is typing.
    Typing { is_typing: bool },
}

/// The mathematical value of a [`WireMessage`].
pub enum WireMessageView {
    Handshake { pub_key: Seq<char>, is_reply: bool },
    Message { content: Seq<char> },
    Typing { is_typing: bool },
}

impl View for WireMessage {
    type V = WireMessageView;

    open spec fn view(&self) -> WireMessageView {
        match *self {
            WireMessage::Handshake { pub_key, is_reply } => WireMessageView::Handshake {
                pub_key: pub_key@,
                is_reply,
            },
            WireMessage::Message { content } => WireMessageView::Message { content: content@ },
            WireMessage::Typing { is_typing } => WireMessageView::Typing { is_typing },
        }
    }
}

/// The mathematical value of an optional [`WireMessage`].
pub open spec fn envelope_view(envelope: Option<WireMessage>) -> Option<WireMessageView> {
    match envelope {
        Some(e) => Some(e@),
        None => None,
    }
}

/// Something that observers of the node are told.
#[derive(Clone, Debug, PartialEq, Eq)]
pub enum Notification {
    /// The node's own identifier is known.
    LocalPeerId(String),
    /// The node listens on one more address.
    ListenAddress(String),
    /// A peer appeared on the local network.
    PeerDiscovered(String),
    /// A peer is no longer seen on the local network.
    PeerExpired(String),
    /// A secret is now shared with this peer.
    HandshakeComplete(String),
    /// A peer started or stopped typing.
    PeerTyping { peer_id: String, is_typing: bool },
    /// A chat message arrived.
    NewMessage { sender: String, content: String, channel: String },
}

/// The mathematical value of a [`Notification`].
pub enum NotificationView {
    LocalPeerId(Seq<char>),
    ListenAddress(Seq<char>),
    PeerDiscovered(Seq<char>),
    PeerExpired(Seq<char>),
    HandshakeComplete(Seq<char>),
    PeerTyping { peer_id: Seq<char>, is_typing: bool },
    NewMessage { sender: Seq<char>, content: Seq<char>, channel: Seq<char> },
}

impl View for Notification {
    type V = NotificationView;

    open spec fn view(&self) -> NotificationView {
        match *self {
            Notification::LocalPeerId(id) => NotificationView::LocalPeerId(id@),
            Notification::ListenAddress(address) => NotificationView::ListenAddress(address@),
            Notification::PeerDiscovered(peer) => NotificationView::PeerDiscovered(peer@),
            Notification::PeerExpired(peer) => NotificationView::PeerExpired(peer@),
            Notification::HandshakeComplete(peer) => NotificationView::HandshakeComplete(peer@),
            Notification::PeerTyping { peer_id, is_typing } => NotificationView::PeerTyping {
                peer_id: peer_id@,
                is_typing,
            },
            Notification::NewMessage { sender, content, channel } => NotificationView::NewMessage {
                sender: sender@,
                content: content@,
                channel: channel@,
            },
        }
    }
}

/// The name under which observers subscribe to a kind of notification.
pub open spec fn event_name_spec(notification: NotificationView) -> Seq<char> {
    match notification {
        NotificationView::LocalPeerId(_) => "local-peer-id"@,
        NotificationView::ListenAddress(_) => "listen-address"@,
        NotificationView::PeerDiscovered(_) => "peer-discovered"@,
        NotificationView::PeerExpired(_) => "peer-expired"@,
        NotificationView::HandshakeComplete(_) => "handshake-complete"@,
        NotificationView::PeerTyping { .. } => "peer-typing"@,
        NotificationView::NewMessage { .. } => "new-message"@,
    }
}

impl Notification {
    /// The name under which observers subscribe to this kind of
    /// notification.
    pub fn event_name(&self) -> (name: &'static str)
        ensures
            name@ == event_name_spec(self@),
    {
        match self {
            Notification::LocalPeerId(_) => "local-peer-id",
            Notification::ListenAddress(_) => "listen-address",
            Notification::PeerDiscovered(_) => "peer-discovered",
            Notification::PeerExpired(_) => "peer-expired",
            Notification::HandshakeComplete(_) => "handshake-complete",
            Notification::PeerTyping { .. } => "peer-typing",
            Notification::NewMessage { .. } => "new-message",
        }
    }
}

/// Something the node asks of the program that owns the overlay swarm.
#[derive(Clone, Debug, PartialEq, Eq)]
pub enum Action {
    /// Subscribe to a topic.
    Subscribe { topic: String },
    /// Start listening on an address.
    Listen { address: String },
    /// Open a connection to an address.
    Dial { address: String },
    /// Treat a peer as an explicit gossip peer.
    AddPeer { peer: String },
    /// Stop treating a peer as an explicit gossip peer.
    RemovePeer { peer: String },
    /// Publish text on a topic.
    Publish { topic: String, data: String },
    /// Publish an envelope, serialized, on a topic.
    PublishEnvelope { topic: String, envelope: WireMessage },
    /// Tell the observers.
    Notify(Notification),
}

/// The mathematical value of an [`Action`].
pub enum ActionView {
    Subscribe { topic: Seq<char> },
    Listen { address: Seq<char> },
    Dial { address: Seq<char> },
    AddPeer { peer: Seq<char> },
    RemovePeer { peer: Seq<char> },
    Publish { topic: Seq<char>, data: Seq<char> },
    PublishEnvelope { topic: Seq<char>, envelope: WireMessageView },
    Notify(NotificationView),
}

impl View for Action {
    type V = ActionView;

    open spec fn view(&self) -> ActionView {
        match *self {
            Action::Subscribe { topic } => ActionView::Subscribe { topic: topic@ },
            Action::Listen { address } => ActionView::Listen { address: address@ },
            Action::Dial { address } => ActionView::Dial { address: address@ },
            Action::AddPeer { peer } => ActionView::AddPeer { peer: peer@ },
            Action::RemovePeer { peer } => ActionView::RemovePeer { peer: peer@ },
            Action::Publish { topic, data } => ActionView::Publish { topic: topic@, data: data@ },
            Action::PublishEnvelope { topic, envelope } => ActionView::PublishEnvelope {
                topic: topic@,
                envelope: envelope@,
            },
            Action::Notify(notification) => ActionView::Notify(notification@),
        }
    }
}

/// The mathematical values of a list of actions, in order.
pub open spec fn action_views(actions: Seq<Action>) -> Seq<ActionView> {
    Seq::new(actions.len(), |i: int| actions[i]@)
}

/// Something a caller asks of the node through the command queue.
#[derive(Clone, Debug, PartialEq, Eq)]
pub enum Command {
    /// Connect to the peer at this address.
    Dial { address: String },
    /// Publish a payload on the topic of a channel.
    Publish { channel: String, payload: String },
}

/// The mathematical value of a [`Command`].
pub enum CommandView {
    Dial { address: Seq<char> },
    Publish { channel: Seq<char>, payload: Seq<char> },
}

impl View for Command {
    type V = CommandView;

    open spec fn view(&self) -> CommandView {
        match *self {
            Command::Dial { address } => CommandView::Dial { address: address@ },
            Command::Publish { channel, payload } => CommandView::Publish {
                channel: channel@,
                payload: payload@,
            },
        }
    }
}

/// Something the overlay network reports to the node.
#[derive(Clone, Debug, PartialEq, Eq)]
pub enum NetworkEvent {
    /// The node listens on one more address.
    NewListenAddr { address: String },
    /// Local-network discovery found these peers.
    PeersDiscovered { peers: Vec<String> },
    /// Local-network discovery lost these peers.
    PeersExpired { peers: Vec<String> },
    /// A publication was delivered: who forwarded it, on which topic, its
    /// payload as text, and the payload as an envelope when it reads as
    /// one.
    Message { source: String, topic: String, text: String, envelope: Option<WireMessage> },
}

/// The mathematical value of a [`NetworkEvent`].
pub enum NetworkEventView {
    NewListenAddr { address: Seq<char> },
    PeersDiscovered { peers: Seq<Seq<char>> },
    PeersExpired { peers: Seq<Seq<char>> },
    Message {
        source: Seq<char>,
        topic: Seq<char>,
        text: Seq<char>,
        envelope: Option<WireMessageView>,
    },
}

impl View for NetworkEvent {
    type V = NetworkEventView;

    open spec fn view(&self) -> NetworkEventView {
        match *self {
            NetworkEvent::NewListenAddr { address } => NetworkEventView::NewListenAddr {
                address: address@,
            },
            NetworkEvent::PeersDiscovered { peers } => NetworkEventView::PeersDiscovered {
                peers: peers.deep_view(),
            },
            NetworkEvent::PeersExpired { peers } => NetworkEventView::PeersExpired {
                peers: peers.deep_view(),
            },
            NetworkEvent::Message { source, topic, text, envelope } => NetworkEventView::Message {
                source: source@,
                topic: topic@,
                text: text@,
                envelope: envelope_view(envelope),
            },
        }
    }
}

/// What became of a request to send a chat message.
#[derive(Clone, Debug, PartialEq, Eq)]
pub enum SendOutcome {
    /// A broadcast channel: the text is to be queued for publication as it
    /// is.
    Broadcast { channel: String, text: String },
    /// A private channel with a secret on file: the envelope is to be
    /// queued, serialized, for publication to the peer.
    Private { peer: String, envelope: WireMessage },
    /// A private channel with no secret on file: the offer is to be queued,
    /// serialized, for publication to the peer, and the caller is asked to
    /// retry. The message itself is dropped.
    HandshakeStarted { peer: String, offer: WireMessage },
    /// The message could not be encrypted. Nothing is to be queued.
    Failed { error: CipherError },
}

/// The mathematical value of a [`SendOutcome`].
pub enum SendOutcomeView {
    Broadcast { channel: Seq<char>, text: Seq<char> },
    Private { peer: Seq<char>, envelope: WireMessageView },
    HandshakeStarted { peer: Seq<char>, offer: WireMessageView },
    Failed { error: CipherFault },
}

impl View for SendOutcome {
    type V = SendOutcomeView;

    open spec fn view(&self) -> SendOutcomeView {
        match *self {
            SendOutcome::Broadcast { channel, text } => SendOutcomeView::Broadcast {
                channel: channel@,
                text: text@,
            },
            SendOutcome::Private { peer, envelope } => SendOutcomeView::Private {
                peer: peer@,
                envelope: envelope@,
            },
            SendOutcome::HandshakeStarted { peer, offer } => SendOutcomeView::HandshakeStarted {
                peer: peer@,
                offer: offer@,
            },
            SendOutcome::Failed { error } => SendOutcomeView::Failed { error: error@ },
        }
    }
}

/// What the caller is told when a message was not sent.
pub open spec fn user_error_spec(outcome: SendOutcomeView) -> Option<Seq<char>> {
    match outcome {
        SendOutcomeView::Broadcast { .. } => None,
        SendOutcomeView::Private { .. } => None,
        SendOutcomeView::HandshakeStarted { .. } => Some(
            "Establishing secure connection (Handshake sent). Please retry in a moment."@,
        ),
        SendOutcomeView::Failed { error } => Some(error.detail),
    }
}

/// The envelope that an outcome asks to have serialized, if any.
pub open spec fn envelope_of(outcome: SendOutcomeView) -> Option<WireMessageView> {
    match outcome {
        SendOutcomeView::Private { envelope, .. } => Some(envelope),
        SendOutcomeView::HandshakeStarted { offer, .. } => Some(offer),
        _ => None,
    }
}

/// The command to put in the queue for an outcome, given the text of its
/// envelope where it has one: the broadcast text for its channel, or the
/// serialized envelope for the peer.
pub open spec fn command_of(outcome: SendOutcomeView, envelope_text: Option<Seq<char>>) -> Option<
    CommandView,
> {
    match outcome {
        SendOutcomeView::Broadcast { channel, text } => Some(
            CommandView::Publish { channel, payload: text },
        ),
        SendOutcomeView::Private { peer, .. } => match envelope_text {
            Some(payload) => Some(CommandView::Publish { channel: peer, payload }),
            None => None,
        },
        SendOutcomeView::HandshakeStarted { peer, .. } => match envelope_text {
            Some(payload) => Some(CommandView::Publish { channel: peer, payload }),
            None => None,
        },
        SendOutcomeView::Failed { .. } => None,
    }
}

/// The mathematical value of an optional [`Command`].
pub open spec fn command_view(command: Option<Command>) -> Option<CommandView> {
    match command {
        Some(c) => Some(c@),
        None => None,
    }
}

/// The mathematical value of an optional borrowed [`WireMessage`].
pub open spec fn borrowed_envelope_view(envelope: Option<&WireMessage>) -> Option<WireMessageView> {
    match envelope {
        Some(e) => Some(e@),
        None => None,
    }
}

/// The text inside an optional string.
pub open spec fn option_string(text: Option<String>) -> Option<Seq<char>> {
    match text {
        Some(t) => Some(t@),
        None => None,
    }
}

impl SendOutcome {
    /// What the caller is told when the message was not sent; `None` when
    /// it was.
    pub fn user_error(&self) -> (text: Option<String>)
        ensures
            option_string(text) == user_error_spec(self@),
    {
        match self {
            SendOutcome::Broadcast { .. } => None,
            SendOutcome::Private { .. } => None,
            SendOutcome::HandshakeStarted { .. } => Some(
                "Establishing secure connection (Handshake sent). Please retry in a moment.".to_owned(),
            ),
            SendOutcome::Failed { error } => Some(error.message()),
        }
    }

    /// The envelope that is to be serialized before anything is queued, if
    /// the outcome has one.
    pub fn envelope(&self) -> (envelope: Option<&WireMessage>)
        ensures
            borrowed_envelope_view(envelope) == envelope_of(self@),
    {
        match self {
            SendOutcome::Private { envelope, .. } => Some(envelope),
            SendOutcome::HandshakeStarted { offer, .. } => Some(offer),
            _ => None,
        }
    }

    /// The command to put in the queue, given the serialized envelope where
    /// the outcome has one; `None` when nothing is to be queued.
    pub fn into_command(self, envelope_text: Option<String>) -> (command: Option<Command>)
        ensures
            command_view(command) == command_of(self@, option_string(envelope_text)),
    {
        match self {
            SendOutcome::Broadcast { channel, text } => Some(
                Command::Publish { channel, payload: text },
            ),
            SendOutcome::Private { peer, .. } => match envelope_text {
                Some(payload) => Some(Command::Publish { channel: peer, payload }),
                None => None,
            },
            SendOutcome::HandshakeStarted { peer, .. } => match envelope_text {
                Some(payload) => Some(Command::Publish { channel: peer, payload }),
                None => None,
            },
            SendOutcome::Failed { .. } => None,
        }
    }
}

} // verus!
