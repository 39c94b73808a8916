//! The channel and topic router: which overlay topic a logical channel is
//! published on, and which channel an incoming topic belongs to.
//!
//! Classification is purely textual. A name that is neither of the two
//! reserved broadcast names is taken to be a peer identifier, whatever its
//! shape.

use crate::text::{join, text_eq};
use vstd::prelude::*;

verus! {

/// The channel name of the plaintext broadcast channel.
pub const PUBLIC_CHANNEL: &'static str = "global-gossip";

/// The channel name of the broadcast channel encrypted under the static key.
pub const ENCRYPTED_CHANNEL: &'static str = "encrypted-chat";

/// The overlay topic of the plaintext broadcast channel.
pub const PUBLIC_TOPIC: &'static str = "phantom-global";

/// The overlay topic of the encrypted broadcast channel.
pub const ENCRYPTED_TOPIC: &'static str = "encrypted-chat";

/// What precedes a peer identifier in the name of that peer's inbox topic.
pub const INBOX_PREFIX: &'static str = "inbox-";

/// The channel tag given to a message that arrived on no known topic.
pub const UNKNOWN_CHANNEL: &'static str = "unknown";

/// A logical conversation target.
#[derive(Clone, Debug, PartialEq, Eq)]
pub enum Channel {
    /// The plaintext broadcast channel.
    PublicBroadcast,
    /// The broadcast channel encrypted under the static key.
    EncryptedBroadcast,
    /// The private channel with the peer of this identifier.
    Private(String),
}

/// The mathematical value of a [`Channel`].
pub enum ChannelView {
    PublicBroadcast,
    EncryptedBroadcast,
    Private(Seq<char>),
}

impl View for Channel {
    type V = ChannelView;

    open spec fn view(&self) -> ChannelView {
        match *self {
            Channel::PublicBroadcast => ChannelView::PublicBroadcast,
            Channel::EncryptedBroadcast => ChannelView::EncryptedBroadcast,
            Channel::Private(peer) => ChannelView::Private(peer@),
        }
    }
}

/// The channel that a name stands for.
pub open spec fn classify_spec(name: Seq<char>) -> ChannelView {
    if name == PUBLIC_CHANNEL@ {
        ChannelView::PublicBroadcast
    } else if name == ENCRYPTED_CHANNEL@ {
        ChannelView::EncryptedBroadcast
    } else {
        ChannelView::Private(name)
    }
}

/// The inbox topic of a peer.
pub open spec fn inbox_topic_spec(peer: Seq<char>) -> Seq<char> {
    INBOX_PREFIX@ + peer
}

/// The one topic on which a channel is published.
pub open spec fn topic_of(channel: ChannelView) -> Seq<char> {
    match channel {
        ChannelView::PublicBroadcast => PUBLIC_TOPIC@,
        ChannelView::EncryptedBroadcast => ENCRYPTED_TOPIC@,
        ChannelView::Private(peer) => inbox_topic_spec(peer),
    }
}

/// The topic on which the channel of this name is published.
pub open spec fn route_spec(name: Seq<char>) -> Seq<char> {
    topic_of(classify_spec(name))
}

/// Which of a node's subscriptions a delivery came in on.
#[derive(Clone, Copy, Debug, PartialEq, Eq, Structural)]
pub enum Origin {
    /// The plaintext broadcast topic.
    PublicBroadcast,
    /// The encrypted broadcast topic.
    EncryptedBroadcast,
    /// The node's own inbox.
    Inbox,
    /// None of the three.
    Unknown,
}

/// Which subscription of the node known as `local_peer` the topic is.
pub open spec fn origin_of(topic: Seq<char>, local_peer: Option<Seq<char>>) -> Origin {
    if topic == PUBLIC_TOPIC@ {
        Origin::PublicBroadcast
    } else if topic == ENCRYPTED_TOPIC@ {
        Origin::EncryptedBroadcast
    } else if local_peer matches Some(id) && topic == inbox_topic_spec(id) {
        Origin::Inbox
    } else {
        Origin::Unknown
    }
}

/// The text inside an optional string slice.
pub open spec fn option_text(text: Option<&str>) -> Option<Seq<char>> {
    match text {
        Some(t) => Some(t@),
        None => None,
    }
}

/// Classifies a channel name by exact match against the two reserved
/// broadcast names; any other name is a peer identifier.
pub fn classify(name: &str) -> (channel: Channel)
    ensures
        channel@ == classify_spec(name@),
{
    if text_eq(name, PUBLIC_CHANNEL) {
        Channel::PublicBroadcast
    } else if text_eq(name, ENCRYPTED_CHANNEL) {
        Channel::EncryptedBroadcast
    } else {
        Channel::Private(name.to_owned())
    }
}

/// The name of the inbox topic of `peer`.
pub fn inbox_topic(peer: &str) -> (topic: String)
    ensures
        topic@ == inbox_topic_spec(peer@),
{
    join(INBOX_PREFIX, peer)
}

/// The name of the topic on which `channel` is published.
pub fn topic_name(channel: &Channel) -> (topic: String)
    ensures
        topic@ == topic_of(channel@),
{
    match channel {
        Channel::PublicBroadcast => PUBLIC_TOPIC.to_owned(),
        Channel::EncryptedBroadcast => ENCRYPTED_TOPIC.to_owned(),
        Channel::Private(peer) => inbox_topic(peer.as_str()),
    }
}

/// The name of the topic on which the channel called `name` is published.
pub fn route(name: &str) -> (topic: String)
    ensures
        topic@ == route_spec(name@),
{
    let channel = classify(name);
    topic_name(&channel)
}

/// Which subscription of the node known as `local_peer` a delivery on
/// `topic` came in on.
pub fn classify_topic(topic: &str, local_peer: Option<&str>) -> (origin: Origin)
    ensures
        origin == origin_of(topic@, option_text(local_peer)),
{
    if text_eq(topic, PUBLIC_TOPIC) {
        return Origin::PublicBroadcast;
    }
    if text_eq(topic, ENCRYPTED_TOPIC) {
        return Origin::EncryptedBroadcast;
    }
    if let Some(id) = local_peer {
        let inbox = inbox_topic(id);
        if text_eq(topic, inbox.as_str()) {
            return Origin::Inbox;
        }
    }
    Origin::Unknown
}

/// The two reserved names are broadcast channels, never a peer's.
pub proof fn lemma_reserved_names_are_broadcast()
    ensures
        classify_spec(PUBLIC_CHANNEL@) == ChannelView::PublicBroadcast,
        classify_spec(ENCRYPTED_CHANNEL@) == ChannelView::EncryptedBroadcast,
        forall|name: Seq<char>|
            #[trigger] classify_spec(name) is Private ==> name != PUBLIC_CHANNEL@ && name
                != ENCRYPTED_CHANNEL@,
{
    reveal_strlit("global-gossip");
    reveal_strlit("encrypted-chat");
    assert(PUBLIC_CHANNEL@.len() != ENCRYPTED_CHANNEL@.len());
}

/// Routing depends on the name alone: equal names are published on one and
/// the same topic.
pub proof fn lemma_route_is_deterministic(first: Seq<char>, second: Seq<char>)
    requires
        first == second,
    ensures
        classify_spec(first) == classify_spec(second),
        route_spec(first) == route_spec(second),
{
}

/// No two channels share a topic: names that are routed to the same topic
/// stand for the same channel.
pub proof fn lemma_topics_are_distinct(first: Seq<char>, second: Seq<char>)
    requires
        route_spec(first) == route_spec(second),
    ensures
        classify_spec(first) == classify_spec(second),
{
    reveal_strlit("global-gossip");
    reveal_strlit("encrypted-chat");
    reveal_strlit("phantom-global");
    reveal_strlit("inbox-");
    let a = route_spec(first);
    let b = route_spec(second);
    assert(PUBLIC_TOPIC@[0] == 'p' && ENCRYPTED_TOPIC@[0] == 'e');
    assert(forall|peer: Seq<char>| (#[trigger] inbox_topic_spec(peer))[0] == 'i');
    assert(a[0] == b[0]);
    if classify_spec(first) is Private {
        assert(classify_spec(second) is Private);
        let p = first;
        let q = second;
        assert(inbox_topic_spec(p).subrange(6, inbox_topic_spec(p).len() as int) == p);
        assert(inbox_topic_spec(q).subrange(6, inbox_topic_spec(q).len() as int) == q);
    }
}

} // verus!
