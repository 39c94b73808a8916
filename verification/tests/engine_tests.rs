use p2p_chat::cipher::{decrypt_message, encrypt_message, encrypt_with_nonce, CipherErrorKind};
use p2p_chat::engine::{connect_peer, dial_actions, Engine};
use p2p_chat::keys::EcdhKeyPair;
use p2p_chat::store::SessionState;
use p2p_chat::wire::{Action, Command, NetworkEvent, Notification, SendOutcome, WireMessage};

const KEY: [u8; 32] = *b"phantom-super-secret-key-2024!!!";
const SECRET: [u8; 32] = [42u8; 32];

fn node(id: &str) -> Engine {
    let mut engine = Engine::new(EcdhKeyPair::from_secret([7u8; 32]), KEY);
    engine.start(id.to_string());
    engine
}

fn delivery(source: &str, topic: &str, text: &str, envelope: Option<WireMessage>) -> NetworkEvent {
    NetworkEvent::Message {
        source: source.to_string(),
        topic: topic.to_string(),
        text: text.to_string(),
        envelope,
    }
}

fn chat(sender: &str, content: &str, channel: &str) -> Action {
    Action::Notify(Notification::NewMessage {
        sender: sender.to_string(),
        content: content.to_string(),
        channel: channel.to_string(),
    })
}

#[test]
fn start_subscribes_listens_and_announces() {
    let mut engine = Engine::new(EcdhKeyPair::from_secret([7u8; 32]), KEY);
    assert_eq!(engine.get_local_peer_id(), "Initializing...");
    let actions = engine.start("12D3KooWMe".to_string());
    assert_eq!(
        actions,
        vec![
            Action::Subscribe { topic: "phantom-global".to_string() },
            Action::Subscribe { topic: "encrypted-chat".to_string() },
            Action::Subscribe { topic: "inbox-12D3KooWMe".to_string() },
            Action::Listen { address: "/ip4/0.0.0.0/tcp/0".to_string() },
            Action::Notify(Notification::LocalPeerId("12D3KooWMe".to_string())),
        ]
    );
    assert_eq!(engine.get_local_peer_id(), "12D3KooWMe");
}

#[test]
fn listen_addresses_accumulate_in_order() {
    let mut engine = node("me");
    assert_eq!(engine.get_listen_addresses(), Vec::<String>::new());
    let first = engine.handle_event(NetworkEvent::NewListenAddr {
        address: "/ip4/127.0.0.1/tcp/4001".to_string(),
    });
    assert_eq!(
        first,
        vec![Action::Notify(Notification::ListenAddress("/ip4/127.0.0.1/tcp/4001".to_string()))]
    );
    engine.handle_event(NetworkEvent::NewListenAddr {
        address: "/ip4/192.168.1.2/tcp/4001".to_string(),
    });
    assert_eq!(
        engine.get_listen_addresses(),
        vec!["/ip4/127.0.0.1/tcp/4001".to_string(), "/ip4/192.168.1.2/tcp/4001".to_string()]
    );
}

#[test]
fn discovered_peers_are_added_and_announced() {
    let mut engine = node("me");
    let actions = engine.handle_event(NetworkEvent::PeersDiscovered {
        peers: vec!["anna".to_string(), "ben".to_string()],
    });
    assert_eq!(
        actions,
        vec![
            Action::AddPeer { peer: "anna".to_string() },
            Action::Notify(Notification::PeerDiscovered("anna".to_string())),
            Action::AddPeer { peer: "ben".to_string() },
            Action::Notify(Notification::PeerDiscovered("ben".to_string())),
        ]
    );
    assert_eq!(engine.handle_event(NetworkEvent::PeersDiscovered { peers: vec![] }), vec![]);
}

#[test]
fn expired_peers_are_removed_and_announced() {
    let mut engine = node("me");
    let actions = engine.handle_event(NetworkEvent::PeersExpired {
        peers: vec!["anna".to_string(), "ben".to_string(), "cleo".to_string()],
    });
    assert_eq!(
        actions,
        vec![
            Action::RemovePeer { peer: "anna".to_string() },
            Action::Notify(Notification::PeerExpired("anna".to_string())),
            Action::RemovePeer { peer: "ben".to_string() },
            Action::Notify(Notification::PeerExpired("ben".to_string())),
            Action::RemovePeer { peer: "cleo".to_string() },
            Action::Notify(Notification::PeerExpired("cleo".to_string())),
        ]
    );
}

#[test]
fn public_broadcast_is_forwarded_as_it_is() {
    let mut engine = node("me");
    let actions = engine.handle_event(delivery("peer", "phantom-global", "hello all", None));
    assert_eq!(actions, vec![chat("peer", "hello all", "phantom-global")]);
}

#[test]
fn encrypted_broadcast_under_the_static_key_is_decrypted() {
    let mut engine = node("me");
    let token = encrypt_message("for the group", &KEY).unwrap();
    let actions = engine.handle_event(delivery("peer", "encrypted-chat", &token, None));
    assert_eq!(actions, vec![chat("peer", "for the group", "encrypted-chat")]);
}

#[test]
fn encrypted_broadcast_under_a_wrong_key_is_marked() {
    let mut engine = node("me");
    let token = encrypt_message("for another group", &[1u8; 32]).unwrap();
    let actions = engine.handle_event(delivery("peer", "encrypted-chat", &token, None));
    assert_eq!(actions, vec![chat("peer", &format!("(Encrypted: {})", token), "encrypted-chat")]);
    let actions = engine.handle_event(delivery("peer", "encrypted-chat", "plain words", None));
    assert_eq!(actions, vec![chat("peer", "(Encrypted: plain words)", "encrypted-chat")]);
}

#[test]
fn delivery_on_an_unknown_topic_is_tagged_unknown() {
    let mut engine = node("me");
    let actions = engine.handle_event(delivery("peer", "inbox-someone-else", "hm", None));
    assert_eq!(actions, vec![chat("peer", "hm", "unknown")]);
}

#[test]
fn private_message_is_decrypted_with_the_stored_secret() {
    let mut engine = node("me");
    engine.complete_handshake("peer", SECRET, true);
    let token = encrypt_message("just for you", &SECRET).unwrap();
    let envelope = WireMessage::Message { content: token };
    let actions = engine.handle_event(delivery("peer", "inbox-me", "raw json", Some(envelope)));
    assert_eq!(actions, vec![chat("peer", "just for you", "peer")]);
}

#[test]
fn private_message_that_does_not_decrypt_is_marked() {
    let mut engine = node("me");
    engine.complete_handshake("peer", SECRET, true);
    let token = encrypt_message("just for you", &[1u8; 32]).unwrap();
    let envelope = WireMessage::Message { content: token };
    let actions = engine.handle_event(delivery("peer", "inbox-me", "raw json", Some(envelope)));
    assert_eq!(actions, vec![chat("peer", "(Decryption Failed: aead::Error)", "peer")]);
    let envelope = WireMessage::Message { content: "AAAA".to_string() };
    let actions = engine.handle_event(delivery("peer", "inbox-me", "raw json", Some(envelope)));
    assert_eq!(actions, vec![chat("peer", "(Decryption Failed: Message too short)", "peer")]);
}

#[test]
fn private_message_without_a_secret_is_marked() {
    let mut engine = node("me");
    let token = encrypt_message("just for you", &SECRET).unwrap();
    let envelope = WireMessage::Message { content: token };
    let actions = engine.handle_event(delivery("peer", "inbox-me", "raw json", Some(envelope)));
    assert_eq!(actions, vec![chat("peer", "(No shared key established)", "peer")]);
    assert_eq!(engine.session_state("peer"), SessionState::NoSecret);
}

#[test]
fn typing_is_announced_and_is_no_message() {
    let mut engine = node("me");
    let envelope = WireMessage::Typing { is_typing: true };
    let actions = engine.handle_event(delivery("peer", "inbox-me", "raw json", Some(envelope)));
    assert_eq!(
        actions,
        vec![Action::Notify(Notification::PeerTyping { peer_id: "peer".to_string(), is_typing: true })]
    );
}

#[test]
fn unreadable_inbox_payload_is_marked() {
    let mut engine = node("me");
    let actions = engine.handle_event(delivery("peer", "inbox-me", "{not json", None));
    assert_eq!(actions, vec![chat("peer", "(Unknown Format: {not json)", "peer")]);
}

#[test]
fn inbox_before_start_is_unknown() {
    let mut engine = Engine::new(EcdhKeyPair::from_secret([7u8; 32]), KEY);
    let actions = engine.handle_event(delivery("peer", "inbox-me", "x", None));
    assert_eq!(actions, vec![chat("peer", "x", "unknown")]);
}

#[test]
fn send_on_broadcast_channels_passes_the_text_on() {
    let mut engine = node("me");
    assert_eq!(
        engine.send_message("global-gossip", "hello"),
        SendOutcome::Broadcast { channel: "global-gossip".to_string(), text: "hello".to_string() }
    );
    let outcome = engine.send_message("encrypted-chat", "hello");
    assert_eq!(
        outcome,
        SendOutcome::Broadcast { channel: "encrypted-chat".to_string(), text: "hello".to_string() }
    );
    assert_eq!(outcome.user_error(), None);
}

#[test]
fn send_after_established_encrypts_under_the_secret() {
    let mut engine = node("me");
    engine.complete_handshake("Q", SECRET, true);
    let outcome = engine.send_message("Q", "secret");
    assert_eq!(outcome.user_error(), None);
    match outcome {
        SendOutcome::Private { peer, envelope: WireMessage::Message { content } } => {
            assert_eq!(peer, "Q");
            assert_ne!(content, "secret");
            assert_eq!(decrypt_message(&content, &SECRET).unwrap(), "secret");
        }
        other => panic!("unexpected outcome {:?}", other),
    }
    assert_eq!(engine.session_state("Q"), SessionState::Established);
}

#[test]
fn send_with_a_given_nonce_is_exact() {
    let mut engine = node("me");
    engine.complete_handshake("Q", SECRET, true);
    let nonce = [5u8; 12];
    let outcome = engine.send_message_with("Q", "secret", Some(nonce));
    let token = encrypt_with_nonce("secret", &SECRET, &nonce).unwrap();
    assert_eq!(
        outcome,
        SendOutcome::Private {
            peer: "Q".to_string(),
            envelope: WireMessage::Message { content: token },
        }
    );
}

#[test]
fn send_without_a_nonce_fails_where_one_is_needed() {
    let mut engine = node("me");
    engine.complete_handshake("Q", SECRET, true);
    let outcome = engine.send_message_with("Q", "secret", None);
    match &outcome {
        SendOutcome::Failed { error } => assert_eq!(error.kind, CipherErrorKind::Encryption),
        other => panic!("unexpected outcome {:?}", other),
    }
    assert_eq!(outcome.user_error().unwrap(), "No randomness available");
    assert_eq!(outcome.envelope(), None);
    assert_eq!(outcome.into_command(None), None);
    let outcome = engine.send_message_with("global-gossip", "hi", None);
    assert!(matches!(outcome, SendOutcome::Broadcast { .. }));
}

#[test]
fn private_round_trip_between_two_nodes() {
    let mut alice = node("A");
    let mut bob = node("B");
    alice.complete_handshake("B", SECRET, true);
    bob.complete_handshake("A", SECRET, true);
    let envelope = match alice.send_message("B", "psst") {
        SendOutcome::Private { envelope, .. } => envelope,
        other => panic!("unexpected outcome {:?}", other),
    };
    let actions = bob.handle_event(delivery("A", "inbox-B", "raw", Some(envelope)));
    assert_eq!(actions, vec![chat("A", "psst", "A")]);
}

#[test]
fn typing_indicator_needs_a_private_channel_with_a_secret() {
    let mut engine = node("me");
    assert_eq!(engine.send_typing_indicator("global-gossip", true), None);
    assert_eq!(engine.send_typing_indicator("encrypted-chat", true), None);
    assert_eq!(engine.send_typing_indicator("Q", true), None);
    engine.send_message("Q", "hi");
    assert_eq!(engine.send_typing_indicator("Q", true), None);
    engine.complete_handshake("Q", SECRET, true);
    assert_eq!(
        engine.send_typing_indicator("Q", false),
        Some(SendOutcome::Private {
            peer: "Q".to_string(),
            envelope: WireMessage::Typing { is_typing: false },
        })
    );
}

#[test]
fn dial_with_a_bad_address_does_nothing() {
    let engine = node("me");
    assert_eq!(connect_peer("not-an-address"), Command::Dial { address: "not-an-address".to_string() });
    assert_eq!(engine.handle_command(connect_peer("not-an-address")), vec![]);
    assert_eq!(engine.handle_command(connect_peer("/ip4/999.0.0.1/tcp/1")), vec![]);
    assert_eq!(engine.handle_command(connect_peer("ip4/127.0.0.1/tcp/4001")), vec![]);
    assert_eq!(engine.handle_command(connect_peer("/ip4/127.0.0.1/tcp")), vec![]);
}

#[test]
fn the_empty_address_reads_as_an_address() {
    let engine = node("me");
    assert_eq!(
        engine.handle_command(connect_peer("")),
        vec![Action::Dial { address: String::new() }]
    );
}

#[test]
fn dial_with_a_good_address_connects() {
    let engine = node("me");
    assert_eq!(
        engine.handle_command(connect_peer("/ip4/127.0.0.1/tcp/4001")),
        vec![Action::Dial { address: "/ip4/127.0.0.1/tcp/4001".to_string() }]
    );
}

#[test]
fn dial_actions_follow_the_verdict() {
    assert_eq!(
        dial_actions("anything".to_string(), true),
        vec![Action::Dial { address: "anything".to_string() }]
    );
    assert_eq!(dial_actions("/ip4/127.0.0.1/tcp/4001".to_string(), false), vec![]);
}

#[test]
fn publish_on_the_public_channel_is_plain() {
    let engine = node("me");
    let command = Command::Publish { channel: "global-gossip".to_string(), payload: "hi".to_string() };
    assert_eq!(
        engine.handle_command(command),
        vec![Action::Publish { topic: "phantom-global".to_string(), data: "hi".to_string() }]
    );
}

#[test]
fn publish_on_a_private_channel_goes_to_the_inbox_unchanged() {
    let engine = node("me");
    let command = Command::Publish { channel: "Q".to_string(), payload: "{\"type\":\"Typing\"}".to_string() };
    assert_eq!(
        engine.handle_command(command),
        vec![Action::Publish { topic: "inbox-Q".to_string(), data: "{\"type\":\"Typing\"}".to_string() }]
    );
}

#[test]
fn publish_on_the_encrypted_channel_is_encrypted() {
    let engine = node("me");
    let command =
        Command::Publish { channel: "encrypted-chat".to_string(), payload: "hush".to_string() };
    let actions = engine.handle_command(command);
    assert_eq!(actions.len(), 1);
    match &actions[0] {
        Action::Publish { topic, data } => {
            assert_eq!(topic, "encrypted-chat");
            assert_ne!(data, "hush");
            assert_eq!(decrypt_message(data, &KEY).unwrap(), "hush");
        }
        other => panic!("unexpected action {:?}", other),
    }
}

#[test]
fn publish_with_a_given_nonce_is_exact() {
    let engine = node("me");
    let command =
        Command::Publish { channel: "encrypted-chat".to_string(), payload: "hush".to_string() };
    let nonce = [6u8; 12];
    let token = encrypt_with_nonce("hush", &KEY, &nonce).unwrap();
    assert_eq!(
        engine.handle_command_with(command.clone(), Some(nonce)),
        vec![Action::Publish { topic: "encrypted-chat".to_string(), data: token }]
    );
    assert_eq!(
        engine.handle_command_with(command, None),
        vec![Action::Publish { topic: "encrypted-chat".to_string(), data: "hush".to_string() }]
    );
}

#[test]
fn broadcast_round_trip_between_two_nodes() {
    let alice = node("A");
    let mut bob = node("B");
    let command =
        Command::Publish { channel: "encrypted-chat".to_string(), payload: "to all".to_string() };
    let (topic, data) = match alice.handle_command(command).remove(0) {
        Action::Publish { topic, data } => (topic, data),
        other => panic!("unexpected action {:?}", other),
    };
    let actions = bob.handle_event(delivery("A", &topic, &data, None));
    assert_eq!(actions, vec![chat("A", "to all", "encrypted-chat")]);
}

#[test]
fn notifications_have_their_event_names() {
    let s = || "x".to_string();
    assert_eq!(Notification::LocalPeerId(s()).event_name(), "local-peer-id");
    assert_eq!(Notification::ListenAddress(s()).event_name(), "listen-address");
    assert_eq!(Notification::PeerDiscovered(s()).event_name(), "peer-discovered");
    assert_eq!(Notification::PeerExpired(s()).event_name(), "peer-expired");
    assert_eq!(Notification::HandshakeComplete(s()).event_name(), "handshake-complete");
    assert_eq!(
        Notification::PeerTyping { peer_id: s(), is_typing: true }.event_name(),
        "peer-typing"
    );
    assert_eq!(
        Notification::NewMessage { sender: s(), content: s(), channel: s() }.event_name(),
        "new-message"
    );
}

#[test]
fn public_key_is_advertised_in_hexadecimal() {
    let engine = node("me");
    let text = engine.public_key_hex();
    assert_eq!(text.len(), 64);
    assert_eq!(text, hex::encode(EcdhKeyPair::from_secret([7u8; 32]).public()));
    assert_eq!(text, text.to_lowercase());
}

#[test]
fn outcomes_become_queue_entries() {
    let broadcast =
        SendOutcome::Broadcast { channel: "global-gossip".to_string(), text: "hi".to_string() };
    assert_eq!(broadcast.envelope(), None);
    assert_eq!(
        broadcast.into_command(None),
        Some(Command::Publish { channel: "global-gossip".to_string(), payload: "hi".to_string() })
    );
    let typing = WireMessage::Typing { is_typing: true };
    let private = SendOutcome::Private { peer: "Q".to_string(), envelope: typing.clone() };
    assert_eq!(private.envelope(), Some(&typing));
    assert_eq!(
        private.clone().into_command(Some("{}".to_string())),
        Some(Command::Publish { channel: "Q".to_string(), payload: "{}".to_string() })
    );
    assert_eq!(private.into_command(None), None);
    let offer = WireMessage::Handshake { pub_key: "00".to_string(), is_reply: false };
    let started = SendOutcome::HandshakeStarted { peer: "Q".to_string(), offer: offer.clone() };
    assert_eq!(started.envelope(), Some(&offer));
    assert_eq!(
        started.into_command(Some("{offer}".to_string())),
        Some(Command::Publish { channel: "Q".to_string(), payload: "{offer}".to_string() })
    );
}

#[test]
fn queued_offer_is_published_to_the_inbox_of_the_peer() {
    let mut engine = node("me");
    let outcome = engine.send_message("Q", "hi");
    let command = outcome.into_command(Some("offer text".to_string())).unwrap();
    assert_eq!(
        engine.handle_command(command),
        vec![Action::Publish { topic: "inbox-Q".to_string(), data: "offer text".to_string() }]
    );
}

#[test]
fn delivery_and_inbox_can_be_handled_directly() {
    let mut engine = node("me");
    assert_eq!(
        engine.handle_delivery("peer", "phantom-global", "hello", None),
        vec![chat("peer", "hello", "phantom-global")]
    );
    assert_eq!(
        engine.handle_delivery("peer", "inbox-me", "??", None),
        vec![chat("peer", "(Unknown Format: ??)", "peer")]
    );
    assert_eq!(
        engine.handle_inbox("peer", "??", None),
        vec![chat("peer", "(Unknown Format: ??)", "peer")]
    );
    assert_eq!(
        engine.handle_inbox("peer", "raw", Some(WireMessage::Typing { is_typing: false })),
        vec![Action::Notify(Notification::PeerTyping {
            peer_id: "peer".to_string(),
            is_typing: false
        })]
    );
}
