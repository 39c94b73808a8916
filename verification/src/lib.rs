//! Decision logic of a peer-to-peer chat node: channel routing, the pairwise
//! key-agreement handshake, the symmetric cipher that protects broadcast and
//! private traffic, and the reactions of the node to network events and to
//! queued commands.
//!
//! Nothing here performs I/O. The embedding program owns the overlay swarm,
//! hands each event and each command to [`engine::Engine`], and carries out
//! the actions that come back.
//!
//! - [`keys`]: the key-agreement pair and the long-term identity.
//! - [`cipher`]: tokens, made and read under a 32-byte key.
//! - [`store`]: the secrets shared with peers, and where each handshake
//!   stands.
//! - [`router`]: channel names, topics, and which is which.
//! - [`handshake`]: the steps of the pairwise handshake.
//! - [`wire`]: envelopes, commands, events, actions and notifications.
//! - [`engine`]: the state of a node and its reactions.
//! - [`laws`]: what holds of the handshake and of the state, whatever the
//!   inputs.
//! - [`hexcode`], [`text`], [`address`], [`dedup`]: hexadecimal text, text
//!   comparison and joining, addresses, and publication identifiers.

pub mod address;
pub mod cipher;
pub mod dedup;
pub mod engine;
pub mod handshake;
pub mod hexcode;
pub mod keys;
pub mod laws;
pub mod router;
pub mod store;
pub mod text;
pub mod wire;
