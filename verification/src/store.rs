//! The shared-secret store: for every peer with which a handshake was begun,
//! whether only an offer went out or a secret is on file.
//!
//! The entries are kept in a list in which no peer occurs twice. The
//! verified model of the standard hash map covers keys that are integers,
//! not keys that are text.

use crate::text::text_eq;
use vstd::prelude::*;

verus! {

/// Where the handshake with one peer stands.
#[derive(Clone, Copy, Debug, PartialEq, Eq, Structural)]
pub enum SessionState {
    /// Nothing was sent to the peer and nothing is on file.
    NoSecret,
    /// An offer went out; no secret is on file yet.
    OfferSent,
    /// A shared secret is on file.
    Established,
}

/// The mathematical value of a [`SecretStore`]: the peers with which a
/// handshake was begun, each with its secret once one is on file.
pub type Sessions = Map<Seq<char>, Option<Seq<u8>>>;

/// The secret on file for `peer`, if any.
pub open spec fn established_secret(sessions: Sessions, peer: Seq<char>) -> Option<Seq<u8>> {
    if sessions.dom().contains(peer) {
        sessions[peer]
    } else {
        None
    }
}

/// Where the handshake with `peer` stands.
pub open spec fn session_state(sessions: Sessions, peer: Seq<char>) -> SessionState {
    if !sessions.dom().contains(peer) {
        SessionState::NoSecret
    } else if sessions[peer] is Some {
        SessionState::Established
    } else {
        SessionState::OfferSent
    }
}

/// `sessions` after an offer went out to `peer`: a peer not yet known is now
/// awaited, and nothing else changes.
pub open spec fn after_offer(sessions: Sessions, peer: Seq<char>) -> Sessions {
    if sessions.dom().contains(peer) {
        sessions
    } else {
        sessions.insert(peer, None)
    }
}

/// The byte sequence inside an optional secret.
pub open spec fn option_secret(secret: Option<[u8; 32]>) -> Option<Seq<u8>> {
    match secret {
        Some(s) => Some(s@),
        None => None,
    }
}

struct PeerEntry {
    peer: String,
    secret: Option<[u8; 32]>,
}

spec fn is_index_of(entries: Seq<PeerEntry>, peer: Seq<char>, i: int) -> bool {
    0 <= i < entries.len() && entries[i].peer@ == peer
}

spec fn distinct_peers(entries: Seq<PeerEntry>) -> bool {
    forall|i: int, j: int|
        0 <= i < j < entries.len() ==> (#[trigger] entries[i]).peer@ != (#[trigger] entries[j]).peer@
}

spec fn sessions_of(entries: Seq<PeerEntry>) -> Sessions {
    Map::new(
        |peer: Seq<char>| exists|i: int| is_index_of(entries, peer, i),
        |peer: Seq<char>| option_secret(entries[choose|i: int| is_index_of(entries, peer, i)].secret),
    )
}

/// Map from peer identifier to the state of the handshake with that peer.
/// No peer occurs twice, and nothing is ever removed.
pub struct SecretStore {
    entries: Vec<PeerEntry>,
}

impl View for SecretStore {
    type V = Sessions;

    closed spec fn view(&self) -> Sessions {
        sessions_of(self.entries@)
    }
}

impl SecretStore {
    #[verifier::type_invariant]
    closed spec fn inv(self) -> bool {
        distinct_peers(self.entries@)
    }

    /// A store that knows no peer.
    pub fn new() -> (store: SecretStore)
        ensures
            store@ == Map::<Seq<char>, Option<Seq<u8>>>::empty(),
    {
        let store = SecretStore { entries: Vec::new() };
        assert(store@ =~= Map::<Seq<char>, Option<Seq<u8>>>::empty());
        store
    }

    fn find(&self, peer: &str) -> (found: Option<usize>)
        ensures
            match found {
                Some(i) => is_index_of(self.entries@, peer@, i as int),
                None => forall|i: int| !is_index_of(self.entries@, peer@, i),
            },
    {
        let mut i: usize = 0;
        while i < self.entries.len()
            invariant
                i <= self.entries@.len(),
                forall|j: int| 0 <= j < i ==> !is_index_of(self.entries@, peer@, j),
            decreases self.entries@.len() - i,
        {
            if text_eq(self.entries[i].peer.as_str(), peer) {
                return Some(i);
            }
            i += 1;
        }
        None
    }

    /// The secret on file for `peer`, if any.
    pub fn get(&self, peer: &str) -> (secret: Option<[u8; 32]>)
        ensures
            option_secret(secret) == established_secret(self@, peer@),
    {
        proof {
            use_type_invariant(self);
        }
        match self.find(peer) {
            Some(i) => {
                proof {
                    let k = choose|k: int| is_index_of(self.entries@, peer@, k);
                    assert(k == i as int);
                }
                self.entries[i].secret
            },
            None => None,
        }
    }

    /// Where the handshake with `peer` stands.
    pub fn state(&self, peer: &str) -> (state: SessionState)
        ensures
            state == session_state(self@, peer@),
    {
        proof {
            use_type_invariant(self);
        }
        match self.find(peer) {
            Some(i) => {
                proof {
                    let k = choose|k: int| is_index_of(self.entries@, peer@, k);
                    assert(k == i as int);
                }
                if self.entries[i].secret.is_some() {
                    SessionState::Established
                } else {
                    SessionState::OfferSent
                }
            },
            None => SessionState::NoSecret,
        }
    }

    /// Puts `secret` on file for `peer`, in place of whatever was there.
    pub fn put(&mut self, peer: &str, secret: [u8; 32])
        ensures
            final(self)@ == old(self)@.insert(peer@, Some(secret@)),
    {
        proof {
            use_type_invariant(&*self);
        }
        let entry = PeerEntry { peer: peer.to_owned(), secret: Some(secret) };
        let found = self.find(peer);
        let mut entries = self.take_entries();
        match found {
            Some(i) => {
                entries[i] = entry;
                proof {
                    lemma_replaced(old(self).entries@, entries@, i as int);
                }
            },
            None => {
                proof {
                    lemma_appended(entries@, entry);
                }
                entries.push(entry);
            },
        }
        self.entries = entries;
    }

    /// Records that an offer went out to `peer`. A peer that is already
    /// known keeps its state.
    pub fn mark_offered(&mut self, peer: &str)
        ensures
            final(self)@ == after_offer(old(self)@, peer@),
    {
        proof {
            use_type_invariant(&*self);
        }
        if self.find(peer).is_none() {
            let mut entries = self.take_entries();
            let entry = PeerEntry { peer: peer.to_owned(), secret: None };
            proof {
                lemma_appended(entries@, entry);
            }
            entries.push(entry);
            self.entries = entries;
        }
    }

    /// Moves the entries out, leaving the store empty until they are put
    /// back.
    fn take_entries(&mut self) -> (entries: Vec<PeerEntry>)
        ensures
            entries@ == old(self).entries@,
            final(self).entries@.len() == 0,
    {
        let mut entries = Vec::new();
        core::mem::swap(&mut self.entries, &mut entries);
        entries
    }
}

proof fn lemma_appended(before: Seq<PeerEntry>, added: PeerEntry)
    requires
        distinct_peers(before),
        forall|i: int| !is_index_of(before, added.peer@, i),
    ensures
        distinct_peers(before.push(added)),
        sessions_of(before.push(added)) == sessions_of(before).insert(
            added.peer@,
            option_secret(added.secret),
        ),
{
    let n = before.len() as int;
    let after = before.push(added);
    assert forall|i: int, j: int| 0 <= i < j < after.len() implies (#[trigger] after[i]).peer@ != (
    #[trigger] after[j]).peer@ by {
        if j == n {
            assert(!is_index_of(before, added.peer@, i));
        }
    }
    let expected = sessions_of(before).insert(added.peer@, option_secret(added.secret));
    assert forall|peer: Seq<char>| #[trigger]
        sessions_of(after).dom().contains(peer) == expected.dom().contains(peer) by {
        if exists|i: int| is_index_of(after, peer, i) {
            let i = choose|i: int| is_index_of(after, peer, i);
            if i < n {
                assert(is_index_of(before, peer, i));
            }
        }
        if exists|i: int| is_index_of(before, peer, i) {
            let i = choose|i: int| is_index_of(before, peer, i);
            assert(is_index_of(after, peer, i));
        }
        if peer == added.peer@ {
            assert(is_index_of(after, peer, n));
        }
    }
    assert forall|peer: Seq<char>| sessions_of(after).dom().contains(peer) implies #[trigger]
        sessions_of(after)[peer] == expected[peer] by {
        let i = choose|i: int| is_index_of(after, peer, i);
        if peer == added.peer@ {
            if i < n {
                assert(is_index_of(before, peer, i));
            }
        } else {
            assert(is_index_of(before, peer, i));
            let k = choose|k: int| is_index_of(before, peer, k);
            assert(is_index_of(after, peer, k));
        }
    }
    assert(sessions_of(after) =~= expected);
}

proof fn lemma_replaced(before: Seq<PeerEntry>, after: Seq<PeerEntry>, at: int)
    requires
        distinct_peers(before),
        0 <= at < before.len(),
        after.len() == before.len(),
        after[at].peer@ == before[at].peer@,
        forall|i: int| 0 <= i < before.len() && i != at ==> after[i] == before[i],
    ensures
        distinct_peers(after),
        sessions_of(after) == sessions_of(before).insert(
            after[at].peer@,
            option_secret(after[at].secret),
        ),
{
    let expected = sessions_of(before).insert(after[at].peer@, option_secret(after[at].secret));
    assert forall|i: int| 0 <= i < before.len() implies (#[trigger] after[i]).peer@ == before[i].peer@ by {}
    assert forall|peer: Seq<char>, i: int| is_index_of(after, peer, i) == is_index_of(
        before,
        peer,
        i,
    ) by {}
    assert forall|peer: Seq<char>| #[trigger]
        sessions_of(after).dom().contains(peer) == expected.dom().contains(peer) by {
        assert(is_index_of(before, after[at].peer@, at));
    }
    assert forall|peer: Seq<char>| sessions_of(after).dom().contains(peer) implies #[trigger]
        sessions_of(after)[peer] == expected[peer] by {
        let i = choose|i: int| is_index_of(after, peer, i);
        let k = choose|k: int| is_index_of(before, peer, k);
        assert(is_index_of(before, peer, i));
        assert(is_index_of(after, peer, k));
        assert(i == k);
        if peer == after[at].peer@ {
            assert(is_index_of(after, peer, at));
            assert(i == at);
        }
    }
    assert(sessions_of(after) =~= expected);
}

} // verus!
