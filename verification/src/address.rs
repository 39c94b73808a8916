//! Network addresses, as far as the node has to judge them.

use libp2p::Multiaddr;
use vstd::prelude::*;

verus! {

/// The address on which a node starts to listen: every local interface, on
/// a port that the operating system picks.
pub const LISTEN_ADDRESS: &'static str = "/ip4/0.0.0.0/tcp/0";

/// Whether `text` reads as a multiaddress.
pub uninterp spec fn multiaddr_parses(text: Seq<char>) -> bool;

/// Calls `str::parse::<Multiaddr>`, the `FromStr` of `Multiaddr`, and
/// reports whether it accepted the text.
#[verifier::external_body]
pub(crate) fn is_multiaddr(text: &str) -> (ok: bool)
    ensures
        ok == multiaddr_parses(text@),
{
    text.parse::<Multiaddr>().is_ok()
}

} // verus!
