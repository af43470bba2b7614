//! Peer links as PN-09 lists them, and the sentences the desktop raises about peers.
//!
//! A peer whose endpoint is not a node is said in the alerts and skipped; a launch
//! warning a peer sent and this deployment refused is said too, because a peer sending
//! warnings nobody can read must not look like a peer that saw nothing.

use vstd::prelude::*;
use crate::text::{quoted_name, debug_string, push_str, chars_of};

verus! {

/// What a bound peer's link reports: the peer's name, the node it reaches, whether the
/// link is up, and the last error it met, if any.
#[derive(Debug, Clone, PartialEq, Eq)]
pub struct PeerLinkView {
    pub name: String,
    pub endpoint: String,
    pub connected: bool,
    pub last_error: Option<String>,
}

/// The peer lines for PN-09, owned so the view can borrow them.
#[derive(Debug, Clone, PartialEq, Eq)]
pub struct OwnedPeerLine {
    pub name: String,
    pub endpoint: String,
    pub connected: bool,
    pub reason: String,
}

/// The line PN-09 shows for a peer: its last error, or that it has not answered yet.
pub open spec fn peer_line_of(p: PeerLinkView, line: OwnedPeerLine) -> bool {
    &&& line.name@ == p.name@
    &&& line.endpoint@ == p.endpoint@
    &&& line.connected == p.connected
    &&& line.reason@ == match p.last_error {
        Some(e) => e@,
        None => "no answer yet"@,
    }
}

/// One line per bound peer, in the order they were bound.
pub fn peer_lines(peers: &[PeerLinkView]) -> (lines: Vec<OwnedPeerLine>)
    ensures
        lines@.len() == peers@.len(),
        forall|i: int| 0 <= i < peers@.len() ==> peer_line_of(#[trigger] peers@[i], lines@[i]),
{
    let mut lines: Vec<OwnedPeerLine> = Vec::new();
    let mut i: usize = 0;
    while i < peers.len()
        invariant
            i <= peers@.len(),
            lines@.len() == i,
            forall|k: int| 0 <= k < i ==> peer_line_of(#[trigger] peers@[k], lines@[k]),
        decreases peers@.len() - i,
    {
        let p = &peers[i];
        let reason = match &p.last_error {
            Some(e) => e.clone(),
            None => String::from_str("no answer yet"),
        };
        lines.push(OwnedPeerLine { name: p.name.clone(), endpoint: p.endpoint.clone(), connected: p.connected, reason });
        i = i + 1;
    }
    lines
}

/// Whether `s` begins with `prefix`.
pub open spec fn begins_with(s: Seq<char>, prefix: Seq<char>) -> bool {
    prefix.len() <= s.len() && s.subrange(0, prefix.len() as int) == prefix
}

/// Whether `s` begins with `prefix`.
pub fn starts_with(s: &str, prefix: &str) -> (b: bool)
    ensures
        b == begins_with(s@, prefix@),
{
    let cs = chars_of(s);
    let ps = chars_of(prefix);
    if ps.len() > cs.len() {
        return false;
    }
    let mut i: usize = 0;
    while i < ps.len() && cs[i] == ps[i]
        invariant
            i <= ps@.len() <= cs@.len(),
            forall|k: int| 0 <= k < i ==> cs@[k] == ps@[k],
        decreases ps@.len() - i,
    {
        i = i + 1;
    }
    if i == ps.len() {
        assert(s@.subrange(0, prefix@.len() as int) =~= prefix@);
        true
    } else {
        assert(s@.subrange(0, prefix@.len() as int)[i as int] != prefix@[i as int]);
        false
    }
}

/// Whether an endpoint is a node a peer link can reach: of kind `peer`, at an `http`
/// address.
pub open spec fn is_node_url(kind: Seq<char>, address: Seq<char>) -> bool {
    kind == "peer"@ && begins_with(address, "http"@)
}

/// The alert for a configured peer whose endpoint is not a node, or `None` when it is one
/// and a link can be bound.
pub fn not_a_node(peer: &str, endpoint: &str, kind: &str, address: &str) -> (alert: Option<String>)
    ensures
        alert is None <==> is_node_url(kind@, address@),
        match alert {
            Some(a) => a@ == "peer "@ + peer@ + ": endpoint "@ + endpoint@ + " is a "@ + quoted_name(kind@)
                + " at "@ + address@ + ", not a node url; no link bound"@,
            None => true,
        },
{
    let is_peer = crate::text::str_eq(kind, "peer");
    if is_peer && starts_with(address, "http") {
        proof {
            reveal_strlit("peer");
        }
        return None;
    }
    let mut a = String::from_str("peer ");
    push_str(&mut a, peer);
    push_str(&mut a, ": endpoint ");
    push_str(&mut a, endpoint);
    push_str(&mut a, " is a ");
    let quoted = debug_string(kind);
    push_str(&mut a, quoted.as_str());
    push_str(&mut a, " at ");
    push_str(&mut a, address);
    push_str(&mut a, ", not a node url; no link bound");
    Some(a)
}

/// The alert for a peer whose link could not be bound.
pub fn not_bound(peer: &str, error: &str) -> (alert: String)
    ensures
        alert@ == "peer "@ + peer@ + ": link not bound: "@ + error@,
{
    let mut a = String::from_str("peer ");
    push_str(&mut a, peer);
    push_str(&mut a, ": link not bound: ");
    push_str(&mut a, error);
    a
}

/// The alert for a launch warning a peer sent that this deployment refused.
pub fn refused_warning(peer: &str, reason: &str) -> (alert: String)
    ensures
        alert@ == "peer "@ + peer@ + " sent a launch warning this deployment refused: "@ + reason@,
{
    let mut a = String::from_str("peer ");
    push_str(&mut a, peer);
    push_str(&mut a, " sent a launch warning this deployment refused: ");
    push_str(&mut a, reason);
    a
}

} // verus!
