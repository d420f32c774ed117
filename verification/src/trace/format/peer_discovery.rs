//! Messages of peer discovery events.
use vstd::prelude::*;
use crate::text::{concat, dec_nat, join_spaced, opt_view, u64_to_decimal};
use crate::trace::types::TraceId;
use crate::tui::color::{green, magenta, styled};

verus! {

/// The message of a peer discovery event; other events are not of this category.
pub open spec fn peer_discovery_category(t: TraceId) -> Option<Seq<char>> {
    match t {
        TraceId::PeerAddOwn { peer } => Some(styled("32"@, "Adding own peer to initial peer"@) + seq![' '] + peer@),
        TraceId::PeerAddRequest { peer } => Some(styled("32"@, "Requesting to add peer"@) + seq![' '] + peer@),
        TraceId::PeerResponse { peer } => Some(styled("32"@, "Response from initial peer"@) + seq![' '] + peer@),
        TraceId::PeerKnownCount { peer, count } => Some("Peer "@ + peer@ + " knows "@ + dec_nat(count as nat) + " peers"@),
        _ => None,
    }
}

/// The message of a peer discovery event, if `trace_id` is one.
pub fn format_peer_discovery_category(trace_id: &TraceId) -> (r: Option<String>)
    ensures
        opt_view(r) == peer_discovery_category(*trace_id),
{
    match trace_id {
        TraceId::PeerAddOwn { peer } => Some(format_peer_status_message("Adding own peer to initial peer", peer.as_str())),
        TraceId::PeerAddRequest { peer } => Some(format_peer_status_message("Requesting to add peer", peer.as_str())),
        TraceId::PeerResponse { peer } => Some(format_peer_status_message("Response from initial peer", peer.as_str())),
        TraceId::PeerKnownCount { peer, count } => Some(format_peer_count_message(peer.as_str(), count)),
        _ => None,
    }
}

fn format_peer_count_message(peer: &str, count: &usize) -> (s: String)
    ensures
        s@ == "Peer "@ + peer@ + " knows "@ + dec_nat(*count as nat) + " peers"@,
{
    let c = u64_to_decimal(*count as u64);
    let a = concat("Peer ", peer);
    let b = concat(a.as_str(), " knows ");
    let d = concat(b.as_str(), c.as_str());
    concat(d.as_str(), " peers")
}

/// A status in green, a space, and the peer.
pub fn format_peer_status_message(status: &str, peer: &str) -> (s: String)
    ensures
        s@ == styled("32"@, status@) + seq![' '] + peer@,
{
    join_spaced(green(status).as_str(), peer)
}

} // verus!
