//! Messages of peer management events.
use vstd::prelude::*;
use crate::text::{concat, opt_view};
use crate::trace::format::common::format_peer_status_message;
use crate::trace::types::TraceId;

verus! {

/// The message of a peer management event; other events are not of this category.
pub open spec fn peer_management_category(t: TraceId) -> Option<Seq<char>> {
    match t {
        TraceId::PeerAlreadyConnected { peer } => Some("Already connected to peer"@ + ": "@ + peer@),
        TraceId::PeerRemoved { peer } => Some("Removed peer"@ + ": "@ + peer@),
        TraceId::PeerNotFound { peer } => Some("Could not find peer: "@ + peer@),
        TraceId::PeerLastSeen { peer } => Some("Updating last seen for peer"@ + ": "@ + peer@),
        _ => None,
    }
}

/// The message of a peer management event, if `trace_id` is one.
pub fn format_peer_management_category(trace_id: &TraceId) -> (r: Option<String>)
    ensures
        opt_view(r) == peer_management_category(*trace_id),
{
    match trace_id {
        TraceId::PeerAlreadyConnected { peer } => Some(format_peer_status_message("Already connected to peer", peer.as_str())),
        TraceId::PeerRemoved { peer } => Some(format_peer_status_message("Removed peer", peer.as_str())),
        TraceId::PeerNotFound { peer } => Some(format_peer_not_found_message(peer.as_str())),
        TraceId::PeerLastSeen { peer } => Some(format_peer_status_message("Updating last seen for peer", peer.as_str())),
        _ => None,
    }
}

fn format_peer_not_found_message(peer: &str) -> (s: String)
    ensures
        s@ == "Could not find peer: "@ + peer@,
{
    concat("Could not find peer: ", peer)
}

} // verus!
