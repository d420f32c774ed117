//! Messages of peer connection events.
use vstd::prelude::*;
use crate::text::{concat, dec_nat, join_spaced, opt_view, u64_to_decimal};
use crate::trace::types::TraceId;
use crate::tui::color::{green, magenta, styled};

verus! {

/// The message of a peer connection event; other events are not of this category.
pub open spec fn peer_connection_category(t: TraceId) -> Option<Seq<char>> {
    match t {
        TraceId::PeerConnect { peer } => Some("Connecting to initial peer: "@ + peer@),
        TraceId::PeerInit { peer, source } => Some("Adding initial peer to peer list: "@ + peer@ + " from "@ + source@),
        TraceId::PeerConnected { peer } => Some("Connected to peer: "@ + peer@),
        TraceId::PeerConnectError { peer, error } => Some("Error connecting to peer "@ + peer@ + ": "@ + error@),
        _ => None,
    }
}

/// The message of a peer connection event, if `trace_id` is one.
pub fn format_peer_connection_category(trace_id: &TraceId) -> (r: Option<String>)
    ensures
        opt_view(r) == peer_connection_category(*trace_id),
{
    match trace_id {
        TraceId::PeerConnect { peer } => Some(format_peer_connect_message(peer.as_str())),
        TraceId::PeerInit { peer, source } => Some(format_peer_init_message(peer.as_str(), source.as_str())),
        TraceId::PeerConnected { peer } => Some(format_peer_connected_message(peer.as_str())),
        TraceId::PeerConnectError { peer, error } => Some(format_peer_error_message(peer.as_str(), error.as_str())),
        _ => None,
    }
}

fn format_peer_connect_message(peer: &str) -> (s: String)
    ensures
        s@ == "Connecting to initial peer: "@ + peer@,
{
    concat("Connecting to initial peer: ", peer)
}

fn format_peer_init_message(peer: &str, source: &str) -> (s: String)
    ensures
        s@ == "Adding initial peer to peer list: "@ + peer@ + " from "@ + source@,
{
    let a = concat("Adding initial peer to peer list: ", peer);
    let b = concat(a.as_str(), " from ");
    concat(b.as_str(), source)
}

fn format_peer_connected_message(peer: &str) -> (s: String)
    ensures
        s@ == "Connected to peer: "@ + peer@,
{
    concat("Connected to peer: ", peer)
}

fn format_peer_error_message(peer: &str, error: &str) -> (s: String)
    ensures
        s@ == "Error connecting to peer "@ + peer@ + ": "@ + error@,
{
    let a = concat("Error connecting to peer ", peer);
    let b = concat(a.as_str(), ": ");
    concat(b.as_str(), error)
}

} // verus!
