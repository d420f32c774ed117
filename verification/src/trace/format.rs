//! The colored messages of trace events, and their colored names.
pub mod common;
pub mod network;
pub mod peer_connection;
pub mod peer_discovery;
pub mod peer_management;
pub mod startup;

use vstd::prelude::*;
use crate::text::{dec_nat, join_spaced, u64_to_decimal};
use crate::trace::types::{trace_id_name, TraceId};
use crate::tui::color::{green, magenta, styled, yellow};

verus! {

/// The colored message of each event.
pub open spec fn trace_message(t: TraceId) -> Seq<char> {
    match t {
        TraceId::StartupInit { port } => styled("32"@, "Starting subversive node on port"@) + seq![' '] + styled("35"@, dec_nat(port as nat)),
        TraceId::StartupPoc => styled("32"@, "Starting subversive poc going to run multiple peers at once to test the network"@),
        TraceId::BuildHttpClient => styled("32"@, "Building HTTP client for peer connection"@),
        TraceId::UserPrompt => styled("32"@, "Press Ctrl+C to exit"@),
        TraceId::NetworkScan => styled("32"@, "Attempting to connect to all peers"@),
        TraceId::PeerConnect { peer } => styled("32"@, "Connecting to initial peer:"@) + seq![' '] + styled("35"@, peer@),
        TraceId::PeerInit { peer, source } => styled("32"@, "Adding initial peer to peer list:"@) + seq![' '] + styled("35"@, peer@) + seq![' '] + styled("32"@, "from"@) + seq![' '] + styled("35"@, source@),
        TraceId::PeerConnected { peer } => styled("32"@, "Successfully connected to peer:"@) + seq![' '] + styled("35"@, peer@),
        TraceId::PeerConnectError { peer, error } => styled("32"@, "Failed to connect to peer:"@) + seq![' '] + styled("35"@, peer@) + seq![' '] + styled("32"@, "-"@) + seq![' '] + styled("35"@, error@),
        TraceId::PeerAlreadyConnected { peer } => styled("32"@, "Already connected to peer"@) + seq![' '] + styled("35"@, peer@),
        TraceId::PeerRemoved { peer } => styled("32"@, "Removed peer"@) + seq![' '] + styled("35"@, peer@),
        TraceId::PeerNotFound { peer } => styled("32"@, "Peer"@) + seq![' '] + styled("35"@, peer@) + seq![' '] + styled("32"@, "not found"@),
        TraceId::PeerLastSeen { peer } => styled("32"@, "Updating last seen for peer"@) + seq![' '] + styled("35"@, peer@),
        TraceId::PeerAddOwn { peer } => styled("32"@, "Adding own peer to initial peer"@) + seq![' '] + styled("35"@, peer@),
        TraceId::PeerAddRequest { peer } => styled("32"@, "Requesting to add peer"@) + seq![' '] + styled("35"@, peer@),
        TraceId::PeerResponse { peer } => styled("32"@, "Response from initial peer"@) + seq![' '] + styled("35"@, peer@),
        TraceId::PeerKnownCount { peer, count } => styled("32"@, "Received"@) + seq![' '] + styled("35"@, dec_nat(count as nat)) + seq![' '] + styled("32"@, "known peers from"@) + seq![' '] + styled("35"@, peer@),
    }
}

impl TraceId {
    /// The event's message, colored for the terminal.
    pub fn message(&self) -> (s: String)
        ensures
            s@ == trace_message(*self),
    {
        match self {
            TraceId::StartupInit { port } => self.format_startup_message(port),
            TraceId::StartupPoc => self.format_startup_message_simple(),
            TraceId::BuildHttpClient => green("Building HTTP client for peer connection"),
            TraceId::UserPrompt => green("Press Ctrl+C to exit"),
            TraceId::NetworkScan => green("Attempting to connect to all peers"),
            TraceId::PeerConnect { peer } => self.format_peer_connect_message(peer.as_str()),
            TraceId::PeerInit { peer, source } => self.format_peer_init_message(peer.as_str(), source.as_str()),
            TraceId::PeerConnected { peer } => self.format_peer_connected_message(peer.as_str()),
            TraceId::PeerConnectError { peer, error } => self.format_peer_error_message(peer.as_str(), error.as_str()),
            TraceId::PeerAlreadyConnected { peer } => self.format_peer_status_message("Already connected to peer", peer.as_str()),
            TraceId::PeerRemoved { peer } => self.format_peer_status_message("Removed peer", peer.as_str()),
            TraceId::PeerNotFound { peer } => self.format_peer_not_found_message(peer.as_str()),
            TraceId::PeerLastSeen { peer } => self.format_peer_status_message("Updating last seen for peer", peer.as_str()),
            TraceId::PeerAddOwn { peer } => self.format_peer_status_message("Adding own peer to initial peer", peer.as_str()),
            TraceId::PeerAddRequest { peer } => self.format_peer_status_message("Requesting to add peer", peer.as_str()),
            TraceId::PeerResponse { peer } => self.format_peer_status_message("Response from initial peer", peer.as_str()),
            TraceId::PeerKnownCount { peer, count } => self.format_peer_count_message(peer.as_str(), count),
        }
    }

    /// "Starting subversive node on port" and the port.
    pub fn format_startup_message(&self, port: &u16) -> (s: String)
        ensures
            s@ == styled("32"@, "Starting subversive node on port"@) + seq![' '] + styled("35"@, dec_nat(*port as nat)),
    {
        let p = u64_to_decimal(*port as u64);
        join_spaced(green("Starting subversive node on port").as_str(), magenta(p.as_str()).as_str())
    }

    /// The start-up message of a multi-peer test run.
    pub fn format_startup_message_simple(&self) -> (s: String)
        ensures
            s@ == styled("32"@, "Starting subversive poc going to run multiple peers at once to test the network"@),
    {
        green("Starting subversive poc going to run multiple peers at once to test the network")
    }

    /// "Connecting to initial peer:" and the peer.
    pub fn format_peer_connect_message(&self, peer: &str) -> (s: String)
        ensures
            s@ == styled("32"@, "Connecting to initial peer:"@) + seq![' '] + styled("35"@, peer@),
    {
        join_spaced(green("Connecting to initial peer:").as_str(), magenta(peer).as_str())
    }

    /// "Adding initial peer to peer list:", the peer, "from", and the source.
    pub fn format_peer_init_message(&self, peer: &str, source: &str) -> (s: String)
        ensures
            s@ == styled("32"@, "Adding initial peer to peer list:"@) + seq![' '] + styled("35"@, peer@) + seq![' '] + styled("32"@, "from"@) + seq![' '] + styled("35"@, source@),
    {
        let a = join_spaced(green("Adding initial peer to peer list:").as_str(), magenta(peer).as_str());
        let b = join_spaced(a.as_str(), green("from").as_str());
        let s = join_spaced(b.as_str(), magenta(source).as_str());
        assert(s@ =~= styled("32"@, "Adding initial peer to peer list:"@) + seq![' '] + styled("35"@, peer@) + seq![' '] + styled("32"@, "from"@) + seq![' '] + styled("35"@, source@));
        s
    }

    /// "Successfully connected to peer:" and the peer.
    pub fn format_peer_connected_message(&self, peer: &str) -> (s: String)
        ensures
            s@ == styled("32"@, "Successfully connected to peer:"@) + seq![' '] + styled("35"@, peer@),
    {
        join_spaced(green("Successfully connected to peer:").as_str(), magenta(peer).as_str())
    }

    /// "Failed to connect to peer:", the peer, "-", and the error.
    pub fn format_peer_error_message(&self, peer: &str, error: &str) -> (s: String)
        ensures
            s@ == styled("32"@, "Failed to connect to peer:"@) + seq![' '] + styled("35"@, peer@) + seq![' '] + styled("32"@, "-"@) + seq![' '] + styled("35"@, error@),
    {
        let a = join_spaced(green("Failed to connect to peer:").as_str(), magenta(peer).as_str());
        let b = join_spaced(a.as_str(), green("-").as_str());
        let s = join_spaced(b.as_str(), magenta(error).as_str());
        assert(s@ =~= styled("32"@, "Failed to connect to peer:"@) + seq![' '] + styled("35"@, peer@) + seq![' '] + styled("32"@, "-"@) + seq![' '] + styled("35"@, error@));
        s
    }

    /// A status in green and the peer in magenta.
    pub fn format_peer_status_message(&self, status: &str, peer: &str) -> (s: String)
        ensures
            s@ == styled("32"@, status@) + seq![' '] + styled("35"@, peer@),
    {
        join_spaced(green(status).as_str(), magenta(peer).as_str())
    }

    /// "Peer", the peer, and "not found".
    pub fn format_peer_not_found_message(&self, peer: &str) -> (s: String)
        ensures
            s@ == styled("32"@, "Peer"@) + seq![' '] + styled("35"@, peer@) + seq![' '] + styled("32"@, "not found"@),
    {
        let a = join_spaced(green("Peer").as_str(), magenta(peer).as_str());
        let s = join_spaced(a.as_str(), green("not found").as_str());
        assert(s@ =~= styled("32"@, "Peer"@) + seq![' '] + styled("35"@, peer@) + seq![' '] + styled("32"@, "not found"@));
        s
    }

    /// "Received", the count, "known peers from", and the peer.
    pub fn format_peer_count_message(&self, peer: &str, count: &usize) -> (s: String)
        ensures
            s@ == styled("32"@, "Received"@) + seq![' '] + styled("35"@, dec_nat(*count as nat)) + seq![' '] + styled("32"@, "known peers from"@) + seq![' '] + styled("35"@, peer@),
    {
        let c = u64_to_decimal(*count as u64);
        let a = join_spaced(green("Received").as_str(), magenta(c.as_str()).as_str());
        let b = join_spaced(a.as_str(), green("known peers from").as_str());
        let s = join_spaced(b.as_str(), magenta(peer).as_str());
        assert(s@ =~= styled("32"@, "Received"@) + seq![' '] + styled("35"@, dec_nat(*count as nat)) + seq![' '] + styled("32"@, "known peers from"@) + seq![' '] + styled("35"@, peer@));
        s
    }
}

/// The event's name in yellow, in brackets.
pub fn format_msg_id(id: &TraceId) -> (s: String)
    ensures
        s@ == seq!['['] + styled("33"@, trace_id_name(*id)) + seq![']'],
{
    let name = yellow(id.name());
    let mut s = String::new();
    s.push('[');
    crate::text::push_str(&mut s, name.as_str());
    s.push(']');
    assert(s@ =~= seq!['['] + styled("33"@, trace_id_name(*id)) + seq![']']);
    s
}

} // verus!
