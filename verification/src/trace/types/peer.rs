//! Trace events of peer handling.
use vstd::prelude::*;
use crate::text::{concat, dec_nat, join_spaced, u64_to_decimal};
use crate::trace::event::TraceId;
use crate::tui::color::{green, magenta, red, styled, yellow};

verus! {

/// The `PeerInit` trace event.
#[derive(Debug, Clone)]
pub struct PeerInit {
    pub peer: String,
    pub source: String,
}

impl TraceId for PeerInit {
    open spec fn id_of(&self) -> u64 {
        0x0200
    }

    open spec fn name_of(&self) -> Seq<char> {
        "PeerInit"@
    }

    open spec fn message_of(&self) -> Seq<char> {
        styled("32"@, "Initializing peer"@) + seq![' '] + self.peer@ + seq![' '] + "from"@ + seq![' '] + self.source@
    }

    open spec fn process_of(&self) -> Seq<char> {
        Seq::empty()
    }

    fn id(&self) -> (n: u64) {
        0x0200
    }

    fn name(&self) -> (s: &'static str) {
        "PeerInit"
    }

    fn message(&self) -> (s: String) {
        {
            let a = join_spaced(green("Initializing peer").as_str(), self.peer.as_str());
            let b = join_spaced(a.as_str(), "from");
            let s = join_spaced(b.as_str(), self.source.as_str());
            assert(s@ =~= styled("32"@, "Initializing peer"@) + seq![' '] + self.peer@ + seq![' '] + "from"@ + seq![' '] + self.source@);
            s
        }
    }

    fn process(&self) -> (s: String) {
        String::new()
    }
}

/// The `BuildHttpClient` trace event.
#[derive(Debug, Clone)]
pub struct BuildHttpClient ;

impl TraceId for BuildHttpClient {
    open spec fn id_of(&self) -> u64 {
        0x0200
    }

    open spec fn name_of(&self) -> Seq<char> {
        "BuildHttpClient"@
    }

    open spec fn message_of(&self) -> Seq<char> {
        "Building HTTP client"@
    }

    open spec fn process_of(&self) -> Seq<char> {
        Seq::empty()
    }

    fn id(&self) -> (n: u64) {
        0x0200
    }

    fn name(&self) -> (s: &'static str) {
        "BuildHttpClient"
    }

    fn message(&self) -> (s: String) {
        String::from_str("Building HTTP client")
    }

    fn process(&self) -> (s: String) {
        String::new()
    }
}

/// The `PeerConnect` trace event.
#[derive(Debug, Clone)]
pub struct PeerConnect {
    pub addr: String,
}

impl TraceId for PeerConnect {
    open spec fn id_of(&self) -> u64 {
        0x0201
    }

    open spec fn name_of(&self) -> Seq<char> {
        "PeerConnect"@
    }

    open spec fn message_of(&self) -> Seq<char> {
        styled("32"@, "Connected to peer at"@) + seq![' '] + styled("35"@, self.addr@)
    }

    open spec fn process_of(&self) -> Seq<char> {
        Seq::empty()
    }

    fn id(&self) -> (n: u64) {
        0x0201
    }

    fn name(&self) -> (s: &'static str) {
        "PeerConnect"
    }

    fn message(&self) -> (s: String) {
        join_spaced(green("Connected to peer at").as_str(), magenta(self.addr.as_str()).as_str())
    }

    fn process(&self) -> (s: String) {
        String::new()
    }
}

/// The `PeerAlreadyConnected` trace event.
#[derive(Debug, Clone)]
pub struct PeerAlreadyConnected {
    pub addr: String,
}

impl TraceId for PeerAlreadyConnected {
    open spec fn id_of(&self) -> u64 {
        0x0202
    }

    open spec fn name_of(&self) -> Seq<char> {
        "PeerAlreadyConnected"@
    }

    open spec fn message_of(&self) -> Seq<char> {
        styled("33"@, "Already connected to peer"@) + seq![' '] + self.addr@
    }

    open spec fn process_of(&self) -> Seq<char> {
        Seq::empty()
    }

    fn id(&self) -> (n: u64) {
        0x0202
    }

    fn name(&self) -> (s: &'static str) {
        "PeerAlreadyConnected"
    }

    fn message(&self) -> (s: String) {
        join_spaced(yellow("Already connected to peer").as_str(), self.addr.as_str())
    }

    fn process(&self) -> (s: String) {
        String::new()
    }
}

/// The `PeerAddOwn` trace event.
#[derive(Debug, Clone)]
pub struct PeerAddOwn {
    pub addr: String,
}

impl TraceId for PeerAddOwn {
    open spec fn id_of(&self) -> u64 {
        0x0203
    }

    open spec fn name_of(&self) -> Seq<char> {
        "PeerAddOwn"@
    }

    open spec fn message_of(&self) -> Seq<char> {
        styled("32"@, "Adding own address to peer"@) + seq![' '] + self.addr@
    }

    open spec fn process_of(&self) -> Seq<char> {
        Seq::empty()
    }

    fn id(&self) -> (n: u64) {
        0x0203
    }

    fn name(&self) -> (s: &'static str) {
        "PeerAddOwn"
    }

    fn message(&self) -> (s: String) {
        join_spaced(green("Adding own address to peer").as_str(), self.addr.as_str())
    }

    fn process(&self) -> (s: String) {
        String::new()
    }
}

/// The `PeerAddRequest` trace event.
#[derive(Debug, Clone)]
pub struct PeerAddRequest {
    pub addr: String,
}

impl TraceId for PeerAddRequest {
    open spec fn id_of(&self) -> u64 {
        0x0204
    }

    open spec fn name_of(&self) -> Seq<char> {
        "PeerAddRequest"@
    }

    open spec fn message_of(&self) -> Seq<char> {
        styled("32"@, "Sending add request to peer"@) + seq![' '] + self.addr@
    }

    open spec fn process_of(&self) -> Seq<char> {
        Seq::empty()
    }

    fn id(&self) -> (n: u64) {
        0x0204
    }

    fn name(&self) -> (s: &'static str) {
        "PeerAddRequest"
    }

    fn message(&self) -> (s: String) {
        join_spaced(green("Sending add request to peer").as_str(), self.addr.as_str())
    }

    fn process(&self) -> (s: String) {
        String::new()
    }
}

/// The `PeerConnected` trace event.
#[derive(Debug, Clone)]
pub struct PeerConnected {
    pub addr: String,
}

impl TraceId for PeerConnected {
    open spec fn id_of(&self) -> u64 {
        0x0207
    }

    open spec fn name_of(&self) -> Seq<char> {
        "PeerConnected"@
    }

    open spec fn message_of(&self) -> Seq<char> {
        styled("32"@, "Successfully connected to peer"@) + seq![' '] + self.addr@
    }

    open spec fn process_of(&self) -> Seq<char> {
        Seq::empty()
    }

    fn id(&self) -> (n: u64) {
        0x0207
    }

    fn name(&self) -> (s: &'static str) {
        "PeerConnected"
    }

    fn message(&self) -> (s: String) {
        join_spaced(green("Successfully connected to peer").as_str(), self.addr.as_str())
    }

    fn process(&self) -> (s: String) {
        String::new()
    }
}

/// The `PeerRemoved` trace event.
#[derive(Debug, Clone)]
pub struct PeerRemoved {
    pub addr: String,
}

impl TraceId for PeerRemoved {
    open spec fn id_of(&self) -> u64 {
        0x0209
    }

    open spec fn name_of(&self) -> Seq<char> {
        "PeerRemoved"@
    }

    open spec fn message_of(&self) -> Seq<char> {
        styled("33"@, "Removed peer"@) + seq![' '] + self.addr@
    }

    open spec fn process_of(&self) -> Seq<char> {
        Seq::empty()
    }

    fn id(&self) -> (n: u64) {
        0x0209
    }

    fn name(&self) -> (s: &'static str) {
        "PeerRemoved"
    }

    fn message(&self) -> (s: String) {
        join_spaced(yellow("Removed peer").as_str(), self.addr.as_str())
    }

    fn process(&self) -> (s: String) {
        String::new()
    }
}

/// The `PeerNotFound` trace event.
#[derive(Debug, Clone)]
pub struct PeerNotFound {
    pub addr: String,
}

impl TraceId for PeerNotFound {
    open spec fn id_of(&self) -> u64 {
        0x020A
    }

    open spec fn name_of(&self) -> Seq<char> {
        "PeerNotFound"@
    }

    open spec fn message_of(&self) -> Seq<char> {
        styled("33"@, "Peer not found:"@) + seq![' '] + self.addr@
    }

    open spec fn process_of(&self) -> Seq<char> {
        Seq::empty()
    }

    fn id(&self) -> (n: u64) {
        0x020A
    }

    fn name(&self) -> (s: &'static str) {
        "PeerNotFound"
    }

    fn message(&self) -> (s: String) {
        join_spaced(yellow("Peer not found:").as_str(), self.addr.as_str())
    }

    fn process(&self) -> (s: String) {
        String::new()
    }
}

/// The `PeerLastSeen` trace event.
#[derive(Debug, Clone)]
pub struct PeerLastSeen {
    pub addr: String,
}

impl TraceId for PeerLastSeen {
    open spec fn id_of(&self) -> u64 {
        0x020B
    }

    open spec fn name_of(&self) -> Seq<char> {
        "PeerLastSeen"@
    }

    open spec fn message_of(&self) -> Seq<char> {
        styled("32"@, "Updated last seen for peer"@) + seq![' '] + self.addr@
    }

    open spec fn process_of(&self) -> Seq<char> {
        Seq::empty()
    }

    fn id(&self) -> (n: u64) {
        0x020B
    }

    fn name(&self) -> (s: &'static str) {
        "PeerLastSeen"
    }

    fn message(&self) -> (s: String) {
        join_spaced(green("Updated last seen for peer").as_str(), self.addr.as_str())
    }

    fn process(&self) -> (s: String) {
        String::new()
    }
}

/// The `PeerResponse` trace event.
#[derive(Debug, Clone)]
pub struct PeerResponse {
    pub addr: String,
    pub status: String,
}

impl TraceId for PeerResponse {
    open spec fn id_of(&self) -> u64 {
        0x0205
    }

    open spec fn name_of(&self) -> Seq<char> {
        "PeerResponse"@
    }

    open spec fn message_of(&self) -> Seq<char> {
        styled("33"@, "Peer response from"@) + seq![' '] + self.addr@ + seq![' '] + "-"@ + seq![' '] + self.status@
    }

    open spec fn process_of(&self) -> Seq<char> {
        Seq::empty()
    }

    fn id(&self) -> (n: u64) {
        0x0205
    }

    fn name(&self) -> (s: &'static str) {
        "PeerResponse"
    }

    fn message(&self) -> (s: String) {
        {
            let a = join_spaced(yellow("Peer response from").as_str(), self.addr.as_str());
            let b = join_spaced(a.as_str(), "-");
            let s = join_spaced(b.as_str(), self.status.as_str());
            assert(s@ =~= styled("33"@, "Peer response from"@) + seq![' '] + self.addr@ + seq![' '] + "-"@ + seq![' '] + self.status@);
            s
        }
    }

    fn process(&self) -> (s: String) {
        String::new()
    }
}

/// The `PeerConnectError` trace event.
#[derive(Debug, Clone)]
pub struct PeerConnectError {
    pub addr: String,
    pub error: String,
}

impl TraceId for PeerConnectError {
    open spec fn id_of(&self) -> u64 {
        0x0206
    }

    open spec fn name_of(&self) -> Seq<char> {
        "PeerConnectError"@
    }

    open spec fn message_of(&self) -> Seq<char> {
        styled("31"@, "Peer error from"@) + seq![' '] + self.addr@ + seq![' '] + "-"@ + seq![' '] + self.error@
    }

    open spec fn process_of(&self) -> Seq<char> {
        Seq::empty()
    }

    fn id(&self) -> (n: u64) {
        0x0206
    }

    fn name(&self) -> (s: &'static str) {
        "PeerConnectError"
    }

    fn message(&self) -> (s: String) {
        {
            let a = join_spaced(red("Peer error from").as_str(), self.addr.as_str());
            let b = join_spaced(a.as_str(), "-");
            let s = join_spaced(b.as_str(), self.error.as_str());
            assert(s@ =~= styled("31"@, "Peer error from"@) + seq![' '] + self.addr@ + seq![' '] + "-"@ + seq![' '] + self.error@);
            s
        }
    }

    fn process(&self) -> (s: String) {
        String::new()
    }
}

/// The `PeerKnownCount` trace event.
#[derive(Debug, Clone)]
pub struct PeerKnownCount {
    pub addr: String,
    pub count: usize,
}

impl TraceId for PeerKnownCount {
    open spec fn id_of(&self) -> u64 {
        0x0208
    }

    open spec fn name_of(&self) -> Seq<char> {
        "PeerKnownCount"@
    }

    open spec fn message_of(&self) -> Seq<char> {
        styled("32"@, "Peer"@) + seq![' '] + self.addr@ + seq![' '] + "has"@ + seq![' '] + dec_nat(self.count as nat) + seq![' '] + "known peers"@
    }

    open spec fn process_of(&self) -> Seq<char> {
        Seq::empty()
    }

    fn id(&self) -> (n: u64) {
        0x0208
    }

    fn name(&self) -> (s: &'static str) {
        "PeerKnownCount"
    }

    fn message(&self) -> (s: String) {
        {
            let c = u64_to_decimal(self.count as u64);
            let a = join_spaced(green("Peer").as_str(), self.addr.as_str());
            let b = join_spaced(a.as_str(), "has");
            let d = join_spaced(b.as_str(), c.as_str());
            let s = join_spaced(d.as_str(), "known peers");
            assert(s@ =~= styled("32"@, "Peer"@) + seq![' '] + self.addr@ + seq![' '] + "has"@ + seq![' '] + dec_nat(self.count as nat) + seq![' '] + "known peers"@);
            s
        }
    }

    fn process(&self) -> (s: String) {
        String::new()
    }
}

} // verus!
