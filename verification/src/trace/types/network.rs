//! Trace events of the network layer.
use vstd::prelude::*;
use crate::text::{concat, dec_nat, join_spaced, u64_to_decimal};
use crate::trace::event::TraceId;
use crate::tui::color::{green, magenta, red, styled, yellow};

verus! {

/// The `NetworkConnect` trace event.
#[derive(Debug, Clone)]
pub struct NetworkConnect {
    pub process: String,
    pub addr: String,
}

impl TraceId for NetworkConnect {
    open spec fn id_of(&self) -> u64 {
        0x0101
    }

    open spec fn name_of(&self) -> Seq<char> {
        "NetworkConnect"@
    }

    open spec fn message_of(&self) -> Seq<char> {
        styled("32"@, "Connected to network at"@) + seq![' '] + self.addr@
    }

    open spec fn process_of(&self) -> Seq<char> {
        self.process@
    }

    fn id(&self) -> (n: u64) {
        0x0101
    }

    fn name(&self) -> (s: &'static str) {
        "NetworkConnect"
    }

    fn message(&self) -> (s: String) {
        join_spaced(green("Connected to network at").as_str(), self.addr.as_str())
    }

    fn process(&self) -> (s: String) {
        self.process.clone()
    }
}

/// The `NetworkScan` trace event.
#[derive(Debug, Clone)]
pub struct NetworkScan {
    pub process: String,
    pub addr: String,
}

impl TraceId for NetworkScan {
    open spec fn id_of(&self) -> u64 {
        0x0102
    }

    open spec fn name_of(&self) -> Seq<char> {
        "NetworkScan"@
    }

    open spec fn message_of(&self) -> Seq<char> {
        styled("32"@, "Scanning network at"@) + seq![' '] + self.addr@
    }

    open spec fn process_of(&self) -> Seq<char> {
        self.process@
    }

    fn id(&self) -> (n: u64) {
        0x0102
    }

    fn name(&self) -> (s: &'static str) {
        "NetworkScan"
    }

    fn message(&self) -> (s: String) {
        join_spaced(green("Scanning network at").as_str(), self.addr.as_str())
    }

    fn process(&self) -> (s: String) {
        self.process.clone()
    }
}

/// The `NetworkError` trace event.
#[derive(Debug, Clone)]
pub struct NetworkError {
    pub process: String,
    pub error: String,
}

impl TraceId for NetworkError {
    open spec fn id_of(&self) -> u64 {
        0x0102
    }

    open spec fn name_of(&self) -> Seq<char> {
        "NetworkError"@
    }

    open spec fn message_of(&self) -> Seq<char> {
        styled("31"@, "Network error:"@) + seq![' '] + self.error@
    }

    open spec fn process_of(&self) -> Seq<char> {
        self.process@
    }

    fn id(&self) -> (n: u64) {
        0x0102
    }

    fn name(&self) -> (s: &'static str) {
        "NetworkError"
    }

    fn message(&self) -> (s: String) {
        join_spaced(red("Network error:").as_str(), self.error.as_str())
    }

    fn process(&self) -> (s: String) {
        self.process.clone()
    }
}

} // verus!
