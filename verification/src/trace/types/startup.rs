//! Trace events of start-up.
use vstd::prelude::*;
use crate::text::{concat, dec_nat, join_spaced, u64_to_decimal};
use crate::trace::event::TraceId;
use crate::tui::color::{green, magenta, red, styled, yellow};

verus! {

/// The `StartupInit` trace event.
#[derive(Debug, Clone)]
pub struct StartupInit {
    pub port: u16,
}

impl TraceId for StartupInit {
    open spec fn id_of(&self) -> u64 {
        0x0001
    }

    open spec fn name_of(&self) -> Seq<char> {
        "StartupInit"@
    }

    open spec fn message_of(&self) -> Seq<char> {
        styled("35"@, "Starting subversive on port"@) + seq![' '] + styled("32"@, dec_nat(self.port as nat))
    }

    open spec fn process_of(&self) -> Seq<char> {
        Seq::empty()
    }

    fn id(&self) -> (n: u64) {
        0x0001
    }

    fn name(&self) -> (s: &'static str) {
        "StartupInit"
    }

    fn message(&self) -> (s: String) {
        {
            let p = u64_to_decimal(self.port as u64);
            join_spaced(magenta("Starting subversive on port").as_str(), green(p.as_str()).as_str())
        }
    }

    fn process(&self) -> (s: String) {
        String::new()
    }
}

/// The `StartupPoc` trace event.
#[derive(Debug, Clone)]
pub struct StartupPoc ;

impl TraceId for StartupPoc {
    open spec fn id_of(&self) -> u64 {
        0x0002
    }

    open spec fn name_of(&self) -> Seq<char> {
        "StartupPoc"@
    }

    open spec fn message_of(&self) -> Seq<char> {
        styled("32"@, "Starting subversive poc going to run multiple peers at once to test the network"@)
    }

    open spec fn process_of(&self) -> Seq<char> {
        Seq::empty()
    }

    fn id(&self) -> (n: u64) {
        0x0002
    }

    fn name(&self) -> (s: &'static str) {
        "StartupPoc"
    }

    fn message(&self) -> (s: String) {
        green("Starting subversive poc going to run multiple peers at once to test the network")
    }

    fn process(&self) -> (s: String) {
        String::new()
    }
}

/// The `UserPrompt` trace event.
#[derive(Debug, Clone)]
pub struct UserPrompt ;

impl TraceId for UserPrompt {
    open spec fn id_of(&self) -> u64 {
        0x0003
    }

    open spec fn name_of(&self) -> Seq<char> {
        "UserPrompt"@
    }

    open spec fn message_of(&self) -> Seq<char> {
        styled("32"@, "Press any key to exit"@)
    }

    open spec fn process_of(&self) -> Seq<char> {
        Seq::empty()
    }

    fn id(&self) -> (n: u64) {
        0x0003
    }

    fn name(&self) -> (s: &'static str) {
        "UserPrompt"
    }

    fn message(&self) -> (s: String) {
        green("Press any key to exit")
    }

    fn process(&self) -> (s: String) {
        String::new()
    }
}

} // verus!
