//! Messages of start-up events.
use vstd::prelude::*;
use crate::text::{concat, dec_nat, join_spaced, opt_view, u64_to_decimal};
use crate::trace::types::TraceId;
use crate::tui::color::{green, magenta, styled};

verus! {

/// The message of a start-up event; other events are not of this category.
pub open spec fn startup_category(t: TraceId) -> Option<Seq<char>> {
    match t {
        TraceId::StartupInit { port } => Some(styled("35"@, "Starting subversive on port"@) + seq![' '] + styled("32"@, dec_nat(port as nat))),
        TraceId::StartupPoc => Some(styled("32"@, "Starting subversive poc going to run multiple peers at once to test the network"@)),
        TraceId::BuildHttpClient => Some(styled("32"@, "Building HTTP client for peer connection"@)),
        TraceId::UserPrompt => Some(styled("32"@, "Press Ctrl+C to exit"@)),
        _ => None,
    }
}

/// The message of a start-up event, if `trace_id` is one.
pub fn format_startup_category(trace_id: &TraceId) -> (r: Option<String>)
    ensures
        opt_view(r) == startup_category(*trace_id),
{
    match trace_id {
        TraceId::StartupInit { port } => Some(format_startup_message(port)),
        TraceId::StartupPoc => Some(format_startup_message_simple()),
        TraceId::BuildHttpClient => Some(green("Building HTTP client for peer connection")),
        TraceId::UserPrompt => Some(green("Press Ctrl+C to exit")),
        _ => None,
    }
}

/// "Starting subversive on port" in magenta and the port in green.
pub fn format_startup_message(port: &u16) -> (s: String)
    ensures
        s@ == styled("35"@, "Starting subversive on port"@) + seq![' '] + styled("32"@, dec_nat(*port as nat)),
{
    let p = u64_to_decimal(*port as u64);
    join_spaced(magenta("Starting subversive on port").as_str(), green(p.as_str()).as_str())
}

/// The start-up message of a multi-peer test run.
pub fn format_startup_message_simple() -> (s: String)
    ensures
        s@ == styled("32"@, "Starting subversive poc going to run multiple peers at once to test the network"@),
{
    green("Starting subversive poc going to run multiple peers at once to test the network")
}

} // verus!
