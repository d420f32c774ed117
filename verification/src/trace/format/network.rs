//! Messages of network events.
use vstd::prelude::*;
use crate::text::{concat, dec_nat, join_spaced, opt_view, u64_to_decimal};
use crate::trace::types::TraceId;
use crate::tui::color::{green, magenta, styled};

verus! {

/// The message of a network event; other events are not of this category.
pub open spec fn network_scan_category(t: TraceId) -> Option<Seq<char>> {
    match t {
        TraceId::NetworkScan => Some(styled("32"@, "Starting network scan"@)),
        _ => None,
    }
}

/// The message of a network event, if `trace_id` is one.
pub fn format_network_scan_category(trace_id: &TraceId) -> (r: Option<String>)
    ensures
        opt_view(r) == network_scan_category(*trace_id),
{
    match trace_id {
        TraceId::NetworkScan => Some(green("Starting network scan")),
        _ => None,
    }
}

} // verus!
