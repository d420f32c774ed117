//! Formatting shared by the event categories.
use vstd::prelude::*;
use crate::text::{concat, push_str};
use crate::trace::event::TraceId;
use crate::tui::color::{blue, styled, yellow};

verus! {

/// A status, ": ", and the peer.
pub fn format_peer_status_message(status: &str, peer: &str) -> (s: String)
    ensures
        s@ == status@ + ": "@ + peer@,
{
    let a = concat(status, ": ");
    concat(a.as_str(), peer)
}

/// The event's name in yellow, in brackets.
pub fn format_msg_id<T: TraceId>(trace_id: &T) -> (s: String)
    ensures
        s@ == seq!['['] + styled("33"@, trace_id.name_of()) + seq![']'],
{
    let name = yellow(trace_id.name());
    let mut s = String::new();
    s.push('[');
    push_str(&mut s, name.as_str());
    s.push(']');
    assert(s@ =~= seq!['['] + styled("33"@, trace_id.name_of()) + seq![']']);
    s
}

/// The reporting process in blue, in brackets.
pub fn format_process_id<T: TraceId>(trace_id: &T) -> (s: String)
    ensures
        s@ == seq!['['] + styled("34"@, trace_id.process_of()) + seq![']'],
{
    let process = trace_id.process();
    let colored = blue(process.as_str());
    let mut s = String::new();
    s.push('[');
    push_str(&mut s, colored.as_str());
    s.push(']');
    assert(s@ =~= seq!['['] + styled("34"@, trace_id.process_of()) + seq![']']);
    s
}

} // verus!
