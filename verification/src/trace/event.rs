//! Trace events as types of their own, each with an id, a name, a message and a process.
use vstd::prelude::*;

verus! {

/// A kind of trace event.
pub trait TraceId {
    /// The event's numeric id.
    spec fn id_of(&self) -> u64;

    /// The event's name.
    spec fn name_of(&self) -> Seq<char>;

    /// The event's message.
    spec fn message_of(&self) -> Seq<char>;

    /// The process that reported the event.
    spec fn process_of(&self) -> Seq<char>;

    /// The event's numeric id.
    fn id(&self) -> (n: u64)
        ensures
            n == self.id_of();

    /// The event's name.
    fn name(&self) -> (s: &'static str)
        ensures
            s@ == self.name_of();

    /// The event's message.
    fn message(&self) -> (s: String)
        ensures
            s@ == self.message_of();

    /// The process that reported the event.
    fn process(&self) -> (s: String)
        ensures
            s@ == self.process_of();
}

} // verus!
