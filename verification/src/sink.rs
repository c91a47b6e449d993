//! The event sink: the buffer that decouples asynchronous input producers
//! from the single per-frame consumer on the browser backend. Producers
//! append between frames; the loop driver drains the whole accumulation
//! exactly once per frame.

use vstd::prelude::*;

use crate::events::Event;

verus! {

/// A shared buffer with exclusive-access mutation. Between two drains it
/// strictly accumulates: every push appends to the tail, and a drain
/// returns the accumulation in arrival order while emptying the buffer.
pub struct EventSink {
    events: Vec<Event>,
}

impl View for EventSink {
    type V = Seq<Event>;

    /// A sink is its accumulated events, oldest first.
    closed spec fn view(&self) -> Seq<Event> {
        self.events@
    }
}

impl EventSink {
    /// An empty sink, as it stands right after a drain.
    pub fn new() -> (sink: EventSink)
        ensures
            sink@ == Seq::<Event>::empty(),
    {
        EventSink { events: Vec::new() }
    }

    /// Appends one event to the tail. Always succeeds: arrival order across
    /// producers is whatever order the host fired them in.
    pub fn push(&mut self, event: Event)
        ensures
            final(self)@ == old(self)@.push(event),
    {
        self.events.push(event);
    }

    /// How many events have accumulated since the previous drain.
    pub fn len(&self) -> (n: usize)
        ensures
            n == self@.len(),
    {
        self.events.len()
    }

    /// Returns everything accumulated since the previous drain, in arrival
    /// order, and empties the sink in the same step. Safe on an empty sink:
    /// the result is then the empty sequence, not an error.
    pub fn drain_and_clear(&mut self) -> (drained: Vec<Event>)
        ensures
            drained@ == old(self)@,
            final(self)@ == Seq::<Event>::empty(),
    {
        let mut drained: Vec<Event> = Vec::new();
        core::mem::swap(&mut drained, &mut self.events);
        drained
    }
}

/// The sink contents after a run of pushes lands on contents `sink`, in
/// arrival order: each push appends to the tail.
pub open spec fn sink_after_pushes(sink: Seq<Event>, pushes: Seq<Event>) -> Seq<Event>
    decreases pushes.len(),
{
    if pushes.len() == 0 {
        sink
    } else {
        sink_after_pushes(sink, pushes.drop_last()).push(pushes.last())
    }
}

/// A run of pushes appends exactly itself, in order, to what the sink
/// already held.
pub proof fn lemma_sink_accumulates(sink: Seq<Event>, pushes: Seq<Event>)
    ensures
        sink_after_pushes(sink, pushes) == sink + pushes,
    decreases pushes.len(),
{
    if pushes.len() == 0 {
        assert(sink_after_pushes(sink, pushes) =~= sink + pushes);
    } else {
        lemma_sink_accumulates(sink, pushes.drop_last());
        assert((sink + pushes.drop_last()).push(pushes.last()) =~= sink + pushes);
    }
}

/// Law: for every run of pushes between two drains, the drain returns
/// exactly that run in arrival order — the sink right after a drain is
/// empty, so the accumulation is the pushes themselves — and a drain with
/// no intervening pushes returns the empty sequence.
pub proof fn lemma_drain_returns_pushes(pushes: Seq<Event>)
    ensures
        sink_after_pushes(Seq::<Event>::empty(), pushes) == pushes,
        sink_after_pushes(Seq::<Event>::empty(), Seq::<Event>::empty()) == Seq::<Event>::empty(),
{
    lemma_sink_accumulates(Seq::<Event>::empty(), pushes);
    assert(Seq::<Event>::empty() + pushes =~= pushes);
    lemma_sink_accumulates(Seq::<Event>::empty(), Seq::<Event>::empty());
    assert(Seq::<Event>::empty() + Seq::<Event>::empty() =~= Seq::<Event>::empty());
}

} // verus!
