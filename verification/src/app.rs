//! The application state both backends drive: the drawable surface's
//! reported dimensions and the current frame's event batch, together with
//! the native loop driver's per-iteration event processing.

use vstd::prelude::*;

use crate::AppConfig;
use crate::events::Event;
use crate::sink::EventSink;

verus! {

/// The drawable surface a frame is rendered into, as the application sees
/// it: its reported dimensions in pixels. The host object behind it (a
/// window and context, or a canvas) lives with the host plumbing.
#[derive(Clone, Copy, PartialEq, Eq, Structural, Debug)]
pub struct Surface {
    pub width: u32,
    pub height: u32,
}

/// What one window-level event does to the surface: a resize sets the
/// reported dimensions, every other event leaves them alone.
pub open spec fn apply_event(surface: Surface, event: Event) -> Surface {
    match event {
        Event::Resized(w, h) => Surface { width: w, height: h },
        _ => surface,
    }
}

/// The surface dimensions after a batch of events, applied in order: the
/// last resize in the batch wins, and a batch without a resize changes
/// nothing.
pub open spec fn surface_after(surface: Surface, events: Seq<Event>) -> Surface
    decreases events.len(),
{
    if events.len() == 0 {
        surface
    } else {
        apply_event(surface_after(surface, events.drop_last()), events.last())
    }
}

/// Whether a batch carries a close request.
pub open spec fn contains_close(events: Seq<Event>) -> bool {
    exists|i: int| 0 <= i < events.len() && events[i] is Closed
}

/// Law: a `Resized(w, h)` event with no later resize in the batch leaves
/// the surface's reported dimensions at exactly `(w, h)` once the batch is
/// processed — which the native driver does before the frame's callback
/// runs.
pub proof fn lemma_resize_applied(surface: Surface, events: Seq<Event>, i: int, w: u32, h: u32)
    requires
        0 <= i < events.len(),
        events[i] == Event::Resized(w, h),
        forall|j: int| i < j < events.len() ==> !(events[j] is Resized),
    ensures
        surface_after(surface, events) == (Surface { width: w, height: h }),
    decreases events.len(),
{
    if i == events.len() - 1 {
        assert(events.last() == Event::Resized(w, h));
    } else {
        assert(events.drop_last()[i] == events[i]);
        lemma_resize_applied(surface, events.drop_last(), i, w, h);
        assert(!(events.last() is Resized));
    }
}

/// The application: owns the surface dimensions and the current frame's
/// event batch. The batch is valid only during the frame's callback; it is
/// rebuilt at every frame boundary and never read across frames.
pub struct App {
    pub surface: Surface,
    pub events: Vec<Event>,
}

impl App {
    /// A fresh application: the surface reports the configured size and no
    /// events have been seen. The host opens the actual window or canvas at
    /// the same size before the loop starts.
    pub fn new(config: AppConfig) -> (app: App)
        ensures
            app.surface == (Surface { width: config.size.0, height: config.size.1 }),
            app.events@ == Seq::<Event>::empty(),
    {
        App {
            surface: Surface { width: config.size.0, height: config.size.1 },
            events: Vec::new(),
        }
    }

    /// Read access to the drawable surface the application renders into.
    pub fn canvas(&self) -> (surface: &Surface)
        ensures
            *surface == self.surface,
    {
        &self.surface
    }

    /// One frame boundary on the browser backend: everything the sink
    /// accumulated since the previous frame becomes the current batch, in
    /// arrival order, and the sink is emptied in the same step. An event
    /// pushed after this moment lands in the emptied sink and so reaches
    /// only the following frame's batch.
    pub fn main_loop(&mut self, sink: &mut EventSink)
        ensures
            final(self).events@ == old(sink)@,
            final(self).surface == old(self).surface,
            final(sink)@ == Seq::<Event>::empty(),
    {
        self.events = sink.drain_and_clear();
    }

    /// One iteration of the native loop driver over the platform events
    /// polled this frame: the old batch is discarded, every polled event is
    /// forwarded into the new batch in poll order (a close request
    /// included, so the callback can react to it on its final frame), and
    /// each resize updates the surface's reported dimensions before the
    /// callback runs. Returns whether the loop keeps running: false exactly
    /// when a close request was polled.
    pub fn process_events(&mut self, polled: Vec<Event>) -> (running: bool)
        ensures
            final(self).events@ == polled@,
            final(self).surface == surface_after(old(self).surface, polled@),
            running == !contains_close(polled@),
    {
        let ghost surface0 = self.surface;
        let mut running = true;
        let mut i: usize = 0;
        while i < polled.len()
            invariant
                0 <= i <= polled@.len(),
                self.surface == surface_after(surface0, polled@.take(i as int)),
                running == !contains_close(polled@.take(i as int)),
            decreases polled@.len() - i,
        {
            let ghost prefix = polled@.take(i as int);
            let ghost next_prefix = polled@.take(i as int + 1);
            let event = polled[i];
            match event {
                Event::Closed => {
                    running = false;
                }
                Event::Resized(w, h) => {
                    self.surface = Surface { width: w, height: h };
                }
                _ => {}
            }
            proof {
                assert(next_prefix.drop_last() =~= prefix);
                assert(next_prefix.last() == polled@[i as int]);
                if event is Closed {
                    assert(contains_close(next_prefix));
                } else {
                    assert(contains_close(next_prefix) == contains_close(prefix)) by {
                        if contains_close(prefix) {
                            let k = choose|k: int| 0 <= k < prefix.len() && prefix[k] is Closed;
                            assert(next_prefix[k] is Closed);
                        }
                        if contains_close(next_prefix) {
                            let k = choose|k: int|
                                0 <= k < next_prefix.len() && next_prefix[k] is Closed;
                            assert(k < prefix.len());
                            assert(prefix[k] is Closed);
                        }
                    }
                }
            }
            i += 1;
        }
        proof {
            assert(polled@.take(polled@.len() as int) =~= polled@);
        }
        self.events = polled;
        running
    }
}

} // verus!
