use vstd::prelude::*;
use crate::event::RunnerEvent;

verus! {

/// The event loop's side of a window: the dispatch table that routes host
/// events back to their surface, and the runner's queue of events waiting
/// to be handed to application code. Everything runs on the host's single
/// cooperative loop, so plain state suffices.
pub struct EventLoopTarget {
    /// Drawable elements registered for event routing.
    pub dispatch: Vec<usize>,
    /// Events the runner has accepted and not yet dispatched, in order.
    pub events: Vec<RunnerEvent>,
}

impl EventLoopTarget {
    /// A fresh target with nothing registered and nothing queued.
    pub fn new() -> (r: EventLoopTarget)
        ensures
            r.dispatch@ == Seq::<usize>::empty(),
            r.events@ == Seq::<RunnerEvent>::empty(),
    {
        EventLoopTarget { dispatch: Vec::new(), events: Vec::new() }
    }

    /// Record that host events on `canvas` route back to its surface.
    pub fn register(&mut self, canvas: usize)
        ensures
            final(self).dispatch@ == old(self).dispatch@.push(canvas),
            final(self).events@ == old(self).events@,
    {
        self.dispatch.push(canvas);
    }

    /// Accept an event for a later turn of the loop; the runner dispatches
    /// queued events in the order they were sent.
    pub fn send_event(&mut self, event: RunnerEvent)
        ensures
            final(self).events@ == old(self).events@.push(event),
            final(self).dispatch@ == old(self).dispatch@,
    {
        self.events.push(event);
    }
}

} // verus!
