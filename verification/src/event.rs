use vstd::prelude::*;
use crate::window::WindowId;

verus! {

/// The document events the windowing layer subscribes to. Each kind names
/// one DOM event type; the match in [`EventKind::dom_name`] is exhaustive.
#[derive(Clone, Copy, Debug, PartialEq, Eq, Hash, Structural)]
pub enum EventKind {
    Resize,
    PointerDown,
    PointerUp,
    PointerMove,
    KeyDown,
    KeyUp,
    Focus,
    Blur,
}

/// The DOM event-type name for an event kind, as a sequence of characters.
pub open spec fn event_dom_name(kind: EventKind) -> Seq<char> {
    match kind {
        EventKind::Resize => "resize"@,
        EventKind::PointerDown => "pointerdown"@,
        EventKind::PointerUp => "pointerup"@,
        EventKind::PointerMove => "pointermove"@,
        EventKind::KeyDown => "keydown"@,
        EventKind::KeyUp => "keyup"@,
        EventKind::Focus => "focus"@,
        EventKind::Blur => "blur"@,
    }
}

impl EventKind {
    /// The DOM event-type name this kind registers under.
    pub fn dom_name(&self) -> (r: &'static str)
        ensures
            r@ == event_dom_name(*self),
    {
        match self {
            EventKind::Resize => "resize",
            EventKind::PointerDown => "pointerdown",
            EventKind::PointerUp => "pointerup",
            EventKind::PointerMove => "pointermove",
            EventKind::KeyDown => "keydown",
            EventKind::KeyUp => "keyup",
            EventKind::Focus => "focus",
            EventKind::Blur => "blur",
        }
    }
}

/// An event as the runner dispatches it to application code: either a
/// scheduled redraw for a window, or a host callback translated into the
/// library's own representation.
#[derive(Clone, Copy, Debug, PartialEq, Eq, Structural)]
pub enum RunnerEvent {
    /// The host's next paint opportunity arrived for a window that asked
    /// for a redraw.
    RedrawRequested(WindowId),
    /// A registered listener fired on an event source.
    Listener { target: usize, kind: EventKind },
}

} // verus!
