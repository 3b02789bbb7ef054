use vstd::prelude::*;
use crate::event::{EventKind, RunnerEvent};
use crate::event_loop::EventLoopTarget;
use crate::window::WindowId;

verus! {

/// The host refused an operation (it could not create an element, the
/// document has no attach point, or a registration was already gone).
#[derive(Clone, Copy, Debug, PartialEq, Eq, Structural)]
pub struct HostError;

/// Registration options for a listener, mirroring the host's capture and
/// passive flags.
#[derive(Clone, Copy, Debug, PartialEq, Eq, Structural)]
pub struct ListenerOptions {
    pub capture: bool,
    pub passive: bool,
}

impl Default for ListenerOptions {
    fn default() -> (r: Self)
        ensures
            !r.capture,
            !r.passive,
    {
        ListenerOptions { capture: false, passive: false }
    }
}

/// One drawable element of the document: whether it currently hangs in the
/// tree, its content box, the attributes the windowing layer writes, and
/// the origin the host's layout gave it.
pub struct Element {
    /// Whether the element is attached to the document tree.
    pub attached: bool,
    pub width: u32,
    pub height: u32,
    /// The `cursor` attribute, if it was ever written.
    pub cursor: Option<String>,
    /// The positioning attributes: `position: fixed` plus `left` and `top`.
    pub position_fixed: bool,
    pub left: i64,
    pub top: i64,
    /// The layout origin the host reports for the element's bounding box.
    pub rect_x: i64,
    pub rect_y: i64,
}

/// One callback registration the host knows about. The index of a record
/// in [`HostDocument::listeners`] is the identity of the registered
/// callback; a record is never removed, only deactivated, so identities
/// stay stable for the document's lifetime.
#[derive(Clone, Copy, Debug, PartialEq, Eq, Structural)]
pub struct ListenerRecord {
    pub target: usize,
    pub kind: EventKind,
    pub capture: bool,
    pub passive: bool,
    /// Whether the host may still invoke the callback.
    pub active: bool,
}

/// The host document: the single cooperative loop's view of the element
/// tree, the listener registry and the frame scheduler. All windowing
/// operations of this crate are transitions on this state; an adapter
/// replays each transition against the real document.
pub struct HostDocument {
    /// Whether the host can create new elements.
    pub can_create: bool,
    /// Whether the document has a body to attach elements to.
    pub has_body: bool,
    /// The document title.
    pub title: String,
    /// Every element ever created; an element's id is its index here.
    pub elements: Vec<Element>,
    /// Every registration ever made; a callback's identity is its index.
    pub listeners: Vec<ListenerRecord>,
    /// Windows waiting for the next paint opportunity, in request order.
    pub frame_queue: Vec<WindowId>,
}

/// A newly created element: detached, zero-sized, with no attributes
/// written and a zero layout origin.
pub open spec fn fresh_element() -> Element {
    Element {
        attached: false,
        width: 0,
        height: 0,
        cursor: None,
        position_fixed: false,
        left: 0,
        top: 0,
        rect_x: 0,
        rect_y: 0,
    }
}

/// `e` with its attachment flag replaced and every other part kept.
pub open spec fn with_attached(e: Element, attached: bool) -> Element {
    Element {
        attached,
        width: e.width,
        height: e.height,
        cursor: e.cursor,
        position_fixed: e.position_fixed,
        left: e.left,
        top: e.top,
        rect_x: e.rect_x,
        rect_y: e.rect_y,
    }
}

/// `e` with its content box replaced and every other part kept.
pub open spec fn with_size(e: Element, width: u32, height: u32) -> Element {
    Element {
        attached: e.attached,
        width,
        height,
        cursor: e.cursor,
        position_fixed: e.position_fixed,
        left: e.left,
        top: e.top,
        rect_x: e.rect_x,
        rect_y: e.rect_y,
    }
}

/// `e` with its `cursor` attribute replaced and every other part kept.
pub open spec fn with_cursor(e: Element, cursor: Option<String>) -> Element {
    Element {
        attached: e.attached,
        width: e.width,
        height: e.height,
        cursor,
        position_fixed: e.position_fixed,
        left: e.left,
        top: e.top,
        rect_x: e.rect_x,
        rect_y: e.rect_y,
    }
}

/// `e` with its positioning attributes written and every other part kept.
pub open spec fn with_position_attributes(e: Element, left: i64, top: i64) -> Element {
    Element {
        attached: e.attached,
        width: e.width,
        height: e.height,
        cursor: e.cursor,
        position_fixed: true,
        left,
        top,
        rect_x: e.rect_x,
        rect_y: e.rect_y,
    }
}

/// `e` with its layout origin replaced and every other part kept.
pub open spec fn with_rect(e: Element, rect_x: i64, rect_y: i64) -> Element {
    Element {
        attached: e.attached,
        width: e.width,
        height: e.height,
        cursor: e.cursor,
        position_fixed: e.position_fixed,
        left: e.left,
        top: e.top,
        rect_x,
        rect_y,
    }
}

/// The two elements agree on everything but their `cursor` attribute.
pub open spec fn same_element_but_cursor(e0: Element, e1: Element) -> bool {
    e1.attached == e0.attached && e1.width == e0.width && e1.height == e0.height
        && e1.position_fixed == e0.position_fixed && e1.left == e0.left && e1.top == e0.top
        && e1.rect_x == e0.rect_x && e1.rect_y == e0.rect_y
}

/// `r` with its callback retired and every other part kept.
pub open spec fn deactivated(r: ListenerRecord) -> ListenerRecord {
    ListenerRecord {
        target: r.target,
        kind: r.kind,
        capture: r.capture,
        passive: r.passive,
        active: false,
    }
}

/// Whether `r` is a live registration for the pair (`target`, `kind`).
pub open spec fn is_active_for(r: ListenerRecord, target: usize, kind: EventKind) -> bool {
    r.active && r.target == target && r.kind == kind
}

/// How many live registrations for (`target`, `kind`) a registry holds.
pub open spec fn count_active(s: Seq<ListenerRecord>, target: usize, kind: EventKind) -> nat
    decreases s.len(),
{
    if s.len() == 0 {
        0
    } else {
        count_active(s.drop_last(), target, kind) + if is_active_for(
            s.last(),
            target,
            kind,
        ) {
            1nat
        } else {
            0nat
        }
    }
}

/// Appending one record raises the live count for exactly its pair, by one
/// when the record is live.
pub proof fn lemma_count_active_push(
    s: Seq<ListenerRecord>,
    r: ListenerRecord,
    target: usize,
    kind: EventKind,
)
    ensures
        count_active(s.push(r), target, kind) == count_active(s, target, kind) + if is_active_for(
            r,
            target,
            kind,
        ) {
            1nat
        } else {
            0nat
        },
{
    assert(s.push(r).drop_last() =~= s);
    assert(s.push(r).last() == r);
}

/// Replacing the record at one index exchanges its contribution to the
/// live count for the new record's contribution.
pub proof fn lemma_count_active_update(
    s: Seq<ListenerRecord>,
    i: int,
    r: ListenerRecord,
    target: usize,
    kind: EventKind,
)
    requires
        0 <= i < s.len(),
    ensures
        count_active(s.update(i, r), target, kind) + (if is_active_for(s[i], target, kind) {
            1nat
        } else {
            0nat
        }) == count_active(s, target, kind) + (if is_active_for(r, target, kind) {
            1nat
        } else {
            0nat
        }),
    decreases s.len(),
{
    let s2 = s.update(i, r);
    if i == s.len() - 1 {
        assert(s2.drop_last() =~= s.drop_last());
        assert(s2.last() == r);
        assert(s.last() == s[i]);
    } else {
        assert(s2.drop_last() =~= s.drop_last().update(i, r));
        lemma_count_active_update(s.drop_last(), i, r, target, kind);
        assert(s2.last() == s.last());
    }
}

/// The parts of the document no element operation touches.
pub open spec fn same_flags(d0: HostDocument, d1: HostDocument) -> bool {
    d1.can_create == d0.can_create && d1.has_body == d0.has_body
}

pub open spec fn same_title(d0: HostDocument, d1: HostDocument) -> bool {
    d1.title@ == d0.title@
}

pub open spec fn same_elements(d0: HostDocument, d1: HostDocument) -> bool {
    d1.elements@ == d0.elements@
}

pub open spec fn same_listeners(d0: HostDocument, d1: HostDocument) -> bool {
    d1.listeners@ == d0.listeners@
}

pub open spec fn same_frames(d0: HostDocument, d1: HostDocument) -> bool {
    d1.frame_queue@ == d0.frame_queue@
}

/// The whole document is as it was.
pub open spec fn doc_unchanged(d0: HostDocument, d1: HostDocument) -> bool {
    same_flags(d0, d1) && same_title(d0, d1) && same_elements(d0, d1) && same_listeners(d0, d1)
        && same_frames(d0, d1)
}

/// An owned copy of an optional attribute value.
fn clone_attribute(c: &Option<String>) -> (r: Option<String>)
    ensures
        r == *c,
{
    match c {
        Some(s) => Some(s.clone()),
        None => None,
    }
}

impl HostDocument {
    /// A document with no elements, no registrations and nothing scheduled.
    /// The two flags fix which host failures this document exhibits.
    pub fn new(can_create: bool, has_body: bool) -> (d: HostDocument)
        ensures
            d.can_create == can_create,
            d.has_body == has_body,
            d.title@ == Seq::<char>::empty(),
            d.elements@ == Seq::<Element>::empty(),
            d.listeners@ == Seq::<ListenerRecord>::empty(),
            d.frame_queue@ == Seq::<WindowId>::empty(),
    {
        HostDocument {
            can_create,
            has_body,
            title: String::new(),
            elements: Vec::new(),
            listeners: Vec::new(),
            frame_queue: Vec::new(),
        }
    }

    /// Replace the element at `id`, leaving the rest of the document alone.
    fn put_element(&mut self, id: usize, element: Element)
        requires
            id < old(self).elements@.len(),
        ensures
            final(self).elements@ == old(self).elements@.update(id as int, element),
            same_flags(*old(self), *final(self)),
            same_title(*old(self), *final(self)),
            same_listeners(*old(self), *final(self)),
            same_frames(*old(self), *final(self)),
    {
        let _removed = self.elements.remove(id);
        self.elements.insert(id, element);
        proof {
            assert(self.elements@ =~= old(self).elements@.update(id as int, element));
        }
    }

    /// Replace the registration record at `callback`.
    fn put_listener(&mut self, callback: usize, record: ListenerRecord)
        requires
            callback < old(self).listeners@.len(),
        ensures
            final(self).listeners@ == old(self).listeners@.update(callback as int, record),
            same_flags(*old(self), *final(self)),
            same_title(*old(self), *final(self)),
            same_elements(*old(self), *final(self)),
            same_frames(*old(self), *final(self)),
    {
        let _removed = self.listeners.remove(callback);
        self.listeners.insert(callback, record);
        proof {
            assert(self.listeners@ =~= old(self).listeners@.update(callback as int, record));
        }
    }

    /// Ask the host for a new element. Succeeds exactly when the host can
    /// create elements; the new element starts detached.
    pub fn create_element(&mut self) -> (r: Result<usize, HostError>)
        ensures
            r is Ok <==> old(self).can_create,
            r matches Ok(id) ==> id == old(self).elements@.len() && final(self).elements@ == old(self).elements@.push(fresh_element()),
            !old(self).can_create ==> same_elements(*old(self), *final(self)),
            same_flags(*old(self), *final(self)),
            same_title(*old(self), *final(self)),
            same_listeners(*old(self), *final(self)),
            same_frames(*old(self), *final(self)),
    {
        if self.can_create {
            let id = self.elements.len();
            self.elements.push(
                Element {
                    attached: false,
                    width: 0,
                    height: 0,
                    cursor: None,
                    position_fixed: false,
                    left: 0,
                    top: 0,
                    rect_x: 0,
                    rect_y: 0,
                },
            );
            Ok(id)
        } else {
            Err(HostError)
        }
    }

    /// Hang an element into the document tree. Succeeds exactly when the
    /// document has a body to attach it to.
    pub fn append_to_body(&mut self, id: usize) -> (r: Result<(), HostError>)
        requires
            id < old(self).elements@.len(),
        ensures
            r is Ok <==> old(self).has_body,
            old(self).has_body ==> final(self).elements@ == old(self).elements@.update(
                id as int,
                with_attached(old(self).elements@[id as int], true),
            ),
            !old(self).has_body ==> same_elements(*old(self), *final(self)),
            same_flags(*old(self), *final(self)),
            same_title(*old(self), *final(self)),
            same_listeners(*old(self), *final(self)),
            same_frames(*old(self), *final(self)),
    {
        if self.has_body {
            let e = &self.elements[id];
            let updated = Element {
                attached: true,
                width: e.width,
                height: e.height,
                cursor: clone_attribute(&e.cursor),
                position_fixed: e.position_fixed,
                left: e.left,
                top: e.top,
                rect_x: e.rect_x,
                rect_y: e.rect_y,
            };
            self.put_element(id, updated);
            Ok(())
        } else {
            Err(HostError)
        }
    }

    /// Take an element out of the document tree. Its registrations die
    /// with it: the host will not invoke their callbacks again, and a
    /// later deregistration of one reports failure.
    pub fn detach_element(&mut self, id: usize)
        requires
            id < old(self).elements@.len(),
        ensures
            final(self).elements@ == old(self).elements@.update(
                id as int,
                with_attached(old(self).elements@[id as int], false),
            ),
            final(self).listeners@.len() == old(self).listeners@.len(),
            forall|j: int|
                0 <= j < old(self).listeners@.len() ==> final(self).listeners@[j] == (if old(self).listeners@[j].target == id {
                    deactivated(old(self).listeners@[j])
                } else {
                    old(self).listeners@[j]
                }),
            same_flags(*old(self), *final(self)),
            same_title(*old(self), *final(self)),
            same_frames(*old(self), *final(self)),
    {
        let e = &self.elements[id];
        let updated = Element {
            attached: false,
            width: e.width,
            height: e.height,
            cursor: clone_attribute(&e.cursor),
            position_fixed: e.position_fixed,
            left: e.left,
            top: e.top,
            rect_x: e.rect_x,
            rect_y: e.rect_y,
        };
        self.put_element(id, updated);
        let mut i: usize = 0;
        while i < self.listeners.len()
            invariant
                i <= self.listeners@.len(),
                self.listeners@.len() == old(self).listeners@.len(),
                forall|j: int|
                    0 <= j < i ==> self.listeners@[j] == (if old(self).listeners@[j].target == id {
                        deactivated(old(self).listeners@[j])
                    } else {
                        old(self).listeners@[j]
                    }),
                forall|j: int|
                    i <= j < self.listeners@.len() ==> self.listeners@[j] == old(self).listeners@[j],
                self.elements@ == old(self).elements@.update(
                    id as int,
                    with_attached(old(self).elements@[id as int], false),
                ),
                same_flags(*old(self), *self),
                same_title(*old(self), *self),
                same_frames(*old(self), *self),
            decreases self.listeners@.len() - i,
        {
            let r = self.listeners[i];
            if r.target == id {
                self.put_listener(
                    i,
                    ListenerRecord {
                        target: r.target,
                        kind: r.kind,
                        capture: r.capture,
                        passive: r.passive,
                        active: false,
                    },
                );
            }
            i = i + 1;
        }
    }

    /// Register a callback for (`target`, `kind`). Succeeds exactly when
    /// the target hangs in the document; the fresh registration's identity
    /// is returned.
    pub fn add_listener(&mut self, target: usize, kind: EventKind, options: ListenerOptions) -> (r:
        Result<usize, HostError>)
        ensures
            r is Ok <==> target < old(self).elements@.len()
                && old(self).elements@[target as int].attached,
            r matches Ok(callback) ==> callback == old(self).listeners@.len() && final(self).listeners@ == old(self).listeners@.push(
                ListenerRecord {
                    target,
                    kind,
                    capture: options.capture,
                    passive: options.passive,
                    active: true,
                },
            ),
            !(r is Ok) ==> same_listeners(*old(self), *final(self)),
            same_flags(*old(self), *final(self)),
            same_title(*old(self), *final(self)),
            same_elements(*old(self), *final(self)),
            same_frames(*old(self), *final(self)),
    {
        if target < self.elements.len() && self.elements[target].attached {
            let callback = self.listeners.len();
            self.listeners.push(
                ListenerRecord {
                    target,
                    kind,
                    capture: options.capture,
                    passive: options.passive,
                    active: true,
                },
            );
            Ok(callback)
        } else {
            Err(HostError)
        }
    }

    /// Retire the registration with identity `callback`. Fails when the
    /// registration was already removed or its target left the document;
    /// the registry is then unchanged.
    pub fn remove_listener(&mut self, callback: usize) -> (r: Result<(), HostError>)
        ensures
            r is Ok <==> callback < old(self).listeners@.len()
                && old(self).listeners@[callback as int].active,
            r is Ok ==> final(self).listeners@ == old(self).listeners@.update(
                callback as int,
                deactivated(old(self).listeners@[callback as int]),
            ),
            !(r is Ok) ==> same_listeners(*old(self), *final(self)),
            same_flags(*old(self), *final(self)),
            same_title(*old(self), *final(self)),
            same_elements(*old(self), *final(self)),
            same_frames(*old(self), *final(self)),
    {
        if callback < self.listeners.len() && self.listeners[callback].active {
            let r = self.listeners[callback];
            self.put_listener(
                callback,
                ListenerRecord {
                    target: r.target,
                    kind: r.kind,
                    capture: r.capture,
                    passive: r.passive,
                    active: false,
                },
            );
            Ok(())
        } else {
            Err(HostError)
        }
    }

    /// How many live registrations the document holds for (`target`,
    /// `kind`).
    pub fn registration_count(&self, target: usize, kind: EventKind) -> (n: usize)
        ensures
            n == count_active(self.listeners@, target, kind),
    {
        let mut n: usize = 0;
        let mut i: usize = 0;
        while i < self.listeners.len()
            invariant
                i <= self.listeners@.len(),
                n <= i,
                n == count_active(self.listeners@.take(i as int), target, kind),
            decreases self.listeners@.len() - i,
        {
            let r = self.listeners[i];
            proof {
                assert(self.listeners@.take(i + 1).drop_last() =~= self.listeners@.take(i as int));
                assert(self.listeners@.take(i + 1).last() == self.listeners@[i as int]);
            }
            if r.active && r.target == target && r.kind == kind {
                n = n + 1;
            }
            i = i + 1;
        }
        proof {
            assert(self.listeners@.take(self.listeners@.len() as int) =~= self.listeners@);
        }
        n
    }

    /// Write the document title.
    pub fn set_title(&mut self, title: &str)
        ensures
            final(self).title@ == title@,
            same_flags(*old(self), *final(self)),
            same_elements(*old(self), *final(self)),
            same_listeners(*old(self), *final(self)),
            same_frames(*old(self), *final(self)),
    {
        self.title = title.to_owned();
    }

    /// Write an element's content box.
    pub fn set_canvas_size(&mut self, id: usize, width: u32, height: u32)
        requires
            id < old(self).elements@.len(),
        ensures
            final(self).elements@ == old(self).elements@.update(
                id as int,
                with_size(old(self).elements@[id as int], width, height),
            ),
            same_flags(*old(self), *final(self)),
            same_title(*old(self), *final(self)),
            same_listeners(*old(self), *final(self)),
            same_frames(*old(self), *final(self)),
    {
        let e = &self.elements[id];
        let updated = Element {
            attached: e.attached,
            width,
            height,
            cursor: clone_attribute(&e.cursor),
            position_fixed: e.position_fixed,
            left: e.left,
            top: e.top,
            rect_x: e.rect_x,
            rect_y: e.rect_y,
        };
        self.put_element(id, updated);
    }

    /// Write an element's `cursor` attribute.
    pub fn set_cursor_attribute(&mut self, id: usize, value: String)
        requires
            id < old(self).elements@.len(),
        ensures
            final(self).elements@ == old(self).elements@.update(
                id as int,
                with_cursor(old(self).elements@[id as int], Some(value)),
            ),
            same_flags(*old(self), *final(self)),
            same_title(*old(self), *final(self)),
            same_listeners(*old(self), *final(self)),
            same_frames(*old(self), *final(self)),
    {
        let e = &self.elements[id];
        let updated = Element {
            attached: e.attached,
            width: e.width,
            height: e.height,
            cursor: Some(value),
            position_fixed: e.position_fixed,
            left: e.left,
            top: e.top,
            rect_x: e.rect_x,
            rect_y: e.rect_y,
        };
        self.put_element(id, updated);
    }

    /// Write an element's positioning attributes: `position: fixed` with
    /// the given `left` and `top`.
    pub fn set_position_attributes(&mut self, id: usize, left: i64, top: i64)
        requires
            id < old(self).elements@.len(),
        ensures
            final(self).elements@ == old(self).elements@.update(
                id as int,
                with_position_attributes(old(self).elements@[id as int], left, top),
            ),
            same_flags(*old(self), *final(self)),
            same_title(*old(self), *final(self)),
            same_listeners(*old(self), *final(self)),
            same_frames(*old(self), *final(self)),
    {
        let e = &self.elements[id];
        let updated = Element {
            attached: e.attached,
            width: e.width,
            height: e.height,
            cursor: clone_attribute(&e.cursor),
            position_fixed: true,
            left,
            top,
            rect_x: e.rect_x,
            rect_y: e.rect_y,
        };
        self.put_element(id, updated);
    }

    /// The host laid an element out at a new origin. This is the host's
    /// own step, not one the windowing layer takes.
    pub fn place_element(&mut self, id: usize, rect_x: i64, rect_y: i64)
        requires
            id < old(self).elements@.len(),
        ensures
            final(self).elements@ == old(self).elements@.update(
                id as int,
                with_rect(old(self).elements@[id as int], rect_x, rect_y),
            ),
            same_flags(*old(self), *final(self)),
            same_title(*old(self), *final(self)),
            same_listeners(*old(self), *final(self)),
            same_frames(*old(self), *final(self)),
    {
        let e = &self.elements[id];
        let updated = Element {
            attached: e.attached,
            width: e.width,
            height: e.height,
            cursor: clone_attribute(&e.cursor),
            position_fixed: e.position_fixed,
            left: e.left,
            top: e.top,
            rect_x,
            rect_y,
        };
        self.put_element(id, updated);
    }

    /// Ask the host to schedule a paint callback for `window`. The
    /// callback runs on a future turn of the loop, never synchronously.
    pub fn request_frame(&mut self, window: WindowId)
        ensures
            final(self).frame_queue@ == old(self).frame_queue@.push(window),
            same_flags(*old(self), *final(self)),
            same_title(*old(self), *final(self)),
            same_elements(*old(self), *final(self)),
            same_listeners(*old(self), *final(self)),
    {
        self.frame_queue.push(window);
    }

    /// The host's paint turn: every pending frame request becomes a redraw
    /// event on the runner's queue, in request order, and the queue
    /// empties.
    pub fn run_frame(&mut self, runner: &mut EventLoopTarget)
        ensures
            final(self).frame_queue@.len() == 0,
            same_flags(*old(self), *final(self)),
            same_title(*old(self), *final(self)),
            same_elements(*old(self), *final(self)),
            same_listeners(*old(self), *final(self)),
            final(runner).dispatch@ == old(runner).dispatch@,
            final(runner).events@.len() == old(runner).events@.len() + old(self).frame_queue@.len(),
            forall|j: int|
                0 <= j < old(runner).events@.len() ==> final(runner).events@[j] == old(runner).events@[j],
            forall|j: int|
                0 <= j < old(self).frame_queue@.len() ==> final(runner).events@[old(runner).events@.len() + j] == RunnerEvent::RedrawRequested(old(self).frame_queue@[j]),
    {
        let mut i: usize = 0;
        while i < self.frame_queue.len()
            invariant
                i <= self.frame_queue@.len(),
                self.frame_queue@ == old(self).frame_queue@,
                same_flags(*old(self), *self),
                same_title(*old(self), *self),
                same_elements(*old(self), *self),
                same_listeners(*old(self), *self),
                runner.dispatch@ == old(runner).dispatch@,
                runner.events@.len() == old(runner).events@.len() + i,
                forall|j: int|
                    0 <= j < old(runner).events@.len() ==> runner.events@[j] == old(runner).events@[j],
                forall|j: int|
                    0 <= j < i ==> runner.events@[old(runner).events@.len() + j]
                        == RunnerEvent::RedrawRequested(old(self).frame_queue@[j]),
            decreases self.frame_queue@.len() - i,
        {
            let w = self.frame_queue[i];
            runner.send_event(RunnerEvent::RedrawRequested(w));
            i = i + 1;
        }
        self.frame_queue.clear();
    }

    /// The host invokes the callback with identity `callback`: when its
    /// registration is still live, the translated event reaches the
    /// runner; a retired registration delivers nothing, so no event ever
    /// reaches an owner that released its handle.
    pub fn fire_listener(&self, callback: usize, runner: &mut EventLoopTarget)
        ensures
            final(runner).dispatch@ == old(runner).dispatch@,
            (callback < self.listeners@.len() && self.listeners@[callback as int].active) ==> final(runner).events@ == old(runner).events@.push(
                RunnerEvent::Listener {
                    target: self.listeners@[callback as int].target,
                    kind: self.listeners@[callback as int].kind,
                },
            ),
            !(callback < self.listeners@.len() && self.listeners@[callback as int].active)
                ==> final(runner).events@ == old(runner).events@,
    {
        if callback < self.listeners.len() {
            let r = self.listeners[callback];
            if r.active {
                runner.send_event(RunnerEvent::Listener { target: r.target, kind: r.kind });
            }
        }
    }
}

} // verus!
