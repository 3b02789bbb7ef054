use vstd::prelude::*;
use crate::cursor::{cursor_css, MouseCursor};
use crate::dpi::{LogicalPosition, LogicalSize};
use crate::event::EventKind;
use crate::event_handle::{handle_wf, EventListenerHandle, RegistrationError, ReleaseOutcome};
use crate::event_loop::EventLoopTarget;
use crate::host::{
    count_active, deactivated, doc_unchanged, fresh_element, same_element_but_cursor,
    same_elements, same_flags, same_frames, same_listeners, same_title, with_attached,
    with_position_attributes, with_size, HostDocument, ListenerOptions, ListenerRecord,
};
use crate::monitor::MonitorHandle;

verus! {

/// The identity of a window. Only one canvas-backed window kind exists per
/// host document in this design, so a fixed placeholder identity suffices.
#[derive(Clone, Copy, Debug, PartialEq, Eq, PartialOrd, Ord, Hash, Structural)]
pub struct WindowId;

impl WindowId {
    /// The placeholder identity.
    pub fn dummy() -> (r: WindowId)
        ensures
            r == WindowId,
    {
        WindowId
    }
}

/// Host-specific construction attributes. The canvas surface takes none.
#[derive(Clone, Copy, Debug, PartialEq, Eq, PartialOrd, Ord, Hash, Structural)]
pub struct PlatformSpecificWindowBuilderAttributes;

impl Default for PlatformSpecificWindowBuilderAttributes {
    fn default() -> (r: Self)
        ensures
            r == PlatformSpecificWindowBuilderAttributes,
    {
        PlatformSpecificWindowBuilderAttributes
    }
}

/// A window icon as raw pixels. The canvas surface cannot display one; the
/// value is carried only so that construction can accept it.
#[derive(Clone, Debug)]
pub struct Icon {
    pub rgba: Vec<u8>,
    pub width: u32,
    pub height: u32,
}

/// Why constructing a window failed. Only true host failures are errors:
/// the document refused to create the drawable element, or it has no
/// attach point for it.
#[derive(Debug)]
pub enum CreationError {
    OsError(String),
}

/// The configuration a window is built from.
pub struct WindowAttributes {
    /// The initial content size; construction falls back to a fixed
    /// default when absent.
    pub dimensions: Option<LogicalSize>,
    pub min_dimensions: Option<LogicalSize>,
    pub max_dimensions: Option<LogicalSize>,
    pub resizable: bool,
    pub title: String,
    pub maximized: bool,
    pub visible: bool,
    pub decorations: bool,
    pub always_on_top: bool,
    pub window_icon: Option<Icon>,
}

impl Default for WindowAttributes {
    fn default() -> (r: Self)
        ensures
            r.dimensions is None,
            r.min_dimensions is None,
            r.max_dimensions is None,
            r.resizable,
            r.title@ == Seq::<char>::empty(),
            !r.maximized,
            r.visible,
            r.decorations,
            !r.always_on_top,
            r.window_icon is None,
    {
        WindowAttributes {
            dimensions: None,
            min_dimensions: None,
            max_dimensions: None,
            resizable: true,
            title: String::new(),
            maximized: false,
            visible: true,
            decorations: true,
            always_on_top: false,
            window_icon: None,
        }
    }
}

/// The `cursor` attribute of element `id`, viewed as characters.
pub open spec fn cursor_attr(d: HostDocument, id: int) -> Option<Seq<char>> {
    if 0 <= id < d.elements@.len() {
        match d.elements@[id].cursor {
            Some(s) => Some(s@),
            None => None,
        }
    } else {
        None
    }
}

/// What `set_cursor` leaves behind: the cached previous cursor and the
/// written attribute both hold the kind's keyword.
pub open spec fn sets_cursor(cursor: MouseCursor, prev1: Seq<char>, attr1: Option<Seq<char>>) -> bool {
    prev1 == cursor_css(cursor) && attr1 == Some(cursor_css(cursor))
}

/// What `hide_cursor` leaves behind, given the cached cursor `prev0` it
/// started from: hiding writes the `none` sentinel, unhiding writes the
/// cache back, and the cache itself is never touched.
pub open spec fn hides_cursor(
    prev0: Seq<char>,
    hidden: bool,
    prev1: Seq<char>,
    attr1: Option<Seq<char>>,
) -> bool {
    prev1 == prev0 && attr1 == Some(
        if hidden {
            "none"@
        } else {
            prev0
        },
    )
}

/// For every cursor kind, `set_cursor(k)`, then `hide_cursor(true)`, then
/// `hide_cursor(false)` restores exactly the keyword of `k`.
pub proof fn lemma_cursor_restored_after_hide(
    cursor: MouseCursor,
    p1: Seq<char>,
    a1: Option<Seq<char>>,
    p2: Seq<char>,
    a2: Option<Seq<char>>,
    p3: Seq<char>,
    a3: Option<Seq<char>>,
)
    requires
        sets_cursor(cursor, p1, a1),
        hides_cursor(p1, true, p2, a2),
        hides_cursor(p2, false, p3, a3),
    ensures
        a3 == Some(cursor_css(cursor)),
        p3 == cursor_css(cursor),
{
}

/// Hiding twice in a row does not overwrite the cache with the sentinel:
/// unhiding afterwards restores the cursor cached before the first hide.
pub proof fn lemma_repeated_hide_restores_first_previous(
    p0: Seq<char>,
    p1: Seq<char>,
    a1: Option<Seq<char>>,
    p2: Seq<char>,
    a2: Option<Seq<char>>,
    p3: Seq<char>,
    a3: Option<Seq<char>>,
)
    requires
        hides_cursor(p0, true, p1, a1),
        hides_cursor(p1, true, p2, a2),
        hides_cursor(p2, false, p3, a3),
    ensures
        a3 == Some(p0),
{
}

/// A window: one drawable element of the host document, the cached state
/// the host cannot report back, and the listener registrations it owns.
pub struct Window {
    /// The drawable element's id in the host document.
    pub canvas: usize,
    /// The last cursor keyword explicitly set; `hide_cursor(false)`
    /// restores it without recomputing.
    pub previous_pointer: String,
    /// The last position this window set. The host has no reliable
    /// position query for the surface, so this cache is the answer
    /// `get_inner_position` gives.
    pub position: LogicalPosition,
    /// The listener registrations this window owns; all are released
    /// before the canvas leaves the document.
    pub listeners: Vec<EventListenerHandle>,
}

/// The window's canvas exists in the document and every handle it owns
/// points at its own registration record.
pub open spec fn window_wf(w: Window, d: HostDocument) -> bool {
    w.canvas < d.elements@.len() && (forall|i: int|
        0 <= i < w.listeners@.len() ==> handle_wf(w.listeners@[i], d))
}

impl Window {
    /// Build a window: create the drawable element, hang it into the
    /// document, register it with the event loop's dispatch table, and
    /// apply the initial attributes in a fixed order. Succeeds exactly
    /// when the host can create elements and the document has a body;
    /// each host refusal is a distinct error. Without an explicit size
    /// the content box falls back to 1024 by 768.
    pub fn new(
        doc: &mut HostDocument,
        target: &mut EventLoopTarget,
        attr: WindowAttributes,
        _platform: PlatformSpecificWindowBuilderAttributes,
    ) -> (r: Result<Window, CreationError>)
        ensures
            r is Ok <==> old(doc).can_create && old(doc).has_body,
            r matches Ok(w) ==> w.canvas == old(doc).elements@.len() && window_wf(w, *final(doc))
                && w.listeners@.len() == 0 && w.previous_pointer@ == "auto"@ && w.position == (
            LogicalPosition { x: 0, y: 0 }) && final(doc).elements@.len() == old(doc).elements@.len() + 1 && final(doc).elements@[w.canvas as int].attached && final(doc).elements@[w.canvas as int].width == (match attr.dimensions {
                Some(s) => s.width,
                None => 1024u32,
            }) && final(doc).elements@[w.canvas as int].height == (match attr.dimensions {
                Some(s) => s.height,
                None => 768u32,
            }) && final(doc).elements@[w.canvas as int].cursor is None && (forall|j: int|
                0 <= j < old(doc).elements@.len() ==> final(doc).elements@[j] == old(doc).elements@[j]) && final(doc).title@ == attr.title@ && final(target).dispatch@
                == old(target).dispatch@.push(w.canvas),
            r is Ok ==> same_listeners(*old(doc), *final(doc)) && same_frames(
                *old(doc),
                *final(doc),
            ),
            !old(doc).can_create ==> doc_unchanged(*old(doc), *final(doc)) && (r matches Err(
                CreationError::OsError(m),
            ) && m@ == "Failed to create canvas element"@),
            old(doc).can_create && !old(doc).has_body ==> final(doc).elements@ == old(doc).elements@.push(fresh_element()) && same_title(*old(doc), *final(doc))
                && same_listeners(*old(doc), *final(doc)) && same_frames(*old(doc), *final(doc))
                && (r matches Err(CreationError::OsError(m)) && m@ == "Failed to find body node"@),
            r is Err ==> final(target).dispatch@ == old(target).dispatch@,
            final(target).events@ == old(target).events@,
            same_flags(*old(doc), *final(doc)),
    {
        let created = doc.create_element();
        let canvas = match created {
            Ok(id) => id,
            Err(_) => {
                return Err(CreationError::OsError("Failed to create canvas element".to_owned()));
            },
        };
        match doc.append_to_body(canvas) {
            Ok(()) => {},
            Err(_) => {
                return Err(CreationError::OsError("Failed to find body node".to_owned()));
            },
        }
        target.register(canvas);

        let window = Window {
            canvas,
            previous_pointer: "auto".to_owned(),
            position: LogicalPosition { x: 0, y: 0 },
            listeners: Vec::new(),
        };

        match attr.dimensions {
            Some(dimensions) => window.set_inner_size(doc, dimensions),
            None => window.set_inner_size(doc, LogicalSize { width: 1024, height: 768 }),
        }
        window.set_min_dimensions(attr.min_dimensions);
        window.set_max_dimensions(attr.max_dimensions);
        window.set_resizable(attr.resizable);
        window.set_title(doc, attr.title.as_str());
        window.set_maximized(attr.maximized);
        if attr.visible {
            window.show();
        } else {
            window.hide_window();
        }
        window.set_decorations(attr.decorations);
        window.set_always_on_top(attr.always_on_top);
        window.set_window_icon(attr.window_icon);

        Ok(window)
    }

    /// Write the document title.
    pub fn set_title(&self, doc: &mut HostDocument, title: &str)
        ensures
            final(doc).title@ == title@,
            same_flags(*old(doc), *final(doc)),
            same_elements(*old(doc), *final(doc)),
            same_listeners(*old(doc), *final(doc)),
            same_frames(*old(doc), *final(doc)),
    {
        doc.set_title(title);
    }

    /// Intentionally a no-op: the surface has no visibility of its own
    /// apart from being in the document.
    pub fn show(&self) {
    }

    /// Intentionally a no-op, as [`Window::show`] is.
    pub fn hide_window(&self) {
    }

    /// Ask the host for a redraw on its next paint opportunity. The
    /// request is queued for a future turn; nothing runs synchronously.
    pub fn request_redraw(&self, doc: &mut HostDocument)
        ensures
            final(doc).frame_queue@ == old(doc).frame_queue@.push(WindowId),
            same_flags(*old(doc), *final(doc)),
            same_title(*old(doc), *final(doc)),
            same_elements(*old(doc), *final(doc)),
            same_listeners(*old(doc), *final(doc)),
    {
        let id = self.id();
        doc.request_frame(id);
    }

    /// The canvas's origin as the host laid it out.
    pub fn get_position(&self, doc: &HostDocument) -> (r: Option<LogicalPosition>)
        requires
            self.canvas < doc.elements@.len(),
        ensures
            r == Some(
                LogicalPosition {
                    x: doc.elements@[self.canvas as int].rect_x,
                    y: doc.elements@[self.canvas as int].rect_y,
                },
            ),
    {
        let e = &doc.elements[self.canvas];
        Some(LogicalPosition { x: e.rect_x, y: e.rect_y })
    }

    /// The position this window last set, answered from the cache alone:
    /// the host is not consulted.
    pub fn get_inner_position(&self) -> (r: Option<LogicalPosition>)
        ensures
            r == Some(self.position),
    {
        Some(self.position)
    }

    /// Cache the position and write it into the canvas's positioning
    /// attributes.
    pub fn set_position(&mut self, doc: &mut HostDocument, position: LogicalPosition)
        requires
            old(self).canvas < old(doc).elements@.len(),
        ensures
            final(self).position == position,
            final(self).canvas == old(self).canvas,
            final(self).previous_pointer@ == old(self).previous_pointer@,
            final(self).listeners@ == old(self).listeners@,
            final(doc).elements@ == old(doc).elements@.update(
                old(self).canvas as int,
                with_position_attributes(
                    old(doc).elements@[old(self).canvas as int],
                    position.x,
                    position.y,
                ),
            ),
            same_flags(*old(doc), *final(doc)),
            same_title(*old(doc), *final(doc)),
            same_listeners(*old(doc), *final(doc)),
            same_frames(*old(doc), *final(doc)),
    {
        self.position = position;
        doc.set_position_attributes(self.canvas, position.x, position.y);
    }

    /// The canvas's content box.
    pub fn get_inner_size(&self, doc: &HostDocument) -> (r: Option<LogicalSize>)
        requires
            self.canvas < doc.elements@.len(),
        ensures
            r == Some(
                LogicalSize {
                    width: doc.elements@[self.canvas as int].width,
                    height: doc.elements@[self.canvas as int].height,
                },
            ),
    {
        let e = &doc.elements[self.canvas];
        Some(LogicalSize { width: e.width, height: e.height })
    }

    /// The same value as [`Window::get_inner_size`]: the drawable has no
    /// border, so inner and outer boxes coincide by design.
    pub fn get_outer_size(&self, doc: &HostDocument) -> (r: Option<LogicalSize>)
        requires
            self.canvas < doc.elements@.len(),
        ensures
            r == Some(
                LogicalSize {
                    width: doc.elements@[self.canvas as int].width,
                    height: doc.elements@[self.canvas as int].height,
                },
            ),
    {
        let e = &doc.elements[self.canvas];
        Some(LogicalSize { width: e.width, height: e.height })
    }

    /// Write the canvas's content box.
    pub fn set_inner_size(&self, doc: &mut HostDocument, size: LogicalSize)
        requires
            self.canvas < old(doc).elements@.len(),
        ensures
            final(doc).elements@ == old(doc).elements@.update(
                self.canvas as int,
                with_size(old(doc).elements@[self.canvas as int], size.width, size.height),
            ),
            same_flags(*old(doc), *final(doc)),
            same_title(*old(doc), *final(doc)),
            same_listeners(*old(doc), *final(doc)),
            same_frames(*old(doc), *final(doc)),
    {
        doc.set_canvas_size(self.canvas, size.width, size.height);
    }

    /// Intentionally a no-op: users cannot resize the drawable element.
    pub fn set_min_dimensions(&self, _dimensions: Option<LogicalSize>) {
    }

    /// Intentionally a no-op, as [`Window::set_min_dimensions`] is.
    pub fn set_max_dimensions(&self, _dimensions: Option<LogicalSize>) {
    }

    /// Intentionally a no-op: users cannot resize the drawable element.
    pub fn set_resizable(&self, _resizable: bool) {
    }

    /// The fixed scale factor of the surface, in whole units.
    pub fn get_hidpi_factor(&self) -> (r: u32)
        ensures
            r == 1,
    {
        1
    }

    /// Map the cursor kind to its keyword, cache the keyword as the new
    /// previous cursor, and write it as the canvas's cursor attribute.
    pub fn set_cursor(&mut self, doc: &mut HostDocument, cursor: MouseCursor)
        requires
            old(self).canvas < old(doc).elements@.len(),
        ensures
            sets_cursor(
                cursor,
                final(self).previous_pointer@,
                cursor_attr(*final(doc), old(self).canvas as int),
            ),
            final(self).canvas == old(self).canvas,
            final(self).position == old(self).position,
            final(self).listeners@ == old(self).listeners@,
            final(doc).elements@.len() == old(doc).elements@.len(),
            forall|j: int|
                0 <= j < old(doc).elements@.len() && j != old(self).canvas ==> final(doc).elements@[j] == old(doc).elements@[j],
            same_element_but_cursor(
                old(doc).elements@[old(self).canvas as int],
                final(doc).elements@[old(self).canvas as int],
            ),
            same_flags(*old(doc), *final(doc)),
            same_title(*old(doc), *final(doc)),
            same_listeners(*old(doc), *final(doc)),
            same_frames(*old(doc), *final(doc)),
    {
        let text = cursor.text();
        self.previous_pointer = text.to_owned();
        doc.set_cursor_attribute(self.canvas, text.to_owned());
    }

    /// Intentionally without effect: host pointer capture is out of
    /// scope, and the caller always receives success.
    pub fn set_cursor_position(&self, _position: LogicalPosition) -> (r: Result<(), String>)
        ensures
            r is Ok,
    {
        Ok(())
    }

    /// Intentionally without effect, as [`Window::set_cursor_position`]
    /// is.
    pub fn grab_cursor(&self, _grab: bool) -> (r: Result<(), String>)
        ensures
            r is Ok,
    {
        Ok(())
    }

    /// Hide or restore the cursor. Hiding writes the `none` sentinel;
    /// restoring writes back the cached previous cursor rather than
    /// recomputing it. The cache itself is never touched here, so hiding
    /// twice cannot overwrite it with the sentinel.
    pub fn hide_cursor(&self, doc: &mut HostDocument, hidden: bool)
        requires
            self.canvas < old(doc).elements@.len(),
        ensures
            hides_cursor(
                self.previous_pointer@,
                hidden,
                self.previous_pointer@,
                cursor_attr(*final(doc), self.canvas as int),
            ),
            final(doc).elements@.len() == old(doc).elements@.len(),
            forall|j: int|
                0 <= j < old(doc).elements@.len() && j != self.canvas ==> final(doc).elements@[j]
                    == old(doc).elements@[j],
            same_element_but_cursor(
                old(doc).elements@[self.canvas as int],
                final(doc).elements@[self.canvas as int],
            ),
            same_flags(*old(doc), *final(doc)),
            same_title(*old(doc), *final(doc)),
            same_listeners(*old(doc), *final(doc)),
            same_frames(*old(doc), *final(doc)),
    {
        if hidden {
            doc.set_cursor_attribute(self.canvas, "none".to_owned());
        } else {
            doc.set_cursor_attribute(self.canvas, self.previous_pointer.clone());
        }
    }

    /// Intentionally a no-op: the surface has no maximized state.
    pub fn set_maximized(&self, _maximized: bool) {
    }

    /// Intentionally a no-op: the surface has no fullscreen state.
    pub fn set_fullscreen(&self, _monitor: Option<MonitorHandle>) {
    }

    /// Intentionally a no-op: the drawable has no decorations.
    pub fn set_decorations(&self, _decorations: bool) {
    }

    /// Intentionally a no-op: the host has no window ordering.
    pub fn set_always_on_top(&self, _always_on_top: bool) {
    }

    /// Intentionally a no-op: the surface cannot display an icon.
    pub fn set_window_icon(&self, _window_icon: Option<Icon>) {
    }

    /// Intentionally a no-op: the surface has no input-method spot.
    pub fn set_ime_spot(&self, _position: LogicalPosition) {
    }

    /// The synthetic monitor the surface lies on.
    pub fn get_current_monitor(&self) -> (r: MonitorHandle)
        ensures
            r == MonitorHandle,
    {
        MonitorHandle
    }

    /// The monitor enumeration is empty even though a primary monitor is
    /// reported: a known discrepancy of this host, kept as documented
    /// behaviour rather than resolved one way here.
    pub fn get_available_monitors(&self) -> (r: Vec<MonitorHandle>)
        ensures
            r@ == Seq::<MonitorHandle>::empty(),
    {
        Vec::new()
    }

    /// The single synthetic monitor.
    pub fn get_primary_monitor(&self) -> (r: MonitorHandle)
        ensures
            r == MonitorHandle,
    {
        MonitorHandle
    }

    /// The window's fixed identity.
    pub fn id(&self) -> (r: WindowId)
        ensures
            r == WindowId,
    {
        WindowId::dummy()
    }

    /// Subscribe to one event kind on the canvas: attach a listener
    /// handle and keep it with the window. Succeeds exactly when the
    /// canvas hangs in the document; the registry then holds one more
    /// live registration for the pair.
    pub fn subscribe(&mut self, doc: &mut HostDocument, kind: EventKind, options: ListenerOptions)
        -> (r: Result<(), RegistrationError>)
        ensures
            r is Ok <==> old(self).canvas < old(doc).elements@.len() && old(doc).elements@[old(self).canvas as int].attached,
            r is Ok ==> final(self).listeners@.len() == old(self).listeners@.len() + 1 && (forall|
                j: int,
            |
                0 <= j < old(self).listeners@.len() ==> final(self).listeners@[j] == old(self).listeners@[j]) && final(doc).listeners@ == old(doc).listeners@.push(
                ListenerRecord {
                    target: old(self).canvas,
                    kind,
                    capture: options.capture,
                    passive: options.passive,
                    active: true,
                },
            ) && count_active(final(doc).listeners@, old(self).canvas, kind) == count_active(
                old(doc).listeners@,
                old(self).canvas,
                kind,
            ) + 1 && final(self).listeners@.last().target == old(self).canvas
                && final(self).listeners@.last().kind == kind
                && final(self).listeners@.last().options == options
                && final(self).listeners@.last().attached && final(self).listeners@.last().callback
                == old(doc).listeners@.len(),
            r is Err ==> doc_unchanged(*old(doc), *final(doc)) && final(self).listeners@ == old(self).listeners@,
            final(self).canvas == old(self).canvas,
            final(self).position == old(self).position,
            final(self).previous_pointer@ == old(self).previous_pointer@,
            window_wf(*old(self), *old(doc)) ==> window_wf(*final(self), *final(doc)),
            same_flags(*old(doc), *final(doc)),
            same_title(*old(doc), *final(doc)),
            same_elements(*old(doc), *final(doc)),
            same_frames(*old(doc), *final(doc)),
    {
        match EventListenerHandle::new(doc, self.canvas, kind, options) {
            Ok(handle) => {
                self.listeners.push(handle);
                proof {
                    assert forall|i: int|
                        0 <= i < self.listeners@.len() && window_wf(
                            *old(self),
                            *old(doc),
                        ) implies handle_wf(self.listeners@[i], *doc) by {
                        if i < old(self).listeners@.len() {
                            assert(handle_wf(old(self).listeners@[i], *old(doc)));
                            if old(self).listeners@[i].attached {
                                let cb = old(self).listeners@[i].callback as int;
                                assert(cb < old(doc).listeners@.len());
                                assert(doc.listeners@[cb] == old(doc).listeners@[cb]);
                            }
                        }
                    }
                }
                Ok(())
            },
            Err(e) => Err(e),
        }
    }

    /// Tear the window down: release every owned listener handle, then
    /// take the canvas out of the document — in that order, so no handle
    /// outlives its element's place in the tree. A host failure on one
    /// release is counted and teardown continues with the rest; nothing
    /// here can panic, whatever state the handles or the document are in.
    /// Afterwards the window owns no handles, every registration it was
    /// still owing is retired, and no registration anywhere became live.
    pub fn close(&mut self, doc: &mut HostDocument) -> (failures: usize)
        ensures
            failures <= old(self).listeners@.len(),
            final(self).listeners@.len() == 0,
            final(self).canvas == old(self).canvas,
            final(self).position == old(self).position,
            final(self).previous_pointer@ == old(self).previous_pointer@,
            final(doc).listeners@.len() == old(doc).listeners@.len(),
            forall|c: int|
                0 <= c < old(doc).listeners@.len() ==> final(doc).listeners@[c] == old(doc).listeners@[c] || final(doc).listeners@[c] == deactivated(
                    old(doc).listeners@[c],
                ),
            forall|j: int|
                0 <= j < old(self).listeners@.len() && old(self).listeners@[j].attached && old(self).listeners@[j].callback < old(doc).listeners@.len() ==> !final(doc).listeners@[old(self).listeners@[j].callback as int].active,
            old(self).canvas < old(doc).elements@.len() ==> final(doc).elements@.len() == old(doc).elements@.len() && final(doc).elements@[old(self).canvas as int] == with_attached(
                old(doc).elements@[old(self).canvas as int],
                false,
            ) && (forall|j: int|
                0 <= j < old(doc).elements@.len() && j != old(self).canvas ==> final(doc).elements@[j] == old(doc).elements@[j]),
            old(self).canvas >= old(doc).elements@.len() ==> same_elements(*old(doc), *final(doc)),
            same_flags(*old(doc), *final(doc)),
            same_title(*old(doc), *final(doc)),
            same_frames(*old(doc), *final(doc)),
    {
        let total = self.listeners.len();
        let mut failures: usize = 0;
        while self.listeners.len() > 0
            invariant
                self.listeners@ == old(self).listeners@.take(self.listeners@.len() as int),
                self.listeners@.len() <= total,
                total == old(self).listeners@.len(),
                failures as int <= total - self.listeners@.len(),
                self.canvas == old(self).canvas,
                self.position == old(self).position,
                self.previous_pointer@ == old(self).previous_pointer@,
                doc.listeners@.len() == old(doc).listeners@.len(),
                forall|c: int|
                    0 <= c < old(doc).listeners@.len() ==> doc.listeners@[c] == old(doc).listeners@[c] || doc.listeners@[c] == deactivated(old(doc).listeners@[c]),
                forall|j: int|
                    self.listeners@.len() <= j < old(self).listeners@.len() && old(self).listeners@[j].attached && old(self).listeners@[j].callback < old(doc).listeners@.len() ==> !doc.listeners@[old(self).listeners@[j].callback as int].active,
                same_flags(*old(doc), *doc),
                same_title(*old(doc), *doc),
                same_elements(*old(doc), *doc),
                same_frames(*old(doc), *doc),
            decreases self.listeners@.len(),
        {
            proof {
                let k = self.listeners@.len() as int;
                assert(old(self).listeners@.take(k).drop_last() =~= old(self).listeners@.take(
                    k - 1,
                ));
            }
            let popped = self.listeners.pop();
            if let Some(mut handle) = popped {
                let outcome = handle.release(doc);
                match outcome {
                    ReleaseOutcome::HostFailure => {
                        failures = failures + 1;
                    },
                    _ => {},
                }
            }
        }
        proof {
            assert(old(self).listeners@.take(0) =~= Seq::<EventListenerHandle>::empty());
        }
        if self.canvas < doc.elements.len() {
            doc.detach_element(self.canvas);
        }
        failures
    }
}

} // verus!
