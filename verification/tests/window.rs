use web_window::cursor::MouseCursor;
use web_window::dpi::{LogicalPosition, LogicalSize};
use web_window::event::{EventKind, RunnerEvent};
use web_window::event_loop::EventLoopTarget;
use web_window::host::{HostDocument, ListenerOptions};
use web_window::monitor::MonitorHandle;
use web_window::window::{
    CreationError, PlatformSpecificWindowBuilderAttributes, Window, WindowAttributes, WindowId,
};

fn build_window(attr: WindowAttributes) -> (HostDocument, EventLoopTarget, Window) {
    let mut doc = HostDocument::new(true, true);
    let mut target = EventLoopTarget::new();
    let window = Window::new(&mut doc, &mut target, attr, PlatformSpecificWindowBuilderAttributes)
        .expect("a well-behaved host constructs the window");
    (doc, target, window)
}

fn cursor_attribute(doc: &HostDocument, window: &Window) -> Option<String> {
    doc.elements[window.canvas].cursor.clone()
}

#[test]
fn construction_defaults_to_1024_by_768() {
    let (doc, _target, window) = build_window(WindowAttributes::default());
    assert_eq!(
        window.get_inner_size(&doc),
        Some(LogicalSize { width: 1024, height: 768 })
    );
}

#[test]
fn construction_takes_the_explicit_size() {
    let mut attr = WindowAttributes::default();
    attr.dimensions = Some(LogicalSize { width: 300, height: 200 });
    let (doc, _target, window) = build_window(attr);
    assert_eq!(
        window.get_inner_size(&doc),
        Some(LogicalSize { width: 300, height: 200 })
    );
}

#[test]
fn construction_registers_the_canvas_for_dispatch() {
    let (doc, target, window) = build_window(WindowAttributes::default());
    assert_eq!(target.dispatch, vec![window.canvas]);
    assert!(doc.elements[window.canvas].attached);
}

#[test]
fn construction_writes_the_title() {
    let mut attr = WindowAttributes::default();
    attr.title = String::from("a drawing surface");
    let (doc, _target, _window) = build_window(attr);
    assert_eq!(doc.title, "a drawing surface");
}

#[test]
fn construction_fails_without_a_body() {
    let mut doc = HostDocument::new(true, false);
    let mut target = EventLoopTarget::new();
    let r = Window::new(
        &mut doc,
        &mut target,
        WindowAttributes::default(),
        PlatformSpecificWindowBuilderAttributes,
    );
    match r {
        Err(CreationError::OsError(message)) => {
            assert_eq!(message, "Failed to find body node");
        }
        Ok(_) => panic!("construction must fail without a body"),
    }
    assert!(target.dispatch.is_empty());
}

#[test]
fn construction_fails_when_the_host_cannot_create_elements() {
    let mut doc = HostDocument::new(false, true);
    let mut target = EventLoopTarget::new();
    let r = Window::new(
        &mut doc,
        &mut target,
        WindowAttributes::default(),
        PlatformSpecificWindowBuilderAttributes,
    );
    match r {
        Err(CreationError::OsError(message)) => {
            assert_eq!(message, "Failed to create canvas element");
        }
        Ok(_) => panic!("construction must fail when elements cannot be created"),
    }
    assert!(doc.elements.is_empty());
}

#[test]
fn inner_and_outer_size_agree_after_set_inner_size() {
    let (mut doc, _target, window) = build_window(WindowAttributes::default());
    window.set_inner_size(&mut doc, LogicalSize { width: 800, height: 600 });
    assert_eq!(
        window.get_inner_size(&doc),
        Some(LogicalSize { width: 800, height: 600 })
    );
    // Inner and outer agree by design: the drawable has no border.
    assert_eq!(
        window.get_outer_size(&doc),
        Some(LogicalSize { width: 800, height: 600 })
    );
}

#[test]
fn inner_position_answers_from_the_cache() {
    let (mut doc, _target, mut window) = build_window(WindowAttributes::default());
    window.set_position(&mut doc, LogicalPosition { x: 10, y: 20 });
    // The answer comes from the cache alone; no document is passed in.
    assert_eq!(window.get_inner_position(), Some(LogicalPosition { x: 10, y: 20 }));
    // The positioning attributes were still written to the element.
    assert!(doc.elements[window.canvas].position_fixed);
    assert_eq!(doc.elements[window.canvas].left, 10);
    assert_eq!(doc.elements[window.canvas].top, 20);
}

#[test]
fn position_reflects_the_host_layout() {
    let (mut doc, _target, window) = build_window(WindowAttributes::default());
    doc.place_element(window.canvas, 7, 9);
    assert_eq!(window.get_position(&doc), Some(LogicalPosition { x: 7, y: 9 }));
}

#[test]
fn cursor_round_trip_restores_every_kind() {
    let kinds = vec![
        MouseCursor::Default,
        MouseCursor::Crosshair,
        MouseCursor::Hand,
        MouseCursor::Arrow,
        MouseCursor::Move,
        MouseCursor::Text,
        MouseCursor::Wait,
        MouseCursor::Help,
        MouseCursor::Progress,
        MouseCursor::NotAllowed,
        MouseCursor::ContextMenu,
        MouseCursor::Cell,
        MouseCursor::VerticalText,
        MouseCursor::Alias,
        MouseCursor::Copy,
        MouseCursor::NoDrop,
        MouseCursor::Grab,
        MouseCursor::Grabbing,
        MouseCursor::AllScroll,
        MouseCursor::ZoomIn,
        MouseCursor::ZoomOut,
        MouseCursor::EResize,
        MouseCursor::NResize,
        MouseCursor::NeResize,
        MouseCursor::NwResize,
        MouseCursor::SResize,
        MouseCursor::SeResize,
        MouseCursor::SwResize,
        MouseCursor::WResize,
        MouseCursor::EwResize,
        MouseCursor::NsResize,
        MouseCursor::NeswResize,
        MouseCursor::NwseResize,
        MouseCursor::ColResize,
        MouseCursor::RowResize,
    ];
    let (mut doc, _target, mut window) = build_window(WindowAttributes::default());
    for kind in kinds {
        window.set_cursor(&mut doc, kind);
        window.hide_cursor(&mut doc, true);
        assert_eq!(cursor_attribute(&doc, &window).as_deref(), Some("none"));
        window.hide_cursor(&mut doc, false);
        assert_eq!(cursor_attribute(&doc, &window).as_deref(), Some(kind.text()));
    }
}

#[test]
fn repeated_hiding_keeps_the_first_previous_cursor() {
    let (mut doc, _target, mut window) = build_window(WindowAttributes::default());
    window.set_cursor(&mut doc, MouseCursor::Crosshair);
    window.hide_cursor(&mut doc, true);
    window.hide_cursor(&mut doc, true);
    window.hide_cursor(&mut doc, false);
    assert_eq!(cursor_attribute(&doc, &window).as_deref(), Some("crosshair"));
}

#[test]
fn monitor_queries_pin_the_documented_behaviour() {
    let (_doc, _target, window) = build_window(WindowAttributes::default());
    // Known discrepancy, kept as documented behaviour: the enumeration is
    // empty while a primary and a current monitor are still reported.
    assert!(window.get_available_monitors().is_empty());
    assert_eq!(window.get_primary_monitor(), MonitorHandle);
    assert_eq!(window.get_current_monitor(), MonitorHandle);
    assert_eq!(window.get_hidpi_factor(), 1);
}

#[test]
fn monitor_handle_reports_no_geometry() {
    let handle = MonitorHandle;
    assert_eq!(handle.get_hidpi_factor(), 1);
    assert!(handle.get_position().is_none());
    assert!(handle.get_dimensions().is_none());
    assert!(handle.get_name().is_none());
}

#[test]
fn unsupported_operations_report_success() {
    let (_doc, _target, window) = build_window(WindowAttributes::default());
    assert!(window.set_cursor_position(LogicalPosition { x: 1, y: 2 }).is_ok());
    assert!(window.grab_cursor(true).is_ok());
    window.show();
    window.hide_window();
    window.set_resizable(false);
    window.set_maximized(true);
    window.set_fullscreen(None);
    window.set_decorations(false);
    window.set_always_on_top(true);
    window.set_window_icon(None);
    window.set_min_dimensions(None);
    window.set_max_dimensions(None);
    window.set_ime_spot(LogicalPosition { x: 0, y: 0 });
    assert_eq!(window.id(), WindowId::dummy());
}

#[test]
fn request_redraw_is_delivered_on_the_next_frame() {
    let (mut doc, mut target, window) = build_window(WindowAttributes::default());
    window.request_redraw(&mut doc);
    window.request_redraw(&mut doc);
    assert_eq!(target.events.len(), 0);
    doc.run_frame(&mut target);
    assert_eq!(
        target.events,
        vec![
            RunnerEvent::RedrawRequested(WindowId),
            RunnerEvent::RedrawRequested(WindowId),
        ]
    );
    assert!(doc.frame_queue.is_empty());
}

#[test]
fn close_releases_every_subscription() {
    let (mut doc, _target, mut window) = build_window(WindowAttributes::default());
    let kinds = [EventKind::PointerDown, EventKind::KeyDown, EventKind::Blur];
    for kind in kinds {
        window
            .subscribe(&mut doc, kind, ListenerOptions::default())
            .expect("the canvas is in the document");
        assert_eq!(doc.registration_count(window.canvas, kind), 1);
    }
    let failures = window.close(&mut doc);
    assert_eq!(failures, 0);
    for kind in kinds {
        assert_eq!(doc.registration_count(window.canvas, kind), 0);
    }
    assert!(!doc.elements[window.canvas].attached);
    assert!(window.listeners.is_empty());
}

#[test]
fn close_survives_a_target_already_removed() {
    let (mut doc, _target, mut window) = build_window(WindowAttributes::default());
    let kinds = [EventKind::PointerDown, EventKind::PointerUp, EventKind::Focus];
    for kind in kinds {
        window
            .subscribe(&mut doc, kind, ListenerOptions::default())
            .expect("the canvas is in the document");
    }
    // The host removed the canvas behind the window's back: every release
    // now fails, is reported, and teardown still finishes all handles.
    doc.detach_element(window.canvas);
    let failures = window.close(&mut doc);
    assert_eq!(failures, 3);
    assert!(window.listeners.is_empty());
    for kind in kinds {
        assert_eq!(doc.registration_count(window.canvas, kind), 0);
    }
}

#[test]
fn subscribe_fails_once_the_canvas_left_the_document() {
    let (mut doc, _target, mut window) = build_window(WindowAttributes::default());
    doc.detach_element(window.canvas);
    let r = window.subscribe(&mut doc, EventKind::Resize, ListenerOptions::default());
    assert!(r.is_err());
    assert_eq!(doc.registration_count(window.canvas, EventKind::Resize), 0);
}

#[test]
fn default_attributes_are_the_documented_ones() {
    let attr = WindowAttributes::default();
    assert!(attr.dimensions.is_none());
    assert!(attr.min_dimensions.is_none());
    assert!(attr.max_dimensions.is_none());
    assert!(attr.resizable);
    assert_eq!(attr.title, "");
    assert!(!attr.maximized);
    assert!(attr.visible);
    assert!(attr.decorations);
    assert!(!attr.always_on_top);
    assert!(attr.window_icon.is_none());
}
