use web_window::event::{EventKind, RunnerEvent};
use web_window::event_handle::{EventListenerHandle, ReleaseOutcome};
use web_window::event_loop::EventLoopTarget;
use web_window::host::{HostDocument, ListenerOptions};

fn doc_with_element() -> (HostDocument, usize) {
    let mut doc = HostDocument::new(true, true);
    let id = doc.create_element().expect("the host can create elements");
    doc.append_to_body(id).expect("the document has a body");
    (doc, id)
}

#[test]
fn attach_makes_exactly_one_registration() {
    let (mut doc, id) = doc_with_element();
    assert_eq!(doc.registration_count(id, EventKind::PointerDown), 0);
    let mut handle = EventListenerHandle::new(
        &mut doc,
        id,
        EventKind::PointerDown,
        ListenerOptions::default(),
    )
    .expect("the target is in the document");
    assert_eq!(doc.registration_count(id, EventKind::PointerDown), 1);
    let outcome = handle.release(&mut doc);
    assert_eq!(outcome, ReleaseOutcome::Released);
    assert_eq!(doc.registration_count(id, EventKind::PointerDown), 0);
}

#[test]
fn attach_fails_on_missing_target() {
    let mut doc = HostDocument::new(true, true);
    let r = EventListenerHandle::new(&mut doc, 5, EventKind::Focus, ListenerOptions::default());
    assert!(r.is_err());
    assert_eq!(doc.registration_count(5, EventKind::Focus), 0);
}

#[test]
fn attach_fails_on_detached_target() {
    let mut doc = HostDocument::new(true, true);
    let id = doc.create_element().expect("the host can create elements");
    // The element was never appended to the body.
    let r = EventListenerHandle::new(&mut doc, id, EventKind::KeyUp, ListenerOptions::default());
    assert!(r.is_err());
}

#[test]
fn release_is_guarded_against_a_second_call() {
    let (mut doc, id) = doc_with_element();
    let mut handle =
        EventListenerHandle::new(&mut doc, id, EventKind::Blur, ListenerOptions::default())
            .expect("the target is in the document");
    assert_eq!(handle.release(&mut doc), ReleaseOutcome::Released);
    assert_eq!(handle.release(&mut doc), ReleaseOutcome::AlreadyReleased);
    assert_eq!(doc.registration_count(id, EventKind::Blur), 0);
}

#[test]
fn release_after_target_removed_reports_failure_without_panic() {
    let (mut doc, id) = doc_with_element();
    let mut handle =
        EventListenerHandle::new(&mut doc, id, EventKind::KeyDown, ListenerOptions::default())
            .expect("the target is in the document");
    doc.detach_element(id);
    let outcome = handle.release(&mut doc);
    assert_eq!(outcome, ReleaseOutcome::HostFailure);
    assert_eq!(doc.registration_count(id, EventKind::KeyDown), 0);
}

#[test]
fn fire_delivers_only_while_registered() {
    let (mut doc, id) = doc_with_element();
    let mut runner = EventLoopTarget::new();
    let mut handle =
        EventListenerHandle::new(&mut doc, id, EventKind::PointerUp, ListenerOptions::default())
            .expect("the target is in the document");
    doc.fire_listener(handle.callback, &mut runner);
    assert_eq!(
        runner.events,
        vec![RunnerEvent::Listener { target: id, kind: EventKind::PointerUp }]
    );
    assert_eq!(handle.release(&mut doc), ReleaseOutcome::Released);
    doc.fire_listener(handle.callback, &mut runner);
    // The released registration delivers nothing.
    assert_eq!(runner.events.len(), 1);
}

#[test]
fn fire_delivers_nothing_for_unknown_callback() {
    let (doc, _id) = doc_with_element();
    let mut runner = EventLoopTarget::new();
    doc.fire_listener(42, &mut runner);
    assert!(runner.events.is_empty());
}

#[test]
fn listener_options_default_to_neither_capture_nor_passive() {
    let options = ListenerOptions::default();
    assert!(!options.capture);
    assert!(!options.passive);
}
