use web_window::cursor::MouseCursor;
use web_window::event::EventKind;

fn all_kinds() -> Vec<(MouseCursor, &'static str)> {
    vec![
        (MouseCursor::Default, "auto"),
        (MouseCursor::Crosshair, "crosshair"),
        (MouseCursor::Hand, "pointer"),
        (MouseCursor::Arrow, "default"),
        (MouseCursor::Move, "move"),
        (MouseCursor::Text, "text"),
        (MouseCursor::Wait, "wait"),
        (MouseCursor::Help, "help"),
        (MouseCursor::Progress, "progress"),
        (MouseCursor::NotAllowed, "not-allowed"),
        (MouseCursor::ContextMenu, "context-menu"),
        (MouseCursor::Cell, "cell"),
        (MouseCursor::VerticalText, "vertical-text"),
        (MouseCursor::Alias, "alias"),
        (MouseCursor::Copy, "copy"),
        (MouseCursor::NoDrop, "no-drop"),
        (MouseCursor::Grab, "grab"),
        (MouseCursor::Grabbing, "grabbing"),
        (MouseCursor::AllScroll, "all-scroll"),
        (MouseCursor::ZoomIn, "zoom-in"),
        (MouseCursor::ZoomOut, "zoom-out"),
        (MouseCursor::EResize, "e-resize"),
        (MouseCursor::NResize, "n-resize"),
        (MouseCursor::NeResize, "ne-resize"),
        (MouseCursor::NwResize, "nw-resize"),
        (MouseCursor::SResize, "s-resize"),
        (MouseCursor::SeResize, "se-resize"),
        (MouseCursor::SwResize, "sw-resize"),
        (MouseCursor::WResize, "w-resize"),
        (MouseCursor::EwResize, "ew-resize"),
        (MouseCursor::NsResize, "ns-resize"),
        (MouseCursor::NeswResize, "nesw-resize"),
        (MouseCursor::NwseResize, "nwse-resize"),
        (MouseCursor::ColResize, "col-resize"),
        (MouseCursor::RowResize, "row-resize"),
    ]
}

#[test]
fn cursor_keywords_are_exact() {
    let kinds = all_kinds();
    assert_eq!(kinds.len(), 35);
    for (kind, keyword) in kinds {
        assert_eq!(kind.text(), keyword);
    }
}

#[test]
fn event_kind_dom_names_are_exact() {
    let pairs = vec![
        (EventKind::Resize, "resize"),
        (EventKind::PointerDown, "pointerdown"),
        (EventKind::PointerUp, "pointerup"),
        (EventKind::PointerMove, "pointermove"),
        (EventKind::KeyDown, "keydown"),
        (EventKind::KeyUp, "keyup"),
        (EventKind::Focus, "focus"),
        (EventKind::Blur, "blur"),
    ];
    for (kind, name) in pairs {
        assert_eq!(kind.dom_name(), name);
    }
}
