use vstd::prelude::*;

verus! {

/// The closed set of cursor appearances a window can ask for. Each kind maps
/// to exactly one CSS cursor keyword; the match in [`MouseCursor::text`] is
/// exhaustive, so adding a kind without a keyword fails to compile.
#[derive(Clone, Copy, Debug, PartialEq, Eq, Hash, Structural)]
pub enum MouseCursor {
    Default,
    Crosshair,
    Hand,
    Arrow,
    Move,
    Text,
    Wait,
    Help,
    Progress,
    NotAllowed,
    ContextMenu,
    Cell,
    VerticalText,
    Alias,
    Copy,
    NoDrop,
    Grab,
    Grabbing,
    AllScroll,
    ZoomIn,
    ZoomOut,
    EResize,
    NResize,
    NeResize,
    NwResize,
    SResize,
    SeResize,
    SwResize,
    WResize,
    EwResize,
    NsResize,
    NeswResize,
    NwseResize,
    ColResize,
    RowResize,
}

/// The CSS keyword written for a cursor kind, as a sequence of characters.
pub open spec fn cursor_css(cursor: MouseCursor) -> Seq<char> {
    match cursor {
        MouseCursor::Default => "auto"@,
        MouseCursor::Crosshair => "crosshair"@,
        MouseCursor::Hand => "pointer"@,
        MouseCursor::Arrow => "default"@,
        MouseCursor::Move => "move"@,
        MouseCursor::Text => "text"@,
        MouseCursor::Wait => "wait"@,
        MouseCursor::Help => "help"@,
        MouseCursor::Progress => "progress"@,
        MouseCursor::NotAllowed => "not-allowed"@,
        MouseCursor::ContextMenu => "context-menu"@,
        MouseCursor::Cell => "cell"@,
        MouseCursor::VerticalText => "vertical-text"@,
        MouseCursor::Alias => "alias"@,
        MouseCursor::Copy => "copy"@,
        MouseCursor::NoDrop => "no-drop"@,
        MouseCursor::Grab => "grab"@,
        MouseCursor::Grabbing => "grabbing"@,
        MouseCursor::AllScroll => "all-scroll"@,
        MouseCursor::ZoomIn => "zoom-in"@,
        MouseCursor::ZoomOut => "zoom-out"@,
        MouseCursor::EResize => "e-resize"@,
        MouseCursor::NResize => "n-resize"@,
        MouseCursor::NeResize => "ne-resize"@,
        MouseCursor::NwResize => "nw-resize"@,
        MouseCursor::SResize => "s-resize"@,
        MouseCursor::SeResize => "se-resize"@,
        MouseCursor::SwResize => "sw-resize"@,
        MouseCursor::WResize => "w-resize"@,
        MouseCursor::EwResize => "ew-resize"@,
        MouseCursor::NsResize => "ns-resize"@,
        MouseCursor::NeswResize => "nesw-resize"@,
        MouseCursor::NwseResize => "nwse-resize"@,
        MouseCursor::ColResize => "col-resize"@,
        MouseCursor::RowResize => "row-resize"@,
    }
}

impl MouseCursor {
    /// The CSS cursor keyword for this kind.
    pub fn text(&self) -> (r: &'static str)
        ensures
            r@ == cursor_css(*self),
    {
        match self {
            MouseCursor::Default => "auto",
            MouseCursor::Crosshair => "crosshair",
            MouseCursor::Hand => "pointer",
            MouseCursor::Arrow => "default",
            MouseCursor::Move => "move",
            MouseCursor::Text => "text",
            MouseCursor::Wait => "wait",
            MouseCursor::Help => "help",
            MouseCursor::Progress => "progress",
            MouseCursor::NotAllowed => "not-allowed",
            MouseCursor::ContextMenu => "context-menu",
            MouseCursor::Cell => "cell",
            MouseCursor::VerticalText => "vertical-text",
            MouseCursor::Alias => "alias",
            MouseCursor::Copy => "copy",
            MouseCursor::NoDrop => "no-drop",
            MouseCursor::Grab => "grab",
            MouseCursor::Grabbing => "grabbing",
            MouseCursor::AllScroll => "all-scroll",
            MouseCursor::ZoomIn => "zoom-in",
            MouseCursor::ZoomOut => "zoom-out",
            MouseCursor::EResize => "e-resize",
            MouseCursor::NResize => "n-resize",
            MouseCursor::NeResize => "ne-resize",
            MouseCursor::NwResize => "nw-resize",
            MouseCursor::SResize => "s-resize",
            MouseCursor::SeResize => "se-resize",
            MouseCursor::SwResize => "sw-resize",
            MouseCursor::WResize => "w-resize",
            MouseCursor::EwResize => "ew-resize",
            MouseCursor::NsResize => "ns-resize",
            MouseCursor::NeswResize => "nesw-resize",
            MouseCursor::NwseResize => "nwse-resize",
            MouseCursor::ColResize => "col-resize",
            MouseCursor::RowResize => "row-resize",
        }
    }
}

} // verus!
