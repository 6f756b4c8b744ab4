use vstd::prelude::*;

verus! {

/// A pointer-interaction kind reported by the toolkit after an update pass.
#[derive(Clone, Copy, Debug, PartialEq, Eq, Structural)]
pub enum Interaction {
    Unspecified,
    Hidden,
    Idle,
    ContextMenu,
    Help,
    Pointer,
    Progress,
    Wait,
    Cell,
    Crosshair,
    Text,
    Alias,
    Copy,
    Move,
    NoDrop,
    NotAllowed,
    Grab,
    Grabbing,
    ResizingHorizontally,
    ResizingVertically,
    ResizingDiagonallyUp,
    ResizingDiagonallyDown,
    ResizingColumn,
    ResizingRow,
    AllScroll,
    ZoomIn,
    ZoomOut,
}

/// A cursor icon the host window can show.
#[derive(Clone, Copy, Debug, PartialEq, Eq, Structural)]
pub enum CursorIcon {
    Default,
    ContextMenu,
    Help,
    Hand,
    Progress,
    Wait,
    Cell,
    Crosshair,
    Text,
    Alias,
    Copy,
    Move,
    NoDrop,
    NotAllowed,
    Grab,
    Grabbing,
    EwResize,
    NsResize,
    NwseResize,
    NeswResize,
    ColResize,
    RowResize,
    AllScroll,
    ZoomIn,
    ZoomOut,
}

/// The host cursor icon that stands for a toolkit interaction. Interactions
/// that ask for no particular shape (unspecified, hidden, idle) show the default
/// arrow.
pub open spec fn icon_for(i: Interaction) -> CursorIcon {
    match i {
        Interaction::Unspecified | Interaction::Hidden | Interaction::Idle => CursorIcon::Default,
        Interaction::ContextMenu => CursorIcon::ContextMenu,
        Interaction::Help => CursorIcon::Help,
        Interaction::Pointer => CursorIcon::Hand,
        Interaction::Progress => CursorIcon::Progress,
        Interaction::Wait => CursorIcon::Wait,
        Interaction::Cell => CursorIcon::Cell,
        Interaction::Crosshair => CursorIcon::Crosshair,
        Interaction::Text => CursorIcon::Text,
        Interaction::Alias => CursorIcon::Alias,
        Interaction::Copy => CursorIcon::Copy,
        Interaction::Move => CursorIcon::Move,
        Interaction::NoDrop => CursorIcon::NoDrop,
        Interaction::NotAllowed => CursorIcon::NotAllowed,
        Interaction::Grab => CursorIcon::Grab,
        Interaction::Grabbing => CursorIcon::Grabbing,
        Interaction::ResizingHorizontally => CursorIcon::EwResize,
        Interaction::ResizingVertically => CursorIcon::NsResize,
        Interaction::ResizingDiagonallyUp => CursorIcon::NwseResize,
        Interaction::ResizingDiagonallyDown => CursorIcon::NeswResize,
        Interaction::ResizingColumn => CursorIcon::ColResize,
        Interaction::ResizingRow => CursorIcon::RowResize,
        Interaction::AllScroll => CursorIcon::AllScroll,
        Interaction::ZoomIn => CursorIcon::ZoomIn,
        Interaction::ZoomOut => CursorIcon::ZoomOut,
    }
}

/// Maps a toolkit interaction to the host cursor icon to display.
pub fn convert_cursor_icon(interaction: Interaction) -> (r: CursorIcon)
    ensures
        r == icon_for(interaction),
{
    match interaction {
        Interaction::Unspecified | Interaction::Hidden | Interaction::Idle => CursorIcon::Default,
        Interaction::ContextMenu => CursorIcon::ContextMenu,
        Interaction::Help => CursorIcon::Help,
        Interaction::Pointer => CursorIcon::Hand,
        Interaction::Progress => CursorIcon::Progress,
        Interaction::Wait => CursorIcon::Wait,
        Interaction::Cell => CursorIcon::Cell,
        Interaction::Crosshair => CursorIcon::Crosshair,
        Interaction::Text => CursorIcon::Text,
        Interaction::Alias => CursorIcon::Alias,
        Interaction::Copy => CursorIcon::Copy,
        Interaction::Move => CursorIcon::Move,
        Interaction::NoDrop => CursorIcon::NoDrop,
        Interaction::NotAllowed => CursorIcon::NotAllowed,
        Interaction::Grab => CursorIcon::Grab,
        Interaction::Grabbing => CursorIcon::Grabbing,
        Interaction::ResizingHorizontally => CursorIcon::EwResize,
        Interaction::ResizingVertically => CursorIcon::NsResize,
        Interaction::ResizingDiagonallyUp => CursorIcon::NwseResize,
        Interaction::ResizingDiagonallyDown => CursorIcon::NeswResize,
        Interaction::ResizingColumn => CursorIcon::ColResize,
        Interaction::ResizingRow => CursorIcon::RowResize,
        Interaction::AllScroll => CursorIcon::AllScroll,
        Interaction::ZoomIn => CursorIcon::ZoomIn,
        Interaction::ZoomOut => CursorIcon::ZoomOut,
    }
}

} // verus!
