//! Mouse cursor shapes: the toolkit's vocabulary, the host's, and how a
//! toolkit request is carried over to the host.
use vstd::prelude::*;

verus! {

/// A cursor shape that the toolkit asks for.
#[derive(PartialEq, Eq, Structural, Clone, Copy, Debug)]
pub enum ToolkitCursor {
    Default,
    Hidden,
    ContextMenu,
    Help,
    PointingHand,
    Progress,
    Wait,
    Cell,
    Crosshair,
    Text,
    VerticalText,
    Alias,
    Copy,
    Move,
    NoDrop,
    NotAllowed,
    Grab,
    Grabbing,
    AllScroll,
    ResizeHorizontal,
    ResizeNeSw,
    ResizeNwSe,
    ResizeVertical,
    ResizeEast,
    ResizeSouthEast,
    ResizeSouth,
    ResizeSouthWest,
    ResizeWest,
    ResizeNorthWest,
    ResizeNorth,
    ResizeNorthEast,
    ResizeColumn,
    ResizeRow,
    ZoomIn,
    ZoomOut,
}

/// A cursor shape that the host can show.
#[derive(PartialEq, Eq, Structural, Clone, Copy, Debug)]
pub enum HostCursor {
    Default,
    Crosshair,
    Hand,
    Arrow,
    Move,
    Text,
    Wait,
    Help,
    Progress,
    NotAllowed,
    ContextMenu,
    Cell,
    VerticalText,
    Alias,
    Copy,
    NoDrop,
    Grab,
    Grabbing,
    AllScroll,
    ZoomIn,
    ZoomOut,
    EResize,
    NResize,
    NeResize,
    NwResize,
    SResize,
    SeResize,
    SwResize,
    WResize,
    EwResize,
    NsResize,
    NeswResize,
    NwseResize,
    ColResize,
    RowResize,
}

/// The host cursor that stands for a toolkit cursor. Shapes the host has no
/// counterpart for (the hidden cursor, one-sided resizes) fall back to the
/// default arrow.
pub open spec fn host_cursor(c: ToolkitCursor) -> HostCursor {
    match c {
        ToolkitCursor::Default => HostCursor::Default,
        ToolkitCursor::Hidden => HostCursor::Default,
        ToolkitCursor::ContextMenu => HostCursor::ContextMenu,
        ToolkitCursor::Help => HostCursor::Help,
        ToolkitCursor::PointingHand => HostCursor::Hand,
        ToolkitCursor::Progress => HostCursor::Progress,
        ToolkitCursor::Wait => HostCursor::Wait,
        ToolkitCursor::Cell => HostCursor::Cell,
        ToolkitCursor::Crosshair => HostCursor::Crosshair,
        ToolkitCursor::Text => HostCursor::Text,
        ToolkitCursor::VerticalText => HostCursor::VerticalText,
        ToolkitCursor::Alias => HostCursor::Alias,
        ToolkitCursor::Copy => HostCursor::Copy,
        ToolkitCursor::Move => HostCursor::Move,
        ToolkitCursor::NoDrop => HostCursor::NoDrop,
        ToolkitCursor::NotAllowed => HostCursor::NotAllowed,
        ToolkitCursor::Grab => HostCursor::Grab,
        ToolkitCursor::Grabbing => HostCursor::Grabbing,
        ToolkitCursor::AllScroll => HostCursor::AllScroll,
        ToolkitCursor::ResizeHorizontal => HostCursor::EwResize,
        ToolkitCursor::ResizeNeSw => HostCursor::NeswResize,
        ToolkitCursor::ResizeNwSe => HostCursor::NwseResize,
        ToolkitCursor::ResizeVertical => HostCursor::NsResize,
        ToolkitCursor::ZoomIn => HostCursor::ZoomIn,
        ToolkitCursor::ZoomOut => HostCursor::ZoomOut,
        _ => HostCursor::Default,
    }
}

/// Carries a toolkit cursor request over to the host's cursor vocabulary.
pub fn egui_cursor_to_tauri_cursor(egui_cursor: ToolkitCursor) -> (r: HostCursor)
    ensures
        r == host_cursor(egui_cursor),
{
    match egui_cursor {
        ToolkitCursor::Default => HostCursor::Default,
        ToolkitCursor::Hidden => HostCursor::Default,
        ToolkitCursor::ContextMenu => HostCursor::ContextMenu,
        ToolkitCursor::Help => HostCursor::Help,
        ToolkitCursor::PointingHand => HostCursor::Hand,
        ToolkitCursor::Progress => HostCursor::Progress,
        ToolkitCursor::Wait => HostCursor::Wait,
        ToolkitCursor::Cell => HostCursor::Cell,
        ToolkitCursor::Crosshair => HostCursor::Crosshair,
        ToolkitCursor::Text => HostCursor::Text,
        ToolkitCursor::VerticalText => HostCursor::VerticalText,
        ToolkitCursor::Alias => HostCursor::Alias,
        ToolkitCursor::Copy => HostCursor::Copy,
        ToolkitCursor::Move => HostCursor::Move,
        ToolkitCursor::NoDrop => HostCursor::NoDrop,
        ToolkitCursor::NotAllowed => HostCursor::NotAllowed,
        ToolkitCursor::Grab => HostCursor::Grab,
        ToolkitCursor::Grabbing => HostCursor::Grabbing,
        ToolkitCursor::AllScroll => HostCursor::AllScroll,
        ToolkitCursor::ResizeHorizontal => HostCursor::EwResize,
        ToolkitCursor::ResizeNeSw => HostCursor::NeswResize,
        ToolkitCursor::ResizeNwSe => HostCursor::NwseResize,
        ToolkitCursor::ResizeVertical => HostCursor::NsResize,
        ToolkitCursor::ZoomIn => HostCursor::ZoomIn,
        ToolkitCursor::ZoomOut => HostCursor::ZoomOut,
        _ => HostCursor::Default,
    }
}

} // verus!
