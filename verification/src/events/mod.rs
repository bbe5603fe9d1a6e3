//! The tools of the editor and the events they receive.
use vstd::prelude::*;
use crate::editor::{Editor, EditorView};

pub mod console;
pub mod pen;
pub mod select;
pub mod vws;

verus! {

/// The tools the user can pick.
#[derive(Debug, Clone, Copy, PartialEq, Eq, Structural)]
pub enum ToolEnum {
    Pan,
    Pen,
    Select,
    Zoom,
    Measure,
    VWS,
}

/// The tool that is built when a tool is picked: the variable width stroke
/// tool is not enabled yet, so picking it builds the pan tool.
pub open spec fn spec_tool_enum_to_tool(tool: ToolEnum) -> ToolEnum {
    match tool {
        ToolEnum::VWS => ToolEnum::Pan,
        t => t,
    }
}

/// The tool that is built when `tool` is picked; the user interface builds
/// the tool object of that kind.
pub fn tool_enum_to_tool(tool: ToolEnum) -> (t: ToolEnum)
    ensures
        t == spec_tool_enum_to_tool(tool),
{
    match tool {
        ToolEnum::Pan => ToolEnum::Pan,
        ToolEnum::Pen => ToolEnum::Pen,
        ToolEnum::Select => ToolEnum::Select,
        ToolEnum::Zoom => ToolEnum::Zoom,
        ToolEnum::Measure => ToolEnum::Measure,
        ToolEnum::VWS => ToolEnum::Pan,
    }
}

/// Which buttons of the toolbox were clicked while it was drawn.
#[derive(Debug, Clone, Copy, PartialEq, Eq, Structural)]
pub struct ToolboxClicks {
    pub select: bool,
    pub pan: bool,
    pub zoom: bool,
    pub pen: bool,
}

/// The tool after the toolbox is drawn: the buttons are drawn in the order
/// select, pan, zoom, pen, and each one clicked picks its tool, so the last
/// clicked wins; with none clicked the tool stays.
pub open spec fn spec_toolbox_tool(tool: ToolEnum, clicks: ToolboxClicks) -> ToolEnum {
    if clicks.pen {
        ToolEnum::Pen
    } else if clicks.zoom {
        ToolEnum::Zoom
    } else if clicks.pan {
        ToolEnum::Pan
    } else if clicks.select {
        ToolEnum::Select
    } else {
        tool
    }
}

/// The tool after the toolbox is drawn; see `spec_toolbox_tool`.
pub fn toolbox_tool(tool: ToolEnum, clicks: ToolboxClicks) -> (t: ToolEnum)
    ensures
        t == spec_toolbox_tool(tool, clicks),
{
    let mut t = tool;
    if clicks.select {
        t = ToolEnum::Select;
    }
    if clicks.pan {
        t = ToolEnum::Pan;
    }
    if clicks.zoom {
        t = ToolEnum::Zoom;
    }
    if clicks.pen {
        t = ToolEnum::Pen;
    }
    t
}

/// What the mouse did.
#[derive(Debug, Clone, Copy, PartialEq, Eq, Structural)]
pub enum MouseEventType {
    Pressed,
    Released,
    Moved,
}


/// Switching tools forgets the contour and point clicked last.
pub fn mode_switched<C: Copy, B>(v: &mut Editor<C, B>, from: ToolEnum, to: ToolEnum)
    ensures
        final(v)@ == (EditorView { contour_idx: None, point_idx: None, ..old(v)@ }),
{
    v.contour_idx = None;
    v.point_idx = None;
}

} // verus!
