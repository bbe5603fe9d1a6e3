//! The active tool and the stack of tool behaviors.
use vstd::prelude::*;
use super::{spec_end_modification, Editor, EditorView};
use crate::events::ToolEnum;

verus! {

/// The state after another tool is picked: any modification ends; picking
/// the active tool changes nothing.
pub open spec fn spec_set_tool<C, B>(v: EditorView<C, B>, tool: ToolEnum) -> EditorView<C, B> {
    if v.tool == tool {
        v
    } else {
        EditorView { tool, ..spec_end_modification(v) }
    }
}

/// The state when an event is handed to the tool: the behavior on top of
/// the stack, if any, is taken off to handle it and is not finished yet.
pub open spec fn spec_take_behavior<C, B>(v: EditorView<C, B>) -> EditorView<C, B> {
    EditorView {
        behavior_finished: false,
        behaviors: if v.behaviors.len() > 0 {
            v.behaviors.drop_last()
        } else {
            v.behaviors
        },
        ..v
    }
}

/// The state after a behavior has handled an event: it goes back on top of
/// the stack unless it finished.
pub open spec fn spec_restore_behavior<C, B>(v: EditorView<C, B>, b: B) -> EditorView<C, B> {
    if v.behavior_finished {
        v
    } else {
        EditorView { behaviors: v.behaviors.push(b), ..v }
    }
}

impl<C: Copy, B> Editor<C, B> {
    /// The active tool.
    pub fn get_tool(&self) -> (t: ToolEnum)
        ensures
            t == self@.tool,
    {
        self.active_tool_enum
    }

    /// Picks a tool: any modification ends. The user interface builds the
    /// tool of [`crate::events::tool_enum_to_tool`] for it.
    pub fn set_tool(&mut self, tool: ToolEnum)
        ensures
            final(self)@ == spec_set_tool(old(self)@, tool),
    {
        if self.active_tool_enum == tool {
            return;
        }
        self.end_modification();
        self.active_tool_enum = tool;
    }

    /// Takes the behavior that is on top of the stack off it; a behavior
    /// calls this when it has finished. The next behavior handed an event
    /// is then not put back.
    pub fn pop_behavior(&mut self)
        ensures
            final(self)@ == (EditorView {
                behaviors: if old(self)@.behaviors.len() > 0 {
                    old(self)@.behaviors.drop_last()
                } else {
                    old(self)@.behaviors
                },
                behavior_finished: true,
                ..old(self)@
            }),
    {
        self.tool_behaviors.pop();
        self.behavior_finished = true;
    }

    /// Puts a behavior on top of the stack; behaviors of a multi-stage edit
    /// are pushed in the reverse order of their use.
    pub fn push_behavior(&mut self, behavior: B)
        ensures
            final(self)@ == (EditorView { behaviors: old(self)@.behaviors.push(behavior), ..old(self)@ }),
    {
        self.tool_behaviors.push(behavior);
    }

    /// The primary way of setting the editor's current behavior; push
    /// behaviors only for multi-stage edits. This clears all behaviors, ends
    /// any current modification, and puts the new behavior as the only
    /// behavior on the stack.
    pub fn set_behavior(&mut self, behavior: B)
        ensures
            final(self)@ == (EditorView { behaviors: seq![behavior], ..spec_end_modification(old(self)@) }),
    {
        self.end_modification();
        self.tool_behaviors = Vec::new();
        self.push_behavior(behavior);
        assert(self.tool_behaviors@ =~= seq![behavior]);
    }

    /// Drops every behavior.
    pub fn clear_behaviors(&mut self)
        ensures
            final(self)@ == (EditorView { behaviors: Seq::empty(), ..old(self)@ }),
    {
        self.tool_behaviors = Vec::new();
    }

    /// Hands out the behavior that is to handle the next event, if any: it
    /// is taken off the stack until [`Editor::restore_behavior`] is called.
    /// Without a behavior the active tool handles the event.
    pub fn take_behavior(&mut self) -> (b: Option<B>)
        ensures
            final(self)@ == spec_take_behavior(old(self)@),
            b == (if old(self)@.behaviors.len() > 0 {
                Some(old(self)@.behaviors.last())
            } else {
                None
            }),
    {
        self.behavior_finished = false;
        self.tool_behaviors.pop()
    }

    /// Puts the behavior that handled an event back on top of the stack,
    /// unless it finished meanwhile.
    pub fn restore_behavior(&mut self, behavior: B)
        ensures
            final(self)@ == spec_restore_behavior(old(self)@, behavior),
    {
        if !self.behavior_finished {
            self.tool_behaviors.push(behavior);
        }
    }
}

/// A behavior that handles an event without finishing stays on top of the
/// stack, and the stack is as it was.
pub proof fn law_unfinished_behavior_stays<C, B>(v: EditorView<C, B>)
    requires
        v.behaviors.len() > 0,
    ensures
        spec_restore_behavior(spec_take_behavior(v), v.behaviors.last()).behaviors == v.behaviors,
{
    assert(v.behaviors.drop_last().push(v.behaviors.last()) =~= v.behaviors);
}

} // verus!
