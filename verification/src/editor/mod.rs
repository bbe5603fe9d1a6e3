//! The state of the editor and the rules by which it changes: modifications,
//! undo and redo, layers, selection and tool behaviors.
use vstd::prelude::*;
use crate::events::ToolEnum;
use crate::layer::{duplicate_guidelines, Guideline, Layer, MFEKGlif, MFEKGlifView, PointSelection};
use self::history::{entries_view, History, HistoryEntry, HistoryEntryView};

pub mod contour_handlers;
pub mod events;
pub mod guidelines;
pub mod history;
pub mod layers;
pub mod selection;
pub mod tools;
pub mod tunni;
pub mod util;

verus! {

/// The state of the editor: the glyph, the history of its changes, the
/// active layer, the selection and the stack of tool behaviors.
#[derive(Debug)]
pub struct Editor<C, B> {
    pub glyph: Option<MFEKGlif<C>>,
    /// A modification of the active layer is in progress.
    pub modifying: bool,
    /// The glyph was touched since the modification began.
    pub dirty: bool,
    pub history: History<HistoryEntry<C>>,
    pub active_tool_enum: ToolEnum,
    pub layer_idx: Option<usize>,
    pub preview_dirty: bool,
    pub tool_behaviors: Vec<B>,
    pub behavior_finished: bool,
    pub contour_idx: Option<usize>,
    pub point_idx: Option<usize>,
    pub selected: PointSelection,
    pub guidelines: Vec<Guideline<C>>,
    pub quit_requested: bool,
}

/// The editor seen as plain values.
pub struct EditorView<C, B> {
    pub glyph: Option<MFEKGlifView<C>>,
    pub modifying: bool,
    pub dirty: bool,
    pub undo_stack: Seq<HistoryEntryView<C>>,
    pub redo_stack: Seq<HistoryEntryView<C>>,
    pub tool: ToolEnum,
    pub layer_idx: Option<usize>,
    pub preview_dirty: bool,
    pub behaviors: Seq<B>,
    pub behavior_finished: bool,
    pub contour_idx: Option<usize>,
    pub point_idx: Option<usize>,
    pub selected: Set<(usize, usize)>,
    pub guidelines: Seq<Guideline<C>>,
    pub quit_requested: bool,
}

impl<C, B> View for Editor<C, B> {
    type V = EditorView<C, B>;

    open spec fn view(&self) -> EditorView<C, B> {
        EditorView {
            glyph: match self.glyph {
                Some(g) => Some(g@),
                None => None,
            },
            modifying: self.modifying,
            dirty: self.dirty,
            undo_stack: entries_view(self.history.undo_stack@),
            redo_stack: entries_view(self.history.redo_stack@),
            tool: self.active_tool_enum,
            layer_idx: self.layer_idx,
            preview_dirty: self.preview_dirty,
            behaviors: self.tool_behaviors@,
            behavior_finished: self.behavior_finished,
            contour_idx: self.contour_idx,
            point_idx: self.point_idx,
            selected: self.selected@,
            guidelines: self.guidelines@,
            quit_requested: self.quit_requested,
        }
    }
}

/// The state of a fresh editor: no glyph, the pan tool, nothing selected.
pub open spec fn spec_new_editor<C, B>() -> EditorView<C, B> {
    EditorView {
        glyph: None,
        modifying: false,
        dirty: false,
        undo_stack: Seq::empty(),
        redo_stack: Seq::empty(),
        tool: ToolEnum::Pan,
        layer_idx: None,
        preview_dirty: true,
        behaviors: Seq::empty(),
        behavior_finished: true,
        contour_idx: None,
        point_idx: None,
        selected: Set::empty(),
        guidelines: Seq::empty(),
        quit_requested: false,
    }
}

/// The entry that records the current state under a description.
pub open spec fn snapshot<C, B>(v: EditorView<C, B>, description: Seq<char>) -> HistoryEntryView<C> {
    HistoryEntryView {
        description,
        layer_idx: v.layer_idx,
        contour_idx: v.contour_idx,
        point_idx: v.point_idx,
        guidelines: v.guidelines,
        selected: Some(v.selected),
        glyph: v.glyph.unwrap(),
    }
}

/// The state after a modification begins: the current state is recorded to
/// undo to, and what could be redone is forgotten.
pub open spec fn spec_begin_modification<C, B>(v: EditorView<C, B>, description: Seq<char>) -> EditorView<C, B> {
    EditorView {
        undo_stack: v.undo_stack.push(snapshot(v, description)),
        redo_stack: Seq::empty(),
        modifying: true,
        ..v
    }
}

/// The state after a modification ends; without one in progress nothing
/// changes.
pub open spec fn spec_end_modification<C, B>(v: EditorView<C, B>) -> EditorView<C, B> {
    if !v.modifying {
        v
    } else {
        EditorView { modifying: false, preview_dirty: true, ..v }
    }
}

/// The state an entry restores: the glyph, the indices, the guidelines and,
/// where the entry holds one, the selection.
pub open spec fn restore<C, B>(v: EditorView<C, B>, e: HistoryEntryView<C>) -> EditorView<C, B> {
    EditorView {
        glyph: Some(e.glyph),
        layer_idx: e.layer_idx,
        contour_idx: e.contour_idx,
        point_idx: e.point_idx,
        guidelines: e.guidelines,
        selected: match e.selected {
            Some(s) => s,
            None => v.selected,
        },
        preview_dirty: true,
        ..v
    }
}

/// The state after an undo: the latest entry to undo to is restored and the
/// current state becomes the latest to redo to. While a modification is in
/// progress, or with nothing to undo, nothing changes.
pub open spec fn spec_undo<C, B>(v: EditorView<C, B>) -> EditorView<C, B> {
    if v.modifying || v.undo_stack.len() == 0 {
        v
    } else {
        let e = v.undo_stack.last();
        restore(
            EditorView {
                undo_stack: v.undo_stack.drop_last(),
                redo_stack: v.redo_stack.push(snapshot(v, "Undo"@)),
                ..v
            },
            e,
        )
    }
}

/// The state after a redo: the latest entry to redo to is restored and the
/// current state becomes the latest to undo to. While a modification is in
/// progress, or with nothing to redo, nothing changes.
pub open spec fn spec_redo<C, B>(v: EditorView<C, B>) -> EditorView<C, B> {
    if v.modifying || v.redo_stack.len() == 0 {
        v
    } else {
        let e = v.redo_stack.last();
        restore(
            EditorView {
                redo_stack: v.redo_stack.drop_last(),
                undo_stack: v.undo_stack.push(snapshot(v, "Redo"@)),
                ..v
            },
            e,
        )
    }
}

/// The stack without the entries on its top that carry a description.
pub open spec fn drop_described<C>(s: Seq<HistoryEntryView<C>>, d: Seq<char>) -> Seq<HistoryEntryView<C>>
    decreases s.len(),
{
    if s.len() > 0 && s.last().description == d {
        drop_described(s.drop_last(), d)
    } else {
        s
    }
}

/// The undo stack with the entries just below its top that share the top's
/// description removed.
pub open spec fn collapse_stack<C>(s: Seq<HistoryEntryView<C>>) -> Seq<HistoryEntryView<C>> {
    if s.len() == 0 {
        s
    } else {
        drop_described(s.drop_last(), s.last().description).push(s.last())
    }
}

/// The state after the latest entries to undo to that share a description
/// are collapsed into the latest of them.
pub open spec fn spec_collapse_history_entries<C, B>(v: EditorView<C, B>) -> EditorView<C, B> {
    EditorView { undo_stack: collapse_stack(v.undo_stack), ..v }
}

/// The state after the modification in progress is given another
/// description; without one in progress, or with nothing to undo, nothing
/// changes.
pub open spec fn spec_redescribe_modification<C, B>(v: EditorView<C, B>, d: Seq<char>) -> EditorView<C, B> {
    if !v.modifying || v.undo_stack.len() == 0 {
        v
    } else {
        let e = v.undo_stack.last();
        EditorView {
            undo_stack: v.undo_stack.update(
                v.undo_stack.len() - 1,
                HistoryEntryView { description: d, ..e },
            ),
            ..v
        }
    }
}

impl<C: Copy, B> Editor<C, B> {
    /// A fresh editor: no glyph, the pan tool, nothing selected.
    pub fn new() -> (e: Self)
        ensures
            e@ == spec_new_editor::<C, B>(),
    {
        let e = Editor {
            glyph: None,
            modifying: false,
            dirty: false,
            history: History::default(),
            active_tool_enum: ToolEnum::Pan,
            layer_idx: None,
            preview_dirty: true,
            tool_behaviors: Vec::new(),
            behavior_finished: true,
            contour_idx: None,
            point_idx: None,
            selected: PointSelection::new(),
            guidelines: Vec::new(),
            quit_requested: false,
        };
        assert(entries_view(e.history.undo_stack@) =~= Seq::<HistoryEntryView<C>>::empty());
        assert(entries_view(e.history.redo_stack@) =~= Seq::<HistoryEntryView<C>>::empty());
        e
    }

    /// The entry that records the current state under a description.
    fn entry_from_desc(&self, description: &str) -> (r: HistoryEntry<C>)
        requires
            self.glyph is Some,
        ensures
            r@ == snapshot(self@, description@),
    {
        let g = match &self.glyph {
            Some(g) => g.duplicate(),
            None => {
                proof {
                    assert(false);
                }
                MFEKGlif { layers: Vec::new(), name: String::new(), width: None }
            },
        };
        let r = HistoryEntry {
            description: description.to_owned(),
            layer_idx: self.layer_idx,
            contour_idx: self.contour_idx,
            point_idx: self.point_idx,
            guidelines: duplicate_guidelines(&self.guidelines),
            selected: Some(self.selected.duplicate()),
            glyph: g,
        };
        r
    }

    /// Begins a modification of the active layer: records the current state
    /// to undo to. No other modification may be in progress.
    pub fn begin_modification(&mut self, description: &str)
        requires
            !old(self)@.modifying,
            old(self)@.glyph is Some,
        ensures
            final(self)@ == spec_begin_modification(old(self)@, description@),
    {
        let entry = self.entry_from_desc(description);
        self.history.add_undo_entry(entry);
        self.modifying = true;
        assert(entries_view(self.history.undo_stack@) =~= entries_view(
            old(self).history.undo_stack@,
        ).push(entry@));
        assert(entries_view(self.history.redo_stack@) =~= Seq::<HistoryEntryView<C>>::empty());
    }

    /// Ends the modification in progress; without one, nothing changes.
    pub fn end_modification(&mut self)
        ensures
            final(self)@ == spec_end_modification(old(self)@),
    {
        if !self.modifying {
            return;
        }
        self.modifying = false;
        self.mark_preview_dirty();
    }

    /// Whether a modification is in progress.
    pub fn is_modifying(&self) -> (r: bool)
        ensures
            r == self@.modifying,
    {
        self.modifying
    }

    /// Asks for the preview to be rebuilt.
    pub fn mark_preview_dirty(&mut self)
        ensures
            final(self)@ == (EditorView { preview_dirty: true, ..old(self)@ }),
    {
        self.preview_dirty = true;
    }

    /// Notes that the glyph was touched.
    pub fn mark_dirty(&mut self)
        ensures
            final(self)@ == (EditorView { dirty: true, ..old(self)@ }),
    {
        self.dirty = true;
    }

    /// Whether the preview must be rebuilt.
    pub fn is_preview_dirty(&self) -> (r: bool)
        ensures
            r == self@.preview_dirty,
    {
        self.preview_dirty
    }

    /// Notes that the preview was rebuilt.
    pub fn mark_preview_clean(&mut self)
        ensures
            final(self)@ == (EditorView { preview_dirty: false, ..old(self)@ }),
    {
        self.preview_dirty = false;
    }

    /// Puts a glyph in the editor.
    pub fn set_glyph(&mut self, glyph: MFEKGlif<C>)
        ensures
            final(self)@ == (EditorView { glyph: Some(glyph@), ..old(self)@ }),
    {
        self.glyph = Some(glyph);
    }

    /// The glyph in the editor, if any.
    pub fn glyph(&self) -> (r: Option<&MFEKGlif<C>>)
        ensures
            match r {
                Some(g) => self@.glyph == Some(g@),
                None => self@.glyph is None,
            },
    {
        match &self.glyph {
            Some(g) => Some(g),
            None => None,
        }
    }

    /// The active layer.
    pub fn get_active_layer_ref(&self) -> (r: &Layer<C>)
        requires
            self@.glyph is Some,
            self@.layer_idx is Some,
            self@.layer_idx->0 < self@.glyph->0.layers.len(),
        ensures
            r@ == self@.glyph->0.layers[self@.layer_idx->0 as int],
    {
        let g = self.glyph.as_ref().unwrap();
        let i = self.layer_idx.unwrap();
        &g.layers[i]
    }

    /// Readies the editor for a freshly loaded glyph: no guidelines yet, the
    /// first layer active, the preview to be rebuilt.
    pub fn initialize(&mut self)
        ensures
            final(self)@ == (EditorView {
                guidelines: Seq::empty(),
                layer_idx: Some(0),
                preview_dirty: true,
                ..old(self)@
            }),
    {
        self.guidelines.clear();
        self.layer_idx = Some(0);
        self.mark_preview_dirty();
    }

    /// Goes back to the latest state recorded to undo to; the current state
    /// can then be redone. Does nothing while a modification is in progress.
    pub fn undo(&mut self)
        requires
            !old(self)@.modifying && old(self)@.undo_stack.len() > 0 ==> old(self)@.glyph is Some,
        ensures
            final(self)@ == spec_undo(old(self)@),
    {
        if self.modifying {
            return;
        }
        let entry = self.history.undo_stack.pop();
        match entry {
            Some(undo_entry) => {
                let redo_entry = self.entry_from_desc("Undo");
                let ghost redo_before = self.history.redo_stack@;
                self.history.redo_stack.push(redo_entry);
                self.glyph = Some(undo_entry.glyph);
                self.layer_idx = undo_entry.layer_idx;
                self.contour_idx = undo_entry.contour_idx;
                self.point_idx = undo_entry.point_idx;
                self.guidelines = undo_entry.guidelines;
                if let Some(selected) = undo_entry.selected {
                    self.selected = selected;
                }
                self.mark_preview_dirty();
                assert(entries_view(self.history.undo_stack@) =~= entries_view(
                    old(self).history.undo_stack@,
                ).drop_last());
                assert(entries_view(self.history.redo_stack@) =~= entries_view(redo_before).push(
                    redo_entry@,
                ));
            },
            None => {
                assert(entries_view(old(self).history.undo_stack@).len() == 0);
            },
        }
    }

    /// Goes forward to the latest state recorded to redo to; the current
    /// state can then be undone. Does nothing while a modification is in
    /// progress.
    pub fn redo(&mut self)
        requires
            !old(self)@.modifying && old(self)@.redo_stack.len() > 0 ==> old(self)@.glyph is Some,
        ensures
            final(self)@ == spec_redo(old(self)@),
    {
        if self.modifying {
            return;
        }
        let entry = self.history.redo_stack.pop();
        match entry {
            Some(redo_entry) => {
                let undo_entry = self.entry_from_desc("Redo");
                let ghost undo_before = self.history.undo_stack@;
                self.history.undo_stack.push(undo_entry);
                self.glyph = Some(redo_entry.glyph);
                self.layer_idx = redo_entry.layer_idx;
                self.contour_idx = redo_entry.contour_idx;
                self.point_idx = redo_entry.point_idx;
                self.guidelines = redo_entry.guidelines;
                if let Some(selected) = redo_entry.selected {
                    self.selected = selected;
                }
                self.mark_preview_dirty();
                assert(entries_view(self.history.redo_stack@) =~= entries_view(
                    old(self).history.redo_stack@,
                ).drop_last());
                assert(entries_view(self.history.undo_stack@) =~= entries_view(undo_before).push(
                    undo_entry@,
                ));
            },
            None => {
                assert(entries_view(old(self).history.redo_stack@).len() == 0);
            },
        }
    }
}


impl<C: Copy, B> Editor<C, B> {
    /// Collapses the latest entries to undo to that share a description into
    /// the latest of them.
    pub fn collapse_history_entries(&mut self)
        ensures
            final(self)@ == spec_collapse_history_entries(old(self)@),
    {
        let top_entry = self.history.undo_stack.pop();
        if let Some(entry) = top_entry {
            let ghost d = entry.description@;
            let ghost rest0 = entries_view(self.history.undo_stack@);
            assert(rest0 =~= entries_view(old(self).history.undo_stack@).drop_last());
            loop
                invariant
                    d == entry.description@,
                    drop_described(entries_view(self.history.undo_stack@), d) == drop_described(
                        rest0,
                        d,
                    ),
                    self.history.redo_stack == old(self).history.redo_stack,
                    self.glyph == old(self).glyph,
                    self.modifying == old(self).modifying,
                    self.dirty == old(self).dirty,
                    self.active_tool_enum == old(self).active_tool_enum,
                    self.layer_idx == old(self).layer_idx,
                    self.preview_dirty == old(self).preview_dirty,
                    self.tool_behaviors == old(self).tool_behaviors,
                    self.behavior_finished == old(self).behavior_finished,
                    self.contour_idx == old(self).contour_idx,
                    self.point_idx == old(self).point_idx,
                    self.selected == old(self).selected,
                    self.guidelines == old(self).guidelines,
                    self.quit_requested == old(self).quit_requested,
                ensures
                    entries_view(self.history.undo_stack@) == drop_described(rest0, d),
                    self.history.redo_stack == old(self).history.redo_stack,
                    self.glyph == old(self).glyph,
                    self.modifying == old(self).modifying,
                    self.dirty == old(self).dirty,
                    self.active_tool_enum == old(self).active_tool_enum,
                    self.layer_idx == old(self).layer_idx,
                    self.preview_dirty == old(self).preview_dirty,
                    self.tool_behaviors == old(self).tool_behaviors,
                    self.behavior_finished == old(self).behavior_finished,
                    self.contour_idx == old(self).contour_idx,
                    self.point_idx == old(self).point_idx,
                    self.selected == old(self).selected,
                    self.guidelines == old(self).guidelines,
                    self.quit_requested == old(self).quit_requested,
                decreases self.history.undo_stack@.len(),
            {
                let ghost before = self.history.undo_stack@;
                let next_entry = self.history.undo_stack.pop();
                if let Some(next_entry) = next_entry {
                    assert(entries_view(self.history.undo_stack@) =~= entries_view(before).drop_last());
                    assert(entries_view(before).last() == next_entry@);
                    if !crate::text::str_eq(next_entry.description.as_str(), entry.description.as_str()) {
                        self.history.undo_stack.push(next_entry);
                        assert(self.history.undo_stack@ =~= before);
                        break;
                    }
                } else {
                    assert(entries_view(before).len() == 0);
                    break;
                }
            }
            let ghost mid = self.history.undo_stack@;
            self.history.undo_stack.push(entry);
            assert(entries_view(self.history.undo_stack@) =~= entries_view(mid).push(entry@));
        } else {
            assert(entries_view(old(self).history.undo_stack@).len() == 0);
        }
    }

    /// Gives the modification in progress another description; without one
    /// in progress, or with nothing to undo, nothing changes.
    pub fn redescribe_modification(&mut self, description: String)
        ensures
            final(self)@ == spec_redescribe_modification(old(self)@, description@),
    {
        if !self.modifying {
            return;
        }
        let n = self.history.undo_stack.len();
        if n == 0 {
            return;
        }
        let ghost before = self.history.undo_stack@;
        let mut he = self.history.undo_stack.pop().unwrap();
        if crate::text::str_eq(he.description.as_str(), description.as_str()) {
            self.history.undo_stack.push(he);
            assert(self.history.undo_stack@ =~= before);
            assert(entries_view(before).update(
                n - 1,
                HistoryEntryView { description: description@, ..entries_view(before).last() },
            ) =~= entries_view(before));
            return;
        }
        he.description = description;
        self.history.undo_stack.push(he);
        assert(entries_view(self.history.undo_stack@) =~= entries_view(before).update(
            n - 1,
            HistoryEntryView { description: description@, ..entries_view(before).last() },
        ));
    }
}

// ---------------------------------------------------------------------------
// Laws of the history
// ---------------------------------------------------------------------------

/// Undoing a modification restores the glyph, the indices, the guidelines
/// and the selection as they were when it began, and the undo stack as it
/// was before.
pub proof fn law_undo_restores_state_before_modification<C, B>(
    v0: EditorView<C, B>,
    description: Seq<char>,
    edited: EditorView<C, B>,
)
    requires
        !v0.modifying,
        v0.glyph is Some,
        edited.modifying,
        edited.undo_stack == spec_begin_modification(v0, description).undo_stack,
    ensures
        ({
            let after = spec_undo(spec_end_modification(edited));
            &&& after.glyph == v0.glyph
            &&& after.layer_idx == v0.layer_idx
            &&& after.contour_idx == v0.contour_idx
            &&& after.point_idx == v0.point_idx
            &&& after.selected == v0.selected
            &&& after.guidelines == v0.guidelines
            &&& after.undo_stack == v0.undo_stack
            &&& !after.modifying
        }),
{
    let v1 = spec_begin_modification(v0, description);
    assert(v1.undo_stack.drop_last() =~= v0.undo_stack);
}

/// Redoing right after an undo comes back to the state before the undo.
pub proof fn law_redo_after_undo<C, B>(v: EditorView<C, B>)
    requires
        !v.modifying,
        v.undo_stack.len() > 0,
        v.glyph is Some,
    ensures
        ({
            let after = spec_redo(spec_undo(v));
            &&& after.glyph == v.glyph
            &&& after.layer_idx == v.layer_idx
            &&& after.contour_idx == v.contour_idx
            &&& after.point_idx == v.point_idx
            &&& after.selected == v.selected
            &&& after.guidelines == v.guidelines
            &&& after.redo_stack == v.redo_stack
            &&& after.undo_stack.drop_last() == v.undo_stack.drop_last()
            &&& after.undo_stack.len() == v.undo_stack.len()
        }),
{
    let u = spec_undo(v);
    assert(u.redo_stack.drop_last() =~= v.redo_stack);
    assert(spec_redo(u).undo_stack.drop_last() =~= v.undo_stack.drop_last());
}

/// Undoing right after a redo comes back to the state before the redo.
pub proof fn law_undo_after_redo<C, B>(v: EditorView<C, B>)
    requires
        !v.modifying,
        v.redo_stack.len() > 0,
        v.glyph is Some,
    ensures
        ({
            let after = spec_undo(spec_redo(v));
            &&& after.glyph == v.glyph
            &&& after.layer_idx == v.layer_idx
            &&& after.contour_idx == v.contour_idx
            &&& after.point_idx == v.point_idx
            &&& after.selected == v.selected
            &&& after.guidelines == v.guidelines
            &&& after.undo_stack == v.undo_stack
            &&& after.redo_stack.drop_last() == v.redo_stack.drop_last()
            &&& after.redo_stack.len() == v.redo_stack.len()
        }),
{
    let r = spec_redo(v);
    assert(r.undo_stack.drop_last() =~= v.undo_stack);
    assert(spec_undo(r).redo_stack.drop_last() =~= v.redo_stack.drop_last());
}

/// While a modification is in progress, undo and redo change nothing.
pub proof fn law_no_undo_or_redo_while_modifying<C, B>(v: EditorView<C, B>)
    requires
        v.modifying,
    ensures
        spec_undo(v) == v,
        spec_redo(v) == v,
{
}

/// Beginning a modification forgets what could be redone.
pub proof fn law_modification_clears_redo<C, B>(v: EditorView<C, B>, d: Seq<char>)
    requires
        !v.modifying,
        v.glyph is Some,
    ensures
        spec_redo(spec_begin_modification(v, d)) == spec_begin_modification(v, d),
        spec_begin_modification(v, d).redo_stack.len() == 0,
{
}

/// What is left below the dropped entries does not carry the description.
proof fn lemma_drop_described_top<C>(s: Seq<HistoryEntryView<C>>, d: Seq<char>)
    ensures
        drop_described(s, d).len() > 0 ==> drop_described(s, d).last().description != d,
        drop_described(s, d).len() <= s.len(),
    decreases s.len(),
{
    if s.len() > 0 && s.last().description == d {
        lemma_drop_described_top(s.drop_last(), d);
    }
}

/// Collapsing keeps the latest entry on top, never adds entries, and a
/// second collapse changes nothing.
pub proof fn law_collapse_history<C>(s: Seq<HistoryEntryView<C>>)
    ensures
        s.len() > 0 ==> collapse_stack(s).len() > 0 && collapse_stack(s).last() == s.last(),
        collapse_stack(s).len() <= s.len(),
        collapse_stack(collapse_stack(s)) == collapse_stack(s),
{
    if s.len() > 0 {
        let t = s.last();
        let r = drop_described(s.drop_last(), t.description);
        lemma_drop_described_top(s.drop_last(), t.description);
        let c = r.push(t);
        assert(c.drop_last() =~= r);
        assert(c.last() == t);
        assert(drop_described(r, t.description) == r);
    }
}

} // verus!
