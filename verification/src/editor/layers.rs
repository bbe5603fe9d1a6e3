//! Adding, removing, picking and moving layers.
use vstd::prelude::*;
use super::{snapshot, spec_end_modification, Editor, EditorView};
use super::history::{entries_view, HistoryEntryView};
use crate::layer::{layers_view, Layer, LayerOperation, LayerView, MFEKGlifView};
use crate::text::{decimal, decimal_string};

verus! {

/// The state with one more entry to undo to and nothing to redo.
pub open spec fn with_undo_entry<C, B>(v: EditorView<C, B>, e: HistoryEntryView<C>) -> EditorView<C, B> {
    EditorView { undo_stack: v.undo_stack.push(e), redo_stack: Seq::empty(), ..v }
}

/// The state with the layers of its glyph replaced.
pub open spec fn with_layers<C, B>(v: EditorView<C, B>, layers: Seq<LayerView<C>>) -> EditorView<C, B> {
    EditorView { glyph: Some(MFEKGlifView { layers, ..v.glyph->0 }), ..v }
}

/// The state with no contour, point or selection picked.
pub open spec fn with_nothing_picked<C, B>(v: EditorView<C, B>) -> EditorView<C, B> {
    EditorView { contour_idx: None, point_idx: None, selected: Set::empty(), ..v }
}

/// The empty, visible layer added under the name of its index.
pub open spec fn fresh_layer<C>(index: nat) -> LayerView<C> {
    LayerView { name: decimal(index), visible: true, operation: None, outline: Seq::empty() }
}

/// The state after a layer is added: the state before is recorded to undo
/// to, any modification ends, and the new layer is active with nothing
/// picked.
pub open spec fn spec_new_layer<C, B>(v: EditorView<C, B>) -> EditorView<C, B> {
    let n = v.glyph->0.layers.len();
    let v1 = with_undo_entry(v, snapshot(v, "Added layer."@));
    let v2 = spec_end_modification(with_layers(v1, v1.glyph->0.layers.push(fresh_layer(n))));
    with_nothing_picked(EditorView { layer_idx: Some(n as usize), preview_dirty: true, ..v2 })
}

/// The state after the layer at `idx` is deleted: the last layer of a glyph
/// is never deleted; otherwise any modification ends, the state before the
/// deletion is recorded to undo to where asked, the layer goes, the layer
/// before the active one becomes active unless the first is, and nothing is
/// picked.
pub open spec fn spec_delete_layer<C, B>(v: EditorView<C, B>, idx: int, add_history: bool) -> EditorView<C, B> {
    if v.glyph->0.layers.len() == 1 {
        v
    } else {
        let v1 = spec_end_modification(v);
        let v2 = if add_history {
            with_undo_entry(v1, snapshot(v1, "Deleted layer."@))
        } else {
            v1
        };
        let v3 = with_layers(v2, v2.glyph->0.layers.remove(idx));
        let li = if v.layer_idx != Some(0usize) {
            Some((v.layer_idx->0 - 1) as usize)
        } else {
            v.layer_idx
        };
        with_nothing_picked(EditorView { layer_idx: li, preview_dirty: true, ..v3 })
    }
}

/// The state after the tool is reset: any modification ends and no tool
/// behavior is left.
pub open spec fn spec_reset_tool<C, B>(v: EditorView<C, B>) -> EditorView<C, B> {
    EditorView { behaviors: Seq::empty(), ..spec_end_modification(v) }
}

/// The state after the layer at `idx` is made active: leaving another layer
/// resets the tool; nothing is picked.
pub open spec fn spec_set_active_layer<C, B>(v: EditorView<C, B>, idx: usize) -> EditorView<C, B> {
    let v1 = if v.layer_idx is Some && idx != v.layer_idx->0 {
        spec_reset_tool(v)
    } else {
        v
    };
    with_nothing_picked(EditorView { layer_idx: Some(idx), ..v1 })
}

/// The index of the active layer after two layers swap places: the active
/// layer was `src` or `dest`, it is `dest` afterwards.
pub open spec fn swapped_layer_idx(li: Option<usize>, src: usize, dest: usize) -> Option<usize> {
    let li1 = if li == Some(dest) {
        Some(src)
    } else {
        li
    };
    if li1 == Some(src) {
        Some(dest)
    } else {
        li1
    }
}

/// The state after the layers at `src` and `dest` swap places. Where the
/// layer that lands first had no operation before, the first layer keeps
/// none either.
pub open spec fn spec_swap_layers<C, B>(v: EditorView<C, B>, src: int, dest: int, add_history: bool) -> EditorView<C, B> {
    let v1 = if add_history {
        with_undo_entry(v, snapshot(v, "Layer moved."@))
    } else {
        v
    };
    let ls = v1.glyph->0.layers;
    let swapped = ls.update(dest, ls[src]).update(src, ls[dest]);
    let fixed = if dest == 0 && swapped[src].operation is None {
        swapped.update(dest, LayerView { operation: None, ..swapped[dest] })
    } else {
        swapped
    };
    EditorView {
        layer_idx: swapped_layer_idx(v.layer_idx, src as usize, dest as usize),
        preview_dirty: true,
        ..with_layers(v1, fixed)
    }
}

/// Deleting the layer at `idx` of a glyph with more than one layer leaves
/// exactly the other layers, in their order: those before `idx` stay where
/// they were, those after it move up by one, and the glyph has one layer
/// fewer. A glyph's only layer is never deleted.
pub proof fn law_delete_layer_removes_that_layer<C, B>(v: EditorView<C, B>, idx: int, add_history: bool)
    requires
        v.glyph is Some,
        0 <= idx < v.glyph->0.layers.len(),
    ensures
        ({
            let old_ls = v.glyph->0.layers;
            let new_ls = spec_delete_layer(v, idx, add_history).glyph->0.layers;
            if old_ls.len() == 1 {
                new_ls == old_ls
            } else {
                &&& new_ls.len() == old_ls.len() - 1
                &&& forall|j: int| 0 <= j < idx ==> new_ls[j] == old_ls[j]
                &&& forall|j: int| idx <= j < new_ls.len() ==> new_ls[j] == old_ls[j + 1]
            }
        }),
{
}

impl<C: Copy, B> Editor<C, B> {
    /// Adds an empty, visible layer named by its index and makes it active;
    /// the state before is recorded to undo to.
    pub fn new_layer(&mut self)
        requires
            old(self)@.glyph is Some,
            old(self)@.glyph->0.layers.len() < usize::MAX,
        ensures
            final(self)@ == spec_new_layer(old(self)@),
    {
        let n = self.glyph.as_ref().unwrap().layers.len();
        let new_layer = Layer { name: decimal_string(n), visible: true, operation: None, outline: Vec::new() };
        let entry = self.entry_from_desc("Added layer.");
        self.history.add_undo_entry(entry);
        let ghost v1 = self@;
        assert(entries_view(self.history.undo_stack@) =~= entries_view(old(self).history.undo_stack@).push(entry@));
        assert(entries_view(self.history.redo_stack@) =~= Seq::<HistoryEntryView<C>>::empty());
        assert(v1 == with_undo_entry(old(self)@, snapshot(old(self)@, "Added layer."@)));
        match &mut self.glyph {
            Some(g) => {
                let ghost before = g.layers@;
                g.layers.push(new_layer);
                assert(layers_view(g.layers@) =~= layers_view(before).push(new_layer@));
                assert(new_layer@.outline =~= Seq::<Seq<crate::glifparser::Point<C>>>::empty());
            },
            None => {},
        }
        assert(self@ == with_layers(v1, v1.glyph->0.layers.push(fresh_layer(n as nat))));
        self.end_modification();
        self.layer_idx = Some(n);
        self.contour_idx = None;
        self.point_idx = None;
        self.selected.clear();
        self.mark_preview_dirty();
    }

    /// Deletes the layer at `idx`, unless it is the glyph's only layer; the
    /// layer before the active one becomes active unless the first is.
    pub fn delete_layer(&mut self, idx: usize, add_history: bool)
        requires
            old(self)@.glyph is Some,
            old(self)@.glyph->0.layers.len() != 1 ==> idx < old(self)@.glyph->0.layers.len()
                && old(self)@.layer_idx is Some,
        ensures
            final(self)@ == spec_delete_layer(old(self)@, idx as int, add_history),
    {
        if self.glyph.as_ref().unwrap().layers.len() == 1 {
            return;
        }
        self.end_modification();
        if add_history {
            let entry = self.entry_from_desc("Deleted layer.");
            let ghost v0 = self@;
            self.history.add_undo_entry(entry);
            assert(entries_view(self.history.undo_stack@) =~= v0.undo_stack.push(entry@));
            assert(entries_view(self.history.redo_stack@) =~= Seq::<HistoryEntryView<C>>::empty());
        }
        let ghost v2 = self@;
        match &mut self.glyph {
            Some(g) => {
                let ghost before = g.layers@;
                g.layers.remove(idx);
                assert(layers_view(g.layers@) =~= layers_view(before).remove(idx as int));
            },
            None => {},
        }
        assert(self@ == with_layers(v2, v2.glyph->0.layers.remove(idx as int)));
        if self.layer_idx != Some(0) {
            self.layer_idx = Some(self.layer_idx.unwrap() - 1);
        }
        self.contour_idx = None;
        self.point_idx = None;
        self.selected.clear();
        self.mark_preview_dirty();
    }

    /// Ends any modification and drops every tool behavior; the user
    /// interface rebuilds the tool itself from [`Editor::get_tool`].
    pub fn reset_tool(&mut self)
        ensures
            final(self)@ == spec_reset_tool(old(self)@),
    {
        self.end_modification();
        self.clear_behaviors();
    }

    /// Makes the layer at `idx` active; leaving another layer resets the
    /// tool. Nothing is picked afterwards.
    pub fn set_active_layer(&mut self, idx: usize)
        ensures
            final(self)@ == spec_set_active_layer(old(self)@, idx),
    {
        if let Some(old_idx) = self.layer_idx {
            if idx != old_idx {
                self.reset_tool();
            }
        }
        self.layer_idx = Some(idx);
        self.contour_idx = None;
        self.point_idx = None;
        self.selected.clear();
    }

    /// Makes the layer at `idx` active, leaving the rest as it is.
    pub fn swap_active_layer(&mut self, idx: usize)
        ensures
            final(self)@ == (EditorView { layer_idx: Some(idx), ..old(self)@ }),
    {
        self.layer_idx = Some(idx);
    }

    /// The index of the active layer.
    pub fn get_active_layer(&self) -> (r: usize)
        requires
            self@.layer_idx is Some,
        ensures
            Some(r) == self@.layer_idx,
    {
        self.layer_idx.unwrap()
    }

    /// Swaps the layers at `src` and `dest`; the state before is recorded to
    /// undo to where asked.
    pub fn swap_layers(&mut self, src: usize, dest: usize, add_history: bool)
        requires
            old(self)@.glyph is Some,
            src < old(self)@.glyph->0.layers.len(),
            dest < old(self)@.glyph->0.layers.len(),
            add_history ==> old(self)@.layer_idx is Some && old(self)@.layer_idx->0
                < old(self)@.glyph->0.layers.len(),
        ensures
            final(self)@ == spec_swap_layers(old(self)@, src as int, dest as int, add_history),
    {
        if add_history {
            let entry = self.entry_from_desc("Layer moved.");
            let ghost v0 = self@;
            self.history.add_undo_entry(entry);
            assert(entries_view(self.history.undo_stack@) =~= v0.undo_stack.push(entry@));
            assert(entries_view(self.history.redo_stack@) =~= Seq::<HistoryEntryView<C>>::empty());
        }
        let ghost v1 = self@;
        let li = self.layer_idx;
        let new_li = if li == Some(dest) {
            Some(src)
        } else {
            li
        };
        let new_li = if new_li == Some(src) {
            Some(dest)
        } else {
            new_li
        };
        match &mut self.glyph {
            Some(g) => {
                let ghost ls = layers_view(g.layers@);
                let src_copy = g.layers[src].duplicate();
                let dest_copy = g.layers[dest].duplicate();
                g.layers.set(dest, src_copy);
                g.layers.set(src, dest_copy);
                let ghost swapped = ls.update(dest as int, ls[src as int]).update(src as int, ls[dest as int]);
                assert(layers_view(g.layers@) =~= swapped);
                if dest == 0 && g.layers[src].operation.is_none() {
                    let mut l = g.layers[dest].duplicate();
                    l.operation = None;
                    g.layers.set(dest, l);
                    assert(layers_view(g.layers@) =~= swapped.update(
                        dest as int,
                        LayerView { operation: None, ..swapped[dest as int] },
                    ));
                }
            },
            None => {},
        }
        self.layer_idx = new_li;
        self.mark_preview_dirty();
    }

    /// The number of layers of the glyph.
    pub fn get_layer_count(&self) -> (r: usize)
        requires
            self@.glyph is Some,
        ensures
            r == self@.glyph->0.layers.len(),
    {
        self.glyph.as_ref().unwrap().layers.len()
    }
}

} // verus!
