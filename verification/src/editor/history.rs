//! The undo and redo stacks of the editor.
use vstd::prelude::*;
use crate::layer::{Guideline, MFEKGlif, MFEKGlifView, PointSelection};

verus! {

/// A state of the editor to go back to: the glyph and where the user was in
/// it.
#[derive(Debug)]
pub struct HistoryEntry<C> {
    pub description: String,
    pub layer_idx: Option<usize>,
    pub contour_idx: Option<usize>,
    pub point_idx: Option<usize>,
    pub guidelines: Vec<Guideline<C>>,
    pub selected: Option<PointSelection>,
    pub glyph: MFEKGlif<C>,
}

/// A history entry with its parts seen by their views.
pub struct HistoryEntryView<C> {
    pub description: Seq<char>,
    pub layer_idx: Option<usize>,
    pub contour_idx: Option<usize>,
    pub point_idx: Option<usize>,
    pub guidelines: Seq<Guideline<C>>,
    pub selected: Option<Set<(usize, usize)>>,
    pub glyph: MFEKGlifView<C>,
}

impl<C> View for HistoryEntry<C> {
    type V = HistoryEntryView<C>;

    open spec fn view(&self) -> HistoryEntryView<C> {
        HistoryEntryView {
            description: self.description@,
            layer_idx: self.layer_idx,
            contour_idx: self.contour_idx,
            point_idx: self.point_idx,
            guidelines: self.guidelines@,
            selected: match self.selected {
                Some(s) => Some(s@),
                None => None,
            },
            glyph: self.glyph@,
        }
    }
}

/// A stack of history entries, each seen by its view.
pub open spec fn entries_view<C>(s: Seq<HistoryEntry<C>>) -> Seq<HistoryEntryView<C>> {
    s.map_values(|e: HistoryEntry<C>| e@)
}

/// The states to undo to, the latest last, and those to redo to.
#[derive(Debug)]
pub struct History<E> {
    pub undo_stack: Vec<E>,
    pub redo_stack: Vec<E>,
}

impl<E> History<E> {
    /// Records a state to undo to. Whatever could be redone is forgotten.
    pub fn add_undo_entry(&mut self, entry: E)
        ensures
            final(self).undo_stack@ == old(self).undo_stack@.push(entry),
            final(self).redo_stack@ == Seq::<E>::empty(),
    {
        self.undo_stack.push(entry);
        self.redo_stack.clear();
    }
}

impl<E> Default for History<E> {
    /// No state to undo or redo to.
    fn default() -> (h: History<E>)
        ensures
            h.undo_stack@ == Seq::<E>::empty(),
            h.redo_stack@ == Seq::<E>::empty(),
    {
        History { undo_stack: Vec::new(), redo_stack: Vec::new() }
    }
}

} // verus!
