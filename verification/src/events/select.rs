//! The select tool: it picks points and handles, drags them, draws a
//! selection box, and joins two open contours when the end of one is
//! dropped on the start of the other. Which point lies under the pointer,
//! and which points lie in the box, the user interface works out; the
//! moves themselves are arithmetic on coordinates and happen there too.
use vstd::prelude::*;
use crate::editor::{spec_begin_modification, spec_end_modification, Editor, EditorView};
use crate::editor::selection::{active_outline, has_active_layer};
use crate::editor::util::{spec_merge_contours, SelectPointInfo};
use crate::glifparser::{outline_view, PointType, WhichHandle};

verus! {

/// How the other handle of a point follows the one dragged.
#[derive(Clone, Copy, Debug, PartialEq, Eq, Structural)]
pub enum Follow {
    /// It mirrors the move.
    Mirror,
    /// It stays on the line through the point.
    ForceLine,
    /// It stays where it is.
    No,
}

/// The select tool: what is being dragged and the corners of the selection
/// box, which are positions of the pointer (`P`).
#[derive(Clone, Copy, Debug)]
pub struct Select<P> {
    pub follow: Follow,
    /// The handle dragged; `None` when the point itself is.
    pub handle: Option<WhichHandle>,
    pub corner_one: Option<P>,
    pub corner_two: Option<P>,
    pub show_sel_box: bool,
    /// A drag is recorded in the history.
    pub modifying: bool,
}

/// What dragging with the select tool moves.
#[derive(Clone, Copy, Debug, PartialEq, Eq, Structural)]
pub enum SelectDrag {
    /// The point `(contour, point)` (and, with ctrl held, the other picked
    /// points along with it).
    Point(usize, usize),
    /// A handle of the point `(contour, point)`.
    Handle(usize, usize, WhichHandle),
    /// The selection box grows to the pointer.
    SelectionBox,
    /// Nothing: the button is up.
    Nothing,
}

/// The state of the editor after a press of the select tool: with a point
/// or handle under the pointer, it becomes the one clicked last, and the
/// selection grows by the point clicked before (shift or ctrl held) or
/// empties; with nothing under the pointer, nothing is clicked any more,
/// and the selection empties unless shift is held.
pub open spec fn spec_select_press<C, B>(
    v: EditorView<C, B>,
    clicked: Option<(usize, usize, Option<WhichHandle>)>,
    shift: bool,
    ctrl: bool,
) -> EditorView<C, B> {
    match clicked {
        Some((ci, pi, _)) => {
            let selected = if shift || ctrl {
                match v.point_idx {
                    Some(p) => v.selected.insert((v.contour_idx->0, p)),
                    None => v.selected,
                }
            } else {
                Set::empty()
            };
            EditorView { contour_idx: Some(ci), point_idx: Some(pi), selected, ..v }
        },
        None => EditorView {
            contour_idx: None,
            point_idx: None,
            selected: if shift { v.selected } else { Set::empty() },
            ..v
        },
    }
}

/// Which end of its contour a point counts as for the select tool: the
/// first point is the start, and every other point counts as the end.
pub open spec fn select_point_end(pi: usize) -> SelectPointInfo {
    if pi == 0 {
        SelectPointInfo::Start
    } else {
        SelectPointInfo::End
    }
}

/// Which end of its contour a point counts as; see `select_point_end`.
fn select_start_or_end(pi: usize) -> (r: SelectPointInfo)
    ensures
        r == select_point_end(pi),
{
    if pi == 0 {
        SelectPointInfo::Start
    } else {
        SelectPointInfo::End
    }
}

/// Whether dropping the dragged point on the point `(ci, pi)` joins their
/// contours: both contours are open, and one point counts as the start of
/// its contour while the other counts as the end of its own.
pub open spec fn select_joins<C, B>(v: EditorView<C, B>, ci: usize, pi: usize) -> bool {
    let o = active_outline(v);
    let vci = v.contour_idx->0;
    &&& o[vci as int][0].ptype == PointType::Move
    &&& o[ci as int][0].ptype == PointType::Move
    &&& select_point_end(pi) != select_point_end(v.point_idx->0)
}

/// The state after the select tool is released over `over` (the point
/// under the dragged point, if any): when a point was dragged onto a point
/// that `select_joins` accepts, the contour whose start is involved is
/// joined to the one whose end is; then the modification ends.
pub open spec fn spec_select_release<C, B>(
    v: EditorView<C, B>,
    dragging_point: bool,
    over: Option<(usize, usize, Option<WhichHandle>)>,
) -> EditorView<C, B> {
    let v1 = if dragging_point && (over matches Some((ci, pi, None)) && select_joins(v, ci, pi)) {
        let ci = (over->0).0;
        let vci = v.contour_idx->0;
        let info = select_point_end(v.point_idx->0);
        let start = if info == SelectPointInfo::Start { vci } else { ci };
        let end = if info == SelectPointInfo::End { vci } else { ci };
        spec_merge_contours(v, start as int, end as int)
    } else {
        v
    };
    spec_end_modification(v1)
}

impl<P: Copy> Select<P> {
    /// A select tool with nothing dragged.
    pub fn new() -> (s: Self)
        ensures
            s.follow == Follow::No,
            s.handle is None,
            s.corner_one is None,
            s.corner_two is None,
            !s.show_sel_box,
            !s.modifying,
    {
        Select {
            follow: Follow::No,
            handle: None,
            corner_one: None,
            corner_two: None,
            show_sel_box: false,
            modifying: false,
        }
    }

    /// A press of the select tool; see `spec_select_press`. `clicked` is
    /// the point or handle under the pointer, `follow` how the other handle
    /// will follow (it comes from the mouse button), `mousepos` where the
    /// pointer is. With nothing clicked, a selection box starts there.
    pub fn mouse_pressed<C, B>(
        &mut self,
        v: &mut Editor<C, B>,
        clicked: Option<(usize, usize, Option<WhichHandle>)>,
        shift: bool,
        ctrl: bool,
        follow: Follow,
        mousepos: P,
    )
        requires
            clicked is Some && (shift || ctrl) && old(v)@.point_idx is Some ==> old(v)@.contour_idx is Some,
        ensures
            final(v)@ == spec_select_press(old(v)@, clicked, shift, ctrl),
            match clicked {
                Some((_, _, wh)) => final(self).follow == follow && final(self).handle == wh
                    && final(self).show_sel_box == old(self).show_sel_box
                    && final(self).corner_one == old(self).corner_one
                    && final(self).corner_two == old(self).corner_two,
                None => final(self).follow == old(self).follow && final(self).handle is None
                    && final(self).show_sel_box && final(self).corner_one == Some(mousepos)
                    && final(self).corner_two == Some(mousepos),
            },
            final(self).modifying == old(self).modifying,
    {
        match clicked {
            Some((ci, pi, wh)) => {
                if shift || ctrl {
                    match v.point_idx {
                        Some(point_idx) => {
                            let c = v.contour_idx.unwrap();
                            v.selected.insert((c, point_idx));
                        },
                        None => {},
                    }
                } else {
                    v.selected.clear();
                }
                v.contour_idx = Some(ci);
                v.point_idx = Some(pi);
                self.follow = follow;
                self.handle = wh;
            },
            None => {
                v.contour_idx = None;
                v.point_idx = None;
                self.handle = None;
                if !shift {
                    v.selected.clear();
                }
                self.show_sel_box = true;
                self.corner_one = Some(mousepos);
                self.corner_two = Some(mousepos);
            },
        }
    }

    /// Dragging with the select tool: tells what the drag moves. Moving a
    /// point or a handle begins a modification the first time, described
    /// as the move of a point or of a handle; otherwise the selection box
    /// grows to the pointer.
    pub fn mouse_moved<C: Copy, B>(&mut self, v: &mut Editor<C, B>, mousedown: bool, mousepos: P) -> (r: SelectDrag)
        requires
            mousedown && old(v)@.contour_idx is Some && old(v)@.point_idx is Some && !old(self).modifying
                ==> !old(v)@.modifying && old(v)@.glyph is Some,
        ensures
            !mousedown ==> r == SelectDrag::Nothing && final(v)@ == old(v)@ && *final(self) == *old(self),
            mousedown ==> match (old(v)@.contour_idx, old(v)@.point_idx) {
                (Some(ci), Some(pi)) => {
                    let desc = if old(self).handle is None { "Move point."@ } else { "Move handle."@ };
                    &&& r == (match old(self).handle {
                        None => SelectDrag::Point(ci, pi),
                        Some(wh) => SelectDrag::Handle(ci, pi, wh),
                    })
                    &&& final(v)@ == (if old(self).modifying {
                        old(v)@
                    } else {
                        spec_begin_modification(old(v)@, desc)
                    })
                    &&& *final(self) == (Select { modifying: true, ..*old(self) })
                },
                _ => r == SelectDrag::SelectionBox && final(v)@ == old(v)@
                    && *final(self) == (Select { corner_two: Some(mousepos), ..*old(self) }),
            },
    {
        if !mousedown {
            return SelectDrag::Nothing;
        }
        match (v.contour_idx, v.point_idx) {
            (Some(ci), Some(pi)) => {
                match self.handle {
                    None => {
                        if !self.modifying {
                            v.begin_modification("Move point.");
                            self.modifying = true;
                        }
                        SelectDrag::Point(ci, pi)
                    },
                    Some(wh) => {
                        if !self.modifying {
                            v.begin_modification("Move handle.");
                            self.modifying = true;
                        }
                        SelectDrag::Handle(ci, pi, wh)
                    },
                }
            },
            _ => {
                self.corner_two = Some(mousepos);
                SelectDrag::SelectionBox
            },
        }
    }

    /// Releasing the select tool; see `spec_select_release`. `over` is the
    /// point or handle under the dragged point, the dragged point left out.
    /// The drag ends and the selection box goes away.
    pub fn mouse_released<C: Copy, B>(&mut self, v: &mut Editor<C, B>, over: Option<(usize, usize, Option<WhichHandle>)>)
        requires
            old(self).handle is None && old(self).modifying ==> {
                let o = active_outline(old(v)@);
                &&& old(v)@.contour_idx is Some
                &&& old(v)@.point_idx is Some
                &&& old(v)@.modifying
                &&& over matches Some((ci, pi, None)) ==> {
                    &&& has_active_layer(old(v)@)
                    &&& old(v)@.contour_idx->0 < o.len()
                    &&& o[old(v)@.contour_idx->0 as int].len() > 0
                    &&& ci < o.len()
                    &&& o[ci as int].len() > 0
                    &&& ci == old(v)@.contour_idx->0 && select_joins(old(v)@, ci, pi)
                        ==> o[ci as int].len() >= 2
                }
            },
        ensures
            final(v)@ == spec_select_release(old(v)@, old(self).handle is None && old(self).modifying, over),
            *final(self) == (Select::<P> {
                modifying: false,
                show_sel_box: false,
                corner_one: None,
                corner_two: None,
                ..*old(self)
            }),
    {
        if self.handle.is_none() && self.modifying {
            let vci = v.contour_idx.unwrap();
            let vpi = v.point_idx.unwrap();
            match over {
                Some((ci, pi, None)) => {
                    let info = select_start_or_end(vpi);
                    let target_info = select_start_or_end(pi);
                    let layer = v.get_active_layer_ref();
                    proof {
                        assert(outline_view(layer.outline@)[vci as int] == layer.outline@[vci as int]@);
                        assert(outline_view(layer.outline@)[ci as int] == layer.outline@[ci as int]@);
                    }
                    let info_type = layer.outline[vci][0].ptype;
                    let target_type = layer.outline[ci][0].ptype;
                    if info_type == PointType::Move && target_type == PointType::Move && target_info != info {
                        let start = if info == SelectPointInfo::Start { vci } else { ci };
                        let end = if info == SelectPointInfo::End { vci } else { ci };
                        v.merge_contours(start, end);
                    }
                },
                _ => {},
            }
        }
        v.end_modification();
        self.modifying = false;
        self.show_sel_box = false;
        self.corner_one = None;
        self.corner_two = None;
    }
}

/// Grows the selection by the points that lie in the selection box
/// (`in_box`, which the user interface finds): the selection is what it
/// was, and those points.
pub fn build_sel_vec_from_rect(selected: &Vec<(usize, usize)>, in_box: &Vec<(usize, usize)>) -> (r: Vec<(usize, usize)>)
    ensures
        r@.to_set() == selected@.to_set().union(in_box@.to_set()),
{
    let mut r: Vec<(usize, usize)> = Vec::new();
    let mut i: usize = 0;
    while i < selected.len()
        invariant
            i <= selected@.len(),
            r@ == selected@.subrange(0, i as int),
        decreases selected@.len() - i,
    {
        r.push(selected[i]);
        i = i + 1;
        assert(r@ =~= selected@.subrange(0, i as int));
    }
    assert(r@ =~= selected@);
    let mut k: usize = 0;
    while k < in_box.len()
        invariant
            k <= in_box@.len(),
            r@ == selected@ + in_box@.subrange(0, k as int),
        decreases in_box@.len() - k,
    {
        r.push(in_box[k]);
        k = k + 1;
        assert(r@ =~= selected@ + in_box@.subrange(0, k as int));
    }
    assert(in_box@.subrange(0, in_box@.len() as int) =~= in_box@);
    proof {
        assert forall|p: (usize, usize)| r@.to_set().contains(p) == selected@.to_set().union(in_box@.to_set()).contains(p) by {
            if r@.contains(p) {
                let j = choose|j: int| 0 <= j < r@.len() && r@[j] == p;
                if j < selected@.len() {
                    assert(selected@[j] == p);
                } else {
                    assert(in_box@[j - selected@.len()] == p);
                }
            }
            if selected@.contains(p) {
                let j = choose|j: int| 0 <= j < selected@.len() && selected@[j] == p;
                assert(r@[j] == p);
            }
            if in_box@.contains(p) {
                let j = choose|j: int| 0 <= j < in_box@.len() && in_box@[j] == p;
                assert(r@[selected@.len() + j] == p);
            }
        }
        assert(r@.to_set() =~= selected@.to_set().union(in_box@.to_set()));
    }
    r
}

} // verus!
