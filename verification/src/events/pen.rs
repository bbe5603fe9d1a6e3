//! The pen tool: it puts points down, continues or starts contours, and
//! joins the end of one open contour to the start of another. Where the
//! pointer is, and which point or curve lies under it, the user interface
//! works out; here are the decisions and the changes to the outline.
use vstd::prelude::*;
use crate::editor::{spec_begin_modification, spec_end_modification, Editor, EditorView};
use crate::editor::selection::{active_outline, has_active_layer, with_active_outline};
use crate::editor::util::{get_contour_start_or_end, spec_contour_start_or_end, spec_merge_contours, SelectPointInfo};
use crate::glifparser::{outline_view, Handle, Point, PointType};
use crate::layer::{duplicate_contour, duplicate_outline};

verus! {

/// The pen tool: it keeps no state of its own.
#[derive(Clone, Debug)]
pub struct Pen {}

/// What a press of the pen tool did.
#[derive(Clone, Copy, Debug, PartialEq, Eq, Structural)]
pub enum PenPress {
    /// The end of the contour clicked last was joined to the start of the
    /// open contour clicked now.
    Merged,
    /// The press fell on a curve: the user interface splits it there.
    OnCurve,
    /// A point was added at the end of the contour clicked last.
    Continued,
    /// A contour was started.
    NewContour,
}

/// A point the pen tool puts down: both handles on it, no name.
pub open spec fn pen_point<C>(x: C, y: C, ptype: PointType) -> Point<C> {
    Point { x, y, a: Handle::Colocated, b: Handle::Colocated, name: None, ptype }
}

/// Whether a press joins contours: a point is clicked while the last point
/// of an open contour is the one clicked before (as the tool looks it up,
/// by the contour's number), and the point clicked starts an open contour.
pub open spec fn pen_joins<C, B>(v: EditorView<C, B>, clicked: Option<(usize, usize)>) -> bool {
    let o = active_outline(v);
    &&& v.contour_idx is Some
    &&& v.point_idx is Some
    &&& clicked is Some
    &&& {
        let c = v.contour_idx->0 as int;
        let info = clicked->0;
        &&& spec_contour_start_or_end(o[c].len(), c as nat) == Some(SelectPointInfo::End)
        &&& spec_contour_start_or_end(o[info.0 as int].len(), info.1 as nat) == Some(SelectPointInfo::Start)
        &&& o[c][0].ptype == PointType::Move
        &&& o[info.0 as int][0].ptype == PointType::Move
    }
}

/// Whether a press continues the contour clicked last: its last point is
/// the one clicked last.
pub open spec fn pen_continues<C, B>(v: EditorView<C, B>) -> bool {
    v.contour_idx is Some && v.point_idx->0 == active_outline(v)[v.contour_idx->0 as int].len() - 1
}

/// The state after a press of the pen tool at (`x`, `y`): a modification
/// begins; then, in this order, contours are joined (see `pen_joins`), or
/// the press is left to the user interface because it fell on a curve, or
/// a curve point continues the contour clicked last (see `pen_continues`),
/// or a contour is started (its point a move point when shift is held).
pub open spec fn spec_pen_press<C, B>(
    v: EditorView<C, B>,
    x: C,
    y: C,
    clicked: Option<(usize, usize)>,
    on_curve: bool,
    shift: bool,
) -> (EditorView<C, B>, PenPress) {
    let v1 = spec_begin_modification(v, "Add point."@);
    let o = active_outline(v);
    if pen_joins(v, clicked) {
        let c = v.contour_idx->0 as int;
        let v2 = with_active_outline(v1, o.update(c, o[c].push(pen_point(x, y, PointType::Curve))));
        (spec_merge_contours(v2, (clicked->0).0 as int, c), PenPress::Merged)
    } else if on_curve {
        (v1, PenPress::OnCurve)
    } else if pen_continues(v) {
        let c = v.contour_idx->0 as int;
        let v2 = with_active_outline(v1, o.update(c, o[c].push(pen_point(x, y, PointType::Curve))));
        (EditorView { point_idx: Some(o[c].len() as usize), ..v2 }, PenPress::Continued)
    } else {
        let p = pen_point(x, y, if shift { PointType::Move } else { PointType::Curve });
        let v2 = with_active_outline(v1, o.push(seq![p]));
        (EditorView { contour_idx: Some(o.len() as usize), point_idx: Some(0), ..v2 }, PenPress::NewContour)
    }
}

/// The last point of a contour after the pointer is released: it becomes a
/// curve point when a handle was dragged out of it and it is no move point.
pub open spec fn released_point<C>(p: Point<C>) -> Point<C> {
    if p.a != Handle::<C>::Colocated && p.ptype != PointType::Move {
        Point { ptype: PointType::Curve, ..p }
    } else {
        p
    }
}

/// The state after the pointer is released: the last point of the contour
/// clicked last is settled (see `released_point`) and the modification
/// ends.
pub open spec fn spec_pen_release<C, B>(v: EditorView<C, B>) -> EditorView<C, B> {
    match v.contour_idx {
        Some(c) => {
            let o = active_outline(v);
            let oc = o[c as int];
            let v1 = if oc.len() > 0 {
                with_active_outline(v, o.update(c as int, oc.update(oc.len() - 1, released_point(oc.last()))))
            } else {
                with_active_outline(v, o)
            };
            spec_end_modification(v1)
        },
        None => spec_end_modification(v),
    }
}

/// A press on no point and no curve, while the point clicked last is the
/// last point of its contour, appends a curve point at the pointer to that
/// contour, whatever its length, and the new point becomes the one clicked
/// last; the other contours stay as they were.
pub proof fn law_pen_continues_contour<C, B>(v: EditorView<C, B>, x: C, y: C, shift: bool)
    requires
        has_active_layer(v),
        v.contour_idx is Some,
        v.contour_idx->0 < active_outline(v).len(),
        active_outline(v)[v.contour_idx->0 as int].len() > 0,
        v.point_idx is Some,
        v.point_idx->0 + 1 == active_outline(v)[v.contour_idx->0 as int].len(),
        active_outline(v)[v.contour_idx->0 as int].len() <= usize::MAX,
    ensures
        ({
            let c = v.contour_idx->0 as int;
            let o = active_outline(v);
            let (after, r) = spec_pen_press(v, x, y, None, false, shift);
            let o2 = active_outline(after);
            &&& r == PenPress::Continued
            &&& o2.len() == o.len()
            &&& o2[c].len() == o[c].len() + 1
            &&& forall|k: int| 0 <= k < o[c].len() ==> o2[c][k] == o[c][k]
            &&& o2[c][o[c].len() as int] == pen_point(x, y, PointType::Curve)
            &&& forall|j: int| 0 <= j < o.len() && j != c ==> o2[j] == o[j]
            &&& after.contour_idx == v.contour_idx
            &&& after.point_idx is Some
            &&& after.point_idx->0 == o[c].len()
        }),
{
}

/// A copy of a point that is Copy in all but its name.
fn copy_point<C: Copy>(p: &Point<C>) -> (r: Point<C>)
    ensures
        r == *p,
{
    p.duplicate()
}

impl Pen {
    /// A pen tool.
    pub fn new() -> (p: Self)
        ensures
            p == (Pen {}),
    {
        Self {}
    }

    /// Dragging with the pen: while the button is down, the last point of
    /// the contour clicked last gets the handles `a` and `b` (the user
    /// interface places them at the pointer and mirrored through the point).
    pub fn mouse_moved<C: Copy, B>(&self, v: &mut Editor<C, B>, mousedown: bool, a: Handle<C>, b: Handle<C>)
        requires
            mousedown && old(v)@.contour_idx is Some ==> has_active_layer(old(v)@)
                && old(v)@.contour_idx->0 < active_outline(old(v)@).len()
                && active_outline(old(v)@)[old(v)@.contour_idx->0 as int].len() > 0,
        ensures
            !mousedown || old(v)@.contour_idx is None ==> final(v)@ == old(v)@,
            mousedown && old(v)@.contour_idx is Some ==> ({
                let o = active_outline(old(v)@);
                let c = old(v)@.contour_idx->0 as int;
                let l = o[c].last();
                final(v)@ == with_active_outline(
                    old(v)@,
                    o.update(c, o[c].update(o[c].len() - 1, Point { a, b, ..l })),
                )
            }),
    {
        if !mousedown {
            return;
        }
        match v.contour_idx {
            Some(idx) => {
                let mut outline = duplicate_outline(&v.get_active_layer_ref().outline);
                let ghost o = outline_view(outline@);
                let ghost full = outline@;
                let mut contour = outline.remove(idx);
                assert(contour@ == o[idx as int]);
                let mut last = contour.pop().unwrap();
                last.a = a;
                last.b = b;
                contour.push(last);
                let ghost l = o[idx as int].last();
                assert(contour@ =~= o[idx as int].update(o[idx as int].len() - 1, Point { a, b, ..l }));
                outline.insert(idx, contour);
                assert(outline@ =~= full.update(idx as int, outline@[idx as int]));
                assert(outline_view(outline@) =~= o.update(
                    idx as int,
                    o[idx as int].update(o[idx as int].len() - 1, Point { a, b, ..l }),
                ));
                v.set_active_outline(outline);
            },
            None => {},
        }
    }

    /// A press of the pen at (`x`, `y`); see `spec_pen_press`. `clicked` is
    /// the point under the pointer, if any, and `on_curve` whether a curve
    /// lies under it.
    pub fn mouse_pressed<C: Copy, B>(
        &self,
        v: &mut Editor<C, B>,
        x: C,
        y: C,
        clicked: Option<(usize, usize)>,
        on_curve: bool,
        shift: bool,
    ) -> (r: PenPress)
        requires
            !old(v)@.modifying,
            has_active_layer(old(v)@),
            old(v)@.contour_idx is Some && old(v)@.point_idx is Some && clicked is Some ==> {
                let o = active_outline(old(v)@);
                let c = old(v)@.contour_idx->0;
                let info = clicked->0;
                c < o.len() && o[c as int].len() > 0 && info.0 < o.len() && o[info.0 as int].len() > 0
            },
            old(v)@.contour_idx is Some && !on_curve ==> {
                let o = active_outline(old(v)@);
                let c = old(v)@.contour_idx->0;
                old(v)@.point_idx is Some && c < o.len() && o[c as int].len() > 0
            },
        ensures
            (final(v)@, r) == spec_pen_press(old(v)@, x, y, clicked, on_curve, shift),
    {
        v.begin_modification("Add point.");
        let ghost v1 = v@;
        let ghost o = active_outline(v1);
        if v.contour_idx.is_some() && v.point_idx.is_some() {
            match clicked {
                Some(info) => {
                    let c_idx = v.contour_idx.unwrap();
                    let p_idx = v.contour_idx.unwrap();
                    let end_is_active = get_contour_start_or_end(v, c_idx, p_idx) == Some(SelectPointInfo::End);
                    let start_is_clicked = get_contour_start_or_end(v, info.0, info.1) == Some(SelectPointInfo::Start);
                    let layer = v.get_active_layer_ref();
                    proof {
                        assert(outline_view(layer.outline@)[c_idx as int] == layer.outline@[c_idx as int]@);
                        assert(outline_view(layer.outline@)[info.0 as int] == layer.outline@[info.0 as int]@);
                    }
                    let selected_open = layer.outline[c_idx][0].ptype == PointType::Move;
                    let target_open = layer.outline[info.0][0].ptype == PointType::Move;
                    if end_is_active && start_is_clicked && selected_open && target_open {
                        let mut outline = duplicate_outline(&layer.outline);
                        let mut contour = outline.remove(c_idx);
                        assert(contour@ == o[c_idx as int]);
                        contour.push(Point { x, y, a: Handle::Colocated, b: Handle::Colocated, name: None, ptype: PointType::Curve });
                        outline.insert(c_idx, contour);
                        assert(outline_view(outline@) =~= o.update(
                            c_idx as int,
                            o[c_idx as int].push(pen_point(x, y, PointType::Curve)),
                        ));
                        v.set_active_outline(outline);
                        v.merge_contours(info.0, c_idx);
                        return PenPress::Merged;
                    }
                },
                None => {},
            }
        }
        if on_curve {
            return PenPress::OnCurve;
        }
        match v.contour_idx {
            Some(contour_idx) => {
                let layer = v.get_active_layer_ref();
                proof {
                    assert(outline_view(layer.outline@)[contour_idx as int] == layer.outline@[contour_idx as int]@);
                }
                let contour_len = layer.outline[contour_idx].len();
                if v.point_idx.unwrap() == contour_len - 1 {
                    let mut outline = duplicate_outline(&layer.outline);
                    let mut contour = outline.remove(contour_idx);
                    assert(contour@ == o[contour_idx as int]);
                    contour.push(Point { x, y, a: Handle::Colocated, b: Handle::Colocated, name: None, ptype: PointType::Curve });
                    outline.insert(contour_idx, contour);
                    assert(outline_view(outline@) =~= o.update(
                        contour_idx as int,
                        o[contour_idx as int].push(pen_point(x, y, PointType::Curve)),
                    ));
                    v.set_active_outline(outline);
                    v.point_idx = Some(contour_len);
                    return PenPress::Continued;
                }
            },
            None => {},
        }
        let layer = v.get_active_layer_ref();
        let mut outline = duplicate_outline(&layer.outline);
        let n = outline.len();
        let ptype = if shift { PointType::Move } else { PointType::Curve };
        let mut contour: Vec<Point<C>> = Vec::new();
        contour.push(Point { x, y, a: Handle::Colocated, b: Handle::Colocated, name: None, ptype });
        outline.push(contour);
        assert(outline_view(outline@) =~= o.push(seq![pen_point(x, y, ptype)]));
        v.set_active_outline(outline);
        v.contour_idx = Some(n);
        v.point_idx = Some(0);
        PenPress::NewContour
    }

    /// Releasing the pen; see `spec_pen_release`.
    pub fn mouse_released<C: Copy, B>(&self, v: &mut Editor<C, B>)
        requires
            old(v)@.contour_idx is Some ==> has_active_layer(old(v)@)
                && old(v)@.contour_idx->0 < active_outline(old(v)@).len(),
        ensures
            final(v)@ == spec_pen_release(old(v)@),
    {
        match v.contour_idx {
            Some(idx) => {
                let mut outline = duplicate_outline(&v.get_active_layer_ref().outline);
                let ghost o = outline_view(outline@);
                let ghost full = outline@;
                let mut contour = outline.remove(idx);
                assert(contour@ == o[idx as int]);
                let n = contour.len();
                if n > 0 {
                    let mut last = contour.pop().unwrap();
                    let colocated = match last.a {
                        Handle::Colocated => true,
                        Handle::At(_, _) => false,
                    };
                    if !colocated && last.ptype != PointType::Move {
                        last.ptype = PointType::Curve;
                    }
                    contour.push(last);
                }
                let ghost oc = o[idx as int];
                proof {
                    if oc.len() > 0 {
                        assert(contour@ =~= oc.update(oc.len() - 1, released_point(oc.last())));
                    } else {
                        assert(contour@ =~= oc);
                    }
                }
                outline.insert(idx, contour);
                assert(outline@ =~= full.update(idx as int, outline@[idx as int]));
                proof {
                    if oc.len() > 0 {
                        assert(outline_view(outline@) =~= o.update(
                            idx as int,
                            oc.update(oc.len() - 1, released_point(oc.last())),
                        ));
                    } else {
                        assert(outline_view(outline@) =~= o);
                    }
                }
                v.set_active_outline(outline);
            },
            None => {},
        }
        v.end_modification();
    }
}

} // verus!
