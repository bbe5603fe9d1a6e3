//! Helpers on contours that tools share: joining contours and telling the
//! ends of a contour.
use vstd::prelude::*;
use super::{Editor, EditorView};
use super::selection::{active_outline, has_active_layer, with_active_outline};
use crate::glifparser::{outline_view, Point, PointType};
use crate::layer::duplicate_outline;

verus! {

/// Whether a point is the start or the end of its contour.
#[derive(PartialEq, Eq, Clone, Copy, Debug, Structural)]
pub enum SelectPointInfo {
    Start,
    End,
}

/// The state after contour `start` is joined to contour `end`. A contour
/// joined to itself is closed: its last point goes, its first point takes
/// that point's `b` handle and becomes a curve point. Otherwise the first
/// point of `start` goes after the last point of `end` (whose `b` handle
/// becomes the `a` handle of that first point), the rest of `start` follows,
/// and `start` is removed.
pub open spec fn spec_merge_contours<C, B>(v: EditorView<C, B>, start: int, end: int) -> EditorView<C, B> {
    let o = active_outline(v);
    if start == end {
        let c = o[start];
        let last = c.last();
        let c1 = c.drop_last();
        let f = c1[0];
        let c2 = c1.update(
            0,
            Point { x: f.x, y: f.y, a: f.a, b: last.b, name: f.name, ptype: PointType::Curve },
        );
        EditorView { point_idx: Some(0), ..with_active_outline(v, o.update(start, c2)) }
    } else {
        let sc = o[start];
        let ec = o[end];
        let el = ec.last();
        let ec1 = ec.update(
            ec.len() - 1,
            Point { x: el.x, y: el.y, a: el.a, b: sc[0].a, name: el.name, ptype: el.ptype },
        ) + sc.drop_first();
        let o1 = o.update(end, ec1).remove(start);
        let e2 = if end > o1.len() - 1 {
            start
        } else {
            end
        };
        EditorView {
            contour_idx: Some(e2 as usize),
            point_idx: Some((ec.len() - 1) as usize),
            ..with_active_outline(v, o1)
        }
    }
}

/// Whether point `point_idx` starts or ends its contour: the first point
/// starts it, the last ends it (a single point starts it).
pub open spec fn spec_contour_start_or_end(len: nat, point_idx: nat) -> Option<SelectPointInfo> {
    if point_idx == 0 {
        Some(SelectPointInfo::Start)
    } else if point_idx == len - 1 {
        Some(SelectPointInfo::End)
    } else {
        None
    }
}

/// Whether point `point_idx` of contour `contour_idx` of the active layer
/// starts or ends it.
pub fn get_contour_start_or_end<C: Copy, B>(
    v: &Editor<C, B>,
    contour_idx: usize,
    point_idx: usize,
) -> (r: Option<SelectPointInfo>)
    requires
        has_active_layer(v@),
        contour_idx < active_outline(v@).len(),
        active_outline(v@)[contour_idx as int].len() > 0,
    ensures
        r == spec_contour_start_or_end(active_outline(v@)[contour_idx as int].len(), point_idx as nat),
{
    let layer = v.get_active_layer_ref();
    assert(outline_view(layer.outline@)[contour_idx as int] == layer.outline@[contour_idx as int]@);
    let contour_len = layer.outline[contour_idx].len() - 1;
    match point_idx {
        0 => Some(SelectPointInfo::Start),
        idx => {
            if idx == contour_len {
                Some(SelectPointInfo::End)
            } else {
                None
            }
        },
    }
}

impl<C: Copy, B> Editor<C, B> {
    /// Joins contour `start` to contour `end` during a modification; see
    /// [`spec_merge_contours`]. The joined contour and its point where the
    /// join happened become the ones clicked last.
    pub fn merge_contours(&mut self, start: usize, end: usize)
        requires
            old(self)@.modifying,
            has_active_layer(old(self)@),
            start < active_outline(old(self)@).len(),
            end < active_outline(old(self)@).len(),
            start == end ==> active_outline(old(self)@)[start as int].len() >= 2,
            start != end ==> active_outline(old(self)@)[start as int].len() > 0
                && active_outline(old(self)@)[end as int].len() > 0,
        ensures
            final(self)@ == spec_merge_contours(old(self)@, start as int, end as int),
    {
        let mut outline = duplicate_outline(&self.get_active_layer_ref().outline);
        let ghost o = outline_view(outline@);
        if start == end {
            let ghost c1 = o[start as int].drop_last();
            let mut contour = outline.remove(start);
            assert(contour@ == o[start as int]);
            let last_point = contour.pop().unwrap();
            let mut first = contour.remove(0);
            first.b = last_point.b;
            first.ptype = PointType::Curve;
            contour.insert(0, first);
            let ghost f = c1[0];
            assert(contour@ =~= c1.update(
                0,
                Point { x: f.x, y: f.y, a: f.a, b: o[start as int].last().b, name: f.name, ptype: PointType::Curve },
            ));
            let ghost cv = contour@;
            let ghost rest = outline@;
            outline.insert(start, contour);
            assert(outline@ =~= rest.insert(start as int, outline@[start as int]));
            assert(outline_view(outline@) =~= o.update(
                start as int,
                c1.update(
                    0,
                    Point {
                        x: c1[0].x,
                        y: c1[0].y,
                        a: c1[0].a,
                        b: o[start as int].last().b,
                        name: c1[0].name,
                        ptype: PointType::Curve,
                    },
                ),
            ));
            self.set_active_outline(outline);
            self.point_idx = Some(0);
        } else {
            let mut startc = crate::layer::duplicate_contour(&outline[start]);
            let ghost sc = o[start as int];
            let ghost ec = o[end as int];
            let ghost el = ec.last();
            let mut endc = outline.remove(end);
            assert(endc@ == ec);
            let p_idx = endc.len() - 1;
            let mut last = endc.pop().unwrap();
            last.b = startc[0].a;
            endc.push(last);
            startc.remove(0);
            endc.append(&mut startc);
            assert(endc@ =~= ec.update(
                ec.len() - 1,
                Point { x: el.x, y: el.y, a: el.a, b: sc[0].a, name: el.name, ptype: el.ptype },
            ) + sc.drop_first());
            outline.insert(end, endc);
            let ghost ec1 = ec.update(
                ec.len() - 1,
                Point { x: el.x, y: el.y, a: el.a, b: sc[0].a, name: el.name, ptype: el.ptype },
            ) + sc.drop_first();
            assert(outline_view(outline@) =~= o.update(end as int, ec1));
            outline.remove(start);
            assert(outline_view(outline@) =~= o.update(end as int, ec1).remove(start as int));
            let mut end = end;
            if end > outline.len() - 1 {
                end = start;
            }
            self.set_active_outline(outline);
            self.contour_idx = Some(end);
            self.point_idx = Some(p_idx);
        }
    }
}

} // verus!
