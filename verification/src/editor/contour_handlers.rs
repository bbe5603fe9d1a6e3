//! Joining contours of cubic and of quadratic Bézier splines.
use vstd::prelude::*;
use super::{Editor, EditorView};
use super::selection::{active_outline, has_active_layer, with_active_outline};
use crate::glifparser::{outline_view, Point};
use crate::layer::duplicate_outline;

verus! {

/// Joins contours of cubic Bézier splines.
#[derive(Debug, Clone, Copy)]
pub struct CubicHandler;

/// The state after the cubic handler joins contour `start` to contour
/// `end`: the first point of `end` goes, all of `start` follows its other
/// points, `start` is removed, and the joined contour with the former last
/// point of `end` become the ones clicked last.
pub open spec fn spec_cubic_merge<C, B>(v: EditorView<C, B>, start: int, end: int) -> EditorView<C, B> {
    let o = active_outline(v);
    let ec = o[end];
    let o1 = o.update(end, ec.drop_first() + o[start]).remove(start);
    let selected = if end > start {
        end - 1
    } else {
        end
    };
    EditorView {
        contour_idx: Some(selected as usize),
        point_idx: Some((ec.len() - 1) as usize),
        ..with_active_outline(v, o1)
    }
}

impl CubicHandler {
    /// Joins contour `start_contour` to contour `end_contour` during a
    /// modification; see [`spec_cubic_merge`].
    pub fn merge_contours<C: Copy, B>(&self, v: &mut Editor<C, B>, start_contour: usize, end_contour: usize)
        requires
            old(v)@.modifying,
            has_active_layer(old(v)@),
            start_contour < active_outline(old(v)@).len(),
            end_contour < active_outline(old(v)@).len(),
            active_outline(old(v)@)[end_contour as int].len() > 0,
        ensures
            final(v)@ == spec_cubic_merge(old(v)@, start_contour as int, end_contour as int),
    {
        let mut outline = duplicate_outline(&v.get_active_layer_ref().outline);
        let ghost o = outline_view(outline@);
        let mut start = crate::layer::duplicate_contour(&outline[start_contour]);
        let mut end = outline.remove(end_contour);
        let p_idx = end.len() - 1;
        end.remove(0);
        end.append(&mut start);
        outline.insert(end_contour, end);
        assert(outline_view(outline@) =~= o.update(
            end_contour as int,
            o[end_contour as int].drop_first() + o[start_contour as int],
        ));
        outline.remove(start_contour);
        assert(outline_view(outline@) =~= o.update(
            end_contour as int,
            o[end_contour as int].drop_first() + o[start_contour as int],
        ).remove(start_contour as int));
        let mut selected = end_contour;
        if end_contour > start_contour {
            selected = end_contour - 1;
        }
        v.set_active_outline(outline);
        v.contour_idx = Some(selected);
        v.point_idx = Some(p_idx);
    }
}

/// Joins contours of quadratic Bézier splines.
#[derive(Debug, Clone, Copy)]
pub struct QuadHandler;

/// The state after the quadratic handler joins contour `start` to contour
/// `end`: the last point of `end` takes the `a` handle of the first point of
/// `start` as its `b` handle, the other points of `start` follow, `start` is
/// removed, and the joined contour with the former last point of `end`
/// become the ones clicked last.
pub open spec fn spec_quad_merge<C, B>(v: EditorView<C, B>, start: int, end: int) -> EditorView<C, B> {
    let o = active_outline(v);
    let sc = o[start];
    let ec = o[end];
    let el = ec.last();
    let ec1 = ec.update(
        ec.len() - 1,
        Point { x: el.x, y: el.y, a: el.a, b: sc[0].a, name: el.name, ptype: el.ptype },
    ) + sc.drop_first();
    let o1 = o.update(end, ec1).remove(start);
    let selected = if end > start {
        end - 1
    } else {
        end
    };
    EditorView {
        contour_idx: Some(selected as usize),
        point_idx: Some((ec.len() - 1) as usize),
        ..with_active_outline(v, o1)
    }
}

impl QuadHandler {
    /// Joins contour `start_contour` to contour `end_contour` during a
    /// modification; see [`spec_quad_merge`].
    pub fn merge_contours<C: Copy, B>(&self, v: &mut Editor<C, B>, start_contour: usize, end_contour: usize)
        requires
            old(v)@.modifying,
            has_active_layer(old(v)@),
            start_contour < active_outline(old(v)@).len(),
            end_contour < active_outline(old(v)@).len(),
            active_outline(old(v)@)[start_contour as int].len() > 0,
            active_outline(old(v)@)[end_contour as int].len() > 0,
        ensures
            final(v)@ == spec_quad_merge(old(v)@, start_contour as int, end_contour as int),
    {
        let mut outline = duplicate_outline(&v.get_active_layer_ref().outline);
        let ghost o = outline_view(outline@);
        let ghost sc = o[start_contour as int];
        let ghost ec = o[end_contour as int];
        let ghost el = ec.last();
        let mut start = crate::layer::duplicate_contour(&outline[start_contour]);
        let mut end = outline.remove(end_contour);
        assert(end@ == ec);
        let p_idx = end.len() - 1;
        let mut last = end.pop().unwrap();
        last.b = start[0].a;
        end.push(last);
        start.remove(0);
        end.append(&mut start);
        let ghost ec1 = ec.update(
            ec.len() - 1,
            Point { x: el.x, y: el.y, a: el.a, b: sc[0].a, name: el.name, ptype: el.ptype },
        ) + sc.drop_first();
        assert(end@ =~= ec1);
        outline.insert(end_contour, end);
        assert(outline_view(outline@) =~= o.update(end_contour as int, ec1));
        outline.remove(start_contour);
        assert(outline_view(outline@) =~= o.update(end_contour as int, ec1).remove(start_contour as int));
        let mut selected = end_contour;
        if end_contour > start_contour {
            selected = end_contour - 1;
        }
        v.set_active_outline(outline);
        v.contour_idx = Some(selected);
        v.point_idx = Some(p_idx);
    }
}

} // verus!
