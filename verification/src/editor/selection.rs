//! Picking points, and cutting, copying and pasting the picked points.
use vstd::prelude::*;
use super::{spec_begin_modification, spec_end_modification, Editor, EditorView};
use super::layers::{with_layers, with_nothing_picked};
use crate::glifparser::{outline_view, Handle, Point, PointType};
use crate::layer::{layers_view, LayerView, PointSelection};
use crate::text::{chars_of, range_eq_str, string_push};

verus! {

/// The point `pi` of contour `ci` is picked: it is the point clicked last,
/// or it is in the selection.
pub open spec fn is_point_selected<C, B>(v: EditorView<C, B>, ci: usize, pi: usize) -> bool {
    (v.point_idx is Some && v.contour_idx == Some(ci) && v.point_idx == Some(pi))
        || v.selected.contains((ci, pi))
}

/// The runs of points between cut points: the finished runs, the run being
/// built and whether a point was cut, after the first `n` points.
pub open spec fn cut_runs<C>(c: Seq<Point<C>>, cut: Seq<bool>, n: int) -> (
    Seq<Seq<Point<C>>>,
    Seq<Point<C>>,
    bool,
)
    decreases n,
{
    if n <= 0 {
        (Seq::empty(), Seq::empty(), false)
    } else {
        let (rs, cur, del) = cut_runs(c, cut, n - 1);
        if cut[n - 1] {
            (rs.push(cur), Seq::empty(), true)
        } else {
            (rs, cur.push(c[n - 1]), del)
        }
    }
}

/// A contour that starts a path: its first point becomes a move.
pub open spec fn mark_move<C>(c: Seq<Point<C>>) -> Seq<Point<C>> {
    let p = c[0];
    c.update(0, Point { x: p.x, y: p.y, a: p.a, b: p.b, name: p.name, ptype: PointType::Move })
}

/// The runs that hold points; where points were cut each starts a path.
pub open spec fn keep_nonempty<C>(rs: Seq<Seq<Point<C>>>, del: bool) -> Seq<Seq<Point<C>>>
    decreases rs.len(),
{
    if rs.len() == 0 {
        Seq::empty()
    } else {
        let rest = keep_nonempty(rs.drop_last(), del);
        if rs.last().len() > 0 {
            rest.push(
                if del {
                    mark_move(rs.last())
                } else {
                    rs.last()
                },
            )
        } else {
            rest
        }
    }
}

/// The contours left of a contour when the points marked in `cut` are cut
/// out: the runs between them, the last run joined to the first where the
/// contour is closed, the empty runs dropped, and each run an open path
/// where something was cut.
pub open spec fn split_contour<C>(c: Seq<Point<C>>, cut: Seq<bool>) -> Seq<Seq<Point<C>>> {
    let (rs, cur, del) = cut_runs(c, cut, c.len() as int);
    let results = rs.push(cur);
    let joined = if results.len() > 1 && c[0].ptype != PointType::Move {
        results.drop_last().update(0, results.last() + results[0])
    } else {
        results
    };
    keep_nonempty(joined, del)
}

/// Which points of contour `ci` are cut: the picked ones when deleting, the
/// others when copying.
pub open spec fn cut_of<C, B>(v: EditorView<C, B>, ci: int, len: nat, delete_selected: bool) -> Seq<bool> {
    Seq::new(
        len,
        |pi: int|
            if delete_selected {
                is_point_selected(v, ci as usize, pi as usize)
            } else {
                !is_point_selected(v, ci as usize, pi as usize)
            },
    )
}

/// The outline left when the first `n` contours are cut.
pub open spec fn split_outline<C, B>(
    o: Seq<Seq<Point<C>>>,
    v: EditorView<C, B>,
    delete_selected: bool,
    n: int,
) -> Seq<Seq<Point<C>>>
    decreases n,
{
    if n <= 0 {
        Seq::empty()
    } else {
        split_outline(o, v, delete_selected, n - 1) + split_contour(
            o[n - 1],
            cut_of(v, n - 1, o[n - 1].len(), delete_selected),
        )
    }
}

/// The number of points in a list of contours.
pub open spec fn total_points<C>(rs: Seq<Seq<Point<C>>>) -> nat
    decreases rs.len(),
{
    if rs.len() == 0 {
        0
    } else {
        total_points(rs.drop_last()) + rs.last().len()
    }
}

/// The number of points among the first `n` that are not cut.
pub open spec fn kept_count(cut: Seq<bool>, n: int) -> nat
    decreases n,
{
    if n <= 0 {
        0
    } else {
        kept_count(cut, n - 1) + if cut[n - 1] {
            0nat
        } else {
            1nat
        }
    }
}

proof fn lemma_total_push<C>(rs: Seq<Seq<Point<C>>>, x: Seq<Point<C>>)
    ensures
        total_points(rs.push(x)) == total_points(rs) + x.len(),
{
    assert(rs.push(x).drop_last() =~= rs);
}

proof fn lemma_total_concat<C>(a: Seq<Seq<Point<C>>>, b: Seq<Seq<Point<C>>>)
    ensures
        total_points(a + b) == total_points(a) + total_points(b),
    decreases b.len(),
{
    if b.len() == 0 {
        assert(a + b =~= a);
    } else {
        lemma_total_concat(a, b.drop_last());
        assert((a + b).drop_last() =~= a + b.drop_last());
        assert((a + b).last() == b.last());
    }
}

proof fn lemma_total_update<C>(rs: Seq<Seq<Point<C>>>, i: int, x: Seq<Point<C>>)
    requires
        0 <= i < rs.len(),
    ensures
        total_points(rs.update(i, x)) + rs[i].len() == total_points(rs) + x.len(),
    decreases rs.len(),
{
    let t = rs.update(i, x);
    if i == rs.len() - 1 {
        assert(t.drop_last() =~= rs.drop_last());
    } else {
        lemma_total_update(rs.drop_last(), i, x);
        assert(t.drop_last() =~= rs.drop_last().update(i, x));
    }
}

proof fn lemma_cut_runs_count<C>(c: Seq<Point<C>>, cut: Seq<bool>, n: int)
    requires
        n <= c.len(),
    ensures
        ({
            let (rs, cur, _) = cut_runs(c, cut, n);
            total_points(rs) + cur.len() == kept_count(cut, n)
        }),
    decreases n,
{
    if n > 0 {
        lemma_cut_runs_count(c, cut, n - 1);
        let (rs, cur, _) = cut_runs(c, cut, n - 1);
        lemma_total_push(rs, cur);
    }
}

proof fn lemma_keep_nonempty_count<C>(rs: Seq<Seq<Point<C>>>, del: bool)
    ensures
        total_points(keep_nonempty(rs, del)) == total_points(rs),
    decreases rs.len(),
{
    if rs.len() > 0 {
        lemma_keep_nonempty_count(rs.drop_last(), del);
        let rest = keep_nonempty(rs.drop_last(), del);
        let l = if del { mark_move(rs.last()) } else { rs.last() };
        if rs.last().len() > 0 {
            lemma_total_push(rest, l);
        }
    }
}

proof fn lemma_cut_runs_cut_flag<C>(c: Seq<Point<C>>, cut: Seq<bool>, n: int)
    requires
        0 <= n <= c.len(),
        n <= cut.len(),
    ensures
        cut_runs(c, cut, n).2 == exists|i: int| 0 <= i < n && cut[i],
    decreases n,
{
    if n > 0 {
        lemma_cut_runs_cut_flag(c, cut, n - 1);
        if cut[n - 1] {
            assert(0 <= n - 1 < n && cut[n - 1]);
        } else if exists|i: int| 0 <= i < n && cut[i] {
            let i = choose|i: int| 0 <= i < n && cut[i];
            assert(i < n - 1);
        }
    }
}

proof fn lemma_keep_nonempty_pieces<C>(rs: Seq<Seq<Point<C>>>, del: bool)
    ensures
        forall|k: int| 0 <= k < keep_nonempty(rs, del).len() ==> (#[trigger] keep_nonempty(rs, del)[k]).len() > 0,
        del ==> forall|k: int| 0 <= k < keep_nonempty(rs, del).len()
            ==> (#[trigger] keep_nonempty(rs, del)[k])[0].ptype == PointType::Move,
    decreases rs.len(),
{
    if rs.len() > 0 {
        lemma_keep_nonempty_pieces(rs.drop_last(), del);
        let rest = keep_nonempty(rs.drop_last(), del);
        if rs.last().len() > 0 {
            let l = if del { mark_move(rs.last()) } else { rs.last() };
            assert(keep_nonempty(rs, del) == rest.push(l));
            assert forall|k: int| 0 <= k < keep_nonempty(rs, del).len() implies (#[trigger] keep_nonempty(
                rs,
                del,
            )[k]).len() > 0 && (del ==> keep_nonempty(rs, del)[k][0].ptype == PointType::Move) by {
                if k < rest.len() {
                    assert(keep_nonempty(rs, del)[k] == rest[k]);
                }
            }
        }
    }
}

/// Cutting a contour leaves only pieces that hold points, and where at least
/// one point is cut every piece left is an open path: it starts with a move
/// point, the first piece and every other alike.
pub proof fn law_cut_pieces_are_open_paths<C>(c: Seq<Point<C>>, cut: Seq<bool>)
    requires
        cut.len() == c.len(),
    ensures
        forall|k: int| 0 <= k < split_contour(c, cut).len() ==> (#[trigger] split_contour(c, cut)[k]).len() > 0,
        (exists|i: int| 0 <= i < c.len() && cut[i]) ==> forall|k: int|
            0 <= k < split_contour(c, cut).len() ==> (#[trigger] split_contour(c, cut)[k])[0].ptype
                == PointType::Move,
{
    let (rs, cur, del) = cut_runs(c, cut, c.len() as int);
    lemma_cut_runs_cut_flag(c, cut, c.len() as int);
    let results = rs.push(cur);
    let joined = if results.len() > 1 && c[0].ptype != PointType::Move {
        results.drop_last().update(0, results.last() + results[0])
    } else {
        results
    };
    assert(split_contour(c, cut) == keep_nonempty(joined, del));
    lemma_keep_nonempty_pieces(joined, del);
}

/// Cutting a contour keeps exactly its points that are not cut.
pub proof fn lemma_split_contour_count<C>(c: Seq<Point<C>>, cut: Seq<bool>)
    ensures
        total_points(split_contour(c, cut)) == kept_count(cut, c.len() as int),
{
    let (rs, cur, del) = cut_runs(c, cut, c.len() as int);
    lemma_cut_runs_count(c, cut, c.len() as int);
    let results = rs.push(cur);
    lemma_total_push(rs, cur);
    if results.len() > 1 && c[0].ptype != PointType::Move {
        let d = results.drop_last();
        lemma_total_push(d, results.last());
        assert(d.push(results.last()) =~= results);
        lemma_total_update(d, 0, results.last() + results[0]);
        assert(d[0] == results[0]);
        let joined = d.update(0, results.last() + results[0]);
        lemma_keep_nonempty_count(joined, del);
    } else {
        lemma_keep_nonempty_count(results, del);
    }
}

proof fn lemma_kept_counts_complement(a: Seq<bool>, b: Seq<bool>, n: int)
    requires
        0 <= n,
        forall|i: int| 0 <= i < n ==> a[i] == !b[i],
    ensures
        kept_count(a, n) + kept_count(b, n) == n,
    decreases n,
{
    if n > 0 {
        lemma_kept_counts_complement(a, b, n - 1);
    }
}

proof fn lemma_split_outline_counts<C, B>(o: Seq<Seq<Point<C>>>, v: EditorView<C, B>, n: int)
    requires
        0 <= n <= o.len(),
    ensures
        total_points(split_outline(o, v, true, n)) + total_points(split_outline(o, v, false, n))
            == total_points(o.subrange(0, n)),
    decreases n,
{
    if n > 0 {
        lemma_split_outline_counts(o, v, n - 1);
        let c = o[n - 1];
        let cd = cut_of(v, n - 1, c.len(), true);
        let cc = cut_of(v, n - 1, c.len(), false);
        lemma_total_concat(split_outline(o, v, true, n - 1), split_contour(c, cd));
        lemma_total_concat(split_outline(o, v, false, n - 1), split_contour(c, cc));
        lemma_split_contour_count(c, cd);
        lemma_split_contour_count(c, cc);
        lemma_kept_counts_complement(cd, cc, c.len() as int);
        assert(o.subrange(0, n).drop_last() =~= o.subrange(0, n - 1));
        assert(o.subrange(0, n).last() == c);
    }
}

/// Every point of the active layer is either copied or kept when the
/// picked points are deleted, never both: the points that copying puts on
/// the clipboard and the points that deleting leaves add up to the points
/// of the layer.
pub proof fn law_copy_and_delete_share_out_the_points<C, B>(v: EditorView<C, B>)
    requires
        has_active_layer(v),
    ensures
        ({
            let o = active_outline(v);
            total_points(split_outline(o, v, true, o.len() as int))
                + total_points(split_outline(o, v, false, o.len() as int)) == total_points(o)
        }),
{
    let o = active_outline(v);
    lemma_split_outline_counts(o, v, o.len() as int);
    assert(o.subrange(0, o.len() as int) =~= o);
}

/// The outline of the active layer.
pub open spec fn active_outline<C, B>(v: EditorView<C, B>) -> Seq<Seq<Point<C>>> {
    v.glyph->0.layers[v.layer_idx->0 as int].outline
}

/// The editor has a glyph whose active layer exists.
pub open spec fn has_active_layer<C, B>(v: EditorView<C, B>) -> bool {
    &&& v.glyph is Some
    &&& v.layer_idx is Some
    &&& v.layer_idx->0 < v.glyph->0.layers.len()
}

/// The state with the outline of the active layer replaced, the glyph
/// touched.
pub open spec fn with_active_outline<C, B>(v: EditorView<C, B>, o: Seq<Seq<Point<C>>>) -> EditorView<C, B> {
    let i = v.layer_idx->0 as int;
    let l = v.glyph->0.layers[i];
    EditorView {
        dirty: true,
        preview_dirty: true,
        ..with_layers(v, v.glyph->0.layers.update(i, LayerView { outline: o, ..l }))
    }
}

/// The state after the picked points are deleted; see [`split_contour`].
pub open spec fn spec_delete_selection<C, B>(v: EditorView<C, B>) -> EditorView<C, B> {
    let v1 = spec_begin_modification(v, "Delete selection."@);
    let o = active_outline(v);
    spec_end_modification(
        with_nothing_picked(with_active_outline(v1, split_outline(o, v, true, o.len() as int))),
    )
}

/// The state after the point last clicked is deleted.
pub open spec fn spec_delete_single_point<C, B>(v: EditorView<C, B>) -> EditorView<C, B> {
    let v1 = spec_begin_modification(v, "Delete selection."@);
    let o = active_outline(v);
    let ci = v.contour_idx->0 as int;
    let pi = v.point_idx->0 as int;
    spec_end_modification(with_nothing_picked(with_active_outline(v1, o.update(ci, o[ci].remove(pi)))))
}

/// The points of pasted contours, each named by its place after the
/// contours already there.
pub open spec fn pasted_points<C>(base: nat, clip: Seq<Seq<Point<C>>>) -> Set<(usize, usize)> {
    Set::new(
        |p: (usize, usize)|
            base <= p.0 < base + clip.len() && p.1 < clip[p.0 - base].len(),
    )
}

/// The state after contours are pasted into the active layer: they are added
/// after its contours and become the selection.
pub open spec fn spec_paste_selection<C, B>(v: EditorView<C, B>, clip: Seq<Seq<Point<C>>>) -> EditorView<C, B> {
    let v1 = with_nothing_picked(spec_begin_modification(v, "Paste clipboard."@));
    let o = active_outline(v);
    let v2 = with_active_outline(v1, o + clip);
    spec_end_modification(EditorView { selected: pasted_points(o.len(), clip), ..v2 })
}

/// Cuts the points marked in `cut` out of a contour; see [`split_contour`].
pub fn split_contour_by<C: Copy>(c: &Vec<Point<C>>, cut: &Vec<bool>) -> (r: Vec<Vec<Point<C>>>)
    requires
        cut@.len() == c@.len(),
    ensures
        outline_view(r@) == split_contour(c@, cut@),
{
    let n = c.len();
    let mut results: Vec<Vec<Point<C>>> = Vec::new();
    let mut cur: Vec<Point<C>> = Vec::new();
    let mut deleted = false;
    let mut i: usize = 0;
    assert(outline_view(results@) =~= Seq::<Seq<Point<C>>>::empty());
    while i < n
        invariant
            n == c@.len(),
            cut@.len() == n,
            i <= n,
            (outline_view(results@), cur@, deleted) == cut_runs(c@, cut@, i as int),
        decreases n - i,
    {
        if cut[i] {
            let ghost before = results@;
            results.push(cur);
            assert(outline_view(results@) =~= outline_view(before).push(results@.last()@));
            cur = Vec::new();
            deleted = true;
        } else {
            cur.push(c[i].duplicate());
        }
        i = i + 1;
    }
    let ghost rs0 = outline_view(results@);
    let ghost cur0 = cur@;
    results.push(cur);
    assert(outline_view(results@) =~= rs0.push(cur0));
    let ghost res = rs0.push(cur0);
    if results.len() > 1 && c[0].ptype != PointType::Move {
        let mut m = results.pop().unwrap();
        let mut first = results.remove(0);
        m.append(&mut first);
        results.insert(0, m);
        assert(outline_view(results@) =~= res.drop_last().update(0, res.last() + res[0]));
    }
    let ghost joined = outline_view(results@);
    let mut out: Vec<Vec<Point<C>>> = Vec::new();
    let mut k: usize = 0;
    let total = results.len();
    assert(joined.subrange(0, 0) =~= Seq::<Seq<Point<C>>>::empty());
    assert(outline_view(out@) =~= Seq::<Seq<Point<C>>>::empty());
    while k < total
        invariant
            total == results@.len(),
            joined == outline_view(results@),
            k <= total,
            outline_view(out@) == keep_nonempty(joined.subrange(0, k as int), deleted),
        decreases total - k,
    {
        assert(joined.subrange(0, k + 1).drop_last() =~= joined.subrange(0, k as int));
        assert(joined.subrange(0, k + 1).last() == results@[k as int]@);
        if results[k].len() > 0 {
            let mut r = crate::layer::duplicate_contour(&results[k]);
            if deleted {
                let ghost rv = r@;
                let mut p = r.remove(0);
                p.ptype = PointType::Move;
                r.insert(0, p);
                assert(r@ =~= mark_move(rv));
            }
            let ghost before = out@;
            out.push(r);
            assert(outline_view(out@) =~= outline_view(before).push(out@.last()@));
        }
        k = k + 1;
    }
    assert(joined.subrange(0, total as int) =~= joined);
    out
}


/// The type that marks clipboard text as a layer of this editor.
pub open spec fn clipboard_mime() -> Seq<char> {
    "text/vnd.mfek.glifjson"@
}

/// Clipboard text for a layer written as JSON: the type, a tab, the JSON.
pub open spec fn spec_frame_clipboard(json: Seq<char>) -> Seq<char> {
    clipboard_mime() + seq!['\t'] + json
}

/// Whether `i` is where the first tab of `t` stands.
pub open spec fn is_first_tab(t: Seq<char>, i: int) -> bool {
    0 <= i < t.len() && t[i] == '\t' && forall|j: int| 0 <= j < i ==> t[j] != '\t'
}

/// The JSON in clipboard text: what follows the first tab, when what comes
/// before it is this editor's type; nothing otherwise (no tab, or another
/// type).
pub open spec fn spec_unframe_clipboard(t: Seq<char>) -> Option<Seq<char>> {
    if exists|i: int| is_first_tab(t, i) {
        let i = choose|i: int| is_first_tab(t, i);
        if t.subrange(0, i) == clipboard_mime() {
            Some(t.subrange(i + 1, t.len() as int))
        } else {
            None
        }
    } else {
        None
    }
}

/// The text put on the clipboard for a copied layer written as `json`.
pub fn frame_clipboard(json: &str) -> (r: String)
    ensures
        r@ == spec_frame_clipboard(json@),
{
    let mut r = String::new();
    let mime = "text/vnd.mfek.glifjson";
    let n = mime.unicode_len();
    let mut i: usize = 0;
    while i < n
        invariant
            n == mime@.len(),
            i <= n,
            r@ == mime@.subrange(0, i as int),
        decreases n - i,
    {
        string_push(&mut r, mime.get_char(i));
        i = i + 1;
        assert(r@ =~= mime@.subrange(0, i as int));
    }
    string_push(&mut r, '\t');
    let m = json.unicode_len();
    let ghost head = r@;
    let mut k: usize = 0;
    while k < m
        invariant
            m == json@.len(),
            k <= m,
            r@ == head + json@.subrange(0, k as int),
        decreases m - k,
    {
        string_push(&mut r, json.get_char(k));
        k = k + 1;
        assert(r@ =~= head + json@.subrange(0, k as int));
    }
    assert(r@ =~= spec_frame_clipboard(json@));
    r
}

/// The JSON of a layer in clipboard text, if the text is this editor's:
/// split at the first tab, the part before must be the type.
pub fn unframe_clipboard(text: &str) -> (r: Option<String>)
    ensures
        match (r, spec_unframe_clipboard(text@)) {
            (Some(j), Some(k)) => j@ == k,
            (None, None) => true,
            _ => false,
        },
{
    let n = text.unicode_len();
    let mut i: usize = 0;
    while i < n
        invariant
            n == text@.len(),
            i <= n,
            forall|j: int| 0 <= j < i ==> text@[j] != '\t',
        ensures
            i <= n,
            forall|j: int| 0 <= j < i ==> text@[j] != '\t',
            i < n ==> text@[i as int] == '\t',
        decreases n - i,
    {
        if text.get_char(i) == '\t' {
            break;
        }
        i = i + 1;
    }
    if i == n {
        assert(!exists|k: int| is_first_tab(text@, k));
        return None;
    }
    proof {
        assert(is_first_tab(text@, i as int));
        let c = choose|k: int| is_first_tab(text@, k);
        assert(c == i) by {
            if c < i {
                assert(text@[c] != '\t');
            } else if c > i {
                assert(text@[i as int] != '\t');
            }
        }
    }
    let cs = chars_of(text);
    if !range_eq_str(&cs, 0, i, "text/vnd.mfek.glifjson") {
        return None;
    }
    let mut r = String::new();
    let mut k: usize = i + 1;
    while k < n
        invariant
            n == text@.len(),
            i < n,
            i + 1 <= k <= n,
            r@ == text@.subrange(i + 1, k as int),
        decreases n - k,
    {
        string_push(&mut r, text.get_char(k));
        k = k + 1;
        assert(r@ =~= text@.subrange(i + 1, k as int));
    }
    Some(r)
}

/// Reading back what was put on the clipboard gives the same JSON, whatever
/// it holds (tabs included).
pub proof fn law_clipboard_roundtrip(json: Seq<char>)
    ensures
        spec_unframe_clipboard(spec_frame_clipboard(json)) == Some(json),
{
    reveal_strlit("text/vnd.mfek.glifjson");
    let t = spec_frame_clipboard(json);
    let m = clipboard_mime().len();
    assert forall|j: int| 0 <= j < m implies t[j] != '\t' by {
        assert(t[j] == clipboard_mime()[j]);
    }
    assert(t[m as int] == '\t');
    assert(is_first_tab(t, m as int));
    let c = choose|k: int| is_first_tab(t, k);
    assert(c == m) by {
        if c < m {
            assert(t[c] != '\t');
        } else if c > m {
            assert(t[m as int] != '\t');
        }
    }
    assert(t.subrange(0, m as int) =~= clipboard_mime());
    assert(t.subrange(m + 1int, t.len() as int) =~= json);
}

/// What simplifying at the point clicked last comes to: in a contour of
/// fewer than three points the point is deleted; at either end of an open
/// contour the selection is deleted; otherwise the curves on both sides of
/// the point are judged and, where they can, fitted into one curve between
/// the points before and after it (the contour wraps around).
#[derive(Debug, Clone, Copy, PartialEq, Eq, Structural)]
pub enum SimplifyStep {
    DeletePoint,
    DeleteSelection,
    Fit { prev: usize, next: usize },
}

/// The step simplifying takes at the point clicked last; see `SimplifyStep`.
pub open spec fn spec_simplify_step<C, B>(v: EditorView<C, B>) -> SimplifyStep {
    let c = active_outline(v)[v.contour_idx->0 as int];
    let pi = v.point_idx->0;
    if c.len() < 3 {
        SimplifyStep::DeletePoint
    } else if (pi == 0 || pi == c.len() - 1) && c[0].ptype == PointType::Move {
        SimplifyStep::DeleteSelection
    } else {
        SimplifyStep::Fit {
            prev: if pi == 0 { (c.len() - 1) as usize } else { (pi - 1) as usize },
            next: if pi == c.len() - 1 { 0 } else { (pi + 1) as usize },
        }
    }
}

/// The state after the two curves around the point clicked last are
/// replaced by one: the state before is recorded to undo to as
/// "Simplify selection.", the point before takes `prev_a` as its `a`
/// handle, the point after takes `next_b` as its `b` handle, the point
/// goes, and nothing is picked.
pub open spec fn spec_simplify_fit<C, B>(
    v: EditorView<C, B>,
    prev: int,
    next: int,
    prev_a: Handle<C>,
    next_b: Handle<C>,
) -> EditorView<C, B> {
    let v1 = spec_begin_modification(v, "Simplify selection."@);
    let o = active_outline(v);
    let ci = v.contour_idx->0 as int;
    let c = o[ci];
    let c1 = c.update(prev, Point { a: prev_a, ..c[prev] });
    let c2 = c1.update(next, Point { b: next_b, ..c1[next] });
    let c3 = c2.remove(v.point_idx->0 as int);
    spec_end_modification(with_nothing_picked(with_active_outline(v1, o.update(ci, c3))))
}

/// The state after simplifying at the point clicked last, given the
/// judgement of the curves around it: `fit` is the pair of handles of the
/// one curve that replaces them, or `None` where they cannot be replaced
/// (then the point is deleted).
pub open spec fn spec_simplify_selection<C, B>(v: EditorView<C, B>, fit: Option<(Handle<C>, Handle<C>)>) -> EditorView<C, B> {
    match spec_simplify_step(v) {
        SimplifyStep::DeletePoint => spec_delete_single_point(v),
        SimplifyStep::DeleteSelection => spec_delete_selection(v),
        SimplifyStep::Fit { prev, next } => match fit {
            None => spec_delete_single_point(v),
            Some((a, b)) => spec_simplify_fit(v, prev as int, next as int, a, b),
        },
    }
}

impl<C: Copy, B> Editor<C, B> {
    /// Whether the point `point_idx` of contour `contour_idx` is picked: it
    /// is the point clicked last, or it is in the selection.
    pub fn point_selected(&self, contour_idx: usize, point_idx: usize) -> (r: bool)
        requires
            self@.point_idx is Some ==> self@.contour_idx is Some,
        ensures
            r == is_point_selected(self@, contour_idx, point_idx),
    {
        if let Some(editor_pidx) = self.point_idx {
            let editor_cidx = self.contour_idx.unwrap();
            if contour_idx == editor_cidx && point_idx == editor_pidx {
                return true;
            }
        }
        self.selected.contains((contour_idx, point_idx))
    }

    /// A picked point: the point clicked last if there is one, else some
    /// point of the selection.
    pub fn selected(&self) -> (r: Option<(usize, usize)>)
        ensures
            self@.contour_idx is Some && self@.point_idx is Some ==> r == Some(
                (self@.contour_idx->0, self@.point_idx->0),
            ),
            !(self@.contour_idx is Some && self@.point_idx is Some) ==> match r {
                Some(p) => self@.selected.contains(p),
                None => self@.selected == Set::<(usize, usize)>::empty(),
            },
    {
        if let (Some(ci), Some(pi)) = (self.contour_idx, self.point_idx) {
            Some((ci, pi))
        } else {
            self.selected.first()
        }
    }

    /// The outline left of the active layer when the picked points are cut
    /// out (`delete_selected`) or kept alone.
    fn split_active_outline(&self, delete_selected: bool) -> (r: Vec<Vec<Point<C>>>)
        requires
            has_active_layer(self@),
            self@.point_idx is Some ==> self@.contour_idx is Some,
        ensures
            outline_view(r@) == split_outline(
                active_outline(self@),
                self@,
                delete_selected,
                active_outline(self@).len() as int,
            ),
    {
        let layer = self.get_active_layer_ref();
        let ghost o = active_outline(self@);
        assert(o == outline_view(layer.outline@));
        let mut new_outline: Vec<Vec<Point<C>>> = Vec::new();
        let mut ci: usize = 0;
        assert(outline_view(new_outline@) =~= Seq::<Seq<Point<C>>>::empty());
        while ci < layer.outline.len()
            invariant
                has_active_layer(self@),
                self@.point_idx is Some ==> self@.contour_idx is Some,
                o == outline_view(layer.outline@),
                ci <= o.len(),
                outline_view(new_outline@) == split_outline(o, self@, delete_selected, ci as int),
            decreases o.len() - ci,
        {
            let contour = &layer.outline[ci];
            let mut cut: Vec<bool> = Vec::new();
            let mut pi: usize = 0;
            while pi < contour.len()
                invariant
                    self@.point_idx is Some ==> self@.contour_idx is Some,
                    pi <= contour@.len(),
                    cut@ == cut_of(self@, ci as int, contour@.len(), delete_selected).subrange(
                        0,
                        pi as int,
                    ),
                decreases contour@.len() - pi,
            {
                let s = self.point_selected(ci, pi);
                cut.push(
                    if delete_selected {
                        s
                    } else {
                        !s
                    },
                );
                pi = pi + 1;
                assert(cut@ =~= cut_of(self@, ci as int, contour@.len(), delete_selected).subrange(
                    0,
                    pi as int,
                ));
            }
            assert(cut@ =~= cut_of(self@, ci as int, contour@.len(), delete_selected));
            let pieces = split_contour_by(contour, &cut);
            let ghost before = new_outline@;
            let mut pieces = pieces;
            new_outline.append(&mut pieces);
            assert(o[ci as int] == contour@);
            assert(outline_view(new_outline@) =~= outline_view(before) + split_contour(
                o[ci as int],
                cut_of(self@, ci as int, o[ci as int].len(), delete_selected),
            ));
            ci = ci + 1;
        }
        new_outline
    }

    /// Replaces the outline of the active layer; the glyph counts as touched
    /// and the preview is to be rebuilt.
    pub fn set_active_outline(&mut self, outline: Vec<Vec<Point<C>>>)
        requires
            has_active_layer(old(self)@),
        ensures
            final(self)@ == with_active_outline(old(self)@, outline_view(outline@)),
    {
        self.dirty = true;
        self.mark_preview_dirty();
        let i = self.layer_idx.unwrap();
        match &mut self.glyph {
            Some(g) => {
                let ghost before = layers_view(g.layers@);
                let mut l = g.layers[i].duplicate();
                l.outline = outline;
                g.layers.set(i, l);
                assert(layers_view(g.layers@) =~= before.update(
                    i as int,
                    LayerView { outline: outline_view(outline@), ..before[i as int] },
                ));
            },
            None => {},
        }
    }

    /// The contours of the active layer that the picked points make, to be
    /// put on the clipboard: the points that are not picked are cut out.
    pub fn copy_selection(&self) -> (r: Vec<Vec<Point<C>>>)
        requires
            has_active_layer(self@),
            self@.point_idx is Some ==> self@.contour_idx is Some,
        ensures
            outline_view(r@) == split_outline(
                active_outline(self@),
                self@,
                false,
                active_outline(self@).len() as int,
            ),
    {
        self.split_active_outline(false)
    }

    /// Deletes the picked points; the state before is recorded to undo to.
    pub fn delete_selection(&mut self)
        requires
            !old(self)@.modifying,
            has_active_layer(old(self)@),
            old(self)@.point_idx is Some ==> old(self)@.contour_idx is Some,
        ensures
            final(self)@ == spec_delete_selection(old(self)@),
    {
        let new_outline = self.split_active_outline(true);
        self.begin_modification("Delete selection.");
        self.set_active_outline(new_outline);
        self.contour_idx = None;
        self.point_idx = None;
        self.selected.clear();
        self.end_modification();
    }

    /// The step simplifying at the point clicked last takes; see
    /// `SimplifyStep`. Where it is `Fit`, the caller judges the curves
    /// between the neighbours it names (arithmetic on coordinates) before
    /// calling [`Editor::simplify_selection`].
    pub fn simplify_step(&self) -> (r: SimplifyStep)
        requires
            has_active_layer(self@),
            self@.contour_idx is Some,
            self@.point_idx is Some,
            self@.contour_idx->0 < active_outline(self@).len(),
            self@.point_idx->0 < active_outline(self@)[self@.contour_idx->0 as int].len(),
        ensures
            r == spec_simplify_step(self@),
    {
        let contour_idx = self.contour_idx.unwrap();
        let point_idx = self.point_idx.unwrap();
        let layer = self.get_active_layer_ref();
        proof {
            assert(outline_view(layer.outline@)[contour_idx as int] == layer.outline@[contour_idx as int]@);
        }
        let n = layer.outline[contour_idx].len();
        if n < 3 {
            return SimplifyStep::DeletePoint;
        }
        let open = layer.outline[contour_idx][0].ptype == PointType::Move;
        if (point_idx == 0 || point_idx == n - 1) && open {
            return SimplifyStep::DeleteSelection;
        }
        let prev = if point_idx == 0 { n - 1 } else { point_idx - 1 };
        let next = if point_idx == n - 1 { 0 } else { point_idx + 1 };
        SimplifyStep::Fit { prev, next }
    }

    /// Simplifies at the point clicked last; the point always goes (see
    /// `spec_simplify_selection`). `fit` is the caller's judgement of the
    /// curves around it where `simplify_step` gives `Fit`: the `a` handle of
    /// the point before and the `b` handle of the point after of the one
    /// curve fitted in their place, or `None` where they are no simple arches
    /// or turn too sharply. In the other steps `fit` is not looked at.
    pub fn simplify_selection(&mut self, fit: Option<(Handle<C>, Handle<C>)>)
        requires
            !old(self)@.modifying,
            has_active_layer(old(self)@),
            old(self)@.contour_idx is Some,
            old(self)@.point_idx is Some,
            old(self)@.contour_idx->0 < active_outline(old(self)@).len(),
            old(self)@.point_idx->0 < active_outline(old(self)@)[old(self)@.contour_idx->0 as int].len(),
        ensures
            final(self)@ == spec_simplify_selection(old(self)@, fit),
    {
        match self.simplify_step() {
            SimplifyStep::DeletePoint => self.delete_single_point(),
            SimplifyStep::DeleteSelection => self.delete_selection(),
            SimplifyStep::Fit { prev, next } => match fit {
                None => self.delete_single_point(),
                Some((a, b)) => self.apply_simplify_fit(prev, next, a, b),
            },
        }
    }

    /// Replaces the curves around the point clicked last by one; see
    /// `spec_simplify_fit`.
    fn apply_simplify_fit(&mut self, prev: usize, next: usize, prev_a: Handle<C>, next_b: Handle<C>)
        requires
            !old(self)@.modifying,
            has_active_layer(old(self)@),
            old(self)@.contour_idx is Some,
            old(self)@.point_idx is Some,
            old(self)@.contour_idx->0 < active_outline(old(self)@).len(),
            old(self)@.point_idx->0 < active_outline(old(self)@)[old(self)@.contour_idx->0 as int].len(),
            prev < active_outline(old(self)@)[old(self)@.contour_idx->0 as int].len(),
            next < active_outline(old(self)@)[old(self)@.contour_idx->0 as int].len(),
        ensures
            final(self)@ == spec_simplify_fit(old(self)@, prev as int, next as int, prev_a, next_b),
    {
        self.begin_modification("Simplify selection.");
        let contour_idx = self.contour_idx.unwrap();
        let point_idx = self.point_idx.unwrap();
        let mut outline = crate::layer::duplicate_outline(&self.get_active_layer_ref().outline);
        let ghost o = outline_view(outline@);
        let ghost full = outline@;
        let mut contour = outline.remove(contour_idx);
        assert(contour@ == o[contour_idx as int]);
        let mut p = contour[prev].duplicate();
        p.a = prev_a;
        contour.set(prev, p);
        let mut q = contour[next].duplicate();
        q.b = next_b;
        contour.set(next, q);
        contour.remove(point_idx);
        let ghost c = o[contour_idx as int];
        let ghost c1 = c.update(prev as int, Point { a: prev_a, ..c[prev as int] });
        let ghost c2 = c1.update(next as int, Point { b: next_b, ..c1[next as int] });
        assert(contour@ =~= c2.remove(point_idx as int));
        outline.insert(contour_idx, contour);
        assert(outline@ =~= full.update(contour_idx as int, outline@[contour_idx as int]));
        assert(outline_view(outline@) =~= o.update(contour_idx as int, c2.remove(point_idx as int)));
        self.set_active_outline(outline);
        self.contour_idx = None;
        self.point_idx = None;
        self.selected.clear();
        self.end_modification();
    }

    /// Deletes the point clicked last; the state before is recorded to undo
    /// to.
    pub fn delete_single_point(&mut self)
        requires
            !old(self)@.modifying,
            has_active_layer(old(self)@),
            old(self)@.contour_idx is Some,
            old(self)@.point_idx is Some,
            old(self)@.contour_idx->0 < active_outline(old(self)@).len(),
            old(self)@.point_idx->0 < active_outline(old(self)@)[old(self)@.contour_idx->0 as int].len(),
        ensures
            final(self)@ == spec_delete_single_point(old(self)@),
    {
        self.begin_modification("Delete selection.");
        let contour_idx = self.contour_idx.unwrap();
        let point_idx = self.point_idx.unwrap();
        let mut outline = crate::layer::duplicate_outline(&self.get_active_layer_ref().outline);
        let ghost o = outline_view(outline@);
        let mut contour = outline.remove(contour_idx);
        contour.remove(point_idx);
        outline.insert(contour_idx, contour);
        assert(outline_view(outline@) =~= o.update(contour_idx as int, o[contour_idx as int].remove(point_idx as int)));
        self.set_active_outline(outline);
        self.contour_idx = None;
        self.point_idx = None;
        self.selected.clear();
        self.end_modification();
    }

    /// Pastes contours into the active layer, after its own; they become the
    /// selection. The state before is recorded to undo to.
    pub fn paste_selection(&mut self, clipboard: Vec<Vec<Point<C>>>)
        requires
            !old(self)@.modifying,
            has_active_layer(old(self)@),
            active_outline(old(self)@).len() + clipboard@.len() <= usize::MAX,
        ensures
            final(self)@ == spec_paste_selection(old(self)@, outline_view(clipboard@)),
    {
        self.begin_modification("Paste clipboard.");
        self.contour_idx = None;
        self.point_idx = None;
        self.selected.clear();
        let mut outline = crate::layer::duplicate_outline(&self.get_active_layer_ref().outline);
        let base = outline.len();
        let ghost o = outline_view(outline@);
        let ghost clip = outline_view(clipboard@);
        let mut new_selected = PointSelection::new();
        let mut k: usize = 0;
        while k < clipboard.len()
            invariant
                base == o.len(),
                clip == outline_view(clipboard@),
                base + clip.len() <= usize::MAX,
                k <= clip.len(),
                outline_view(outline@) == o + clip.subrange(0, k as int),
                new_selected@ == pasted_points(base as nat, clip.subrange(0, k as int)),
            decreases clip.len() - k,
        {
            let cur_idx = outline.len();
            assert(outline_view(outline@).len() == outline@.len());
            let contour = &clipboard[k];
            let mut pi: usize = 0;
            while pi < contour.len()
                invariant
                    base + clip.len() <= usize::MAX,
                    k < clip.len(),
                    cur_idx == base + k,
                    pi <= contour@.len(),
                    contour@ == clip[k as int],
                    new_selected@ == pasted_points(base as nat, clip.subrange(0, k as int)).union(
                        Set::new(|p: (usize, usize)| p.0 == cur_idx && p.1 < pi),
                    ),
                decreases contour@.len() - pi,
            {
                new_selected.insert((cur_idx, pi));
                pi = pi + 1;
                assert(new_selected@ =~= pasted_points(base as nat, clip.subrange(0, k as int)).union(
                    Set::new(|p: (usize, usize)| p.0 == cur_idx && p.1 < pi),
                ));
            }
            assert(new_selected@ =~= pasted_points(base as nat, clip.subrange(0, k + 1))) by {
                assert forall|p: (usize, usize)| #[trigger] new_selected@.contains(p) == pasted_points(base as nat, clip.subrange(0, k + 1)).contains(p) by {
                    if base <= p.0 < base + k {
                        assert(clip.subrange(0, k + 1)[p.0 - base] == clip.subrange(0, k as int)[p.0 - base]);
                    }
                }
            }
            let ghost before = outline@;
            outline.push(crate::layer::duplicate_contour(contour));
            assert(outline_view(outline@) =~= outline_view(before).push(clip[k as int]));
            k = k + 1;
            assert(o + clip.subrange(0, k as int) =~= (o + clip.subrange(0, k - 1)).push(clip[k - 1]));
        }
        assert(clip.subrange(0, clip.len() as int) =~= clip);
        self.set_active_outline(outline);
        self.selected.extend(&new_selected);
        assert(self.selected@ =~= new_selected@);
        self.end_modification();
    }
}

} // verus!
