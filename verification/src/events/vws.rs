//! Variable width stroking: the stroke settings kept for each contour, and
//! what the settings window does with them. The handles themselves (offsets
//! and tangents) are numbers the stroker reads; here they are a type
//! parameter `H` that is only copied.
use vstd::prelude::*;

verus! {

/// How two stroked segments are joined.
#[derive(Debug, Clone, Copy, PartialEq, Eq, Structural)]
pub enum JoinType {
    Round,
    Miter,
    Bevel,
}

/// How the ends of a stroked contour are capped.
#[derive(Debug, Clone, Copy, PartialEq, Eq, Structural)]
pub enum CapType {
    Round,
    Square,
    Custom,
}

/// The place of a join type in the settings window's list.
pub open spec fn spec_join_type_to_idx(jt: JoinType) -> nat {
    match jt {
        JoinType::Round => 0,
        JoinType::Miter => 1,
        JoinType::Bevel => 2,
    }
}

/// The join type at a place of the settings window's list.
pub open spec fn spec_idx_to_join_type(idx: nat) -> JoinType
    recommends
        idx < 3,
{
    if idx == 0 {
        JoinType::Round
    } else if idx == 1 {
        JoinType::Miter
    } else {
        JoinType::Bevel
    }
}

/// The place of a cap type in the settings window's list.
pub open spec fn spec_cap_type_to_idx(ct: CapType) -> nat {
    match ct {
        CapType::Round => 0,
        CapType::Square => 1,
        CapType::Custom => 2,
    }
}

/// The cap type at a place of the settings window's list.
pub open spec fn spec_idx_to_cap_type(idx: nat) -> CapType
    recommends
        idx < 3,
{
    if idx == 0 {
        CapType::Round
    } else if idx == 1 {
        CapType::Square
    } else {
        CapType::Custom
    }
}

pub fn join_type_to_idx(jt: JoinType) -> (i: usize)
    ensures
        i == spec_join_type_to_idx(jt),
{
    match jt {
        JoinType::Round => 0,
        JoinType::Miter => 1,
        JoinType::Bevel => 2,
    }
}

pub fn idx_to_join_type(idx: usize) -> (jt: JoinType)
    requires
        idx < 3,
    ensures
        jt == spec_idx_to_join_type(idx as nat),
{
    if idx == 0 {
        JoinType::Round
    } else if idx == 1 {
        JoinType::Miter
    } else {
        JoinType::Bevel
    }
}

pub fn cap_type_to_idx(ct: CapType) -> (i: usize)
    ensures
        i == spec_cap_type_to_idx(ct),
{
    match ct {
        CapType::Round => 0,
        CapType::Square => 1,
        CapType::Custom => 2,
    }
}

pub fn idx_to_cap_type(idx: usize) -> (ct: CapType)
    requires
        idx < 3,
    ensures
        ct == spec_idx_to_cap_type(idx as nat),
{
    if idx == 0 {
        CapType::Round
    } else if idx == 1 {
        CapType::Square
    } else {
        CapType::Custom
    }
}

/// A join type's place in the list leads back to it, and every place of the
/// list leads back to itself.
pub proof fn law_join_type_idx_roundtrip(jt: JoinType, idx: nat)
    ensures
        spec_idx_to_join_type(spec_join_type_to_idx(jt)) == jt,
        spec_join_type_to_idx(jt) < 3,
        idx < 3 ==> spec_join_type_to_idx(spec_idx_to_join_type(idx)) == idx,
{
}

/// A cap type's place in the list leads back to it, and every place of the
/// list leads back to itself.
pub proof fn law_cap_type_idx_roundtrip(ct: CapType, idx: nat)
    ensures
        spec_idx_to_cap_type(spec_cap_type_to_idx(ct)) == ct,
        spec_cap_type_to_idx(ct) < 3,
        idx < 3 ==> spec_cap_type_to_idx(spec_idx_to_cap_type(idx)) == idx,
{
}

/// The stroke settings of one contour: a handle per point (and one more),
/// the contour they belong to, its caps and its joins.
pub struct VWSContour<H> {
    pub handles: Vec<H>,
    pub id: usize,
    pub cap_start_type: CapType,
    pub cap_end_type: CapType,
    pub join_type: JoinType,
}

/// The settings of a contour as values.
pub struct VWSContourView<H> {
    pub handles: Seq<H>,
    pub id: usize,
    pub cap_start_type: CapType,
    pub cap_end_type: CapType,
    pub join_type: JoinType,
}

impl<H> View for VWSContour<H> {
    type V = VWSContourView<H>;

    open spec fn view(&self) -> VWSContourView<H> {
        VWSContourView {
            handles: self.handles@,
            id: self.id,
            cap_start_type: self.cap_start_type,
            cap_end_type: self.cap_end_type,
            join_type: self.join_type,
        }
    }
}

/// The settings of every stroked contour, as values.
pub open spec fn vws_view<H>(s: Seq<VWSContour<H>>) -> Seq<VWSContourView<H>> {
    s.map_values(|c: VWSContour<H>| c@)
}

/// Whether settings `i` are the first that belong to contour `id`.
pub open spec fn is_first_with_id<H>(s: Seq<VWSContourView<H>>, id: usize, i: int) -> bool {
    0 <= i < s.len() && s[i].id == id && forall|j: int| 0 <= j < i ==> s[j].id != id
}

/// Whether settings `i` are the last that belong to contour `id`.
pub open spec fn is_last_with_id<H>(s: Seq<VWSContourView<H>>, id: usize, i: int) -> bool {
    0 <= i < s.len() && s[i].id == id && forall|j: int| i < j < s.len() ==> s[j].id != id
}

/// The first settings that belong to contour `id`, if any.
pub open spec fn first_with_id<H>(s: Seq<VWSContourView<H>>, id: usize) -> Option<int> {
    if exists|i: int| is_first_with_id(s, id, i) {
        Some(choose|i: int| is_first_with_id(s, id, i))
    } else {
        None
    }
}

/// The last settings that belong to contour `id`, if any.
pub open spec fn last_with_id<H>(s: Seq<VWSContourView<H>>, id: usize) -> Option<int> {
    if exists|i: int| is_last_with_id(s, id, i) {
        Some(choose|i: int| is_last_with_id(s, id, i))
    } else {
        None
    }
}

/// Some settings belong to contour `id` exactly when a first (and a last)
/// of them can be named.
pub proof fn lemma_with_id_exists<H>(s: Seq<VWSContourView<H>>, id: usize)
    ensures
        (first_with_id(s, id) is None) == (forall|j: int| 0 <= j < s.len() ==> s[j].id != id),
        (last_with_id(s, id) is None) == (forall|j: int| 0 <= j < s.len() ==> s[j].id != id),
    decreases s.len(),
{
    if exists|j: int| 0 <= j < s.len() && s[j].id == id {
        let k = choose|k: int| 0 <= k < s.len() && s[k].id == id;
        if s.last().id == id {
            assert(is_last_with_id(s, id, s.len() - 1));
        } else {
            let t = s.drop_last();
            lemma_with_id_exists(t, id);
            assert(t[k] == s[k]);
            let l = choose|i: int| is_last_with_id(t, id, i);
            assert forall|j: int| l < j < s.len() implies s[j].id != id by {
                if j < s.len() - 1 {
                    assert(t[j] == s[j]);
                }
            }
            assert(is_last_with_id(s, id, l));
        }
        if s[0].id == id {
            assert(is_first_with_id(s, id, 0));
        } else {
            let t = s.drop_first();
            lemma_with_id_exists(t, id);
            assert(t[k - 1] == s[k]);
            let f = choose|i: int| is_first_with_id(t, id, i);
            assert forall|j: int| 0 <= j < f + 1 implies s[j].id != id by {
                if j > 0 {
                    assert(t[j - 1] == s[j]);
                }
            }
            assert(is_first_with_id(s, id, f + 1));
        }
    }
}

/// Settings for contour `id` with `n` copies of handle `h`, round caps and
/// round joins.
pub open spec fn fresh_vws_contour<H>(id: usize, n: nat, h: H) -> VWSContourView<H> {
    VWSContourView {
        handles: Seq::new(n, |i: int| h),
        id,
        cap_start_type: CapType::Round,
        cap_end_type: CapType::Round,
        join_type: JoinType::Round,
    }
}

/// The settings list after `c` replaces the settings of contour `id`: the
/// last settings of that contour leave the list (if there are any) and `c`
/// goes to its end.
pub open spec fn spec_set_vws_contour<H>(s: Seq<VWSContourView<H>>, id: usize, c: VWSContourView<H>) -> Seq<VWSContourView<H>> {
    match last_with_id(s, id) {
        Some(i) => s.remove(i).push(c),
        None => s.push(c),
    }
}

/// Whether at most one settings belong to contour `id`.
pub open spec fn at_most_one_with_id<H>(s: Seq<VWSContourView<H>>, id: usize) -> bool {
    forall|i: int, j: int| 0 <= i < s.len() && 0 <= j < s.len() && s[i].id == id && s[j].id == id ==> i == j
}

/// Storing settings for a contour that had at most one keeps it at one, and
/// reading the contour's settings back gives what was stored.
pub proof fn law_set_then_get_vws_contour<H>(s: Seq<VWSContourView<H>>, id: usize, c: VWSContourView<H>)
    requires
        c.id == id,
        at_most_one_with_id(s, id),
    ensures
        at_most_one_with_id(spec_set_vws_contour(s, id, c), id),
        first_with_id(spec_set_vws_contour(s, id, c), id) == Some(spec_set_vws_contour(s, id, c).len() - 1),
        spec_set_vws_contour(s, id, c).last() == c,
{
    lemma_with_id_exists(s, id);
    let t = spec_set_vws_contour(s, id, c);
    let rest = match last_with_id(s, id) {
        Some(i) => s.remove(i),
        None => s,
    };
    assert(t == rest.push(c));
    assert forall|j: int| 0 <= j < rest.len() implies rest[j].id != id by {
        match last_with_id(s, id) {
            Some(i) => {
                assert(is_last_with_id(s, id, i));
                if j < i {
                    assert(rest[j] == s[j]);
                    assert(s[j].id != id);
                } else {
                    assert(rest[j] == s[j + 1]);
                }
            },
            None => {},
        }
    }
    assert forall|j: int| 0 <= j < t.len() - 1 implies t[j].id != id by {
        assert(t[j] == rest[j]);
    }
    assert(is_first_with_id(t, id, t.len() - 1));
    let f = choose|k: int| is_first_with_id(t, id, k);
    assert(f == t.len() - 1);
}

fn copy_contour<H: Copy>(c: &VWSContour<H>) -> (r: VWSContour<H>)
    ensures
        r@ == c@,
{
    let mut handles: Vec<H> = Vec::new();
    let mut i: usize = 0;
    while i < c.handles.len()
        invariant
            i <= c.handles@.len(),
            handles@ == c.handles@.subrange(0, i as int),
        decreases c.handles@.len() - i,
    {
        handles.push(c.handles[i]);
        i = i + 1;
        assert(handles@ =~= c.handles@.subrange(0, i as int));
    }
    assert(handles@ =~= c.handles@);
    VWSContour {
        handles,
        id: c.id,
        cap_start_type: c.cap_start_type,
        cap_end_type: c.cap_end_type,
        join_type: c.join_type,
    }
}

/// Where the settings of contour `contour_idx` stand in the list: the first
/// that belong to it.
pub fn get_vws_contour_idx<H>(contours: &Vec<VWSContour<H>>, contour_idx: usize) -> (r: Option<usize>)
    ensures
        match first_with_id(vws_view(contours@), contour_idx) {
            Some(i) => r == Some(i as usize),
            None => r is None,
        },
        r matches Some(i) ==> is_first_with_id(vws_view(contours@), contour_idx, i as int),
{
    let ghost s = vws_view(contours@);
    let mut i: usize = 0;
    while i < contours.len()
        invariant
            s == vws_view(contours@),
            i <= contours@.len(),
            forall|j: int| 0 <= j < i ==> s[j].id != contour_idx,
        decreases contours@.len() - i,
    {
        if contours[i].id == contour_idx {
            assert(is_first_with_id(s, contour_idx, i as int));
            let ghost k = choose|k: int| is_first_with_id(s, contour_idx, k);
            assert(k == i) by {
                if k < i {
                    assert(s[k].id != contour_idx);
                } else if k > i {
                    assert(s[i as int].id != contour_idx);
                }
            }
            return Some(i);
        }
        i = i + 1;
    }
    proof {
        lemma_with_id_exists(s, contour_idx);
    }
    None
}

/// A copy of the first settings that belong to contour `contour_idx`.
pub fn get_vws_contour<H: Copy>(contours: &Vec<VWSContour<H>>, contour_idx: usize) -> (r: Option<VWSContour<H>>)
    ensures
        match first_with_id(vws_view(contours@), contour_idx) {
            Some(i) => r is Some && r.unwrap()@ == vws_view(contours@)[i],
            None => r is None,
        },
{
    proof {
        assert(vws_view(contours@).len() == contours@.len());
    }
    match get_vws_contour_idx(contours, contour_idx) {
        Some(i) => {
            proof {
                let f = first_with_id(vws_view(contours@), contour_idx);
                assert(f == Some(i as int));
                assert(vws_view(contours@)[i as int] == contours@[i as int]@);
            }
            Some(copy_contour(&contours[i]))
        },
        None => None,
    }
}

/// Replaces the settings of contour `contour_idx` with `vws_contour`: the
/// last settings of that contour are removed and `vws_contour` is appended.
pub fn set_vws_contour_by_value<H>(
    contours: &mut Vec<VWSContour<H>>,
    contour_idx: usize,
    vws_contour: VWSContour<H>,
)
    ensures
        vws_view(final(contours)@) == spec_set_vws_contour(vws_view(old(contours)@), contour_idx, vws_contour@),
{
    let ghost s = vws_view(contours@);
    let mut to_remove: Option<usize> = None;
    let mut i: usize = 0;
    while i < contours.len()
        invariant
            s == vws_view(contours@),
            i <= contours@.len(),
            match to_remove {
                Some(k) => k < i && s[k as int].id == contour_idx
                    && forall|j: int| k < j < i ==> s[j].id != contour_idx,
                None => forall|j: int| 0 <= j < i ==> s[j].id != contour_idx,
            },
        decreases contours@.len() - i,
    {
        if contours[i].id == contour_idx {
            to_remove = Some(i);
        }
        i = i + 1;
    }
    proof {
        lemma_with_id_exists(s, contour_idx);
        match to_remove {
            Some(k) => {
                assert(is_last_with_id(s, contour_idx, k as int));
                let c = choose|c: int| is_last_with_id(s, contour_idx, c);
                assert(c == k) by {
                    if c < k {
                        assert(s[k as int].id != contour_idx);
                    } else if c > k {
                        assert(s[c].id != contour_idx);
                    }
                }
            },
            None => {},
        }
    }
    if let Some(k) = to_remove {
        contours.remove(k);
        assert(vws_view(contours@) =~= s.remove(k as int));
    }
    let ghost before = contours@;
    contours.push(vws_contour);
    assert(vws_view(contours@) =~= vws_view(before).push(vws_contour@));
}

/// Adds settings for contour `contour_idx`: as many copies of `default` as
/// `contour` has points, and one more, with round caps and joins.
pub fn generate_vws_contour<H: Copy, P>(
    contours: &mut Vec<VWSContour<H>>,
    contour_idx: usize,
    contour: &Vec<P>,
    default: H,
)
    requires
        contour@.len() < usize::MAX,
    ensures
        vws_view(final(contours)@) == vws_view(old(contours)@).push(
            fresh_vws_contour(contour_idx, (contour@.len() + 1) as nat, default),
        ),
{
    let n = contour.len() + 1;
    let mut handles: Vec<H> = Vec::new();
    let mut i: usize = 0;
    while i < n
        invariant
            i <= n,
            handles@ == Seq::new(i as nat, |k: int| default),
        decreases n - i,
    {
        handles.push(default);
        i = i + 1;
        assert(handles@ =~= Seq::new(i as nat, |k: int| default));
    }
    let c = VWSContour {
        handles,
        id: contour_idx,
        cap_start_type: CapType::Round,
        cap_end_type: CapType::Round,
        join_type: JoinType::Round,
    };
    let ghost before = contours@;
    contours.push(c);
    assert(vws_view(contours@) =~= vws_view(before).push(c@));
}

/// The settings list after settings `idx` get `k` more copies of `h`.
pub open spec fn with_more_handles<H>(s: Seq<VWSContourView<H>>, idx: int, k: nat, h: H) -> Seq<VWSContourView<H>> {
    s.update(idx, VWSContourView { handles: s[idx].handles + Seq::new(k, |i: int| h), ..s[idx] })
}

/// Pads settings `contour_idx`: with `contour_size` the number of points of
/// the contour, as many copies of `default` are appended as the settings
/// have handles beyond `contour_size + 1`.
pub fn fix_vws_contour<H: Copy>(
    contours: &mut Vec<VWSContour<H>>,
    contour_idx: usize,
    contour_size: usize,
    default: H,
)
    requires
        contour_idx < old(contours)@.len(),
        contour_size < usize::MAX,
        old(contours)@[contour_idx as int].handles@.len() >= contour_size + 1,
        old(contours)@[contour_idx as int].handles@.len() * 2 - (contour_size + 1) <= usize::MAX,
    ensures
        vws_view(final(contours)@) == with_more_handles(
            vws_view(old(contours)@),
            contour_idx as int,
            (old(contours)@[contour_idx as int].handles@.len() - (contour_size + 1)) as nat,
            default,
        ),
{
    let vws_contour_size = contours[contour_idx].handles.len();
    let difference = vws_contour_size - (contour_size + 1);
    let ghost s = vws_view(contours@);
    let mut c = contours.remove(contour_idx);
    let ghost rest = contours@;
    let mut i: usize = 0;
    while i < difference
        invariant
            i <= difference,
            c.handles@ == s[contour_idx as int].handles + Seq::new(i as nat, |k: int| default),
            c.handles@.len() == vws_contour_size + i,
            vws_contour_size + difference <= usize::MAX,
            c.id == s[contour_idx as int].id,
            c.cap_start_type == s[contour_idx as int].cap_start_type,
            c.cap_end_type == s[contour_idx as int].cap_end_type,
            c.join_type == s[contour_idx as int].join_type,
        decreases difference - i,
    {
        c.handles.push(default);
        i = i + 1;
        assert(c.handles@ =~= s[contour_idx as int].handles + Seq::new(i as nat, |k: int| default));
    }
    contours.insert(contour_idx, c);
    assert(vws_view(contours@) =~= with_more_handles(s, contour_idx as int, difference as nat, default));
}

/// Handle `handle_idx` of settings `vcontour`, or `default` when there are
/// no settings. Settings with fewer than `handle_idx` handles are padded
/// first (see `fix_vws_contour`).
pub fn get_vws_handle<H: Copy>(
    contours: &mut Vec<VWSContour<H>>,
    vcontour: Option<usize>,
    handle_idx: usize,
    contour_size: usize,
    default: H,
) -> (h: H)
    requires
        vcontour matches Some(vc) ==> {
            &&& vc < old(contours)@.len()
            &&& contour_size < usize::MAX
            &&& {
                let n = old(contours)@[vc as int].handles@.len();
                if n < handle_idx {
                    n >= contour_size + 1 && n * 2 - (contour_size + 1) <= usize::MAX
                        && handle_idx < n * 2 - (contour_size + 1)
                } else {
                    handle_idx < n
                }
            }
        },
    ensures
        vcontour is None ==> h == default && final(contours)@ == old(contours)@,
        vcontour matches Some(vc) ==> {
            let n = old(contours)@[vc as int].handles@.len();
            let s1 = if n < handle_idx {
                with_more_handles(vws_view(old(contours)@), vc as int, (n - (contour_size + 1)) as nat, default)
            } else {
                vws_view(old(contours)@)
            };
            &&& vws_view(final(contours)@) == s1
            &&& h == s1[vc as int].handles[handle_idx as int]
        },
{
    match vcontour {
        Some(vc) => {
            if contours[vc].handles.len() < handle_idx {
                fix_vws_contour(contours, vc, contour_size, default);
            }
            proof {
                assert(vws_view(contours@).len() == contours@.len());
                assert(vws_view(contours@)[vc as int] == contours@[vc as int]@);
            }
            contours[vc].handles[handle_idx]
        },
        None => default,
    }
}

/// What choosing caps in the settings window does: when contour
/// `contour_idx` has settings and either chosen place differs from its
/// caps, its caps become the chosen ones and the settings are stored back
/// (`set_vws_contour_by_value`). Gives back whether the previews must be
/// made again.
pub fn check_vws_cap_combo<H: Copy>(
    contours: &mut Vec<VWSContour<H>>,
    contour_idx: usize,
    start_selection: usize,
    end_selection: usize,
) -> (regenerate: bool)
    requires
        start_selection < 3,
        end_selection < 3,
    ensures
        match first_with_id(vws_view(old(contours)@), contour_idx) {
            Some(i) => {
                let c = vws_view(old(contours)@)[i];
                let changed = spec_cap_type_to_idx(c.cap_start_type) != start_selection
                    || spec_cap_type_to_idx(c.cap_end_type) != end_selection;
                &&& regenerate == changed
                &&& changed ==> vws_view(final(contours)@) == spec_set_vws_contour(
                    vws_view(old(contours)@),
                    contour_idx,
                    VWSContourView {
                        cap_start_type: spec_idx_to_cap_type(start_selection as nat),
                        cap_end_type: spec_idx_to_cap_type(end_selection as nat),
                        ..c
                    },
                )
                &&& !changed ==> final(contours)@ == old(contours)@
            },
            None => !regenerate && final(contours)@ == old(contours)@,
        },
{
    match get_vws_contour(contours, contour_idx) {
        Some(mut c) => {
            let old_s = cap_type_to_idx(c.cap_start_type);
            let old_e = cap_type_to_idx(c.cap_end_type);
            let s_selection = idx_to_cap_type(start_selection);
            let e_selection = idx_to_cap_type(end_selection);
            if old_s != start_selection || end_selection != old_e {
                c.cap_start_type = s_selection;
                c.cap_end_type = e_selection;
                set_vws_contour_by_value(contours, contour_idx, c);
                true
            } else {
                false
            }
        },
        None => false,
    }
}

/// What choosing a join type in the settings window does: when contour
/// `contour_idx` has settings, their join type becomes the chosen one and
/// they are stored back (`set_vws_contour_by_value`). Gives back whether
/// the previews must be made again.
pub fn check_vws_join_combo<H: Copy>(
    contours: &mut Vec<VWSContour<H>>,
    contour_idx: usize,
    selection: usize,
) -> (regenerate: bool)
    requires
        selection < 3,
    ensures
        match first_with_id(vws_view(old(contours)@), contour_idx) {
            Some(i) => {
                let c = vws_view(old(contours)@)[i];
                &&& regenerate
                &&& vws_view(final(contours)@) == spec_set_vws_contour(
                    vws_view(old(contours)@),
                    contour_idx,
                    VWSContourView { join_type: spec_idx_to_join_type(selection as nat), ..c },
                )
            },
            None => !regenerate && final(contours)@ == old(contours)@,
        },
{
    match get_vws_contour(contours, contour_idx) {
        Some(mut c) => {
            c.join_type = idx_to_join_type(selection);
            set_vws_contour_by_value(contours, contour_idx, c);
            true
        },
        None => false,
    }
}

} // verus!
