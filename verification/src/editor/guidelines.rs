//! The guidelines that mark the glyph's width: the left and right side
//! bearings, upright and, when the font is italic, slanted.
use vstd::prelude::*;
use super::{Editor, EditorView};
use crate::layer::Guideline;
use crate::text::{append_str, str_eq};

verus! {

/// Whether a guideline stays when the width guidelines are made anew: it
/// does not come from the font's metrics, or it is the ascender or the
/// descender.
pub open spec fn keeps_guideline<C>(g: Guideline<C>) -> bool {
    !g.format || (g.name matches Some(n) && (n@ == "ascender"@ || n@ == "descender"@))
}

/// The guidelines of `s` that stay, in order.
pub open spec fn kept_guidelines<C>(s: Seq<Guideline<C>>) -> Seq<Guideline<C>>
    decreases s.len(),
{
    if s.len() == 0 {
        Seq::empty()
    } else if keeps_guideline(s.last()) {
        kept_guidelines(s.drop_last()).push(s.last())
    } else {
        kept_guidelines(s.drop_last())
    }
}

/// Whether `g` is the width guideline named `name` at (`x`, `y`) under
/// `angle`: a metrics guideline, fixed unless it marks the right side.
pub open spec fn is_width_guideline<C>(g: Guideline<C>, x: C, y: C, angle: C, name: Seq<char>, right: bool) -> bool {
    &&& g.x == x
    &&& g.y == y
    &&& g.angle == angle
    &&& g.name matches Some(n) && n@ == name
    &&& g.fixed == !right
    &&& g.format
    &&& g.right == right
}

/// Whether `gs` are the width guidelines, first to last: the slanted right
/// and left bearings (unless the slant is upright), then the upright right
/// and left bearings. The left bearings stand at `zero`, the right ones at
/// `width`; the upright ones are at angle `upright`, the slanted ones at
/// `italic`.
pub open spec fn are_width_guidelines<C>(gs: Seq<Guideline<C>>, zero: C, width: C, upright: C, italic: C, italic_upright: bool) -> bool {
    if italic_upright {
        &&& gs.len() == 2
        &&& is_width_guideline(gs[0], width, zero, upright, "rbearing"@, true)
        &&& is_width_guideline(gs[1], zero, zero, upright, "lbearing"@, false)
    } else {
        &&& gs.len() == 4
        &&& is_width_guideline(gs[0], width, zero, italic, "italic_rbearing"@, true)
        &&& is_width_guideline(gs[1], zero, zero, italic, "italic_lbearing"@, false)
        &&& is_width_guideline(gs[2], width, zero, upright, "rbearing"@, true)
        &&& is_width_guideline(gs[3], zero, zero, upright, "lbearing"@, false)
    }
}

fn string_of(s: &str) -> (r: String)
    ensures
        r@ == s@,
{
    let mut r = String::new();
    append_str(&mut r, s);
    assert(r@ =~= s@);
    r
}

fn width_guideline<C: Copy>(x: C, y: C, angle: C, name: &str, right: bool) -> (g: Guideline<C>)
    ensures
        is_width_guideline(g, x, y, angle, name@, right),
{
    Guideline { x, y, angle, name: Some(string_of(name)), fixed: !right, format: true, right }
}

fn keeps(g: &Guideline<impl Copy>) -> (r: bool)
    ensures
        r == keeps_guideline(*g),
{
    if !g.format {
        return true;
    }
    match &g.name {
        Some(n) => str_eq(n.as_str(), "ascender") || str_eq(n.as_str(), "descender"),
        None => false,
    }
}

/// Whether `new` is `old` with the width guidelines made anew: the width
/// guidelines (see `are_width_guidelines`) in front of the guidelines of
/// `old` that stay (see `keeps_guideline`).
pub open spec fn width_guidelines_made<C>(
    old: Seq<Guideline<C>>,
    new: Seq<Guideline<C>>,
    zero: C,
    width: C,
    upright: C,
    italic: C,
    italic_upright: bool,
) -> bool {
    let n = if italic_upright { 2int } else { 4int };
    &&& new.len() == n + kept_guidelines(old).len()
    &&& are_width_guidelines(new.subrange(0, n), zero, width, upright, italic, italic_upright)
    &&& new.subrange(n, new.len() as int) == kept_guidelines(old)
}

/// Whether two guidelines agree in every field, their names by their
/// characters.
pub open spec fn same_guideline<C>(a: Guideline<C>, b: Guideline<C>) -> bool {
    &&& a.x == b.x
    &&& a.y == b.y
    &&& a.angle == b.angle
    &&& opt_chars(a.name) == opt_chars(b.name)
    &&& a.fixed == b.fixed
    &&& a.format == b.format
    &&& a.right == b.right
}

/// The characters of an optional name.
pub open spec fn opt_chars(s: Option<String>) -> Option<Seq<char>> {
    match s {
        Some(t) => Some(t@),
        None => None,
    }
}

proof fn lemma_kept_concat<C>(a: Seq<Guideline<C>>, b: Seq<Guideline<C>>)
    ensures
        kept_guidelines(a + b) == kept_guidelines(a) + kept_guidelines(b),
    decreases b.len(),
{
    if b.len() == 0 {
        assert(a + b =~= a);
        assert(kept_guidelines(a) + kept_guidelines(b) =~= kept_guidelines(a));
    } else {
        lemma_kept_concat(a, b.drop_last());
        assert((a + b).drop_last() =~= a + b.drop_last());
        assert((a + b).last() == b.last());
        if keeps_guideline(b.last()) {
            assert(kept_guidelines(a) + kept_guidelines(b.drop_last()).push(b.last()) =~= (kept_guidelines(a)
                + kept_guidelines(b.drop_last())).push(b.last()));
        }
    }
}

proof fn lemma_kept_all_keep<C>(s: Seq<Guideline<C>>)
    ensures
        forall|i: int| 0 <= i < kept_guidelines(s).len() ==> keeps_guideline(#[trigger] kept_guidelines(s)[i]),
    decreases s.len(),
{
    if s.len() > 0 {
        lemma_kept_all_keep(s.drop_last());
        let k = kept_guidelines(s.drop_last());
        if keeps_guideline(s.last()) {
            assert forall|i: int| 0 <= i < kept_guidelines(s).len() implies keeps_guideline(
                #[trigger] kept_guidelines(s)[i],
            ) by {
                if i < k.len() {
                    assert(kept_guidelines(s)[i] == k[i]);
                }
            }
        }
    }
}

proof fn lemma_kept_when_all_keep<C>(s: Seq<Guideline<C>>)
    requires
        forall|i: int| 0 <= i < s.len() ==> keeps_guideline(#[trigger] s[i]),
    ensures
        kept_guidelines(s) == s,
    decreases s.len(),
{
    if s.len() > 0 {
        assert(keeps_guideline(s[s.len() - 1]));
        lemma_kept_when_all_keep(s.drop_last());
        assert(s.drop_last().push(s.last()) =~= s);
    }
}

proof fn lemma_kept_none_keep<C>(s: Seq<Guideline<C>>)
    requires
        forall|i: int| 0 <= i < s.len() ==> !keeps_guideline(#[trigger] s[i]),
    ensures
        kept_guidelines(s) == Seq::<Guideline<C>>::empty(),
    decreases s.len(),
{
    if s.len() > 0 {
        assert(!keeps_guideline(s[s.len() - 1]));
        lemma_kept_none_keep(s.drop_last());
    }
}

/// Making the width guidelines twice with the same measures gives the same
/// guidelines as making them once.
pub proof fn law_width_guidelines_twice<C>(
    g0: Seq<Guideline<C>>,
    g1: Seq<Guideline<C>>,
    g2: Seq<Guideline<C>>,
    zero: C,
    width: C,
    upright: C,
    italic: C,
    italic_upright: bool,
)
    requires
        width_guidelines_made(g0, g1, zero, width, upright, italic, italic_upright),
        width_guidelines_made(g1, g2, zero, width, upright, italic, italic_upright),
    ensures
        g2.len() == g1.len(),
        forall|i: int| 0 <= i < g1.len() ==> same_guideline(#[trigger] g2[i], g1[i]),
{
    reveal_strlit("ascender");
    reveal_strlit("descender");
    reveal_strlit("rbearing");
    reveal_strlit("lbearing");
    reveal_strlit("italic_rbearing");
    reveal_strlit("italic_lbearing");
    let n = if italic_upright { 2int } else { 4int };
    let front = g1.subrange(0, n);
    let back = g1.subrange(n, g1.len() as int);
    assert(g1 =~= front + back);
    assert forall|i: int| 0 <= i < front.len() implies !keeps_guideline(#[trigger] front[i]) by {
        assert(front[i].format);
        let nm = front[i].name->0@;
        assert(nm.len() != "ascender"@.len() || nm[0] != "ascender"@[0]);
        assert(nm.len() != "descender"@.len() || nm[0] != "descender"@[0]);
    }
    lemma_kept_none_keep(front);
    lemma_kept_concat(front, back);
    lemma_kept_all_keep(g0);
    lemma_kept_when_all_keep(kept_guidelines(g0));
    assert(kept_guidelines(g1) == kept_guidelines(g0));
    let f2 = g2.subrange(0, n);
    assert forall|i: int| 0 <= i < g1.len() implies same_guideline(#[trigger] g2[i], g1[i]) by {
        if i < n {
            assert(g2[i] == f2[i]);
            assert(g1[i] == front[i]);
        } else {
            assert(g2[i] == g2.subrange(n, g2.len() as int)[i - n]);
            assert(g1[i] == back[i - n]);
        }
    }
}

impl<C: Copy, B> Editor<C, B> {
    /// Makes the width guidelines anew: the metrics guidelines go (but the
    /// ascender and descender), and the width guidelines (see
    /// `are_width_guidelines`) are put in front of the others.
    pub fn add_width_guidelines(&mut self, zero: C, width: C, upright: C, italic: C, italic_upright: bool)
        ensures
            width_guidelines_made(
                old(self)@.guidelines,
                final(self)@.guidelines,
                zero,
                width,
                upright,
                italic,
                italic_upright,
            ),
            final(self)@ == (EditorView { guidelines: final(self)@.guidelines, ..old(self)@ }),
    {
        let mut kept: Vec<Guideline<C>> = Vec::new();
        let mut i: usize = 0;
        while i < self.guidelines.len()
            invariant
                i <= self.guidelines@.len(),
                kept@ == kept_guidelines(self.guidelines@.subrange(0, i as int)),
            decreases self.guidelines@.len() - i,
        {
            let ghost prefix = self.guidelines@.subrange(0, i + 1);
            assert(prefix.drop_last() =~= self.guidelines@.subrange(0, i as int));
            assert(prefix.last() == self.guidelines@[i as int]);
            if keeps(&self.guidelines[i]) {
                kept.push(self.guidelines[i].duplicate());
            }
            i = i + 1;
        }
        assert(self.guidelines@.subrange(0, i as int) =~= self.guidelines@);
        let mut front: Vec<Guideline<C>> = Vec::new();
        if !italic_upright {
            front.push(width_guideline(width, zero, italic, "italic_rbearing", true));
            front.push(width_guideline(zero, zero, italic, "italic_lbearing", false));
        }
        front.push(width_guideline(width, zero, upright, "rbearing", true));
        front.push(width_guideline(zero, zero, upright, "lbearing", false));
        let ghost f = front@;
        let ghost k = kept@;
        front.append(&mut kept);
        assert(front@ =~= f + k);
        assert(front@.subrange(0, f.len() as int) =~= f);
        assert(front@.subrange(f.len() as int, front@.len() as int) =~= k);
        self.guidelines = front;
    }
}

/// What is written to the font's metadata from the guidelines: the first
/// ascender and the first descender, in the order they come (their
/// heights become metrics), and the guidelines that do not come from the
/// metrics, by index. A second ascender or descender is skipped altogether.
pub struct MetricsToWrite {
    pub metrics: Vec<usize>,
    pub guidelines: Vec<usize>,
}

/// Whether a guideline is named `name`.
pub open spec fn named<C>(g: Guideline<C>, name: Seq<char>) -> bool {
    g.name matches Some(n) && n@ == name
}

/// The plan after the first `n` guidelines: whether an ascender and a
/// descender were met, the metrics and the guidelines to write.
pub open spec fn metrics_plan<C>(gs: Seq<Guideline<C>>, n: nat) -> (bool, bool, Seq<usize>, Seq<usize>)
    decreases n,
{
    if n == 0 {
        (false, false, Seq::empty(), Seq::empty())
    } else {
        let (asc, desc, metrics, written) = metrics_plan(gs, (n - 1) as nat);
        let i = (n - 1) as int;
        let g = gs[i];
        let w = if !g.format { written.push(i as usize) } else { written };
        if named(g, "ascender"@) {
            if asc {
                (asc, desc, metrics, written)
            } else {
                (true, desc, metrics.push(i as usize), w)
            }
        } else if named(g, "descender"@) {
            if desc {
                (asc, desc, metrics, written)
            } else {
                (asc, true, metrics.push(i as usize), w)
            }
        } else {
            (asc, desc, metrics, w)
        }
    }
}

fn is_named<C>(g: &Guideline<C>, name: &str) -> (r: bool)
    ensures
        r == named(*g, name@),
{
    match &g.name {
        Some(n) => str_eq(n.as_str(), name),
        None => false,
    }
}

/// What writing the metrics sends; see `metrics_plan`.
pub fn metrics_to_write<C>(gs: &Vec<Guideline<C>>) -> (r: MetricsToWrite)
    ensures
        ({
            let (_, _, metrics, written) = metrics_plan(gs@, gs@.len());
            r.metrics@ == metrics && r.guidelines@ == written
        }),
{
    let mut has_ascender = false;
    let mut has_descender = false;
    let mut metrics: Vec<usize> = Vec::new();
    let mut guidelines: Vec<usize> = Vec::new();
    let mut i: usize = 0;
    while i < gs.len()
        invariant
            i <= gs@.len(),
            metrics_plan(gs@, i as nat) == (has_ascender, has_descender, metrics@, guidelines@),
        decreases gs@.len() - i,
    {
        let g = &gs[i];
        let mut skip = false;
        if is_named(g, "ascender") {
            if !has_ascender {
                metrics.push(i);
                has_ascender = true;
            } else {
                skip = true;
            }
        } else if is_named(g, "descender") {
            if !has_descender {
                metrics.push(i);
                has_descender = true;
            } else {
                skip = true;
            }
        }
        if !skip && !g.format {
            guidelines.push(i);
        }
        i = i + 1;
    }
    MetricsToWrite { metrics, guidelines }
}

impl<C: Copy, B> Editor<C, B> {
    /// Adds the font's ascender and descender as metrics guidelines, at
    /// heights `ascender` and `descender`, at `zero` across and at angle
    /// `angle`.
    pub fn add_metrics_guidelines(&mut self, zero: C, angle: C, ascender: C, descender: C)
        ensures
            ({
                let g = final(self)@.guidelines;
                let n = old(self)@.guidelines.len();
                &&& g.len() == n + 2
                &&& g.subrange(0, n as int) == old(self)@.guidelines
                &&& is_metrics_guideline(g[n as int], zero, ascender, angle, "ascender"@)
                &&& is_metrics_guideline(g[n + 1int], zero, descender, angle, "descender"@)
                &&& final(self)@ == (EditorView { guidelines: g, ..old(self)@ })
            }),
    {
        let ghost before = self.guidelines@;
        self.guidelines.push(Guideline {
            x: zero,
            y: ascender,
            angle,
            name: Some(string_of("ascender")),
            fixed: false,
            format: true,
            right: false,
        });
        self.guidelines.push(Guideline {
            x: zero,
            y: descender,
            angle,
            name: Some(string_of("descender")),
            fixed: false,
            format: true,
            right: false,
        });
        assert(self.guidelines@.subrange(0, before.len() as int) =~= before);
    }
}

/// Whether `g` is the metrics guideline named `name` at height `y`: movable,
/// from the metrics, no right side bearing.
pub open spec fn is_metrics_guideline<C>(g: Guideline<C>, x: C, y: C, angle: C, name: Seq<char>) -> bool {
    &&& g.x == x
    &&& g.y == y
    &&& g.angle == angle
    &&& named(g, name)
    &&& !g.fixed
    &&& g.format
    &&& !g.right
}

} // verus!
