//! The layered glyph the editor works on, its guidelines, and the set of
//! selected points.
use vstd::prelude::*;
use crate::glifparser::{clone_opt_string, outline_view, Point};

verus! {

/// How a layer combines with the layers below it.
#[derive(Debug, Copy, Clone, PartialEq, Eq, Structural)]
pub enum LayerOperation {
    Difference,
    Union,
    Intersect,
    XOR,
}

/// A layer of a glyph: its contours and how it is drawn.
#[derive(Debug, Clone)]
pub struct Layer<C> {
    pub name: String,
    pub visible: bool,
    pub operation: Option<LayerOperation>,
    pub outline: Vec<Vec<Point<C>>>,
}

/// A layer with its vectors seen as sequences.
pub struct LayerView<C> {
    pub name: Seq<char>,
    pub visible: bool,
    pub operation: Option<LayerOperation>,
    pub outline: Seq<Seq<Point<C>>>,
}

impl<C> View for Layer<C> {
    type V = LayerView<C>;

    open spec fn view(&self) -> LayerView<C> {
        LayerView {
            name: self.name@,
            visible: self.visible,
            operation: self.operation,
            outline: outline_view(self.outline@),
        }
    }
}

/// The layers of a glyph, seen each by its view.
pub open spec fn layers_view<C>(ls: Seq<Layer<C>>) -> Seq<LayerView<C>> {
    ls.map_values(|l: Layer<C>| l@)
}

/// A glyph of several layers.
#[derive(Debug, Clone)]
pub struct MFEKGlif<C> {
    pub layers: Vec<Layer<C>>,
    pub name: String,
    pub width: Option<u64>,
}

/// A glyph with its vectors seen as sequences.
pub struct MFEKGlifView<C> {
    pub layers: Seq<LayerView<C>>,
    pub name: Seq<char>,
    pub width: Option<u64>,
}

impl<C> View for MFEKGlif<C> {
    type V = MFEKGlifView<C>;

    open spec fn view(&self) -> MFEKGlifView<C> {
        MFEKGlifView { layers: layers_view(self.layers@), name: self.name@, width: self.width }
    }
}

/// A guideline of the glyph or of its font.
#[derive(Debug, Clone)]
pub struct Guideline<C> {
    pub x: C,
    pub y: C,
    pub angle: C,
    pub name: Option<String>,
    /// The guideline cannot be moved.
    pub fixed: bool,
    /// The guideline comes from the font's metrics.
    pub format: bool,
    /// The guideline marks the right side bearing.
    pub right: bool,
}

/// An exact copy of a contour.
pub fn duplicate_contour<C: Copy>(c: &Vec<Point<C>>) -> (r: Vec<Point<C>>)
    ensures
        r@ == c@,
{
    let mut r: Vec<Point<C>> = Vec::new();
    let mut i: usize = 0;
    while i < c.len()
        invariant
            i <= c@.len(),
            r@ == c@.subrange(0, i as int),
        decreases c@.len() - i,
    {
        r.push(c[i].duplicate());
        i = i + 1;
        assert(r@ =~= c@.subrange(0, i as int));
    }
    assert(c@.subrange(0, c@.len() as int) =~= c@);
    r
}

/// An exact copy of an outline.
pub fn duplicate_outline<C: Copy>(o: &Vec<Vec<Point<C>>>) -> (r: Vec<Vec<Point<C>>>)
    ensures
        outline_view(r@) == outline_view(o@),
{
    let mut r: Vec<Vec<Point<C>>> = Vec::new();
    let mut i: usize = 0;
    while i < o.len()
        invariant
            i <= o@.len(),
            outline_view(r@) == outline_view(o@).subrange(0, i as int),
        decreases o@.len() - i,
    {
        let ghost before = r@;
        r.push(duplicate_contour(&o[i]));
        i = i + 1;
        assert(outline_view(r@) =~= outline_view(o@).subrange(0, i as int)) by {
            assert(outline_view(r@) =~= outline_view(before).push(r@.last()@));
        }
    }
    assert(outline_view(o@).subrange(0, o@.len() as int) =~= outline_view(o@));
    r
}

impl<C: Copy> Layer<C> {
    /// An exact copy of the layer.
    pub fn duplicate(&self) -> (r: Layer<C>)
        ensures
            r@ == self@,
    {
        Layer {
            name: self.name.clone(),
            visible: self.visible,
            operation: self.operation,
            outline: duplicate_outline(&self.outline),
        }
    }
}

impl<C: Copy> MFEKGlif<C> {
    /// An exact copy of the glyph.
    pub fn duplicate(&self) -> (r: MFEKGlif<C>)
        ensures
            r@ == self@,
    {
        let mut layers: Vec<Layer<C>> = Vec::new();
        let mut i: usize = 0;
        while i < self.layers.len()
            invariant
                i <= self.layers@.len(),
                layers_view(layers@) == layers_view(self.layers@).subrange(0, i as int),
            decreases self.layers@.len() - i,
        {
            let ghost before = layers@;
            layers.push(self.layers[i].duplicate());
            i = i + 1;
            assert(layers_view(layers@) =~= layers_view(self.layers@).subrange(0, i as int)) by {
                assert(layers_view(layers@) =~= layers_view(before).push(layers@.last()@));
            }
        }
        assert(layers_view(self.layers@).subrange(0, self.layers@.len() as int) =~= layers_view(
            self.layers@,
        ));
        MFEKGlif { layers, name: self.name.clone(), width: self.width }
    }
}

impl<C: Copy> Guideline<C> {
    /// An exact copy of the guideline.
    pub fn duplicate(&self) -> (r: Guideline<C>)
        ensures
            r == *self,
    {
        Guideline {
            x: self.x,
            y: self.y,
            angle: self.angle,
            name: clone_opt_string(&self.name),
            fixed: self.fixed,
            format: self.format,
            right: self.right,
        }
    }
}

/// An exact copy of a list of guidelines.
pub fn duplicate_guidelines<C: Copy>(g: &Vec<Guideline<C>>) -> (r: Vec<Guideline<C>>)
    ensures
        r@ == g@,
{
    let mut r: Vec<Guideline<C>> = Vec::new();
    let mut i: usize = 0;
    while i < g.len()
        invariant
            i <= g@.len(),
            r@ == g@.subrange(0, i as int),
        decreases g@.len() - i,
    {
        r.push(g[i].duplicate());
        i = i + 1;
        assert(r@ =~= g@.subrange(0, i as int));
    }
    assert(g@.subrange(0, g@.len() as int) =~= g@);
    r
}

/// The elements of a sequence with one more pushed.
proof fn lemma_push_to_set<A>(s: Seq<A>, x: A)
    ensures
        s.push(x).to_set() == s.to_set().insert(x),
{
    assert forall|q: A| s.push(x).to_set().contains(q) implies s.to_set().insert(x).contains(q) by {
        let k = choose|k: int| 0 <= k < s.push(x).len() && s.push(x)[k] == q;
        if k < s.len() {
            assert(s[k] == q);
        }
    }
    assert forall|q: A| s.to_set().insert(x).contains(q) implies s.push(x).to_set().contains(q) by {
        if q == x {
            assert(s.push(x)[s.len() as int] == x);
        } else {
            let k = choose|k: int| 0 <= k < s.len() && s[k] == q;
            assert(s.push(x)[k] == q);
        }
    }
    assert(s.push(x).to_set() =~= s.to_set().insert(x));
}

/// A set of selected points, each named by its contour and point index.
#[derive(Debug, Clone)]
pub struct PointSelection {
    items: Vec<(usize, usize)>,
}

impl View for PointSelection {
    type V = Set<(usize, usize)>;

    closed spec fn view(&self) -> Set<(usize, usize)> {
        self.items@.to_set()
    }
}

impl PointSelection {
    /// No point selected.
    pub fn new() -> (s: PointSelection)
        ensures
            s@ == Set::<(usize, usize)>::empty(),
    {
        let s = PointSelection { items: Vec::new() };
        assert(s.items@.to_set() =~= Set::<(usize, usize)>::empty());
        s
    }

    /// Whether the point is selected.
    pub fn contains(&self, p: (usize, usize)) -> (r: bool)
        ensures
            r == self@.contains(p),
    {
        let mut i: usize = 0;
        while i < self.items.len()
            invariant
                i <= self.items@.len(),
                forall|k: int| 0 <= k < i ==> self.items@[k] != p,
            decreases self.items@.len() - i,
        {
            if self.items[i].0 == p.0 && self.items[i].1 == p.1 {
                assert(self.items@.to_set().contains(self.items@[i as int]));
                return true;
            }
            i = i + 1;
        }
        assert(!self.items@.to_set().contains(p)) by {
            if self.items@.to_set().contains(p) {
                let k = choose|k: int| 0 <= k < self.items@.len() && self.items@[k] == p;
            }
        }
        false
    }

    /// Selects one more point.
    pub fn insert(&mut self, p: (usize, usize))
        ensures
            final(self)@ == old(self)@.insert(p),
    {
        if !self.contains(p) {
            let ghost before = self.items@;
            self.items.push(p);
            proof {
                lemma_push_to_set(before, p);
            }
        } else {
            assert(old(self)@.insert(p) =~= old(self)@);
        }
    }

    /// Selects no point any more.
    pub fn clear(&mut self)
        ensures
            final(self)@ == Set::<(usize, usize)>::empty(),
    {
        self.items.clear();
        assert(self.items@.to_set() =~= Set::<(usize, usize)>::empty());
    }

    /// Adds every point of another selection.
    pub fn extend(&mut self, other: &PointSelection)
        ensures
            final(self)@ == old(self)@.union(other@),
    {
        let mut i: usize = 0;
        while i < other.items.len()
            invariant
                i <= other.items@.len(),
                self@ == old(self)@.union(other.items@.subrange(0, i as int).to_set()),
            decreases other.items@.len() - i,
        {
            let ghost before = self@;
            self.insert(other.items[i]);
            assert(other.items@.subrange(0, i + 1) =~= other.items@.subrange(0, i as int).push(
                other.items@[i as int],
            ));
            proof {
                lemma_push_to_set(other.items@.subrange(0, i as int), other.items@[i as int]);
            }
            i = i + 1;
            assert(self@ =~= old(self)@.union(other.items@.subrange(0, i as int).to_set()));
        }
        assert(other.items@.subrange(0, other.items@.len() as int) =~= other.items@);
    }

    /// Some selected point, if any is selected.
    pub fn first(&self) -> (r: Option<(usize, usize)>)
        ensures
            r matches Some(p) ==> self@.contains(p),
            r is None ==> self@ == Set::<(usize, usize)>::empty(),
    {
        if self.items.len() > 0 {
            assert(self.items@.to_set().contains(self.items@[0]));
            Some(self.items[0])
        } else {
            assert(self.items@.to_set() =~= Set::<(usize, usize)>::empty());
            None
        }
    }

    /// An exact copy of the selection.
    pub fn duplicate(&self) -> (r: PointSelection)
        ensures
            r@ == self@,
    {
        let mut items: Vec<(usize, usize)> = Vec::new();
        let mut i: usize = 0;
        while i < self.items.len()
            invariant
                i <= self.items@.len(),
                items@ == self.items@.subrange(0, i as int),
            decreases self.items@.len() - i,
        {
            items.push(self.items[i]);
            i = i + 1;
            assert(items@ =~= self.items@.subrange(0, i as int));
        }
        assert(self.items@.subrange(0, self.items@.len() as int) =~= self.items@);
        PointSelection { items }
    }
}

} // verus!
