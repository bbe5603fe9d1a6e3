//! The glyph model of a UFO `.glif` file and its reader.
//!
//! Coordinates are a type parameter: the reader hands them over as the text
//! the file writes, and the user interface turns them into numbers.
use vstd::prelude::*;
use crate::numparse::{parse_unsigned, spec_parse_unsigned};
use crate::text::{chars_of, range_eq_str, str_eq};
use crate::xml::{
    attr_value, first_named_child, named_children, parse_xml, spec_parse_xml, XmlElement,
};

verus! {

/// The kind of a point.
#[derive(Debug, Copy, Clone, PartialEq, Eq, Structural)]
pub enum PointType {
    /// Only stands in freshly made points.
    Undefined,
    Move,
    Curve,
    QCurve,
    Line,
    OffCurve,
}

/// The kind of an anchor.
#[derive(Debug, Copy, Clone, PartialEq, Eq, Structural)]
pub enum AnchorType {
    Undefined,
    Mark,
    Base,
    MarkMark,
    MarkBase,
}

/// A control point of a point: at the point itself, or elsewhere.
#[derive(Debug, Copy, Clone, PartialEq)]
pub enum Handle<C> {
    Colocated,
    At(C, C),
}

/// A `<point>` as the file writes it.
#[derive(Debug)]
pub struct GlifPoint<C> {
    pub x: C,
    pub y: C,
    pub smooth: bool,
    pub name: Option<String>,
    pub ptype: PointType,
}

/// An on-curve point with its two control points.
#[derive(Debug, Clone)]
pub struct Point<C> {
    pub x: C,
    pub y: C,
    pub a: Handle<C>,
    pub b: Handle<C>,
    pub name: Option<String>,
    pub ptype: PointType,
}

/// One of the two control points of a point.
#[derive(Debug, Copy, Clone, PartialEq, Eq, Structural)]
pub enum WhichHandle {
    A,
    B,
}

/// An anchor of the glyph.
#[derive(Clone, Debug)]
pub struct Anchor<C> {
    pub x: C,
    pub y: C,
    pub class: String,
    pub anchor_type: AnchorType,
}

/// The character a glyph stands for, if any.
#[derive(Debug, PartialEq, Eq, Structural, Clone, Copy)]
pub enum Codepoint {
    Hex(char),
    Undefined,
}

/// A glyph as a `.glif` file describes it.
#[derive(Debug)]
pub struct Glif<C> {
    pub outline: Option<Vec<Vec<Point<C>>>>,
    pub anchors: Option<Vec<Anchor<C>>>,
    pub width: u64,
    pub unicode: Codepoint,
    pub name: String,
    /// Only format 2 is understood.
    pub format: u8,
}

/// A glyph with its vectors seen as sequences.
pub struct GlifView<C> {
    pub outline: Option<Seq<Seq<Point<C>>>>,
    pub anchors: Option<Seq<Anchor<C>>>,
    pub width: u64,
    pub unicode: Codepoint,
    pub name: String,
    pub format: u8,
}

/// The contours of an outline, each seen as a sequence.
pub open spec fn outline_view<C>(o: Seq<Vec<Point<C>>>) -> Seq<Seq<Point<C>>> {
    o.map_values(|c: Vec<Point<C>>| c@)
}

impl<C> View for Glif<C> {
    type V = GlifView<C>;

    open spec fn view(&self) -> GlifView<C> {
        GlifView {
            outline: match self.outline {
                Some(o) => Some(outline_view(o@)),
                None => None,
            },
            anchors: match self.anchors {
                Some(a) => Some(a@),
                None => None,
            },
            width: self.width,
            unicode: self.unicode,
            name: self.name,
            format: self.format,
        }
    }
}

/// Why a `.glif` text cannot be read.
#[derive(Debug, Copy, Clone, PartialEq, Eq, Structural)]
pub enum GlifError {
    InvalidXml,
    RootNotGlyph,
    MissingFormat,
    FormatNot2,
    MissingName,
    MissingAdvance,
    MissingWidth,
    WidthNotInt,
    MissingHex,
    HexNotInt,
    CharConversionFailed,
    AnchorMissingX,
    AnchorMissingY,
    AnchorMissingClass,
    PointMissingX,
    PointMissingY,
}

/// The message of an error.
pub open spec fn glif_error_message(e: GlifError) -> Seq<char> {
    match e {
        GlifError::InvalidXml => "Invalid XML"@,
        GlifError::RootNotGlyph => "Root element not <glyph>"@,
        GlifError::MissingFormat => "<glyph> has no format"@,
        GlifError::FormatNot2 => "<glyph> format not 2"@,
        GlifError::MissingName => "<glyph> has no name"@,
        GlifError::MissingAdvance => "<glyph> missing <advance> child"@,
        GlifError::MissingWidth => "<advance> has no width"@,
        GlifError::WidthNotInt => "<advance> width not int"@,
        GlifError::MissingHex => "<unicode> has no width"@,
        GlifError::HexNotInt => "<unicode> hex not int"@,
        GlifError::CharConversionFailed => "<unicode> char conversion failed"@,
        GlifError::AnchorMissingX => "<anchor> missing x"@,
        GlifError::AnchorMissingY => "<anchor> missing y"@,
        GlifError::AnchorMissingClass => "<anchor> missing class"@,
        GlifError::PointMissingX => "<point> missing x"@,
        GlifError::PointMissingY => "<point> missing y"@,
    }
}

impl GlifError {
    /// The message that reports the error.
    pub fn message(&self) -> (r: &'static str)
        ensures
            r@ == glif_error_message(*self),
    {
        match self {
            GlifError::InvalidXml => "Invalid XML",
            GlifError::RootNotGlyph => "Root element not <glyph>",
            GlifError::MissingFormat => "<glyph> has no format",
            GlifError::FormatNot2 => "<glyph> format not 2",
            GlifError::MissingName => "<glyph> has no name",
            GlifError::MissingAdvance => "<glyph> missing <advance> child",
            GlifError::MissingWidth => "<advance> has no width",
            GlifError::WidthNotInt => "<advance> width not int",
            GlifError::MissingHex => "<unicode> has no width",
            GlifError::HexNotInt => "<unicode> hex not int",
            GlifError::CharConversionFailed => "<unicode> char conversion failed",
            GlifError::AnchorMissingX => "<anchor> missing x",
            GlifError::AnchorMissingY => "<anchor> missing y",
            GlifError::AnchorMissingClass => "<anchor> missing class",
            GlifError::PointMissingX => "<point> missing x",
            GlifError::PointMissingY => "<point> missing y",
        }
    }
}

/// The handle that an optional off-curve point makes.
pub open spec fn handle_of<C>(p: Option<GlifPoint<C>>) -> Handle<C> {
    match p {
        Some(g) => Handle::At(g.x, g.y),
        None => Handle::Colocated,
    }
}

impl<'a, C: Copy> From<Option<&'a GlifPoint<C>>> for Handle<C> {
    /// A control point at the given off-curve point, or at the point itself.
    fn from(point: Option<&'a GlifPoint<C>>) -> (h: Handle<C>) {
        match point {
            Some(p) => Handle::At(p.x, p.y),
            None => Handle::Colocated,
        }
    }
}

impl<'a, C: Copy> vstd::std_specs::convert::FromSpecImpl<Option<&'a GlifPoint<C>>> for Handle<C> {
    open spec fn obeys_from_spec() -> bool {
        true
    }

    open spec fn from_spec(point: Option<&'a GlifPoint<C>>) -> Handle<C> {
        match point {
            Some(p) => Handle::At(p.x, p.y),
            None => Handle::Colocated,
        }
    }
}

impl<C: Copy> Point<C> {
    /// An exact copy of the point.
    pub fn duplicate(&self) -> (r: Point<C>)
        ensures
            r == *self,
    {
        Point {
            x: self.x,
            y: self.y,
            a: self.a,
            b: self.b,
            name: clone_opt_string(&self.name),
            ptype: self.ptype,
        }
    }

    /// A fresh point at the origin given, with both handles on it.
    pub fn new(origin: C) -> (p: Point<C>)
        ensures
            p.x == origin,
            p.y == origin,
            p.a == Handle::<C>::Colocated,
            p.b == Handle::<C>::Colocated,
            p.ptype == PointType::Undefined,
            p.name is None,
    {
        Point {
            x: origin,
            y: origin,
            a: Handle::Colocated,
            b: Handle::Colocated,
            ptype: PointType::Undefined,
            name: None,
        }
    }

    /// The position of the chosen handle, or of the point where the handle is
    /// colocated, each coordinate passed through its transform.
    pub fn handle_or_colocated<FX: Fn(C) -> C, FY: Fn(C) -> C>(
        &self,
        which: WhichHandle,
        transform_x: FX,
        transform_y: FY,
    ) -> (r: (C, C))
        requires
            forall|c: C| call_requires(transform_x, (c,)),
            forall|c: C| call_requires(transform_y, (c,)),
        ensures
            ({
                let h = match which {
                    WhichHandle::A => self.a,
                    WhichHandle::B => self.b,
                };
                let (px, py) = match h {
                    Handle::At(x, y) => (x, y),
                    Handle::Colocated => (self.x, self.y),
                };
                call_ensures(transform_x, (px,), r.0) && call_ensures(transform_y, (py,), r.1)
            }),
    {
        let handle = match which {
            WhichHandle::A => self.a,
            WhichHandle::B => self.b,
        };
        match handle {
            Handle::At(x, y) => (transform_x(x), transform_y(y)),
            Handle::Colocated => (transform_x(self.x), transform_y(self.y)),
        }
    }
}

impl Anchor<String> {
    /// An anchor with no class, at the origin given.
    pub fn new(origin: &str) -> (a: Anchor<String>)
        ensures
            a.x@ == origin@,
            a.y@ == origin@,
            a.class@ == Seq::<char>::empty(),
            a.anchor_type == AnchorType::Undefined,
    {
        Anchor {
            x: origin.to_owned(),
            y: origin.to_owned(),
            anchor_type: AnchorType::Undefined,
            class: String::new(),
        }
    }
}

// ---------------------------------------------------------------------------
// Reading
// ---------------------------------------------------------------------------

/// The point type that a `type` attribute names.
pub open spec fn spec_point_type(t: Option<Seq<char>>) -> PointType {
    match t {
        Some(s) => if s == "move"@ {
            PointType::Move
        } else if s == "line"@ {
            PointType::Line
        } else if s == "qcurve"@ {
            PointType::QCurve
        } else if s == "curve"@ {
            PointType::Curve
        } else {
            PointType::OffCurve
        },
        None => PointType::OffCurve,
    }
}

/// The characters of an optional text.
pub open spec fn opt_chars(s: Option<&str>) -> Option<Seq<char>> {
    match s {
        Some(t) => Some(t@),
        None => None,
    }
}

/// The characters of an optional string.
pub open spec fn opt_string_chars(s: Option<String>) -> Option<Seq<char>> {
    match s {
        Some(t) => Some(t@),
        None => None,
    }
}

/// The point type that a `type` attribute names: `move`, `line`, `qcurve`
/// and `curve` name theirs, anything else and no attribute make an off-curve
/// point.
pub fn parse_point_type(pt: Option<&str>) -> (t: PointType)
    ensures
        t == spec_point_type(opt_chars(pt)),
{
    match pt {
        Some(s) => {
            if str_eq(s, "move") {
                PointType::Move
            } else if str_eq(s, "line") {
                PointType::Line
            } else if str_eq(s, "qcurve") {
                PointType::QCurve
            } else if str_eq(s, "curve") {
                PointType::Curve
            } else {
                PointType::OffCurve
            }
        },
        None => PointType::OffCurve,
    }
}


/// The `<point>` that an element describes.
pub open spec fn spec_glif_point(el: XmlElement) -> Result<GlifPoint<String>, GlifError> {
    match attr_value(el.attributes@, "x"@) {
        None => Err(GlifError::PointMissingX),
        Some(x) => match attr_value(el.attributes@, "y"@) {
            None => Err(GlifError::PointMissingY),
            Some(y) => Ok(
                GlifPoint {
                    x,
                    y,
                    smooth: false,
                    name: attr_value(el.attributes@, "name"@),
                    ptype: spec_point_type(opt_string_chars(attr_value(el.attributes@, "type"@))),
                },
            ),
        },
    }
}

/// The points of a contour, or the error of the first point that has one.
pub open spec fn spec_contour_points(els: Seq<XmlElement>) -> Result<Seq<GlifPoint<String>>, GlifError>
    decreases els.len(),
{
    if els.len() == 0 {
        Ok(Seq::empty())
    } else {
        match spec_contour_points(els.drop_last()) {
            Err(e) => Err(e),
            Ok(ps) => match spec_glif_point(els.last()) {
                Err(e) => Err(e),
                Ok(p) => Ok(ps.push(p)),
            },
        }
    }
}

/// The contours of an outline as the file writes them; a contour without
/// points is left out.
pub open spec fn spec_glif_contours(els: Seq<XmlElement>) -> Result<Seq<Seq<GlifPoint<String>>>, GlifError>
    decreases els.len(),
{
    if els.len() == 0 {
        Ok(Seq::empty())
    } else {
        match spec_glif_contours(els.drop_last()) {
            Err(e) => Err(e),
            Ok(cs) => match spec_contour_points(named_children(els.last().children@, "point"@)) {
                Err(e) => Err(e),
                Ok(ps) => if ps.len() > 0 {
                    Ok(cs.push(ps))
                } else {
                    Ok(cs)
                },
            },
        }
    }
}

/// The anchor that an element describes.
pub open spec fn spec_anchor(el: XmlElement) -> Result<Anchor<String>, GlifError> {
    match attr_value(el.attributes@, "x"@) {
        None => Err(GlifError::AnchorMissingX),
        Some(x) => match attr_value(el.attributes@, "y"@) {
            None => Err(GlifError::AnchorMissingY),
            Some(y) => match attr_value(el.attributes@, "name"@) {
                None => Err(GlifError::AnchorMissingClass),
                Some(class) => Ok(Anchor { x, y, class, anchor_type: AnchorType::Undefined }),
            },
        },
    }
}

/// The anchors of a glyph, or the error of the first anchor that has one.
pub open spec fn spec_anchors(els: Seq<XmlElement>) -> Result<Seq<Anchor<String>>, GlifError>
    decreases els.len(),
{
    if els.len() == 0 {
        Ok(Seq::empty())
    } else {
        match spec_anchors(els.drop_last()) {
            Err(e) => Err(e),
            Ok(anchors) => match spec_anchor(els.last()) {
                Err(e) => Err(e),
                Ok(a) => Ok(anchors.push(a)),
            },
        }
    }
}

/// The first of the off-curve points waiting, as a handle, and those left.
pub open spec fn pop_handle(q: Seq<Handle<String>>) -> (Handle<String>, Seq<Handle<String>>) {
    if q.len() > 0 {
        (q[0], q.drop_first())
    } else {
        (Handle::Colocated, q)
    }
}

/// The contour with the `a` handle of its last point set.
pub open spec fn with_last_a(c: Seq<Point<String>>, h: Handle<String>) -> Seq<Point<String>> {
    if c.len() > 0 {
        let p = c.last();
        c.update(
            c.len() - 1,
            Point { x: p.x, y: p.y, a: h, b: p.b, name: p.name, ptype: p.ptype },
        )
    } else {
        c
    }
}

/// One point of the file read: an off-curve point waits in the queue; an
/// on-curve point takes the first waiting handle as the `a` handle of the
/// point before it and the second as its own `b` handle.
pub open spec fn step_point(
    state: (Seq<Handle<String>>, Seq<Point<String>>),
    gp: GlifPoint<String>,
) -> (Seq<Handle<String>>, Seq<Point<String>>) {
    let (q, c) = state;
    if gp.ptype == PointType::OffCurve {
        (q.push(Handle::At(gp.x, gp.y)), c)
    } else {
        let (h1, q1) = pop_handle(q);
        let (h2, q2) = pop_handle(q1);
        (
            q2,
            with_last_a(c, h1).push(
                Point { x: gp.x, y: gp.y, a: Handle::Colocated, b: h2, name: gp.name, ptype: gp.ptype },
            ),
        )
    }
}

/// The points of a contour read in turn, starting from a queue of waiting
/// handles and an empty contour.
pub open spec fn run_points(q: Seq<Handle<String>>, gps: Seq<GlifPoint<String>>) -> (
    Seq<Handle<String>>,
    Seq<Point<String>>,
)
    decreases gps.len(),
{
    if gps.len() == 0 {
        (q, Seq::empty())
    } else {
        step_point(run_points(q, gps.drop_last()), gps.last())
    }
}

/// The end of a contour: the first waiting handle becomes the `a` handle of
/// its last point and, unless the contour is open, the second becomes the
/// `b` handle of its first point.
pub open spec fn finish_contour(state: (Seq<Handle<String>>, Seq<Point<String>>)) -> (
    Seq<Handle<String>>,
    Seq<Point<String>>,
) {
    let (q, c) = state;
    let (h1, q1) = pop_handle(q);
    let (h2, q2) = pop_handle(q1);
    let c1 = with_last_a(c, h1);
    if c1.len() > 0 && c1[0].ptype != PointType::Move {
        let p = c1[0];
        (q2, c1.update(0, Point { x: p.x, y: p.y, a: p.a, b: h2, name: p.name, ptype: p.ptype }))
    } else {
        (q2, c1)
    }
}

/// The contours of an outline assembled in turn; off-curve points left over
/// from one contour wait for the next.
pub open spec fn assemble_outline(gl: Seq<Seq<GlifPoint<String>>>) -> (
    Seq<Handle<String>>,
    Seq<Seq<Point<String>>>,
)
    decreases gl.len(),
{
    if gl.len() == 0 {
        (Seq::empty(), Seq::empty())
    } else {
        let (q, out) = assemble_outline(gl.drop_last());
        let (q2, c) = finish_contour(run_points(q, gl.last()));
        (q2, out.push(c))
    }
}

/// The character that a `hex` attribute names, or the error.
pub open spec fn spec_unicode(hex: Seq<char>) -> Result<Codepoint, GlifError> {
    match spec_parse_unsigned(hex, 16, 0xffff_ffff) {
        None => Err(GlifError::HexNotInt),
        Some(v) => if is_scalar_value(v) {
            Ok(Codepoint::Hex(v as char))
        } else {
            Err(GlifError::CharConversionFailed)
        },
    }
}

/// A number that stands for a character: at most `0x10FFFF` and no
/// surrogate.
pub open spec fn is_scalar_value(v: nat) -> bool {
    v <= 0x10FFFF && !(0xD800 <= v <= 0xDFFF)
}

/// The glyph that a `<glyph>` element of format 2 describes, or the first
/// error found in the order of the checks: the root, its format and name, the
/// advance and its width, the unicode, the anchors, then the points.
pub open spec fn spec_read_glif(root: XmlElement) -> Result<GlifView<String>, GlifError> {
    let ch = root.children@;
    if root.name@ != "glyph"@ {
        Err(GlifError::RootNotGlyph)
    } else {
        match attr_value(root.attributes@, "format"@) {
            None => Err(GlifError::MissingFormat),
            Some(f) => if f@ != "2"@ {
                Err(GlifError::FormatNot2)
            } else {
                match attr_value(root.attributes@, "name"@) {
                    None => Err(GlifError::MissingName),
                    Some(name) => match first_named_child(ch, "advance"@) {
                        None => Err(GlifError::MissingAdvance),
                        Some(advance) => match attr_value(advance.attributes@, "width"@) {
                            None => Err(GlifError::MissingWidth),
                            Some(w) => match spec_parse_unsigned(w@, 10, 0xffff_ffff_ffff_ffff) {
                                None => Err(GlifError::WidthNotInt),
                                Some(width) => {
                                    let unicode = match first_named_child(ch, "unicode"@) {
                                        None => Ok(Codepoint::Undefined),
                                        Some(u) => match attr_value(u.attributes@, "hex"@) {
                                            None => Err(GlifError::MissingHex),
                                            Some(hex) => spec_unicode(hex@),
                                        },
                                    };
                                    match unicode {
                                        Err(e) => Err(e),
                                        Ok(unicode) => match spec_anchors(
                                            named_children(ch, "anchor"@),
                                        ) {
                                            Err(e) => Err(e),
                                            Ok(anchors) => {
                                                let contours = match first_named_child(
                                                    ch,
                                                    "outline"@,
                                                ) {
                                                    None => Ok(Seq::empty()),
                                                    Some(o) => spec_glif_contours(
                                                        named_children(o.children@, "contour"@),
                                                    ),
                                                };
                                                match contours {
                                                    Err(e) => Err(e),
                                                    Ok(gl) => {
                                                        let outline = assemble_outline(gl).1;
                                                        Ok(
                                                            GlifView {
                                                                outline: if outline.len() > 0 {
                                                                    Some(outline)
                                                                } else {
                                                                    None
                                                                },
                                                                anchors: if anchors.len() > 0 {
                                                                    Some(anchors)
                                                                } else {
                                                                    None
                                                                },
                                                                width: width as u64,
                                                                unicode,
                                                                name,
                                                                format: 2,
                                                            },
                                                        )
                                                    },
                                                }
                                            },
                                        },
                                    }
                                },
                            },
                        },
                    },
                }
            },
        }
    }
}

/// A reading seen through the view of the glyph.
pub open spec fn glif_result_view(r: Result<Glif<String>, GlifError>) -> Result<GlifView<String>, GlifError> {
    match r {
        Ok(g) => Ok(g@),
        Err(e) => Err(e),
    }
}


/// The on-curve points of a contour as the file writes it, in file order.
pub open spec fn on_curve_points(gps: Seq<GlifPoint<String>>) -> Seq<GlifPoint<String>>
    decreases gps.len(),
{
    if gps.len() == 0 {
        Seq::empty()
    } else if gps.last().ptype == PointType::OffCurve {
        on_curve_points(gps.drop_last())
    } else {
        on_curve_points(gps.drop_last()).push(gps.last())
    }
}

/// Whether a point stands where the file's point `g` does: its coordinates,
/// name and type are those of `g`.
pub open spec fn placed_at(p: Point<String>, g: GlifPoint<String>) -> bool {
    p.x == g.x && p.y == g.y && p.name == g.name && p.ptype == g.ptype
}

/// Whether `d` holds the points of `c` with only their handles changed.
pub open spec fn same_places(d: Seq<Point<String>>, c: Seq<Point<String>>) -> bool {
    &&& d.len() == c.len()
    &&& forall|k: int| 0 <= k < c.len() ==> #[trigger] d[k].x == c[k].x && d[k].y == c[k].y
        && d[k].name == c[k].name && d[k].ptype == c[k].ptype
}

proof fn lemma_with_last_a_places(c: Seq<Point<String>>, h: Handle<String>)
    ensures
        same_places(with_last_a(c, h), c),
{
}

proof fn lemma_run_points_places(q: Seq<Handle<String>>, gps: Seq<GlifPoint<String>>)
    ensures
        run_points(q, gps).1.len() == on_curve_points(gps).len(),
        forall|k: int| 0 <= k < on_curve_points(gps).len() ==> placed_at(
            #[trigger] run_points(q, gps).1[k],
            on_curve_points(gps)[k],
        ),
    decreases gps.len(),
{
    if gps.len() > 0 {
        lemma_run_points_places(q, gps.drop_last());
        let (q0, c0) = run_points(q, gps.drop_last());
        let gp = gps.last();
        if gp.ptype != PointType::OffCurve {
            let (h1, q1) = pop_handle(q0);
            lemma_with_last_a_places(c0, h1);
            let c1 = with_last_a(c0, h1);
            let oc = on_curve_points(gps);
            assert(oc == on_curve_points(gps.drop_last()).push(gp));
            assert forall|k: int| 0 <= k < oc.len() implies placed_at(#[trigger] run_points(q, gps).1[k], oc[k]) by {
                if k < c1.len() {
                    assert(c1[k].x == c0[k].x);
                }
            }
        }
    }
}

proof fn lemma_finish_contour_places(state: (Seq<Handle<String>>, Seq<Point<String>>))
    ensures
        same_places(finish_contour(state).1, state.1),
{
    let (q, c) = state;
    let (h1, q1) = pop_handle(q);
    lemma_with_last_a_places(c, h1);
}

/// Reading an outline keeps the on-curve points where the file puts them:
/// each contour read holds, in file order, one point for each on-curve point
/// of the file's contour, with that point's x and y (and name and type);
/// the off-curve points only become handles.
pub proof fn law_outline_points_where_the_file_puts_them(gl: Seq<Seq<GlifPoint<String>>>)
    ensures
        assemble_outline(gl).1.len() == gl.len(),
        forall|i: int| 0 <= i < gl.len() ==> (#[trigger] assemble_outline(gl).1[i]).len() == on_curve_points(
            gl[i],
        ).len(),
        forall|i: int, k: int|
            0 <= i < gl.len() && 0 <= k < on_curve_points(gl[i]).len() ==> placed_at(
                #[trigger] assemble_outline(gl).1[i][k],
                on_curve_points(gl[i])[k],
            ),
    decreases gl.len(),
{
    if gl.len() > 0 {
        law_outline_points_where_the_file_puts_them(gl.drop_last());
        let (q, out) = assemble_outline(gl.drop_last());
        let st = run_points(q, gl.last());
        lemma_run_points_places(q, gl.last());
        lemma_finish_contour_places(st);
        let c = finish_contour(st).1;
        assert(assemble_outline(gl).1 == out.push(c));
        assert forall|i: int, k: int|
            0 <= i < gl.len() && 0 <= k < on_curve_points(gl[i]).len() implies placed_at(
                #[trigger] assemble_outline(gl).1[i][k],
                on_curve_points(gl[i])[k],
            ) by {
            if i < gl.len() - 1 {
                assert(gl.drop_last()[i] == gl[i]);
                assert(assemble_outline(gl).1[i] == out[i]);
            } else {
                assert(gl[i] == gl.last());
                assert(c[k].x == st.1[k].x);
                assert(placed_at(st.1[k], on_curve_points(gl.last())[k]));
            }
        }
        assert forall|i: int| 0 <= i < gl.len() implies (#[trigger] assemble_outline(gl).1[i]).len()
            == on_curve_points(gl[i]).len() by {
            if i < gl.len() - 1 {
                assert(gl.drop_last()[i] == gl[i]);
            }
        }
    }
}

/// Once a point has an error, the points after it change nothing.
proof fn lemma_points_err_stays(els: Seq<XmlElement>, i: int, e: GlifError)
    requires
        0 <= i <= els.len(),
        spec_contour_points(els.subrange(0, i)) == Err::<Seq<GlifPoint<String>>, GlifError>(e),
    ensures
        spec_contour_points(els) == Err::<Seq<GlifPoint<String>>, GlifError>(e),
    decreases els.len() - i,
{
    if i < els.len() {
        assert(els.subrange(0, i + 1).drop_last() =~= els.subrange(0, i));
        lemma_points_err_stays(els, i + 1, e);
    } else {
        assert(els.subrange(0, i) =~= els);
    }
}

/// Once a contour has an error, the contours after it change nothing.
proof fn lemma_contours_err_stays(els: Seq<XmlElement>, i: int, e: GlifError)
    requires
        0 <= i <= els.len(),
        spec_glif_contours(els.subrange(0, i)) == Err::<Seq<Seq<GlifPoint<String>>>, GlifError>(e),
    ensures
        spec_glif_contours(els) == Err::<Seq<Seq<GlifPoint<String>>>, GlifError>(e),
    decreases els.len() - i,
{
    if i < els.len() {
        assert(els.subrange(0, i + 1).drop_last() =~= els.subrange(0, i));
        lemma_contours_err_stays(els, i + 1, e);
    } else {
        assert(els.subrange(0, i) =~= els);
    }
}

/// Once an anchor has an error, the anchors after it change nothing.
proof fn lemma_anchors_err_stays(els: Seq<XmlElement>, i: int, e: GlifError)
    requires
        0 <= i <= els.len(),
        spec_anchors(els.subrange(0, i)) == Err::<Seq<Anchor<String>>, GlifError>(e),
    ensures
        spec_anchors(els) == Err::<Seq<Anchor<String>>, GlifError>(e),
    decreases els.len() - i,
{
    if i < els.len() {
        assert(els.subrange(0, i + 1).drop_last() =~= els.subrange(0, i));
        lemma_anchors_err_stays(els, i + 1, e);
    } else {
        assert(els.subrange(0, i) =~= els);
    }
}

/// A copy of an optional string.
pub(crate) fn clone_opt_string(o: &Option<String>) -> (r: Option<String>)
    ensures
        r == *o,
{
    match o {
        Some(s) => Some(s.clone()),
        None => None,
    }
}

/// `char::from_u32`: the character with the given number, or `None` where
/// the number is above `0x10FFFF` or a surrogate.
#[verifier::external_body]
fn char_from_u32(v: u32) -> (r: Option<char>)
    ensures
        is_scalar_value(v as nat) ==> r == Some(v as char),
        !is_scalar_value(v as nat) ==> r is None,
{
    char::from_u32(v)
}

/// The `<point>` that an element describes.
fn read_glif_point(el: &XmlElement) -> (r: Result<GlifPoint<String>, GlifError>)
    ensures
        r == spec_glif_point(*el),
{
    let x = match el.attribute("x") {
        None => {
            return Err(GlifError::PointMissingX);
        },
        Some(x) => x,
    };
    let y = match el.attribute("y") {
        None => {
            return Err(GlifError::PointMissingY);
        },
        Some(y) => y,
    };
    let name = el.attribute("name");
    let t = el.attribute("type");
    let ptype = match &t {
        Some(s) => parse_point_type(Some(s.as_str())),
        None => parse_point_type(None),
    };
    Ok(GlifPoint { x, y, smooth: false, name, ptype })
}

/// Takes the `<point>` children of a contour element, in order.
fn read_contour_points(contour: &mut XmlElement) -> (r: Result<Vec<GlifPoint<String>>, GlifError>)
    ensures
        match r {
            Ok(v) => spec_contour_points(named_children(old(contour).children@, "point"@)) == Ok::<
                Seq<GlifPoint<String>>,
                GlifError,
            >(v@),
            Err(e) => spec_contour_points(named_children(old(contour).children@, "point"@))
                == Err::<Seq<GlifPoint<String>>, GlifError>(e),
        },
{
    let ghost all = named_children(contour.children@, "point"@);
    let ghost mut k: int = 0;
    let mut out: Vec<GlifPoint<String>> = Vec::new();
    assert(all.subrange(0, 0) =~= Seq::<XmlElement>::empty());
    assert(all.subrange(0, all.len() as int) =~= all);
    loop
        invariant
            0 <= k <= all.len(),
            named_children(contour.children@, "point"@) == all.subrange(k, all.len() as int),
            spec_contour_points(all.subrange(0, k)) == Ok::<Seq<GlifPoint<String>>, GlifError>(
                out@,
            ),
            all == named_children(old(contour).children@, "point"@),
        decreases all.len() - k,
    {
        match contour.take_child("point") {
            None => {
                assert(k == all.len());
                assert(all.subrange(0, k) =~= all);
                return Ok(out);
            },
            Some(el) => {
                assert(el == all[k]);
                assert(all.subrange(0, k + 1).drop_last() =~= all.subrange(0, k));
                assert(all.subrange(0, k + 1).last() == all[k]);
                match read_glif_point(&el) {
                    Err(e) => {
                        proof {
                            lemma_points_err_stays(all, k + 1, e);
                        }
                        return Err(e);
                    },
                    Ok(p) => {
                        out.push(p);
                        proof {
                            assert(all.subrange(k, all.len() as int).drop_first() =~= all.subrange(
                                k + 1,
                                all.len() as int,
                            ));
                            k = k + 1;
                        }
                    },
                }
            },
        }
    }
}

/// The points of an outline as the file writes them.
pub open spec fn glif_outline_view(o: Seq<Vec<GlifPoint<String>>>) -> Seq<Seq<GlifPoint<String>>> {
    o.map_values(|c: Vec<GlifPoint<String>>| c@)
}

/// Takes the `<contour>` children of an outline element, in order, with
/// their points; contours without points are left out.
fn read_contours(outline: &mut XmlElement) -> (r: Result<Vec<Vec<GlifPoint<String>>>, GlifError>)
    ensures
        match r {
            Ok(v) => spec_glif_contours(named_children(old(outline).children@, "contour"@)) == Ok::<
                Seq<Seq<GlifPoint<String>>>,
                GlifError,
            >(glif_outline_view(v@)),
            Err(e) => spec_glif_contours(named_children(old(outline).children@, "contour"@))
                == Err::<Seq<Seq<GlifPoint<String>>>, GlifError>(e),
        },
{
    let ghost all = named_children(outline.children@, "contour"@);
    let ghost mut k: int = 0;
    let mut out: Vec<Vec<GlifPoint<String>>> = Vec::new();
    assert(all.subrange(0, 0) =~= Seq::<XmlElement>::empty());
    assert(all.subrange(0, all.len() as int) =~= all);
    assert(glif_outline_view(out@) =~= Seq::<Seq<GlifPoint<String>>>::empty());
    loop
        invariant
            0 <= k <= all.len(),
            named_children(outline.children@, "contour"@) == all.subrange(k, all.len() as int),
            spec_glif_contours(all.subrange(0, k)) == Ok::<Seq<Seq<GlifPoint<String>>>, GlifError>(
                glif_outline_view(out@),
            ),
            all == named_children(old(outline).children@, "contour"@),
        decreases all.len() - k,
    {
        match outline.take_child("contour") {
            None => {
                assert(k == all.len());
                assert(all.subrange(0, k) =~= all);
                return Ok(out);
            },
            Some(el) => {
                assert(el == all[k]);
                assert(all.subrange(0, k + 1).drop_last() =~= all.subrange(0, k));
                assert(all.subrange(0, k + 1).last() == all[k]);
                let mut el = el;
                match read_contour_points(&mut el) {
                    Err(e) => {
                        proof {
                            lemma_contours_err_stays(all, k + 1, e);
                        }
                        return Err(e);
                    },
                    Ok(ps) => {
                        if ps.len() > 0 {
                            let ghost before = out@;
                            out.push(ps);
                            assert(glif_outline_view(out@) =~= glif_outline_view(before).push(
                                out@.last()@,
                            ));
                        }
                        proof {
                            assert(all.subrange(k, all.len() as int).drop_first() =~= all.subrange(
                                k + 1,
                                all.len() as int,
                            ));
                            k = k + 1;
                        }
                    },
                }
            },
        }
    }
}

/// Takes the `<anchor>` children of the glyph element, in order.
fn read_anchors(glyph: &mut XmlElement) -> (r: Result<Vec<Anchor<String>>, GlifError>)
    ensures
        match r {
            Ok(v) => spec_anchors(named_children(old(glyph).children@, "anchor"@)) == Ok::<
                Seq<Anchor<String>>,
                GlifError,
            >(v@),
            Err(e) => spec_anchors(named_children(old(glyph).children@, "anchor"@)) == Err::<
                Seq<Anchor<String>>,
                GlifError,
            >(e),
        },
        forall|other: Seq<char>|
            other != "anchor"@ ==> #[trigger] named_children(final(glyph).children@, other)
                == named_children(old(glyph).children@, other),
{
    let ghost all = named_children(glyph.children@, "anchor"@);
    let ghost mut k: int = 0;
    let mut out: Vec<Anchor<String>> = Vec::new();
    assert(all.subrange(0, 0) =~= Seq::<XmlElement>::empty());
    assert(all.subrange(0, all.len() as int) =~= all);
    loop
        invariant
            0 <= k <= all.len(),
            named_children(glyph.children@, "anchor"@) == all.subrange(k, all.len() as int),
            spec_anchors(all.subrange(0, k)) == Ok::<Seq<Anchor<String>>, GlifError>(out@),
            all == named_children(old(glyph).children@, "anchor"@),
            forall|other: Seq<char>|
                other != "anchor"@ ==> #[trigger] named_children(glyph.children@, other)
                    == named_children(old(glyph).children@, other),
        decreases all.len() - k,
    {
        match glyph.take_child("anchor") {
            None => {
                assert(k == all.len());
                assert(all.subrange(0, k) =~= all);
                return Ok(out);
            },
            Some(el) => {
                assert(el == all[k]);
                assert(all.subrange(0, k + 1).drop_last() =~= all.subrange(0, k));
                assert(all.subrange(0, k + 1).last() == all[k]);
                let x = match el.attribute("x") {
                    None => {
                        proof {
                            lemma_anchors_err_stays(all, k + 1, GlifError::AnchorMissingX);
                        }
                        return Err(GlifError::AnchorMissingX);
                    },
                    Some(x) => x,
                };
                let y = match el.attribute("y") {
                    None => {
                        proof {
                            lemma_anchors_err_stays(all, k + 1, GlifError::AnchorMissingY);
                        }
                        return Err(GlifError::AnchorMissingY);
                    },
                    Some(y) => y,
                };
                let class = match el.attribute("name") {
                    None => {
                        proof {
                            lemma_anchors_err_stays(all, k + 1, GlifError::AnchorMissingClass);
                        }
                        return Err(GlifError::AnchorMissingClass);
                    },
                    Some(c) => c,
                };
                out.push(Anchor { x, y, class, anchor_type: AnchorType::Undefined });
                proof {
                    assert(all.subrange(k, all.len() as int).drop_first() =~= all.subrange(
                        k + 1,
                        all.len() as int,
                    ));
                    k = k + 1;
                }
            },
        }
    }
}


/// Sets the `a` handle of the last point of a contour.
fn set_last_a(c: &mut Vec<Point<String>>, h: Handle<String>)
    ensures
        final(c)@ == with_last_a(old(c)@, h),
{
    if c.len() > 0 {
        let ghost before = c@;
        let mut p = c.pop().unwrap();
        p.a = h;
        c.push(p);
        assert(c@ =~= with_last_a(before, h));
    }
}

/// Takes the first waiting handle, or a colocated one when none waits.
fn pop_waiting(q: &mut std::collections::VecDeque<Handle<String>>) -> (h: Handle<String>)
    ensures
        (h, final(q)@) == pop_handle(old(q)@),
{
    match q.pop_front() {
        Some(h) => h,
        None => Handle::Colocated,
    }
}

/// Assembles one contour from its points as the file writes them, with the
/// handles waiting from the contours before.
fn assemble_contour(q: &mut std::collections::VecDeque<Handle<String>>, gc: &Vec<GlifPoint<String>>) -> (r: Vec<Point<String>>)
    ensures
        (final(q)@, r@) == finish_contour(run_points(old(q)@, gc@)),
{
    let ghost q0 = q@;
    let mut c: Vec<Point<String>> = Vec::new();
    let mut i: usize = 0;
    assert(gc@.subrange(0, 0) =~= Seq::<GlifPoint<String>>::empty());
    while i < gc.len()
        invariant
            i <= gc@.len(),
            (q@, c@) == run_points(q0, gc@.subrange(0, i as int)),
        decreases gc@.len() - i,
    {
        assert(gc@.subrange(0, i + 1).drop_last() =~= gc@.subrange(0, i as int));
        assert(gc@.subrange(0, i + 1).last() == gc@[i as int]);
        let gp = &gc[i];
        if gp.ptype == PointType::OffCurve {
            q.push_back(Handle::At(gp.x.clone(), gp.y.clone()));
        } else {
            let h1 = pop_waiting(q);
            let h2 = pop_waiting(q);
            set_last_a(&mut c, h1);
            c.push(
                Point {
                    x: gp.x.clone(),
                    y: gp.y.clone(),
                    a: Handle::Colocated,
                    b: h2,
                    name: clone_opt_string(&gp.name),
                    ptype: gp.ptype,
                },
            );
        }
        i = i + 1;
    }
    assert(gc@.subrange(0, gc@.len() as int) =~= gc@);
    let h1 = pop_waiting(q);
    let h2 = pop_waiting(q);
    set_last_a(&mut c, h1);
    if c.len() > 0 && c[0].ptype != PointType::Move {
        let ghost before = c@;
        let mut p = c.remove(0);
        p.b = h2;
        c.insert(0, p);
        assert(c@ =~= before.update(
            0,
            Point {
                x: before[0].x,
                y: before[0].y,
                a: before[0].a,
                b: h2,
                name: before[0].name,
                ptype: before[0].ptype,
            },
        ));
    }
    c
}

/// Assembles the contours of an outline from their points as the file
/// writes them. Off-curve points become the handles of the on-curve points
/// around them; those left over at the end of a contour wait for the next.
pub fn assemble_glif_outline(goutline: &Vec<Vec<GlifPoint<String>>>) -> (r: Vec<Vec<Point<String>>>)
    ensures
        outline_view(r@) == assemble_outline(glif_outline_view(goutline@)).1,
{
    let ghost gl = glif_outline_view(goutline@);
    let mut q: std::collections::VecDeque<Handle<String>> = std::collections::VecDeque::new();
    let mut out: Vec<Vec<Point<String>>> = Vec::new();
    let mut i: usize = 0;
    assert(gl.subrange(0, 0) =~= Seq::<Seq<GlifPoint<String>>>::empty());
    assert(outline_view(out@) =~= Seq::<Seq<Point<String>>>::empty());
    assert(q@ =~= Seq::<Handle<String>>::empty());
    while i < goutline.len()
        invariant
            i <= goutline@.len(),
            gl == glif_outline_view(goutline@),
            (q@, outline_view(out@)) == assemble_outline(gl.subrange(0, i as int)),
        decreases goutline@.len() - i,
    {
        assert(gl.subrange(0, i + 1).drop_last() =~= gl.subrange(0, i as int));
        assert(gl.subrange(0, i + 1).last() == goutline@[i as int]@);
        let c = assemble_contour(&mut q, &goutline[i]);
        let ghost before = out@;
        out.push(c);
        assert(outline_view(out@) =~= outline_view(before).push(out@.last()@));
        i = i + 1;
    }
    assert(gl.subrange(0, gl.len() as int) =~= gl);
    out
}

/// Reads a glyph from the root element of a `.glif` document; see
/// [`spec_read_glif`] for the checks and their order.
pub fn read_ufo_glif_tree(root: XmlElement) -> (r: Result<Glif<String>, GlifError>)
    ensures
        glif_result_view(r) == spec_read_glif(root),
{
    let ghost ch = root.children@;
    proof {
        reveal_strlit("advance");
        reveal_strlit("unicode");
        reveal_strlit("anchor");
        reveal_strlit("outline");
        assert("advance"@[0] != "unicode"@[0]);
        assert("advance"@[0] != "outline"@[0]);
        assert("unicode"@[0] != "outline"@[0]);
        assert("anchor"@.len() != "advance"@.len());
        assert("anchor"@.len() != "unicode"@.len());
        assert("anchor"@.len() != "outline"@.len());
    }
    let mut glif = root;
    if !str_eq(glif.name.as_str(), "glyph") {
        return Err(GlifError::RootNotGlyph);
    }
    let format = match glif.attribute("format") {
        None => {
            return Err(GlifError::MissingFormat);
        },
        Some(f) => f,
    };
    if !str_eq(format.as_str(), "2") {
        return Err(GlifError::FormatNot2);
    }
    let name = match glif.attribute("name") {
        None => {
            return Err(GlifError::MissingName);
        },
        Some(n) => n,
    };
    let advance = match glif.take_child("advance") {
        None => {
            return Err(GlifError::MissingAdvance);
        },
        Some(a) => a,
    };
    let unicode = glif.take_child("unicode");
    let width_text = match advance.attribute("width") {
        None => {
            return Err(GlifError::MissingWidth);
        },
        Some(w) => w,
    };
    let width = match parse_unsigned(width_text.as_str(), 10, 0xffff_ffff_ffff_ffff) {
        None => {
            return Err(GlifError::WidthNotInt);
        },
        Some(w) => w,
    };
    let codepoint = match unicode {
        Some(u) => {
            let hex = match u.attribute("hex") {
                None => {
                    return Err(GlifError::MissingHex);
                },
                Some(h) => h,
            };
            let v = match parse_unsigned(hex.as_str(), 16, 0xffff_ffff) {
                None => {
                    return Err(GlifError::HexNotInt);
                },
                Some(v) => v,
            };
            match char_from_u32(v as u32) {
                None => {
                    return Err(GlifError::CharConversionFailed);
                },
                Some(c) => Codepoint::Hex(c),
            }
        },
        None => Codepoint::Undefined,
    };
    assert(named_children(glif.children@, "anchor"@) == named_children(ch, "anchor"@));
    assert(named_children(glif.children@, "outline"@) == named_children(ch, "outline"@));
    let anchors = match read_anchors(&mut glif) {
        Err(e) => {
            return Err(e);
        },
        Ok(a) => a,
    };
    assert(named_children(glif.children@, "outline"@) == named_children(ch, "outline"@));
    let goutline: Vec<Vec<GlifPoint<String>>> = match glif.take_child("outline") {
        None => Vec::new(),
        Some(o) => {
            let mut o = o;
            match read_contours(&mut o) {
                Err(e) => {
                    return Err(e);
                },
                Ok(g) => g,
            }
        },
    };
    assert(glif_outline_view(goutline@) == (match first_named_child(ch, "outline"@) {
        None => Seq::<Seq<GlifPoint<String>>>::empty(),
        Some(o) => glif_outline_view(goutline@),
    }));
    let outline = assemble_glif_outline(&goutline);
    let r = Glif {
        outline: if outline.len() > 0 {
            Some(outline)
        } else {
            None
        },
        anchors: if anchors.len() > 0 {
            Some(anchors)
        } else {
            None
        },
        width,
        unicode: codepoint,
        name,
        format: 2,
    };
    Ok(r)
}

/// Reads a glyph from the text of a `.glif` file of format 2; the
/// coordinates stay as the file writes them.
pub fn read_ufo_glif(glif: &str) -> (r: Result<Glif<String>, GlifError>)
    ensures
        glif_result_view(r) == match spec_parse_xml(glif@) {
            None => Err(GlifError::InvalidXml),
            Some(root) => spec_read_glif(root),
        },
{
    match parse_xml(glif) {
        None => Err(GlifError::InvalidXml),
        Some(root) => read_ufo_glif_tree(root),
    }
}

} // verus!
