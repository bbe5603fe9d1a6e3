use mfekglif::glifparser::{
    parse_point_type, read_ufo_glif, Anchor, AnchorType, Codepoint, GlifError, GlifPoint, Handle, Point, PointType,
};

const GLIF: &str = r#"<?xml version="1.0" encoding="UTF-8"?>
<glyph name="A" format="2">
  <advance width="600"/>
  <unicode hex="0041"/>
  <anchor x="300" y="700" name="top"/>
  <outline>
    <contour>
      <point x="0" y="0" type="line"/>
      <point x="100" y="0" type="line" name="corner"/>
      <point x="100" y="100" type="line"/>
    </contour>
    <contour>
      <point x="10" y="10" type="move"/>
      <point x="20" y="30"/>
      <point x="40" y="30"/>
      <point x="50" y="10" type="curve"/>
    </contour>
  </outline>
</glyph>
"#;

fn at(x: &str, y: &str) -> Handle<String> {
    Handle::At(x.to_string(), y.to_string())
}

#[test]
fn glif_reads_header() {
    let g = read_ufo_glif(GLIF).unwrap();
    assert_eq!(g.name, "A");
    assert_eq!(g.width, 600);
    assert_eq!(g.unicode, Codepoint::Hex('A'));
    assert_eq!(g.format, 2);
    let anchors = g.anchors.unwrap();
    assert_eq!(anchors.len(), 1);
    assert_eq!(anchors[0].x, "300");
    assert_eq!(anchors[0].y, "700");
    assert_eq!(anchors[0].class, "top");
    assert_eq!(anchors[0].anchor_type, AnchorType::Undefined);
}

#[test]
fn glif_reads_outline_and_handles() {
    let g = read_ufo_glif(GLIF).unwrap();
    let o = g.outline.unwrap();
    assert_eq!(o.len(), 2);
    assert_eq!(o[0].len(), 3);
    assert_eq!(o[0][1].name, Some("corner".to_string()));
    assert_eq!(o[0][0].ptype, PointType::Line);
    assert_eq!(o[0][0].a, Handle::Colocated);
    assert_eq!(o[0][0].b, Handle::Colocated);
    // The second contour: two off-curve points between a move and a curve.
    let c = &o[1];
    assert_eq!(c.len(), 2);
    assert_eq!((c[0].x.as_str(), c[0].y.as_str()), ("10", "10"));
    assert_eq!(c[0].ptype, PointType::Move);
    assert_eq!(c[0].a, at("20", "30"));
    assert_eq!(c[0].b, Handle::Colocated);
    assert_eq!(c[1].ptype, PointType::Curve);
    assert_eq!(c[1].a, Handle::Colocated);
    assert_eq!(c[1].b, at("40", "30"));
}

#[test]
fn glif_closed_contour_takes_trailing_handles() {
    let g = read_ufo_glif(
        r#"<glyph name="o" format="2"><advance width="10"/><outline><contour>
        <point x="0" y="0" type="curve"/><point x="1" y="2"/><point x="3" y="4"/>
        </contour></outline></glyph>"#,
    )
    .unwrap();
    let c = &g.outline.unwrap()[0];
    assert_eq!(c.len(), 1);
    assert_eq!(c[0].a, at("1", "2"));
    assert_eq!(c[0].b, at("3", "4"));
    assert_eq!(g.unicode, Codepoint::Undefined);
    assert!(g.anchors.is_none());
}

#[test]
fn glif_without_contours_has_no_outline() {
    let g = read_ufo_glif(
        r#"<glyph name="space" format="2"><advance width="+250"/><outline><contour/></outline></glyph>"#,
    )
    .unwrap();
    assert!(g.outline.is_none());
    assert_eq!(g.width, 250);
}

fn err(text: &str) -> GlifError {
    match read_ufo_glif(text) {
        Err(e) => e,
        Ok(_) => panic!("expected an error"),
    }
}

#[test]
fn glif_errors() {
    assert_eq!(err("<glyph"), GlifError::InvalidXml);
    assert_eq!(err(r#"<glif name="a" format="2"/>"#), GlifError::RootNotGlyph);
    assert_eq!(err(r#"<glyph name="a"/>"#), GlifError::MissingFormat);
    assert_eq!(err(r#"<glyph name="a" format="1"/>"#), GlifError::FormatNot2);
    assert_eq!(err(r#"<glyph format="2"/>"#), GlifError::MissingName);
    assert_eq!(err(r#"<glyph name="a" format="2"/>"#), GlifError::MissingAdvance);
    assert_eq!(err(r#"<glyph name="a" format="2"><advance/></glyph>"#), GlifError::MissingWidth);
    assert_eq!(err(r#"<glyph name="a" format="2"><advance width="1.5"/></glyph>"#), GlifError::WidthNotInt);
    assert_eq!(
        err(r#"<glyph name="a" format="2"><advance width="1"/><unicode/></glyph>"#),
        GlifError::MissingHex
    );
    assert_eq!(
        err(r#"<glyph name="a" format="2"><advance width="1"/><unicode hex="zz"/></glyph>"#),
        GlifError::HexNotInt
    );
    assert_eq!(
        err(r#"<glyph name="a" format="2"><advance width="1"/><unicode hex="D800"/></glyph>"#),
        GlifError::CharConversionFailed
    );
    assert_eq!(
        err(r#"<glyph name="a" format="2"><advance width="1"/><anchor y="1" name="t"/></glyph>"#),
        GlifError::AnchorMissingX
    );
    assert_eq!(
        err(r#"<glyph name="a" format="2"><advance width="1"/><anchor x="1" name="t"/></glyph>"#),
        GlifError::AnchorMissingY
    );
    assert_eq!(
        err(r#"<glyph name="a" format="2"><advance width="1"/><anchor x="1" y="1"/></glyph>"#),
        GlifError::AnchorMissingClass
    );
    assert_eq!(
        err(r#"<glyph name="a" format="2"><advance width="1"/><outline><contour><point y="1"/></contour></outline></glyph>"#),
        GlifError::PointMissingX
    );
    assert_eq!(
        err(r#"<glyph name="a" format="2"><advance width="1"/><outline><contour><point x="1"/></contour></outline></glyph>"#),
        GlifError::PointMissingY
    );
    assert_eq!(GlifError::MissingAdvance.message(), "<glyph> missing <advance> child");
    assert_eq!(GlifError::InvalidXml.message(), "Invalid XML");
}

#[test]
fn glif_point_types() {
    assert_eq!(parse_point_type(Some("move")), PointType::Move);
    assert_eq!(parse_point_type(Some("line")), PointType::Line);
    assert_eq!(parse_point_type(Some("qcurve")), PointType::QCurve);
    assert_eq!(parse_point_type(Some("curve")), PointType::Curve);
    assert_eq!(parse_point_type(Some("offcurve")), PointType::OffCurve);
    assert_eq!(parse_point_type(Some("Curve")), PointType::OffCurve);
    assert_eq!(parse_point_type(None), PointType::OffCurve);
}

#[test]
fn glif_handles_from_points() {
    let p = GlifPoint { x: 1.5f32, y: 2.5f32, smooth: false, name: None, ptype: PointType::OffCurve };
    assert_eq!(Handle::from(Some(&p)), Handle::At(1.5f32, 2.5f32));
    assert_eq!(Handle::<f32>::from(None), Handle::Colocated);
}

#[test]
fn glif_new_points_and_anchors() {
    let p = Point::new(0.0f32);
    assert_eq!((p.x, p.y), (0.0, 0.0));
    assert_eq!(p.a, Handle::Colocated);
    assert_eq!(p.b, Handle::Colocated);
    assert_eq!(p.ptype, PointType::Undefined);
    assert!(p.name.is_none());
    let a = Anchor::<String>::new("0");
    assert_eq!((a.x.as_str(), a.y.as_str(), a.class.as_str()), ("0", "0", ""));
    assert_eq!(a.anchor_type, AnchorType::Undefined);
}

#[test]
fn glif_handle_or_colocated() {
    use_handle_or_colocated();
}

fn use_handle_or_colocated() {
    let mut p = Point::new(0.0f32);
    p.x = 1.;
    p.y = 2.;
    p.a = Handle::At(3., 4.);
    let shift = |v: f32| v + 10.;
    let scale = |v: f32| v * 2.;
    assert_eq!(p.handle_or_colocated(mfekglif::glifparser::WhichHandle::A, shift, scale), (13., 8.));
    assert_eq!(p.handle_or_colocated(mfekglif::glifparser::WhichHandle::B, shift, scale), (11., 4.));
}
