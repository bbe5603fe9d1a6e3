use mfekglif::editor::Editor;
use mfekglif::events::pen::{Pen, PenPress};
use mfekglif::events::select::{build_sel_vec_from_rect, Follow, Select, SelectDrag};
use mfekglif::events::{tool_enum_to_tool, toolbox_tool, ToolEnum, ToolboxClicks};
use mfekglif::glifparser::{Handle, Point, PointType, WhichHandle};
use mfekglif::layer::{Layer, MFEKGlif};

type Ed = Editor<f32, u8>;

fn pt(x: f32, y: f32, ptype: PointType) -> Point<f32> {
    Point { x, y, a: Handle::Colocated, b: Handle::Colocated, name: None, ptype }
}

fn editor_with(outline: Vec<Vec<Point<f32>>>) -> Ed {
    let mut e = Ed::new();
    e.set_glyph(MFEKGlif {
        layers: vec![Layer { name: "0".to_string(), visible: true, operation: None, outline }],
        name: "a".to_string(),
        width: None,
    });
    e.initialize();
    e
}

fn xy(e: &Ed) -> Vec<Vec<(f32, f32)>> {
    e.get_active_layer_ref().outline.iter().map(|c| c.iter().map(|p| (p.x, p.y)).collect()).collect()
}

#[test]
fn pen_starts_and_continues_contours() {
    let pen = Pen::new();
    let mut e = editor_with(vec![]);
    assert_eq!(pen.mouse_pressed(&mut e, 1., 2., None, false, true), PenPress::NewContour);
    assert_eq!((e.contour_idx, e.point_idx), (Some(0), Some(0)));
    assert_eq!(e.get_active_layer_ref().outline[0][0].ptype, PointType::Move);
    // Dragging pulls the handles out of the new point.
    pen.mouse_moved(&mut e, true, Handle::At(3., 3.), Handle::At(-1., 1.));
    assert_eq!(e.get_active_layer_ref().outline[0][0].a, Handle::At(3., 3.));
    pen.mouse_released(&mut e);
    assert!(!e.is_modifying());
    // A move point stays one.
    assert_eq!(e.get_active_layer_ref().outline[0][0].ptype, PointType::Move);
    assert_eq!(pen.mouse_pressed(&mut e, 5., 6., None, false, false), PenPress::Continued);
    assert_eq!(xy(&e), vec![vec![(1., 2.), (5., 6.)]]);
    assert_eq!(e.point_idx, Some(1));
    pen.mouse_released(&mut e);
    // Undo takes the point back.
    e.undo();
    assert_eq!(xy(&e), vec![vec![(1., 2.)]]);
}

#[test]
fn pen_release_settles_dragged_point() {
    let pen = Pen::new();
    let mut e = editor_with(vec![]);
    pen.mouse_pressed(&mut e, 0., 0., None, false, false);
    pen.mouse_moved(&mut e, true, Handle::At(1., 1.), Handle::At(-1., -1.));
    pen.mouse_released(&mut e);
    let p = &e.get_active_layer_ref().outline[0][0];
    assert_eq!(p.ptype, PointType::Curve);
    // Moving with the button up changes nothing.
    pen.mouse_moved(&mut e, false, Handle::Colocated, Handle::Colocated);
    assert_eq!(e.get_active_layer_ref().outline[0][0].a, Handle::At(1., 1.));
    // A line point with a handle dragged out becomes a curve point.
    let mut line = pt(0., 0., PointType::Line);
    line.a = Handle::At(1., 0.);
    let mut e = editor_with(vec![vec![pt(5., 5., PointType::Line), line]]);
    e.contour_idx = Some(0);
    pen.mouse_released(&mut e);
    assert_eq!(e.get_active_layer_ref().outline[0][1].ptype, PointType::Curve);
    assert_eq!(e.get_active_layer_ref().outline[0][0].ptype, PointType::Line);
}

#[test]
fn pen_press_on_curve_is_left_to_the_interface() {
    let pen = Pen::new();
    let mut e = editor_with(vec![vec![pt(0., 0., PointType::Line), pt(1., 0., PointType::Line)]]);
    assert_eq!(pen.mouse_pressed(&mut e, 0.5, 0., None, true, false), PenPress::OnCurve);
    assert!(e.is_modifying());
    assert_eq!(xy(&e).len(), 1);
}

#[test]
fn pen_joins_open_contours() {
    let pen = Pen::new();
    let mut e = editor_with(vec![
        vec![pt(0., 0., PointType::Move), pt(1., 0., PointType::Line)],
        vec![pt(5., 5., PointType::Move), pt(6., 5., PointType::Line)],
    ]);
    // The tool looks the last point up by the contour's number: contour 1, point 1.
    e.contour_idx = Some(1);
    e.point_idx = Some(1);
    assert_eq!(pen.mouse_pressed(&mut e, 7., 7., Some((0, 0)), false, false), PenPress::Merged);
    assert_eq!(xy(&e), vec![vec![(5., 5.), (6., 5.), (7., 7.), (1., 0.)]]);
}

#[test]
fn select_press_picks_and_boxes() {
    let mut e = editor_with(vec![vec![pt(0., 0., PointType::Move), pt(1., 0., PointType::Line)]]);
    let mut s: Select<(f64, f64)> = Select::new();
    s.mouse_pressed(&mut e, Some((0, 1, None)), false, false, Follow::Mirror, (1., 0.));
    assert_eq!((e.contour_idx, e.point_idx), (Some(0), Some(1)));
    assert_eq!(s.follow, Follow::Mirror);
    // With shift, the point clicked before joins the selection.
    s.mouse_pressed(&mut e, Some((0, 0, Some(WhichHandle::A))), true, false, Follow::No, (0., 0.));
    assert!(e.point_selected(0, 1));
    assert_eq!(s.handle, Some(WhichHandle::A));
    // A press on nothing starts a box and, without shift, empties the selection.
    s.mouse_pressed(&mut e, None, false, false, Follow::No, (9., 9.));
    assert!(e.selected().is_none());
    assert!(s.show_sel_box);
    assert_eq!(s.corner_one, Some((9., 9.)));
    assert_eq!(s.mouse_moved(&mut e, true, (10., 10.)), SelectDrag::SelectionBox);
    assert_eq!(s.corner_two, Some((10., 10.)));
    s.mouse_released(&mut e, None);
    assert!(!s.show_sel_box && s.corner_one.is_none());
}

#[test]
fn select_drag_begins_one_modification() {
    let mut e = editor_with(vec![vec![pt(0., 0., PointType::Move), pt(1., 0., PointType::Line)]]);
    let mut s: Select<(f64, f64)> = Select::new();
    s.mouse_pressed(&mut e, Some((0, 1, None)), false, false, Follow::No, (1., 0.));
    assert_eq!(s.mouse_moved(&mut e, false, (2., 0.)), SelectDrag::Nothing);
    assert_eq!(s.mouse_moved(&mut e, true, (2., 0.)), SelectDrag::Point(0, 1));
    assert_eq!(s.mouse_moved(&mut e, true, (3., 0.)), SelectDrag::Point(0, 1));
    assert_eq!(e.history.undo_stack.len(), 1);
    assert_eq!(e.history.undo_stack[0].description, "Move point.");
    s.mouse_released(&mut e, None);
    assert!(!e.is_modifying());
}

#[test]
fn select_drop_end_on_start_joins() {
    let mut e = editor_with(vec![
        vec![pt(0., 0., PointType::Move), pt(1., 0., PointType::Line)],
        vec![pt(1., 0., PointType::Move), pt(2., 0., PointType::Line)],
    ]);
    let mut s: Select<(f64, f64)> = Select::new();
    // Drag the end of contour 0 onto the start of contour 1.
    s.mouse_pressed(&mut e, Some((0, 1, None)), false, false, Follow::No, (1., 0.));
    s.mouse_moved(&mut e, true, (1., 0.));
    s.mouse_released(&mut e, Some((1, 0, None)));
    assert_eq!(xy(&e), vec![vec![(0., 0.), (1., 0.), (2., 0.)]]);
    assert!(!e.is_modifying());
}

#[test]
fn selection_box_adds_points() {
    let r = build_sel_vec_from_rect(&vec![(0, 0)], &vec![(1, 2), (0, 0)]);
    assert!(r.contains(&(0, 0)) && r.contains(&(1, 2)));
    assert!(!r.contains(&(1, 1)));
}

#[test]
fn toolbox_and_tools() {
    let none = ToolboxClicks { select: false, pan: false, zoom: false, pen: false };
    assert_eq!(toolbox_tool(ToolEnum::Zoom, none), ToolEnum::Zoom);
    assert_eq!(toolbox_tool(ToolEnum::Zoom, ToolboxClicks { select: true, ..none }), ToolEnum::Select);
    assert_eq!(toolbox_tool(ToolEnum::Pan, ToolboxClicks { select: true, pen: true, ..none }), ToolEnum::Pen);
    assert_eq!(tool_enum_to_tool(ToolEnum::VWS), ToolEnum::Pan);
    assert_eq!(tool_enum_to_tool(ToolEnum::Measure), ToolEnum::Measure);
}

#[test]
fn select_drop_middle_point_on_start_joins() {
    // Any point after the first counts as the end of its contour.
    let mut e = editor_with(vec![
        vec![pt(0., 0., PointType::Move), pt(1., 0., PointType::Line), pt(2., 0., PointType::Line)],
        vec![pt(5., 5., PointType::Move), pt(6., 5., PointType::Line)],
    ]);
    let mut s: Select<(f64, f64)> = Select::new();
    s.mouse_pressed(&mut e, Some((0, 1, None)), false, false, Follow::No, (1., 0.));
    s.mouse_moved(&mut e, true, (5., 5.));
    s.mouse_released(&mut e, Some((1, 0, None)));
    assert_eq!(xy(&e), vec![vec![(0., 0.), (1., 0.), (2., 0.), (6., 5.)]]);
}

#[test]
fn set_behavior_ends_modification() {
    let mut e = editor_with(vec![]);
    e.push_behavior(1);
    e.push_behavior(2);
    e.begin_modification("Move point.");
    e.set_behavior(7);
    assert!(!e.is_modifying());
    assert_eq!(e.tool_behaviors, vec![7]);
}
