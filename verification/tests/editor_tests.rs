use mfekglif::editor::selection::{frame_clipboard, unframe_clipboard, SimplifyStep};
use mfekglif::editor::util::{get_contour_start_or_end, SelectPointInfo};
use mfekglif::editor::Editor;
use mfekglif::events::{mode_switched, ToolEnum};
use mfekglif::glifparser::{Handle, Point, PointType};
use mfekglif::layer::{Guideline, Layer, MFEKGlif};
use mfekglif::editor::contour_handlers::{CubicHandler, QuadHandler};
use mfekglif::editor::guidelines::metrics_to_write;

type Ed = Editor<f32, u8>;

fn pt(x: f32, y: f32, ptype: PointType) -> Point<f32> {
    Point { x, y, a: Handle::Colocated, b: Handle::Colocated, name: None, ptype }
}

fn layer(name: &str, outline: Vec<Vec<Point<f32>>>) -> Layer<f32> {
    Layer { name: name.to_string(), visible: true, operation: None, outline }
}

fn editor_with(outline: Vec<Vec<Point<f32>>>) -> Ed {
    let mut e = Ed::new();
    e.set_glyph(MFEKGlif { layers: vec![layer("0", outline)], name: "a".to_string(), width: Some(500) });
    e.initialize();
    e
}

fn outline(e: &Ed) -> Vec<Vec<(f32, f32)>> {
    e.get_active_layer_ref()
        .outline
        .iter()
        .map(|c| c.iter().map(|p| (p.x, p.y)).collect())
        .collect()
}

fn square() -> Vec<Vec<Point<f32>>> {
    vec![vec![
        pt(0., 0., PointType::Line),
        pt(1., 0., PointType::Line),
        pt(1., 1., PointType::Line),
        pt(0., 1., PointType::Line),
    ]]
}

#[test]
fn editor_starts_empty() {
    let e = Ed::new();
    assert!(e.glyph().is_none());
    assert!(!e.is_modifying());
    assert!(e.is_preview_dirty());
    assert_eq!(e.get_tool(), ToolEnum::Pan);
    assert!(e.selected().is_none());
}

#[test]
fn undo_restores_state_before_modification() {
    let mut e = editor_with(square());
    e.contour_idx = Some(0);
    e.point_idx = Some(1);
    e.delete_single_point();
    assert_eq!(outline(&e), vec![vec![(0., 0.), (1., 1.), (0., 1.)]]);
    assert!(e.contour_idx.is_none());
    e.undo();
    assert_eq!(outline(&e), vec![vec![(0., 0.), (1., 0.), (1., 1.), (0., 1.)]]);
    assert_eq!(e.contour_idx, Some(0));
    assert_eq!(e.point_idx, Some(1));
    e.redo();
    assert_eq!(outline(&e), vec![vec![(0., 0.), (1., 1.), (0., 1.)]]);
    e.undo();
    assert_eq!(outline(&e).len(), 1);
    assert_eq!(outline(&e)[0].len(), 4);
}

#[test]
fn no_undo_while_modifying() {
    let mut e = editor_with(square());
    e.begin_modification("Move point.");
    assert!(e.is_modifying());
    e.undo();
    assert!(e.is_modifying());
    assert_eq!(e.history.undo_stack.len(), 1);
    e.end_modification();
    assert!(!e.is_modifying());
    e.undo();
    assert_eq!(e.history.undo_stack.len(), 0);
    assert_eq!(e.history.redo_stack.len(), 1);
}

#[test]
fn modification_forgets_redo() {
    let mut e = editor_with(square());
    e.begin_modification("One.");
    e.end_modification();
    e.undo();
    assert_eq!(e.history.redo_stack.len(), 1);
    e.begin_modification("Two.");
    assert_eq!(e.history.redo_stack.len(), 0);
}

#[test]
fn collapse_history_keeps_latest_of_a_run() {
    let mut e = editor_with(square());
    for d in ["Move point.", "Move point.", "Move point."] {
        e.begin_modification(d);
        e.end_modification();
    }
    e.collapse_history_entries();
    assert_eq!(e.history.undo_stack.len(), 1);
    for d in ["Other.", "Move point.", "Move point."] {
        e.begin_modification(d);
        e.end_modification();
    }
    e.collapse_history_entries();
    let descs: Vec<String> = e.history.undo_stack.iter().map(|h| h.description.clone()).collect();
    assert_eq!(descs, vec!["Move point.", "Other.", "Move point."]);
}

#[test]
fn delete_selection_cuts_contours() {
    let mut e = editor_with(square());
    e.selected.insert((0, 1));
    e.selected.insert((0, 2));
    e.delete_selection();
    // The square is closed, so the piece after the cut joins the piece before it.
    assert_eq!(outline(&e), vec![vec![(0., 1.), (0., 0.)]]);
    assert_eq!(e.get_active_layer_ref().outline[0][0].ptype, PointType::Move);
    assert!(e.selected().is_none());
    e.undo();
    assert_eq!(outline(&e)[0].len(), 4);
}

#[test]
fn copy_and_paste_selection() {
    let mut e = editor_with(square());
    e.selected.insert((0, 0));
    e.selected.insert((0, 1));
    let copied = e.copy_selection();
    let copied_xy: Vec<Vec<(f32, f32)>> = copied.iter().map(|c| c.iter().map(|p| (p.x, p.y)).collect()).collect();
    assert_eq!(copied_xy, vec![vec![(0., 0.), (1., 0.)]]);
    e.paste_selection(copied);
    assert_eq!(outline(&e).len(), 2);
    assert!(e.point_selected(1, 0));
    assert!(e.point_selected(1, 1));
    assert!(!e.point_selected(0, 0));
}

#[test]
fn clipboard_text_roundtrip() {
    let json = "{\"name\":\"\",\n\t\"outline\":[]}";
    let framed = frame_clipboard(json);
    assert_eq!(framed, format!("text/vnd.mfek.glifjson\t{}", json));
    assert_eq!(unframe_clipboard(&framed), Some(json.to_string()));
    assert_eq!(unframe_clipboard("text/plain\t{}"), None);
    assert_eq!(unframe_clipboard("no tab here"), None);
    assert_eq!(unframe_clipboard("text/vnd.mfek.glifjson\t"), Some(String::new()));
}

#[test]
fn layers_add_delete_swap() {
    let mut e = editor_with(square());
    e.new_layer();
    assert_eq!(e.get_layer_count(), 2);
    assert_eq!(e.get_active_layer(), 1);
    assert_eq!(e.get_active_layer_ref().name, "1");
    assert!(e.get_active_layer_ref().outline.is_empty());
    e.swap_layers(0, 1, true);
    assert_eq!(e.glyph().unwrap().layers[0].name, "1");
    assert_eq!(e.glyph().unwrap().layers[1].name, "0");
    e.undo();
    assert_eq!(e.glyph().unwrap().layers[0].name, "0");
    e.delete_layer(1, true);
    assert_eq!(e.get_layer_count(), 1);
}

#[test]
fn merge_contours_joins_end_to_start() {
    let mut e = editor_with(vec![
        vec![pt(0., 0., PointType::Move), pt(1., 0., PointType::Line)],
        vec![pt(5., 5., PointType::Move), pt(6., 5., PointType::Line)],
    ]);
    e.begin_modification("Merge.");
    e.merge_contours(1, 0);
    e.end_modification();
    assert_eq!(outline(&e), vec![vec![(0., 0.), (1., 0.), (6., 5.)]]);
    assert_eq!(e.contour_idx, Some(0));
    assert_eq!(e.point_idx, Some(1));
}

#[test]
fn merge_contour_with_itself_closes_it() {
    let mut e = editor_with(vec![vec![
        pt(0., 0., PointType::Move),
        pt(1., 0., PointType::Line),
        pt(0., 0., PointType::Line),
    ]]);
    e.begin_modification("Close.");
    e.merge_contours(0, 0);
    e.end_modification();
    assert_eq!(outline(&e), vec![vec![(0., 0.), (1., 0.)]]);
    assert_eq!(e.get_active_layer_ref().outline[0][0].ptype, PointType::Curve);
    assert_eq!(e.point_idx, Some(0));
}

#[test]
fn contour_start_or_end() {
    let e = editor_with(square());
    assert_eq!(get_contour_start_or_end(&e, 0, 0), Some(SelectPointInfo::Start));
    assert_eq!(get_contour_start_or_end(&e, 0, 3), Some(SelectPointInfo::End));
    assert_eq!(get_contour_start_or_end(&e, 0, 2), None);
}

#[test]
fn tool_behaviors_stack() {
    let mut e = editor_with(square());
    e.set_tool(ToolEnum::Select);
    assert_eq!(e.get_tool(), ToolEnum::Select);
    e.push_behavior(1);
    e.push_behavior(2);
    assert_eq!(e.take_behavior(), Some(2));
    // The behavior did not finish: it goes back on the stack.
    e.restore_behavior(2);
    assert_eq!(e.tool_behaviors, vec![1, 2]);
    e.pop_behavior();
    assert_eq!(e.tool_behaviors, vec![1]);
    e.clear_behaviors();
    assert!(e.tool_behaviors.is_empty());
}

#[test]
fn switching_tools_forgets_clicked_point() {
    let mut e = editor_with(square());
    e.contour_idx = Some(0);
    e.point_idx = Some(2);
    mode_switched(&mut e, ToolEnum::Select, ToolEnum::Pen);
    assert_eq!((e.contour_idx, e.point_idx), (None, None));
}

#[test]
fn width_guidelines() {
    let mut e = editor_with(square());
    e.add_width_guidelines(0., 500., 90., 80., false);
    let names: Vec<String> = e.guidelines.iter().map(|g| g.name.clone().unwrap()).collect();
    assert_eq!(names, vec!["italic_rbearing", "italic_lbearing", "rbearing", "lbearing"]);
    assert_eq!(e.guidelines[0].x, 500.);
    assert!(e.guidelines[0].right && !e.guidelines[0].fixed);
    assert!(e.guidelines[3].fixed && !e.guidelines[3].right);
    assert_eq!(e.guidelines[3].angle, 90.);
    // Made anew, the old width guidelines go.
    e.add_width_guidelines(0., 600., 90., 90., true);
    let names: Vec<String> = e.guidelines.iter().map(|g| g.name.clone().unwrap()).collect();
    assert_eq!(names, vec!["rbearing", "lbearing"]);
    assert_eq!(e.guidelines[0].x, 600.);
}

#[test]
fn contour_handlers_join() {
    let two = || {
        vec![
            vec![pt(0., 0., PointType::Move), pt(1., 0., PointType::Line)],
            vec![pt(5., 5., PointType::Move), pt(6., 5., PointType::Line), pt(7., 5., PointType::Line)],
        ]
    };
    let mut e = editor_with(two());
    e.begin_modification("Join.");
    QuadHandler.merge_contours(&mut e, 0, 1);
    e.end_modification();
    assert_eq!(outline(&e), vec![vec![(5., 5.), (6., 5.), (7., 5.), (1., 0.)]]);
    assert_eq!((e.contour_idx, e.point_idx), (Some(0), Some(2)));

    let mut e = editor_with(two());
    e.begin_modification("Join.");
    CubicHandler.merge_contours(&mut e, 0, 1);
    e.end_modification();
    assert_eq!(outline(&e), vec![vec![(6., 5.), (7., 5.), (0., 0.), (1., 0.)]]);
    assert_eq!((e.contour_idx, e.point_idx), (Some(0), Some(2)));
}

#[test]
fn metrics_written_from_guidelines() {
    let gl = |name: &str, format: bool| Guideline {
        x: 0f32,
        y: 1f32,
        angle: 0f32,
        name: Some(name.to_string()),
        fixed: false,
        format,
        right: false,
    };
    let gs = vec![
        gl("descender", true),
        gl("mine", false),
        gl("ascender", false),
        gl("ascender", false),
        gl("lbearing", true),
        gl("descender", true),
    ];
    let m = metrics_to_write(&gs);
    assert_eq!(m.metrics, vec![0, 2]);
    // The second ascender is skipped altogether, though it is not from the metrics.
    assert_eq!(m.guidelines, vec![1, 2]);
}

#[test]
fn metrics_guidelines_added() {
    let mut e = editor_with(square());
    e.add_metrics_guidelines(0., 0., 750., -250.);
    assert_eq!(e.guidelines.len(), 2);
    assert_eq!(e.guidelines[0].name.as_deref(), Some("ascender"));
    assert_eq!(e.guidelines[0].y, 750.);
    assert_eq!(e.guidelines[1].name.as_deref(), Some("descender"));
    assert_eq!(e.guidelines[1].y, -250.);
    assert!(e.guidelines[1].format && !e.guidelines[1].fixed);
    // Width guidelines keep the metrics of the ascender and descender.
    e.add_width_guidelines(0., 500., 90., 90., true);
    assert_eq!(e.guidelines.len(), 4);
}

#[test]
fn copied_and_kept_points_add_up() {
    let mut e = editor_with(vec![
        square()[0].clone(),
        vec![pt(5., 5., PointType::Move), pt(6., 5., PointType::Line), pt(7., 5., PointType::Line)],
    ]);
    e.selected.insert((0, 1));
    e.selected.insert((1, 0));
    e.selected.insert((1, 2));
    let copied: usize = e.copy_selection().iter().map(|c| c.len()).sum();
    e.delete_selection();
    let kept: usize = outline(&e).iter().map(|c| c.len()).sum();
    assert_eq!(copied, 3);
    assert_eq!(kept, 4);
    assert_eq!(copied + kept, 7);
}

#[test]
fn redescribe_modification_renames_latest_entry() {
    let mut e = editor_with(square());
    e.redescribe_modification("Nothing.".to_string());
    assert!(e.history.undo_stack.is_empty());
    e.begin_modification("Move point.");
    e.redescribe_modification("Move handle.".to_string());
    e.end_modification();
    assert_eq!(e.history.undo_stack[0].description, "Move handle.");
}

#[test]
fn point_selection_set() {
    use_point_selection();
}

fn use_point_selection() {
    let mut s = mfekglif::layer::PointSelection::new();
    assert_eq!(s.first(), None);
    s.insert((1, 2));
    s.insert((1, 2));
    assert!(s.contains((1, 2)));
    let mut t = mfekglif::layer::PointSelection::new();
    t.insert((0, 0));
    s.extend(&t);
    assert!(s.contains((0, 0)) && s.contains((1, 2)));
    let d = s.duplicate();
    s.clear();
    assert!(!s.contains((0, 0)));
    assert!(d.contains((0, 0)));
    assert!(d.first().is_some());
}

#[test]
fn simplify_selection_steps() {
    // Fewer than three points: the point goes.
    let mut e = editor_with(vec![vec![pt(0., 0., PointType::Move), pt(1., 0., PointType::Line)]]);
    e.contour_idx = Some(0);
    e.point_idx = Some(1);
    assert_eq!(e.simplify_step(), SimplifyStep::DeletePoint);
    e.simplify_selection(None);
    assert_eq!(outline(&e), vec![vec![(0., 0.)]]);
    // The end of an open contour: the selection goes.
    let mut e = editor_with(vec![vec![
        pt(0., 0., PointType::Move),
        pt(1., 0., PointType::Line),
        pt(2., 0., PointType::Line),
    ]]);
    e.contour_idx = Some(0);
    e.point_idx = Some(2);
    assert_eq!(e.simplify_step(), SimplifyStep::DeleteSelection);
    e.simplify_selection(Some((Handle::At(9., 9.), Handle::At(9., 9.))));
    assert_eq!(outline(&e), vec![vec![(0., 0.), (1., 0.)]]);
    // Inside a closed contour the neighbours wrap around; curves that
    // cannot be fitted leave the point deleted.
    let mut e = editor_with(square());
    e.contour_idx = Some(0);
    e.point_idx = Some(0);
    assert_eq!(e.simplify_step(), SimplifyStep::Fit { prev: 3, next: 1 });
    e.simplify_selection(None);
    assert_eq!(outline(&e), vec![vec![(1., 0.), (1., 1.), (0., 1.)]]);
    // A fitted curve sets the neighbours' handles.
    let mut e = editor_with(square());
    e.contour_idx = Some(0);
    e.point_idx = Some(2);
    e.simplify_selection(Some((Handle::At(1., 0.5), Handle::At(0.5, 1.))));
    assert_eq!(outline(&e), vec![vec![(0., 0.), (1., 0.), (0., 1.)]]);
    let c = &e.get_active_layer_ref().outline[0];
    assert_eq!(c[1].a, Handle::At(1., 0.5));
    assert_eq!(c[2].b, Handle::At(0.5, 1.));
    assert_eq!((e.contour_idx, e.point_idx), (None, None));
    assert!(!e.is_modifying());
    assert_eq!(e.history.undo_stack.last().unwrap().description, "Simplify selection.");
    e.undo();
    assert_eq!(outline(&e)[0].len(), 4);
}

#[test]
fn width_guidelines_twice_same() {
    let mut e = editor_with(square());
    e.add_width_guidelines(0., 500., 90., 80., false);
    let once: Vec<(f32, Option<String>, bool)> = e.guidelines.iter().map(|g| (g.x, g.name.clone(), g.right)).collect();
    e.add_width_guidelines(0., 500., 90., 80., false);
    let twice: Vec<(f32, Option<String>, bool)> = e.guidelines.iter().map(|g| (g.x, g.name.clone(), g.right)).collect();
    assert_eq!(once, twice);
}
