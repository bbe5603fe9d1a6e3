use mfekglif::events::vws::{
    cap_type_to_idx, check_vws_cap_combo, check_vws_join_combo, fix_vws_contour, generate_vws_contour,
    get_vws_contour, get_vws_contour_idx, get_vws_handle, idx_to_cap_type, idx_to_join_type, join_type_to_idx,
    set_vws_contour_by_value, CapType, JoinType, VWSContour,
};

fn contour(id: usize, handles: Vec<u32>) -> VWSContour<u32> {
    VWSContour { handles, id, cap_start_type: CapType::Round, cap_end_type: CapType::Round, join_type: JoinType::Round }
}

#[test]
fn vws_type_indexes_roundtrip() {
    for jt in [JoinType::Round, JoinType::Miter, JoinType::Bevel] {
        assert_eq!(idx_to_join_type(join_type_to_idx(jt)), jt);
    }
    for ct in [CapType::Round, CapType::Square, CapType::Custom] {
        assert_eq!(idx_to_cap_type(cap_type_to_idx(ct)), ct);
    }
    assert_eq!(join_type_to_idx(JoinType::Bevel), 2);
    assert_eq!(cap_type_to_idx(CapType::Square), 1);
}

#[test]
fn vws_contours_by_id() {
    let cs = vec![contour(3, vec![1]), contour(5, vec![2]), contour(3, vec![7])];
    assert_eq!(get_vws_contour_idx(&cs, 3), Some(0));
    assert_eq!(get_vws_contour_idx(&cs, 5), Some(1));
    assert_eq!(get_vws_contour_idx(&cs, 4), None);
    assert_eq!(get_vws_contour(&cs, 3).unwrap().handles, vec![1]);
    assert!(get_vws_contour(&cs, 9).is_none());
}

#[test]
fn vws_set_replaces_last_of_contour() {
    let mut cs = vec![contour(3, vec![1]), contour(5, vec![2]), contour(3, vec![7])];
    set_vws_contour_by_value(&mut cs, 3, contour(3, vec![9]));
    let ids: Vec<(usize, Vec<u32>)> = cs.iter().map(|c| (c.id, c.handles.clone())).collect();
    assert_eq!(ids, vec![(3, vec![1]), (5, vec![2]), (3, vec![9])]);
    set_vws_contour_by_value(&mut cs, 8, contour(8, vec![4]));
    assert_eq!(cs.len(), 4);
    assert_eq!(cs[3].id, 8);
}

#[test]
fn vws_generate_and_fix() {
    let mut cs: Vec<VWSContour<u32>> = Vec::new();
    generate_vws_contour(&mut cs, 2, &vec!['a', 'b', 'c'], 10);
    assert_eq!(cs[0].handles, vec![10, 10, 10, 10]);
    assert_eq!(cs[0].id, 2);
    assert_eq!(cs[0].join_type, JoinType::Round);
    // Two handles beyond a contour of one point (and one more): two more are appended.
    fix_vws_contour(&mut cs, 0, 1, 7);
    assert_eq!(cs[0].handles, vec![10, 10, 10, 10, 7, 7]);
}

#[test]
fn vws_handles() {
    let mut cs = vec![contour(0, vec![1, 2, 3])];
    assert_eq!(get_vws_handle(&mut cs, None, 5, 0, 42), 42);
    assert_eq!(get_vws_handle(&mut cs, Some(0), 2, 0, 42), 3);
    // Fewer handles than asked for: padded first.
    assert_eq!(get_vws_handle(&mut cs, Some(0), 4, 0, 42), 42);
    assert_eq!(cs[0].handles, vec![1, 2, 3, 42, 42]);
}

#[test]
fn vws_combos() {
    let mut cs = vec![contour(0, vec![1])];
    assert!(!check_vws_cap_combo(&mut cs, 0, 0, 0));
    assert!(check_vws_cap_combo(&mut cs, 0, 1, 2));
    assert_eq!(cs[0].cap_start_type, CapType::Square);
    assert_eq!(cs[0].cap_end_type, CapType::Custom);
    assert!(!check_vws_cap_combo(&mut cs, 7, 1, 1));
    assert!(check_vws_join_combo(&mut cs, 0, 2));
    assert_eq!(cs[0].join_type, JoinType::Bevel);
    assert!(!check_vws_join_combo(&mut cs, 1, 2));
    assert_eq!(cs.len(), 1);
}

#[test]
fn vws_stored_settings_read_back() {
    let mut cs = vec![contour(1, vec![1]), contour(4, vec![2])];
    let mut c = contour(4, vec![5, 5]);
    c.join_type = JoinType::Miter;
    set_vws_contour_by_value(&mut cs, 4, c);
    let back = get_vws_contour(&cs, 4).unwrap();
    assert_eq!(back.handles, vec![5, 5]);
    assert_eq!(back.join_type, JoinType::Miter);
    assert_eq!(get_vws_contour_idx(&cs, 4), Some(cs.len() - 1));
}
