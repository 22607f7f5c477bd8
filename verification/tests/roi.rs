use roi_editor::roi::{first_hit, point_in_roi, remove_first_hit, ROI};

fn roi(x: i32, y: i32, width: i32, height: i32) -> ROI {
    ROI { x, y, width, height }
}

#[test]
fn point_inside_is_contained() {
    assert!(point_in_roi(5, 5, &roi(0, 0, 10, 10)));
    assert!(point_in_roi(0, 0, &roi(0, 0, 10, 10)));
    assert!(point_in_roi(9, 9, &roi(0, 0, 10, 10)));
}

#[test]
fn right_and_bottom_edges_are_outside() {
    assert!(!point_in_roi(10, 5, &roi(0, 0, 10, 10)));
    assert!(!point_in_roi(5, 10, &roi(0, 0, 10, 10)));
    assert!(!point_in_roi(-1, 5, &roi(0, 0, 10, 10)));
    assert!(!point_in_roi(5, -1, &roi(0, 0, 10, 10)));
}

#[test]
fn empty_and_negative_regions_contain_nothing() {
    assert!(!point_in_roi(3, 3, &roi(3, 3, 0, 5)));
    assert!(!point_in_roi(3, 3, &roi(3, 3, 5, 0)));
    assert!(!point_in_roi(3, 3, &roi(3, 3, -4, 5)));
    assert!(!point_in_roi(1, 3, &roi(3, 3, -4, 5)));
}

#[test]
fn region_reaching_past_the_largest_coordinate() {
    let wide = roi(i32::MAX - 5, 0, 100, 10);
    assert!(point_in_roi(i32::MAX, 3, &wide));
    assert!(point_in_roi(i32::MAX - 5, 3, &wide));
    assert!(!point_in_roi(i32::MAX - 6, 3, &wide));
    let low = roi(i32::MIN, i32::MIN, 1, 1);
    assert!(point_in_roi(i32::MIN, i32::MIN, &low));
    assert!(!point_in_roi(i32::MIN + 1, i32::MIN, &low));
}

#[test]
fn first_hit_is_the_earliest_region_under_the_point() {
    let rois = vec![roi(100, 100, 5, 5), roi(0, 0, 10, 10), roi(5, 5, 10, 10)];
    assert_eq!(first_hit(&rois, 7, 7), Some(1));
    assert_eq!(first_hit(&rois, 12, 12), Some(2));
    assert_eq!(first_hit(&rois, 102, 104), Some(0));
    assert_eq!(first_hit(&rois, 50, 50), None);
    assert_eq!(first_hit(&Vec::new(), 0, 0), None);
}

#[test]
fn remove_first_hit_takes_out_one_region_only() {
    let mut rois = vec![roi(0, 0, 10, 10), roi(5, 5, 10, 10), roi(6, 6, 2, 2)];
    assert_eq!(remove_first_hit(&mut rois, 7, 7), Some(roi(0, 0, 10, 10)));
    assert_eq!(rois, vec![roi(5, 5, 10, 10), roi(6, 6, 2, 2)]);
    assert_eq!(remove_first_hit(&mut rois, 7, 7), Some(roi(5, 5, 10, 10)));
    assert_eq!(rois, vec![roi(6, 6, 2, 2)]);
    assert_eq!(remove_first_hit(&mut rois, 7, 7), Some(roi(6, 6, 2, 2)));
    assert!(rois.is_empty());
}

#[test]
fn remove_first_hit_without_a_hit_changes_nothing() {
    let mut rois = vec![roi(0, 0, 10, 10), roi(5, 5, 10, 10)];
    assert_eq!(remove_first_hit(&mut rois, 40, 40), None);
    assert_eq!(rois, vec![roi(0, 0, 10, 10), roi(5, 5, 10, 10)]);
    let mut none: Vec<ROI> = Vec::new();
    assert_eq!(remove_first_hit(&mut none, 0, 0), None);
    assert!(none.is_empty());
}
