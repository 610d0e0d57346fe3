use media_ingest::crop::Bbox;
use media_ingest::detect::{
    boxes_from_detector, input_shape, MIN_FACE_SIZE, PYRAMID_FACTOR, STAGE_THRESHOLDS,
};

#[test]
fn detector_is_asked_with_fixed_parameters() {
    assert_eq!(MIN_FACE_SIZE, 150);
    assert_eq!(STAGE_THRESHOLDS, [600_000, 700_000, 700_000]);
    assert_eq!(PYRAMID_FACTOR, 709_000);
}

#[test]
fn detector_input_is_rows_columns_channels() {
    assert_eq!(input_shape(4000, 3000), [3000, 4000, 3]);
}

#[test]
fn corners_come_top_left_bottom_right_and_are_put_in_order() {
    let corners = vec![10, 20, 110, 220, 1, 2, 3, 4];
    let confidences = vec![990_000, 750_000];
    assert_eq!(
        boxes_from_detector(&corners, &confidences),
        vec![
            Bbox { x1: 20, y1: 10, x2: 220, y2: 110, prob: 990_000 },
            Bbox { x1: 2, y1: 1, x2: 4, y2: 3, prob: 750_000 },
        ]
    );
}

#[test]
fn no_faces_is_an_ordinary_result() {
    assert_eq!(boxes_from_detector(&vec![], &vec![]), vec![]);
}

#[test]
fn boxes_are_as_many_as_both_lists_give() {
    let corners = vec![1, 2, 3, 4, 5, 6, 7, 8, 9, 10];
    assert_eq!(boxes_from_detector(&corners, &vec![1, 2, 3]).len(), 2);
    assert_eq!(boxes_from_detector(&corners, &vec![1]).len(), 1);
    assert_eq!(boxes_from_detector(&vec![1, 2, 3], &vec![1]).len(), 0);
}
