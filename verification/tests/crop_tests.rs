use media_ingest::crop::{
    fill_window, calc_area, calc_length, calc_midpoint, calc_new_measurements, largest_bbox, plan_crop,
    plan_preview, Bbox, CropPlan, CropRegion, PreviewPlan,
};

/// A box with its corners at whole pixels.
fn bbox(x1: i32, y1: i32, x2: i32, y2: i32) -> Bbox {
    Bbox { x1: x1 * 1000, y1: y1 * 1000, x2: x2 * 1000, y2: y2 * 1000, prob: 990_000 }
}

/// A box with its corners in thousandths of a pixel.
fn fine(x1: i32, y1: i32, x2: i32, y2: i32) -> Bbox {
    Bbox { x1, y1, x2, y2, prob: 990_000 }
}

#[test]
fn length_area_and_midpoint_of_a_box() {
    let b = bbox(10, 20, 21, 40);
    assert_eq!(calc_length(b), (11_000, 20_000));
    assert_eq!(calc_area(b), 220_000_000);
    assert_eq!(calc_midpoint(b), (15, 30));
    // Fractions of a pixel are dropped only once the midpoint is taken.
    assert_eq!(calc_midpoint(fine(10_600, 0, 31_400, 999)), (21, 0));
    assert_eq!(calc_midpoint(fine(10_600, 0, 31_399, 2_001)), (20, 1));
}

#[test]
fn midpoint_left_of_the_image_is_moved_onto_the_edge() {
    assert_eq!(calc_midpoint(bbox(-10, -7, 4, 7)), (0, 0));
    assert_eq!(calc_midpoint(bbox(-1, 0, 4, 1)), (1, 0));
    assert_eq!(calc_midpoint(fine(i32::MAX, i32::MAX, i32::MAX, i32::MAX)), (2_147_483, 2_147_483));
}

#[test]
fn area_of_a_box_with_one_side_reversed_is_zero() {
    assert_eq!(calc_area(bbox(10, 0, 0, 10)), 0);
    assert_eq!(calc_area(bbox(10, 10, 0, 0)), 100_000_000);
    assert_eq!(
        calc_area(fine(i32::MIN, i32::MIN, i32::MAX, i32::MAX)),
        4_294_967_295 * 4_294_967_295
    );
}

#[test]
fn largest_box_is_kept() {
    let boxes = vec![bbox(0, 0, 10, 10), bbox(0, 0, 30, 30), bbox(5, 5, 25, 25)];
    assert_eq!(largest_bbox(&boxes), bbox(0, 0, 30, 30));
}

#[test]
fn largest_box_is_kept_however_large() {
    let smaller = bbox(0, 0, 70_000, 70_000);
    let larger = bbox(0, 0, 100_000, 100_000);
    assert_eq!(largest_bbox(&vec![smaller, larger]), larger);
    assert_eq!(largest_bbox(&vec![larger, smaller]), larger);
}

#[test]
fn boxes_that_differ_by_a_fraction_of_a_pixel_are_ranked() {
    let smaller = fine(0, 0, 10_000, 10_000);
    let larger = fine(0, 0, 10_000, 10_001);
    assert_eq!(largest_bbox(&vec![smaller, larger]), larger);
}

#[test]
fn two_boxes_of_equal_area_give_the_first() {
    let first = bbox(100, 100, 120, 150);
    let second = bbox(500, 500, 550, 520);
    assert_eq!(calc_area(first), calc_area(second));
    assert_eq!(largest_bbox(&vec![first, second]), first);
    assert_eq!(largest_bbox(&vec![second, first]), second);
    assert_eq!(largest_bbox(&vec![bbox(0, 0, 1, 1), first, second]), first);
}

#[test]
fn boxes_without_area_give_the_first() {
    let boxes = vec![bbox(3, 3, 3, 3), bbox(9, 9, 9, 9)];
    assert_eq!(largest_bbox(&boxes), bbox(3, 3, 3, 3));
}

#[test]
fn frame_of_three_by_two_is_kept_whole() {
    assert_eq!(calc_new_measurements(3000, 2000, bbox(0, 0, 10, 10)), (0, 0, 3000, 2000));
}

#[test]
fn too_narrow_frame_loses_height_around_the_face() {
    // 4000 / 1.5 = 2666.67, rounded up; the face sits at (2000, 1500).
    let face = bbox(1900, 1400, 2100, 1600);
    assert_eq!(calc_new_measurements(4000, 3000, face), (0, 167, 4000, 2667));
    // A face at the top holds the crop at the edge.
    assert_eq!(calc_new_measurements(4000, 3000, bbox(0, 0, 200, 200)), (0, 0, 4000, 2667));
}

#[test]
fn too_wide_frame_loses_width_and_is_not_held_at_the_far_edge() {
    let face = bbox(3800, 900, 4000, 1100);
    assert_eq!(calc_new_measurements(4000, 2000, face), (2400, 0, 3000, 2000));
    assert_eq!(calc_new_measurements(1000, 333, bbox(0, 0, 10, 10)), (0, 0, 500, 333));
}

#[test]
fn crop_has_three_for_two_up_to_rounding() {
    let face = bbox(5, 5, 15, 15);
    for w in 1u32..80 {
        for h in 1u32..80 {
            let (_, _, cw, ch) = calc_new_measurements(w, h, face);
            if 2 * w == 3 * h {
                assert_eq!((cw, ch), (w, h));
            } else if 2 * w > 3 * h {
                assert_eq!(ch, h);
                assert_eq!(cw, (3 * h + 1) / 2);
                assert!(2 * cw >= 3 * ch && 2 * cw - 3 * ch <= 1);
            } else {
                assert_eq!(cw, w);
                assert_eq!(ch, (2 * w + 2) / 3);
                assert!(3 * ch >= 2 * cw && 3 * ch - 2 * cw <= 2);
            }
        }
    }
}

#[test]
fn plan_without_faces_is_the_centered_fill() {
    assert_eq!(plan_crop(3000, 4000, &vec![]), CropPlan::CenteredFill);
    assert_eq!(
        plan_crop(3000, 2000, &vec![]),
        CropPlan::Region(CropRegion { x: 0, y: 0, width: 3000, height: 2000 })
    );
}

#[test]
fn plan_with_faces_is_cut_around_the_largest() {
    let boxes = vec![bbox(0, 0, 10, 10), bbox(1900, 1400, 2100, 1600)];
    assert_eq!(
        plan_crop(4000, 3000, &boxes),
        CropPlan::Region(CropRegion { x: 0, y: 167, width: 4000, height: 2667 })
    );
}

#[test]
fn preview_within_bounds_is_kept() {
    assert_eq!(plan_preview(1920, 1080), PreviewPlan::Keep);
    assert_eq!(plan_preview(4096, 2160), PreviewPlan::Keep);
    assert_eq!(plan_preview(0, 0), PreviewPlan::Keep);
}

#[test]
fn preview_out_of_bounds_is_scaled_with_its_aspect() {
    assert_eq!(plan_preview(8000, 6000), PreviewPlan::Resize { width: 4096, height: 3072 });
    assert_eq!(plan_preview(4000, 3000), PreviewPlan::Resize { width: 4096, height: 3072 });
    assert_eq!(plan_preview(3000, 4000), PreviewPlan::Resize { width: 1620, height: 2160 });
    assert_eq!(plan_preview(5000, 5000), PreviewPlan::Resize { width: 4096, height: 4096 });
    assert_eq!(plan_preview(4097, 1), PreviewPlan::Resize { width: 4096, height: 1 });
    assert_eq!(plan_preview(1000, 3000), PreviewPlan::Resize { width: 720, height: 2160 });
}

#[test]
fn only_the_middle_of_a_very_long_frame_is_scaled_to_fill() {
    assert_eq!(fill_window(3000, 4000), CropRegion { x: 0, y: 0, width: 3000, height: 4000 });
    assert_eq!(fill_window(10, 160), CropRegion { x: 0, y: 0, width: 10, height: 160 });
    assert_eq!(fill_window(10, 161), CropRegion { x: 0, y: 0, width: 10, height: 160 });
    assert_eq!(fill_window(1, 500), CropRegion { x: 0, y: 242, width: 1, height: 16 });
    assert_eq!(fill_window(500, 1), CropRegion { x: 242, y: 0, width: 16, height: 1 });
    assert_eq!(
        fill_window(u32::MAX, 2),
        CropRegion { x: 2_147_483_631, y: 0, width: 32, height: 2 }
    );
    assert_eq!(fill_window(0, 7), CropRegion { x: 0, y: 3, width: 0, height: 0 });
}
