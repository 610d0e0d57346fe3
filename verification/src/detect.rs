use vstd::prelude::*;
use crate::crop::Bbox;

verus! {

/// Smallest face, in pixels, that the detector is asked to find.
pub const MIN_FACE_SIZE: u32 = 150;

/// Confidence that each of the detector's three stages asks for, in
/// millionths.
pub const STAGE_THRESHOLDS: [u32; 3] = [600_000, 700_000, 700_000];

/// Factor between the levels of the scale pyramid, in millionths.
pub const PYRAMID_FACTOR: u32 = 709_000;

/// The number of boxes in what the detector handed back: one for each four
/// corner numbers, as far as there are confidences.
pub open spec fn box_count(corners: Seq<i32>, confidences: Seq<u32>) -> int {
    if corners.len() / 4 <= confidences.len() {
        (corners.len() / 4) as int
    } else {
        confidences.len() as int
    }
}

/// The box at position `i`: the detector gives top, left, bottom, right.
pub open spec fn box_at(corners: Seq<i32>, confidences: Seq<u32>, i: int) -> Bbox {
    Bbox {
        y1: corners[4 * i],
        x1: corners[4 * i + 1],
        y2: corners[4 * i + 2],
        x2: corners[4 * i + 3],
        prob: confidences[i],
    }
}

/// The boxes that the detector found, in its order.
pub open spec fn spec_boxes(corners: Seq<i32>, confidences: Seq<u32>) -> Seq<Bbox> {
    Seq::new(box_count(corners, confidences) as nat, |i: int| box_at(corners, confidences, i))
}

/// Puts what the detector handed back, four corner numbers a box, in
/// thousandths of a pixel, and one confidence a box, in millionths, into
/// boxes with the corners in the order left, top, right, bottom. The order of
/// the boxes is kept.
pub fn boxes_from_detector(corners: &Vec<i32>, confidences: &Vec<u32>) -> (boxes: Vec<Bbox>)
    ensures
        boxes@ == spec_boxes(corners@, confidences@),
{
    let n: usize = if corners.len() / 4 <= confidences.len() {
        corners.len() / 4
    } else {
        confidences.len()
    };
    let mut boxes: Vec<Bbox> = Vec::new();
    let mut i: usize = 0;
    while i < n
        invariant
            i <= n,
            n == box_count(corners@, confidences@),
            4 * n <= corners.len(),
            n <= confidences.len(),
            boxes@.len() == i,
            forall|j: int| 0 <= j < i ==> boxes@[j] == box_at(corners@, confidences@, j),
        decreases n - i,
    {
        boxes.push(
            Bbox {
                y1: corners[4 * i],
                x1: corners[4 * i + 1],
                y2: corners[4 * i + 2],
                x2: corners[4 * i + 3],
                prob: confidences[i],
            },
        );
        i += 1;
    }
    assert(boxes@ =~= spec_boxes(corners@, confidences@));
    boxes
}

/// The shape of the detector's input for a frame: rows, columns, channels.
pub fn input_shape(width: u32, height: u32) -> (shape: [u64; 3])
    ensures
        shape@ == seq![height as u64, width as u64, 3u64],
{
    let shape: [u64; 3] = [height as u64, width as u64, 3];
    assert(shape@ =~= seq![height as u64, width as u64, 3u64]);
    shape
}

} // verus!
