use vstd::prelude::*;

verus! {

/// A detected face: a rectangle of the upright image, its corners in
/// thousandths of a pixel, and the detector's confidence in millionths.
#[derive(Clone, Copy, Debug, PartialEq, Eq, Structural)]
pub struct Bbox {
    pub x1: i32,
    pub y1: i32,
    pub x2: i32,
    pub y2: i32,
    pub prob: u32,
}

/// The rectangle of the upright image that the thumbnail is cut from.
#[derive(Clone, Copy, Debug, PartialEq, Eq, Structural)]
pub struct CropRegion {
    pub x: u32,
    pub y: u32,
    pub width: u32,
    pub height: u32,
}

/// How the thumbnail is cut: from a planned region, or, with no subject to
/// keep, by scaling the frame to fill the target and cutting its centre.
#[derive(Clone, Copy, Debug, PartialEq, Eq, Structural)]
pub enum CropPlan {
    Region(CropRegion),
    CenteredFill,
}

/// What becomes of the upright image when the preview is made.
#[derive(Clone, Copy, Debug, PartialEq, Eq, Structural)]
pub enum PreviewPlan {
    /// The image is within bounds and passes through at its own size.
    Keep,
    /// The image is scaled to these dimensions.
    Resize { width: u32, height: u32 },
}

/// Number of units of a box's coordinates in one pixel.
pub const PIXEL_UNIT: i32 = 1000;

pub const THUMBNAIL_WIDTH: u32 = 300;

pub const THUMBNAIL_HEIGHT: u32 = 200;

/// The largest ratio between the sides of what is scaled to fill the
/// thumbnail: of a longer frame only the middle is scaled.
pub const FILL_ASPECT_LIMIT: u32 = 16;

pub const PREVIEW_MAX_WIDTH: u32 = 4096;

pub const PREVIEW_MAX_HEIGHT: u32 = 2160;

impl Bbox {
    /// Signed width of the box.
    pub open spec fn span_x(self) -> int {
        self.x2 - self.x1
    }

    /// Signed height of the box.
    pub open spec fn span_y(self) -> int {
        self.y2 - self.y1
    }

    /// The area by which boxes are ranked: width times height in full, in
    /// square units; a box with one side reversed has no area.
    pub open spec fn area(self) -> int {
        let a = self.span_x() * self.span_y();
        if a < 0 {
            0
        } else {
            a
        }
    }

    /// The midpoint of the box in whole pixels, fractions dropped; a midpoint
    /// left of or above the image is moved onto its edge.
    pub open spec fn midpoint(self) -> (int, int) {
        (midpoint_of(self.x1 as int, self.x2 as int), midpoint_of(self.y1 as int, self.y2 as int))
    }
}

/// The whole pixel in the middle between two coordinates.
pub open spec fn midpoint_of(a: int, b: int) -> int {
    if a + b <= 0 {
        0
    } else {
        (a + b) / (2 * PIXEL_UNIT)
    }
}

/// Width and height of a bounding box in thousandths of a pixel, each
/// negative where the corners are the wrong way round.
pub fn calc_length(bbox: Bbox) -> (r: (i64, i64))
    ensures
        r.0 == bbox.span_x(),
        r.1 == bbox.span_y(),
{
    (bbox.x2 as i64 - bbox.x1 as i64, bbox.y2 as i64 - bbox.y1 as i64)
}

/// The area of a bounding box, as it is ranked.
pub fn calc_area(bbox: Bbox) -> (a: u64)
    ensures
        a == bbox.area(),
{
    let (w, h) = calc_length(bbox);
    assert(-0x1_0000_0000 < w < 0x1_0000_0000);
    assert(-0x1_0000_0000 < h < 0x1_0000_0000);
    assert(-0x1_0000_0000_0000_0000 < w * h < 0x1_0000_0000_0000_0000) by (nonlinear_arith)
        requires
            -0x1_0000_0000 < w < 0x1_0000_0000,
            -0x1_0000_0000 < h < 0x1_0000_0000,
    ;
    assert(w * h < 0x1_0000_0000_0000_0000) by (nonlinear_arith)
        requires
            -0x1_0000_0000 < w < 0x1_0000_0000,
            -0x1_0000_0000 < h < 0x1_0000_0000,
    ;
    let a: i128 = (w as i128) * (h as i128);
    if a < 0 {
        0
    } else {
        a as u64
    }
}

/// The midpoint of a bounding box, in whole pixels.
pub fn calc_midpoint(bbox: Bbox) -> (mid: (u32, u32))
    ensures
        (mid.0 as int, mid.1 as int) == bbox.midpoint(),
{
    let sx: i64 = bbox.x1 as i64 + bbox.x2 as i64;
    let sy: i64 = bbox.y1 as i64 + bbox.y2 as i64;
    let mx: u32 = if sx <= 0 { 0 } else { (sx / 2000) as u32 };
    let my: u32 = if sy <= 0 { 0 } else { (sy / 2000) as u32 };
    (mx, my)
}

/// Index of the box that is kept in the thumbnail: among the boxes of the
/// largest area, the one that the detector reported first.
pub open spec fn first_largest(boxes: Seq<Bbox>) -> int
    decreases boxes.len(),
{
    if boxes.len() <= 1 {
        0
    } else {
        let i = first_largest(boxes.drop_last());
        if boxes.last().area() > boxes[i].area() {
            boxes.len() - 1
        } else {
            i
        }
    }
}

/// `first_largest` names a box of the sequence, no box has a larger area, and
/// every box before it has a smaller one.
pub proof fn lemma_first_largest(boxes: Seq<Bbox>)
    requires
        boxes.len() > 0,
    ensures
        0 <= first_largest(boxes) < boxes.len(),
        forall|j: int|
            0 <= j < boxes.len() ==> (#[trigger] boxes[j]).area() <= boxes[first_largest(boxes)].area(),
        forall|j: int|
            0 <= j < first_largest(boxes) ==> (#[trigger] boxes[j]).area() < boxes[first_largest(
                boxes,
            )].area(),
    decreases boxes.len(),
{
    if boxes.len() > 1 {
        let init = boxes.drop_last();
        lemma_first_largest(init);
        let i = first_largest(init);
        assert(init[i] == boxes[i]);
        assert forall|j: int| 0 <= j < boxes.len() implies (#[trigger] boxes[j]).area()
            <= boxes[first_largest(boxes)].area() by {
            if j < init.len() {
                assert(init[j] == boxes[j]);
            }
        }
        assert forall|j: int| 0 <= j < first_largest(boxes) implies (#[trigger] boxes[j]).area()
            < boxes[first_largest(boxes)].area() by {
            assert(init[j] == boxes[j]);
        }
    }
}

/// Of two boxes of equal area, the later one is never the one kept: ties go to
/// the box that the detector reported first.
pub proof fn lemma_tie_goes_to_first(boxes: Seq<Bbox>, i: int, j: int)
    requires
        0 <= i < j < boxes.len(),
        boxes[i].area() == boxes[j].area(),
    ensures
        first_largest(boxes) != j,
{
    lemma_first_largest(boxes);
}

/// Where both of two boxes have the largest area, the first of them is kept.
pub proof fn lemma_two_equal_boxes(a: Bbox, b: Bbox)
    requires
        a.area() == b.area(),
    ensures
        first_largest(seq![a, b]) == 0,
{
    let s = seq![a, b];
    lemma_first_largest(s);
    assert(s[0].area() == s[1].area());
}

/// The face to keep in the thumbnail: the largest box, the first of them where
/// several are as large.
pub fn largest_bbox(bboxes: &Vec<Bbox>) -> (largest: Bbox)
    requires
        bboxes.len() > 0,
    ensures
        largest == bboxes@[first_largest(bboxes@)],
{
    let mut area: u64 = calc_area(bboxes[0]);
    let mut largest: Bbox = bboxes[0];
    let mut k: usize = 1;
    assert(bboxes@.take(1).len() == 1);
    while k < bboxes.len()
        invariant
            1 <= k <= bboxes.len(),
            largest == bboxes@[first_largest(bboxes@.take(k as int))],
            0 <= first_largest(bboxes@.take(k as int)) < k,
            area == largest.area(),
        decreases bboxes.len() - k,
    {
        let bbox = bboxes[k];
        let tmp_area = calc_area(bbox);
        proof {
            let next = bboxes@.take(k + 1);
            assert(next.drop_last() == bboxes@.take(k as int));
            assert(next.last() == bbox);
            assert(next[first_largest(bboxes@.take(k as int))] == largest);
        }
        if tmp_area > area {
            area = tmp_area;
            largest = bbox;
        }
        k += 1;
    }
    assert(bboxes@.take(k as int) == bboxes@);
    largest
}

/// Whether a frame is exactly three wide for two high.
pub open spec fn is_three_by_two(width: int, height: int) -> bool {
    2 * width == 3 * height
}

/// Whether a frame is wider than three for two.
pub open spec fn is_too_wide(width: int, height: int) -> bool {
    2 * width > 3 * height
}

/// One and a half times `height`, rounded up.
pub open spec fn width_for(height: int) -> int {
    (3 * height + 1) / 2
}

/// `width` divided by one and a half, rounded up.
pub open spec fn height_for(width: int) -> int {
    (2 * width + 2) / 3
}

/// Origin of a crop of the given length around `mid`, held at the near edge.
pub open spec fn origin_around(mid: int, length: int) -> int {
    if mid - length / 2 >= 0 {
        mid - length / 2
    } else {
        0
    }
}

/// The crop of a `width` by `height` frame around the midpoint of `bbox`, as
/// (x, y, width, height). A frame of three by two is kept whole. A wider one
/// keeps its height and loses width; a narrower one keeps its width and loses
/// height. The origin is held at zero; the far edge is not looked at.
pub open spec fn spec_measurements(width: int, height: int, bbox: Bbox) -> (int, int, int, int) {
    let (x_mid, y_mid) = bbox.midpoint();
    if is_three_by_two(width, height) {
        (0, 0, width, height)
    } else if is_too_wide(width, height) {
        let new_width = width_for(height);
        (origin_around(x_mid, new_width), 0, new_width, height)
    } else {
        let new_height = height_for(width);
        (0, origin_around(y_mid, new_height), width, new_height)
    }
}

/// Computes the crop around a face: see `spec_measurements`.
pub fn calc_new_measurements(width: u32, height: u32, bbox: Bbox) -> (r: (u32, u32, u32, u32))
    ensures
        (r.0 as int, r.1 as int, r.2 as int, r.3 as int) == spec_measurements(
            width as int,
            height as int,
            bbox,
        ),
{
    let (x_mid, y_mid) = calc_midpoint(bbox);
    let w: u64 = width as u64;
    let h: u64 = height as u64;
    if 2 * w == 3 * h {
        (0, 0, width, height)
    } else if 2 * w > 3 * h {
        let new_width: u32 = ((3 * h + 1) / 2) as u32;
        let half: u32 = new_width / 2;
        if x_mid >= half {
            (x_mid - half, 0, new_width, height)
        } else {
            (0, 0, new_width, height)
        }
    } else {
        let new_height: u32 = ((2 * w + 2) / 3) as u32;
        let half: u32 = new_height / 2;
        if y_mid >= half {
            (0, y_mid - half, width, new_height)
        } else {
            (0, 0, width, new_height)
        }
    }
}

/// A crop that does not keep the whole frame has three for two as its aspect,
/// up to the rounding of the side that was computed: its width is one and a
/// half times its height rounded up, or its height is its width divided by one
/// and a half rounded up.
pub proof fn lemma_crop_aspect(width: int, height: int, bbox: Bbox)
    requires
        0 <= width,
        0 <= height,
        !is_three_by_two(width, height),
    ensures
        ({
            let r = spec_measurements(width, height, bbox);
            ||| r.3 == height && 0 <= 2 * r.2 - 3 * r.3 <= 1
            ||| r.2 == width && 0 <= 3 * r.3 - 2 * r.2 <= 2
        }),
        ({
            let r = spec_measurements(width, height, bbox);
            r.2 <= width && r.3 <= height && 0 <= r.0 && 0 <= r.1
        }),
{
}

/// The plan for the thumbnail's crop.
pub open spec fn spec_plan_crop(width: int, height: int, boxes: Seq<Bbox>) -> CropPlan {
    if is_three_by_two(width, height) {
        CropPlan::Region(
            CropRegion { x: 0, y: 0, width: width as u32, height: height as u32 },
        )
    } else if boxes.len() == 0 {
        CropPlan::CenteredFill
    } else {
        let r = spec_measurements(width, height, boxes[first_largest(boxes)]);
        CropPlan::Region(
            CropRegion { x: r.0 as u32, y: r.1 as u32, width: r.2 as u32, height: r.3 as u32 },
        )
    }
}

/// A planned crop of a frame that is not three by two, around a face, has
/// three for two as its aspect up to the rounding of the side that was
/// computed, and is no larger than the frame.
pub proof fn lemma_plan_aspect(width: int, height: int, boxes: Seq<Bbox>)
    requires
        0 <= width <= u32::MAX,
        0 <= height <= u32::MAX,
        !is_three_by_two(width, height),
        boxes.len() > 0,
    ensures
        spec_plan_crop(width, height, boxes) is Region,
        ({
            let r = spec_plan_crop(width, height, boxes)->Region_0;
            ||| r.height == height && 0 <= 2 * r.width - 3 * r.height <= 1
            ||| r.width == width && 0 <= 3 * r.height - 2 * r.width <= 2
        }),
        ({
            let r = spec_plan_crop(width, height, boxes)->Region_0;
            r.width <= width && r.height <= height
        }),
{
    lemma_first_largest(boxes);
    lemma_crop_aspect(width, height, boxes[first_largest(boxes)]);
    let m = spec_measurements(width, height, boxes[first_largest(boxes)]);
    let (x_mid, y_mid) = boxes[first_largest(boxes)].midpoint();
    assert(0 <= x_mid <= u32::MAX && 0 <= y_mid <= u32::MAX);
}

/// Plans the crop of an upright frame of `width` by `height` pixels in which
/// the detector found `boxes`.
pub fn plan_crop(width: u32, height: u32, boxes: &Vec<Bbox>) -> (plan: CropPlan)
    ensures
        plan == spec_plan_crop(width as int, height as int, boxes@),
{
    if 2 * (width as u64) == 3 * (height as u64) {
        CropPlan::Region(CropRegion { x: 0, y: 0, width, height })
    } else if boxes.len() == 0 {
        CropPlan::CenteredFill
    } else {
        let largest = largest_bbox(boxes);
        let (x, y, w, h) = calc_new_measurements(width, height, largest);
        CropPlan::Region(CropRegion { x, y, width: w, height: h })
    }
}

/// The part of a frame that is scaled to fill the thumbnail where there is no
/// face to keep: the whole frame, but of a frame more than sixteen times as
/// long as wide, or as wide as long, only the middle, sixteen times as long
/// as the short side. The thumbnail is cut from the centre, well within it.
pub open spec fn spec_fill_window(width: int, height: int) -> CropRegion {
    if height > FILL_ASPECT_LIMIT * width {
        CropRegion {
            x: 0,
            y: ((height - FILL_ASPECT_LIMIT * width) / 2) as u32,
            width: width as u32,
            height: (FILL_ASPECT_LIMIT * width) as u32,
        }
    } else if width > FILL_ASPECT_LIMIT * height {
        CropRegion {
            x: ((width - FILL_ASPECT_LIMIT * height) / 2) as u32,
            y: 0,
            width: (FILL_ASPECT_LIMIT * height) as u32,
            height: height as u32,
        }
    } else {
        CropRegion { x: 0, y: 0, width: width as u32, height: height as u32 }
    }
}

/// Finds the part of a frame that is scaled to fill the thumbnail: see
/// `spec_fill_window`.
pub fn fill_window(width: u32, height: u32) -> (r: CropRegion)
    ensures
        r == spec_fill_window(width as int, height as int),
        r.x + r.width <= width,
        r.y + r.height <= height,
        r.height <= FILL_ASPECT_LIMIT * r.width,
        r.width <= FILL_ASPECT_LIMIT * r.height,
        width > 0 && height > 0 ==> r.width > 0 && r.height > 0,
{
    let w: u64 = width as u64;
    let h: u64 = height as u64;
    if h > 16 * w {
        CropRegion { x: 0, y: ((h - 16 * w) / 2) as u32, width, height: (16 * w) as u32 }
    } else if w > 16 * h {
        CropRegion { x: ((w - 16 * h) / 2) as u32, y: 0, width: (16 * h) as u32, height }
    } else {
        CropRegion { x: 0, y: 0, width, height }
    }
}

/// `a * b / c`, rounded up.
pub open spec fn scaled_up(a: int, b: int, c: int) -> int {
    (a * b + c - 1) / c
}

/// The plan for the preview of a `width` by `height` frame. A frame no wider
/// than 4096 and no higher than 2160 is kept. Any other is scaled with its
/// aspect kept: one higher than wide to a height of 2160, any other to a width
/// of 4096.
pub open spec fn spec_plan_preview(width: int, height: int) -> PreviewPlan {
    if width > PREVIEW_MAX_WIDTH || height > PREVIEW_MAX_HEIGHT {
        if height > width {
            PreviewPlan::Resize {
                width: scaled_up(PREVIEW_MAX_HEIGHT as int, width, height) as u32,
                height: PREVIEW_MAX_HEIGHT,
            }
        } else {
            PreviewPlan::Resize {
                width: PREVIEW_MAX_WIDTH,
                height: scaled_up(PREVIEW_MAX_WIDTH as int, height, width) as u32,
            }
        }
    } else {
        PreviewPlan::Keep
    }
}

/// Plans the preview of an upright frame.
pub fn plan_preview(width: u32, height: u32) -> (plan: PreviewPlan)
    ensures
        plan == spec_plan_preview(width as int, height as int),
{
    if width > PREVIEW_MAX_WIDTH || height > PREVIEW_MAX_HEIGHT {
        let w: u64 = width as u64;
        let h: u64 = height as u64;
        if height > width {
            assert(2160 * w <= 2160 * h);
            let scaled: u64 = (2160 * w + h - 1) / h;
            assert(scaled <= 2160) by (nonlinear_arith)
                requires
                    scaled == (2160 * w + h - 1) / (h as int),
                    w < h,
                    0 <= w,
            ;
            PreviewPlan::Resize { width: scaled as u32, height: PREVIEW_MAX_HEIGHT }
        } else {
            let scaled: u64 = (4096 * h + w - 1) / w;
            assert(scaled <= 4096) by (nonlinear_arith)
                requires
                    scaled == (4096 * h + w - 1) / (w as int),
                    h <= w,
                    0 < w,
                    0 <= h,
            ;
            PreviewPlan::Resize { width: PREVIEW_MAX_WIDTH, height: scaled as u32 }
        }
    } else {
        PreviewPlan::Keep
    }
}

/// A planned preview is no wider than 4096 and, where the frame is higher than
/// wide, no higher than 2160; the side that is computed is the other side's
/// share of the frame, rounded up.
pub proof fn lemma_preview_bounds(width: int, height: int)
    requires
        0 <= width <= u32::MAX,
        0 <= height <= u32::MAX,
    ensures
        match spec_plan_preview(width, height) {
            PreviewPlan::Keep => width <= PREVIEW_MAX_WIDTH && height <= PREVIEW_MAX_HEIGHT,
            PreviewPlan::Resize { width: w, height: h } => {
                &&& w <= PREVIEW_MAX_WIDTH
                &&& h <= PREVIEW_MAX_WIDTH
                &&& height > width ==> h == PREVIEW_MAX_HEIGHT && w <= PREVIEW_MAX_HEIGHT
                &&& height <= width ==> w == PREVIEW_MAX_WIDTH
            },
        },
{
    if width > PREVIEW_MAX_WIDTH || height > PREVIEW_MAX_HEIGHT {
        if height > width {
            assert(0 <= (2160 * width + height - 1) / height <= 2160) by (nonlinear_arith)
                requires
                    0 <= width < height,
            ;
        } else {
            assert(0 <= (4096 * height + width - 1) / width <= 4096) by (nonlinear_arith)
                requires
                    0 <= height <= width,
                    0 < width,
            ;
        }
    }
}

/// The planned preview of a frame with pixels has pixels, and that of a
/// frame without has none.
pub proof fn lemma_preview_has_pixels(width: int, height: int)
    requires
        0 <= width <= u32::MAX,
        0 <= height <= u32::MAX,
    ensures
        match spec_plan_preview(width, height) {
            PreviewPlan::Keep => true,
            PreviewPlan::Resize { width: w, height: h } => {
                &&& width > 0 && height > 0 ==> w >= 1 && h >= 1
                &&& width == 0 || height == 0 ==> w == 0 || h == 0
            },
        },
{
    lemma_preview_bounds(width, height);
    if width > PREVIEW_MAX_WIDTH || height > PREVIEW_MAX_HEIGHT {
        if height > width {
            let w = (2160 * width + height - 1) / height;
            assert(scaled_up(PREVIEW_MAX_HEIGHT as int, width, height) == w);
            assert(0 <= w <= 2160) by (nonlinear_arith)
                requires
                    w == (2160 * width + height - 1) / height,
                    0 <= width < height,
            ;
            if width > 0 {
                assert(w >= 1) by (nonlinear_arith)
                    requires
                        w == (2160 * width + height - 1) / height,
                        0 < width < height,
                ;
            } else {
                assert(w == 0) by (nonlinear_arith)
                    requires
                        w == (2160 * width + height - 1) / height,
                        width == 0,
                        0 < height,
                ;
            }
        } else {
            let h = (4096 * height + width - 1) / width;
            assert(scaled_up(PREVIEW_MAX_WIDTH as int, height, width) == h);
            assert(0 <= h <= 4096) by (nonlinear_arith)
                requires
                    h == (4096 * height + width - 1) / width,
                    0 <= height <= width,
                    0 < width,
            ;
            if height > 0 {
                assert(h >= 1) by (nonlinear_arith)
                    requires
                        h == (4096 * height + width - 1) / width,
                        0 < height <= width,
                ;
            } else {
                assert(h == 0) by (nonlinear_arith)
                    requires
                        h == (4096 * height + width - 1) / width,
                        height == 0,
                        0 < width,
                ;
            }
        }
    }
}

} // verus!
