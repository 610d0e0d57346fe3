use vstd::prelude::*;
use vstd::arithmetic::div_mod::{lemma_fundamental_div_mod_converse, lemma_multiply_divide_lt};
use crate::crop::CropRegion;
use crate::metadata::Rotate;

verus! {

/// A decoded picture: rows of pixels from the top, each pixel three bytes, red,
/// green and blue.
#[derive(Debug, PartialEq, Eq)]
pub struct Frame {
    width: u32,
    height: u32,
    data: Vec<u8>,
}

/// What a frame is: its sides and its bytes.
pub struct FrameView {
    pub width: nat,
    pub height: nat,
    pub pixels: Seq<u8>,
}

/// Position among the bytes of channel `c` of the pixel in column `x` of row
/// `y`, in a frame `width` pixels wide.
pub open spec fn flat(width: int, x: int, y: int, c: int) -> int {
    (y * width + x) * 3 + c
}

/// Column, row and channel of the byte at position `i`.
pub open spec fn coords(width: int, i: int) -> (int, int, int) {
    ((i / 3) % width, (i / 3) / width, i % 3)
}

/// Column and row, in a frame of `width` by `height`, of the pixel that a turn
/// brings to column `x` and row `y`.
pub open spec fn source_of(rotation: Rotate, width: int, height: int, x: int, y: int) -> (int, int) {
    match rotation {
        Rotate::Zero => (x, y),
        Rotate::Cw90 => (y, height - 1 - x),
        Rotate::Cw180 => (width - 1 - x, height - 1 - y),
        Rotate::Ccw90 => (width - 1 - y, x),
    }
}

impl FrameView {
    /// There is a byte for each channel of each pixel, and none more.
    pub open spec fn wf(self) -> bool {
        self.pixels.len() == self.width * self.height * 3
    }

    pub open spec fn at(self, x: int, y: int, c: int) -> u8 {
        self.pixels[flat(self.width as int, x, y, c)]
    }

    /// The frame turned: a quarter turn exchanges the sides, and each pixel
    /// comes from where the turn takes it from.
    pub open spec fn rotated(self, rotation: Rotate) -> FrameView {
        let width = if rotation.spec_swaps_sides() {
            self.height
        } else {
            self.width
        };
        let height = if rotation.spec_swaps_sides() {
            self.width
        } else {
            self.height
        };
        FrameView {
            width,
            height,
            pixels: Seq::new(
                self.pixels.len(),
                |i: int|
                    {
                        let (x, y, c) = coords(width as int, i);
                        let (sx, sy) = source_of(
                            rotation,
                            self.width as int,
                            self.height as int,
                            x,
                            y,
                        );
                        self.at(sx, sy, c)
                    },
            ),
        }
    }

    /// The part of a crop region that lies in the frame: the origin is moved
    /// onto the far edges where it lies beyond them, and the sides are cut to
    /// what is left from there.
    pub open spec fn clamped(self, region: CropRegion) -> CropRegion {
        let x = if region.x as nat > self.width {
            self.width
        } else {
            region.x as nat
        };
        let y = if region.y as nat > self.height {
            self.height
        } else {
            region.y as nat
        };
        let width = if region.width as nat > self.width - x {
            (self.width - x) as nat
        } else {
            region.width as nat
        };
        let height = if region.height as nat > self.height - y {
            (self.height - y) as nat
        } else {
            region.height as nat
        };
        CropRegion { x: x as u32, y: y as u32, width: width as u32, height: height as u32 }
    }

    /// The frame cut to the part of a region that lies in it.
    pub open spec fn cropped(self, region: CropRegion) -> FrameView {
        let r = self.clamped(region);
        FrameView {
            width: r.width as nat,
            height: r.height as nat,
            pixels: Seq::new(
                (r.width * r.height * 3) as nat,
                |i: int|
                    {
                        let (x, y, c) = coords(r.width as int, i);
                        self.at(r.x + x, r.y + y, c)
                    },
            ),
        }
    }

    /// The bytes with the first and the third channel of each pixel exchanged.
    pub open spec fn bgr(self) -> Seq<u8> {
        Seq::new(self.pixels.len(), |i: int| self.pixels[i - i % 3 + (2 - i % 3)])
    }
}

/// A position among the bytes names the pixel and channel that `coords` gives.
pub proof fn lemma_flat_of_coords(width: int, i: int)
    requires
        0 < width,
        0 <= i,
    ensures
        ({
            let (x, y, c) = coords(width, i);
            flat(width, x, y, c) == i && 0 <= x < width && 0 <= y && 0 <= c < 3
        }),
{
    let p = i / 3;
    assert(p == (p / width) * width + p % width) by (nonlinear_arith)
        requires
            0 < width,
    ;
    assert(0 <= p % width < width && 0 <= p / width) by (nonlinear_arith)
        requires
            0 < width,
            0 <= p,
    ;
}

/// `coords` gives back the pixel and channel that a position was made of.
pub proof fn lemma_coords_of_flat(width: int, x: int, y: int, c: int)
    requires
        0 <= x < width,
        0 <= y,
        0 <= c < 3,
    ensures
        coords(width, flat(width, x, y, c)) == (x, y, c),
        0 <= flat(width, x, y, c),
{
    let p = y * width + x;
    assert(0 <= y * width) by (nonlinear_arith)
        requires
            0 <= y,
            0 < width,
    ;
    lemma_fundamental_div_mod_converse(p * 3 + c, 3, p, c);
    lemma_fundamental_div_mod_converse(p, width, y, x);
}

/// The bytes of a pixel of the frame lie among the frame's bytes.
pub proof fn lemma_flat_in_bounds(width: int, height: int, x: int, y: int, c: int)
    by (nonlinear_arith)
    requires
        0 <= x < width,
        0 <= y < height,
        0 <= c < 3,
    ensures
        0 <= (y * width + x) * 3 + c < width * height * 3,
{
}

/// A position among the bytes of a frame names a pixel of the frame.
pub proof fn lemma_coords_in_bounds(width: int, height: int, i: int)
    requires
        0 <= i < width * height * 3,
        0 <= width,
        0 <= height,
    ensures
        0 < width,
        ({
            let (x, y, c) = coords(width, i);
            0 <= x < width && 0 <= y < height && 0 <= c < 3
        }),
{
    assert(0 < width && 0 < height) by (nonlinear_arith)
        requires
            0 <= i < width * height * 3,
            0 <= width,
            0 <= height,
    ;
    lemma_flat_of_coords(width, i);
    assert(i / 3 < width * height);
    lemma_multiply_divide_lt(i / 3, width, height);
}

/// A quarter turn either way exchanges width and height; no turn and a half
/// turn keep them. No turn changes nothing.
pub proof fn lemma_rotated_dimensions(frame: FrameView, rotation: Rotate)
    requires
        frame.wf(),
    ensures
        frame.rotated(rotation).wf(),
        rotation.spec_swaps_sides() ==> frame.rotated(rotation).width == frame.height
            && frame.rotated(rotation).height == frame.width,
        !rotation.spec_swaps_sides() ==> frame.rotated(rotation).width == frame.width
            && frame.rotated(rotation).height == frame.height,
        frame.rotated(Rotate::Zero) == frame,
{
    assert(frame.width * frame.height == frame.height * frame.width) by (nonlinear_arith);
    let same = frame.rotated(Rotate::Zero);
    assert forall|i: int| 0 <= i < frame.pixels.len() implies same.pixels[i] == frame.pixels[i] by {
        lemma_coords_in_bounds(frame.width as int, frame.height as int, i);
        lemma_flat_of_coords(frame.width as int, i);
    }
    assert(same.pixels =~= frame.pixels);
}

/// One turn after another is the turn by the sum of their angles.
pub proof fn lemma_rotated_twice(frame: FrameView, first: Rotate, second: Rotate)
    requires
        frame.wf(),
    ensures
        frame.rotated(first).rotated(second) == frame.rotated(first.spec_then(second)),
{
    let once = frame.rotated(first);
    let twice = once.rotated(second);
    let both = frame.rotated(first.spec_then(second));
    lemma_rotated_dimensions(frame, first);
    lemma_rotated_dimensions(once, second);
    lemma_rotated_dimensions(frame, first.spec_then(second));
    assert(twice.width == both.width && twice.height == both.height);
    assert forall|i: int| 0 <= i < twice.pixels.len() implies twice.pixels[i] == both.pixels[i] by {
        lemma_coords_in_bounds(twice.width as int, twice.height as int, i);
        let (x, y, c) = coords(twice.width as int, i);
        let (sx, sy) = source_of(second, once.width as int, once.height as int, x, y);
        lemma_flat_in_bounds(once.width as int, once.height as int, sx, sy, c);
        lemma_coords_of_flat(once.width as int, sx, sy, c);
        let j = flat(once.width as int, sx, sy, c);
        assert(twice.pixels[i] == once.pixels[j]);
        let (tx, ty) = source_of(first, frame.width as int, frame.height as int, sx, sy);
        assert(once.pixels[j] == frame.at(tx, ty, c));
        assert((tx, ty) == source_of(
            first.spec_then(second),
            frame.width as int,
            frame.height as int,
            x,
            y,
        ));
    }
    assert(twice.pixels =~= both.pixels);
}

/// Four quarter turns clockwise bring back the frame, sides and pixels.
pub proof fn lemma_four_quarter_turns(frame: FrameView)
    requires
        frame.wf(),
    ensures
        frame.rotated(Rotate::Cw90).rotated(Rotate::Cw90).rotated(Rotate::Cw90).rotated(
            Rotate::Cw90,
        ) == frame,
{
    let r1 = frame.rotated(Rotate::Cw90);
    lemma_rotated_dimensions(frame, Rotate::Cw90);
    lemma_rotated_twice(frame, Rotate::Cw90, Rotate::Cw90);
    lemma_rotated_twice(frame, Rotate::Cw180, Rotate::Cw90);
    lemma_rotated_twice(frame, Rotate::Ccw90, Rotate::Cw90);
    lemma_rotated_dimensions(frame, Rotate::Zero);
}

impl View for Frame {
    type V = FrameView;

    closed spec fn view(&self) -> FrameView {
        FrameView { width: self.width as nat, height: self.height as nat, pixels: self.data@ }
    }
}

impl Frame {
    #[verifier::type_invariant]
    spec fn inv(self) -> bool {
        self.data@.len() == self.width * self.height * 3
    }

    /// A frame of `width` by `height` from bytes in row order. Bytes beyond the
    /// last pixel are dropped; with too few bytes there is no frame.
    pub fn from_raw(width: u32, height: u32, data: Vec<u8>) -> (r: Option<Frame>)
        ensures
            r is Some <==> data@.len() >= width * height * 3,
            r is Some ==> r->Some_0@ == (FrameView {
                width: width as nat,
                height: height as nat,
                pixels: data@.take(width * height * 3),
            }),
    {
        assert(width * height * 3 <= 0x3_0000_0000_0000_0000) by (nonlinear_arith)
            requires
                width <= 0xffff_ffff,
                height <= 0xffff_ffff,
        ;
        assert(0 <= width * height) by (nonlinear_arith)
            requires
                0 <= width,
                0 <= height,
        ;
        let need: u128 = (width as u128) * (height as u128) * 3;
        if (data.len() as u128) < need {
            return None;
        }
        let mut data = data;
        data.truncate(need as usize);
        Some(Frame { width, height, data })
    }

    pub fn width(&self) -> (w: u32)
        ensures
            w == self@.width,
    {
        self.width
    }

    pub fn height(&self) -> (h: u32)
        ensures
            h == self@.height,
    {
        self.height
    }

    /// The bytes of the frame, in row order.
    pub fn pixels(&self) -> (data: &Vec<u8>)
        ensures
            data@ == self@.pixels,
            self@.wf(),
    {
        proof {
            use_type_invariant(self);
        }
        &self.data
    }

    /// The frame turned upright: see `FrameView::rotated`.
    pub fn rotate(&self, rotation: Rotate) -> (r: Frame)
        ensures
            r@ == self@.rotated(rotation),
    {
        proof {
            use_type_invariant(self);
        }
        let w: usize = self.width as usize;
        let h: usize = self.height as usize;
        let swaps = rotation.swaps_sides();
        let (width, height) = if swaps {
            (self.height, self.width)
        } else {
            (self.width, self.height)
        };
        let w2: usize = width as usize;
        let n: usize = self.data.len();
        assert(w * h == h * w) by (nonlinear_arith);
        let mut out: Vec<u8> = Vec::with_capacity(n);
        let mut i: usize = 0;
        while i < n
            invariant
                i <= n,
                n == self.data@.len(),
                n == w * h * 3,
                n == w2 * height * 3,
                w == self.width,
                h == self.height,
                w2 == width,
                width == self@.rotated(rotation).width,
                height == self@.rotated(rotation).height,
                swaps == rotation.spec_swaps_sides(),
                out@.len() == i,
                forall|j: int| 0 <= j < i ==> out@[j] == self@.rotated(rotation).pixels[j],
            decreases n - i,
        {
            proof {
                lemma_coords_in_bounds(w2 as int, height as int, i as int);
            }
            let c: usize = i % 3;
            let p: usize = i / 3;
            let x: usize = p % w2;
            let y: usize = p / w2;
            let (sx, sy) = match rotation {
                Rotate::Zero => (x, y),
                Rotate::Cw90 => (y, h - 1 - x),
                Rotate::Cw180 => (w - 1 - x, h - 1 - y),
                Rotate::Ccw90 => (w - 1 - y, x),
            };
            proof {
                lemma_flat_in_bounds(w as int, h as int, sx as int, sy as int, c as int);
                assert(0 <= sy * w <= (sy * w + sx) * 3 + c) by (nonlinear_arith)
                    requires
                        0 <= sy,
                        0 <= w,
                        0 <= sx,
                        0 <= c,
                ;
            }
            out.push(self.data[(sy * w + sx) * 3 + c]);
            i += 1;
        }
        assert(out@ =~= self@.rotated(rotation).pixels);
        Frame { width, height, data: out }
    }

    /// The frame cut to a region: see `FrameView::cropped`.
    pub fn crop(&self, region: CropRegion) -> (r: Frame)
        ensures
            r@ == self@.cropped(region),
    {
        proof {
            use_type_invariant(self);
        }
        let x0: u32 = if region.x > self.width {
            self.width
        } else {
            region.x
        };
        let y0: u32 = if region.y > self.height {
            self.height
        } else {
            region.y
        };
        let width: u32 = if region.width > self.width - x0 {
            self.width - x0
        } else {
            region.width
        };
        let height: u32 = if region.height > self.height - y0 {
            self.height - y0
        } else {
            region.height
        };
        let ghost r = self@.clamped(region);
        assert(r == (CropRegion { x: x0, y: y0, width, height }));
        let w: usize = self.width as usize;
        let w2: usize = width as usize;
        assert(width * height * 3 <= self.width * self.height * 3) by (nonlinear_arith)
            requires
                0 <= width <= self.width,
                0 <= height <= self.height,
        ;
        assert(0 <= width * height) by (nonlinear_arith)
            requires
                0 <= width,
                0 <= height,
        ;
        let total: usize = self.data.len();
        let n: usize = w2 * (height as usize) * 3;
        let mut out: Vec<u8> = Vec::with_capacity(n);
        let mut i: usize = 0;
        while i < n
            invariant
                i <= n,
                n == w2 * height * 3,
                total == w * self.height * 3,
                total == self.data@.len(),
                w == self.width,
                w2 == width,
                x0 + width <= self.width,
                y0 + height <= self.height,
                r == (CropRegion { x: x0, y: y0, width, height }),
                r == self@.clamped(region),
                out@.len() == i,
                forall|j: int| 0 <= j < i ==> out@[j] == self@.cropped(region).pixels[j],
            decreases n - i,
        {
            proof {
                lemma_coords_in_bounds(w2 as int, height as int, i as int);
            }
            let c: usize = i % 3;
            let p: usize = i / 3;
            let x: usize = p % w2;
            let y: usize = p / w2;
            let sx: usize = x0 as usize + x;
            let sy: usize = y0 as usize + y;
            proof {
                lemma_flat_in_bounds(w as int, self.height as int, sx as int, sy as int, c as int);
                assert(0 <= sy * w <= (sy * w + sx) * 3 + c) by (nonlinear_arith)
                    requires
                        0 <= sy,
                        0 <= w,
                        0 <= sx,
                        0 <= c,
                ;
            }
            out.push(self.data[(sy * w + sx) * 3 + c]);
            i += 1;
        }
        assert(out@ =~= self@.cropped(region).pixels);
        Frame { width, height, data: out }
    }

    /// The bytes of the frame with each pixel's channels in the order blue,
    /// green, red.
    pub fn bgr(&self) -> (out: Vec<u8>)
        ensures
            out@ == self@.bgr(),
    {
        proof {
            use_type_invariant(self);
        }
        let n: usize = self.data.len();
        let mut out: Vec<u8> = Vec::with_capacity(n);
        let mut i: usize = 0;
        assert(n % 3 == 0) by (nonlinear_arith)
            requires
                n == self.width * self.height * 3,
        ;
        while i < n
            invariant
                i <= n,
                n == self.data@.len(),
                n % 3 == 0,
                out@.len() == i,
                forall|j: int| 0 <= j < i ==> out@[j] == self@.bgr()[j],
            decreases n - i,
        {
            let c: usize = i % 3;
            out.push(self.data[i - c + (2 - c)]);
            i += 1;
        }
        assert(out@ =~= self@.bgr());
        out
    }
}

} // verus!
