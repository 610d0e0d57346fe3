use media_ingest::crop::CropRegion;
use media_ingest::frame::Frame;
use media_ingest::metadata::{rotated_dimensions, Rotate};

fn marker(width: u32, height: u32) -> Frame {
    let mut data = Vec::new();
    for i in 0..(width * height * 3) {
        data.push((i * 7 % 251) as u8);
    }
    Frame::from_raw(width, height, data).unwrap()
}

fn pixel(frame: &Frame, x: u32, y: u32) -> (u8, u8, u8) {
    let i = ((y * frame.width() + x) * 3) as usize;
    let p = frame.pixels();
    (p[i], p[i + 1], p[i + 2])
}

#[test]
fn frame_needs_a_byte_for_each_channel_of_each_pixel() {
    assert!(Frame::from_raw(2, 2, vec![0; 11]).is_none());
    let exact = Frame::from_raw(2, 2, vec![1; 12]).unwrap();
    assert_eq!((exact.width(), exact.height(), exact.pixels().len()), (2, 2, 12));
    let longer = Frame::from_raw(2, 2, vec![1; 20]).unwrap();
    assert_eq!(longer.pixels().len(), 12);
    assert!(Frame::from_raw(u32::MAX, u32::MAX, vec![0; 12]).is_none());
    assert_eq!(Frame::from_raw(0, 5, vec![]).unwrap().pixels().len(), 0);
}

#[test]
fn quarter_turn_clockwise_moves_the_left_column_to_the_top_row() {
    let f = marker(3, 2);
    let r = f.rotate(Rotate::Cw90);
    assert_eq!((r.width(), r.height()), (2, 3));
    assert_eq!(pixel(&r, 0, 0), pixel(&f, 0, 1));
    assert_eq!(pixel(&r, 1, 0), pixel(&f, 0, 0));
    assert_eq!(pixel(&r, 0, 1), pixel(&f, 1, 1));
    assert_eq!(pixel(&r, 1, 1), pixel(&f, 1, 0));
    assert_eq!(pixel(&r, 0, 2), pixel(&f, 2, 1));
    assert_eq!(pixel(&r, 1, 2), pixel(&f, 2, 0));
}

#[test]
fn four_quarter_turns_bring_back_the_frame() {
    let f = marker(5, 3);
    let once = f.rotate(Rotate::Cw90);
    let back = once.rotate(Rotate::Cw90).rotate(Rotate::Cw90).rotate(Rotate::Cw90);
    assert_eq!((back.width(), back.height()), (5, 3));
    assert_eq!(back.pixels(), f.pixels());
    assert_ne!(once.pixels(), f.pixels());
}

#[test]
fn single_quarter_turn_swaps_width_and_height() {
    let f = marker(4, 3);
    for turn in [Rotate::Cw90, Rotate::Ccw90] {
        let r = f.rotate(turn);
        assert_eq!((r.width(), r.height()), (3, 4));
    }
    for turn in [Rotate::Zero, Rotate::Cw180] {
        let r = f.rotate(turn);
        assert_eq!((r.width(), r.height()), (4, 3));
    }
    assert_eq!(rotated_dimensions(4000, 3000, Rotate::Cw90), (3000, 4000));
    assert_eq!(rotated_dimensions(4000, 3000, Rotate::Ccw90), (3000, 4000));
    assert_eq!(rotated_dimensions(4000, 3000, Rotate::Cw180), (4000, 3000));
    assert_eq!(rotated_dimensions(4000, 3000, Rotate::Zero), (4000, 3000));
}

#[test]
fn turns_agree_with_the_image_crate() {
    let f = marker(7, 4);
    let source = image::RgbImage::from_raw(7, 4, f.pixels().clone()).unwrap();
    assert_eq!(f.rotate(Rotate::Zero).pixels(), f.pixels());
    assert_eq!(f.rotate(Rotate::Cw90).pixels(), &image::imageops::rotate90(&source).into_raw());
    assert_eq!(f.rotate(Rotate::Cw180).pixels(), &image::imageops::rotate180(&source).into_raw());
    assert_eq!(f.rotate(Rotate::Ccw90).pixels(), &image::imageops::rotate270(&source).into_raw());
}

#[test]
fn half_turn_twice_and_opposite_quarter_turns_cancel() {
    let f = marker(6, 5);
    assert_eq!(f.rotate(Rotate::Cw180).rotate(Rotate::Cw180).pixels(), f.pixels());
    assert_eq!(f.rotate(Rotate::Cw90).rotate(Rotate::Ccw90).pixels(), f.pixels());
    assert_eq!(
        f.rotate(Rotate::Cw90).rotate(Rotate::Cw90).pixels(),
        f.rotate(Rotate::Cw180).pixels()
    );
}

#[test]
fn crop_cuts_the_region_and_holds_it_in_the_frame() {
    let f = marker(6, 4);
    let c = f.crop(CropRegion { x: 2, y: 1, width: 3, height: 2 });
    assert_eq!((c.width(), c.height()), (3, 2));
    assert_eq!(pixel(&c, 0, 0), pixel(&f, 2, 1));
    assert_eq!(pixel(&c, 2, 1), pixel(&f, 4, 2));
    // A region that runs over the far edges is cut to what lies in the frame.
    let over = f.crop(CropRegion { x: 4, y: 3, width: 10, height: 10 });
    assert_eq!((over.width(), over.height()), (2, 1));
    assert_eq!(pixel(&over, 1, 0), pixel(&f, 5, 3));
    let outside = f.crop(CropRegion { x: 60, y: 0, width: 3, height: 2 });
    assert_eq!((outside.width(), outside.height()), (0, 2));
    assert_eq!(outside.pixels().len(), 0);
}

#[test]
fn crop_agrees_with_the_image_crate() {
    let f = marker(9, 7);
    let source = image::RgbImage::from_raw(9, 7, f.pixels().clone()).unwrap();
    let cut = image::imageops::crop_imm(&source, 3, 2, 20, 4).to_image();
    let c = f.crop(CropRegion { x: 3, y: 2, width: 20, height: 4 });
    assert_eq!((c.width(), c.height()), (cut.width(), cut.height()));
    assert_eq!(c.pixels(), &cut.into_raw());
}

#[test]
fn bgr_exchanges_red_and_blue() {
    let f = Frame::from_raw(2, 1, vec![1, 2, 3, 4, 5, 6]).unwrap();
    assert_eq!(f.bgr(), vec![3, 2, 1, 6, 5, 4]);
}
