use image::ImageEncoder;
use media_ingest::coord::Coordinates;
use media_ingest::extract::{
    override_dimensions, simple_metadata_from_image, simple_metadata_from_raw_image, RAW_MIN_HEIGHT, RAW_MIN_WIDTH,
};
use media_ingest::metadata::{
    ExtractError, ImageMetadata, Metadata, Rotate, TypeSpecific, VideoMetadata,
};

fn entry(out: &mut Vec<u8>, tag: u16, kind: u16, count: u32, value: [u8; 4]) {
    out.extend_from_slice(&tag.to_le_bytes());
    out.extend_from_slice(&kind.to_le_bytes());
    out.extend_from_slice(&count.to_le_bytes());
    out.extend_from_slice(&value);
}

/// Tags of a picture turned by a quarter and taken at 59 degrees north.
fn tags(with_dimensions: Option<(u32, u32)>) -> Vec<u8> {
    let mut out: Vec<u8> = vec![b'I', b'I', 42, 0, 8, 0, 0, 0];
    let entries: u16 = if with_dimensions.is_some() { 4 } else { 2 };
    let gps_at: u32 = 8 + 2 + 12 * entries as u32 + 4;
    out.extend_from_slice(&entries.to_le_bytes());
    if let Some((width, length)) = with_dimensions {
        entry(&mut out, 0x0100, 4, 1, width.to_le_bytes());
        entry(&mut out, 0x0101, 4, 1, length.to_le_bytes());
    }
    entry(&mut out, 0x0112, 3, 1, [6, 0, 0, 0]);
    entry(&mut out, 0x8825, 4, 1, gps_at.to_le_bytes());
    out.extend_from_slice(&0u32.to_le_bytes());
    let lat_at: u32 = gps_at + 2 + 12 * 4 + 4;
    let lon_at: u32 = lat_at + 24;
    out.extend_from_slice(&4u16.to_le_bytes());
    entry(&mut out, 1, 2, 2, [b'N', 0, 0, 0]);
    entry(&mut out, 2, 5, 3, lat_at.to_le_bytes());
    entry(&mut out, 3, 2, 2, [b'E', 0, 0, 0]);
    entry(&mut out, 4, 5, 3, lon_at.to_le_bytes());
    out.extend_from_slice(&0u32.to_le_bytes());
    for (num, denom) in [(59u32, 1u32), (0, 1), (0, 1), (18, 1), (0, 1), (0, 1)] {
        out.extend_from_slice(&num.to_le_bytes());
        out.extend_from_slice(&denom.to_le_bytes());
    }
    out
}

fn jpeg(width: u32, height: u32, exif: Option<Vec<u8>>) -> Vec<u8> {
    let mut out = Vec::new();
    let mut encoder = image::codecs::jpeg::JpegEncoder::new_with_quality(&mut out, 80);
    if let Some(block) = exif {
        encoder.set_exif_metadata(block).unwrap();
    }
    let data = vec![128u8; (width * height * 3) as usize];
    encoder.write_image(&data, width, height, image::ExtendedColorType::Rgb8).unwrap();
    out
}

fn no_image_fields() -> TypeSpecific {
    TypeSpecific::Image(ImageMetadata {
        exposure_time: None,
        aperture: None,
        iso: None,
        flash: None,
    })
}

#[test]
fn jpeg_turned_by_a_quarter_taken_up_north() {
    let bytes = jpeg(40, 30, Some(tags(Some((4000, 3000)))));
    let m = Metadata::from_file("IMG_0001.jpg", &bytes).unwrap();
    assert_eq!(m.rotation, Some(Rotate::Cw90));
    assert_eq!(m.gps_location, Some(Coordinates { latitude: 59_000_000, longitude: 18_000_000 }));
    assert_eq!((m.width, m.height), (4000, 3000));
    assert_eq!(m.date_time, None);
    assert_eq!(m.type_specific, no_image_fields());
}

#[test]
fn image_without_tags_has_only_its_dimensions() {
    let m = Metadata::from_file("plain.jpeg", &jpeg(40, 30, None)).unwrap();
    assert_eq!(m, Metadata::bare(40, 30));
    assert_eq!(simple_metadata_from_image(&jpeg(17, 9, None)), Ok(Metadata::bare(17, 9)));
}

#[test]
fn image_with_tags_but_no_dimensions_falls_back_to_its_header() {
    let bytes = jpeg(40, 30, Some(tags(None)));
    let m = Metadata::from_file("a.JPG", &bytes).unwrap();
    assert_eq!(m, Metadata::bare(40, 30));
    assert_eq!(m.rotation, None);
}

#[test]
fn bare_metadata_holds_dimensions_only() {
    let m = Metadata::bare(640, 480);
    assert_eq!((m.width, m.height), (640, 480));
    assert_eq!((m.date_time, m.gps_location, m.rotation), (None, None, None));
    assert_eq!(m.type_specific, no_image_fields());
}

#[test]
fn image_that_cannot_be_read_gives_no_metadata() {
    assert_eq!(Metadata::from_file("a.png", b"junk"), Err(ExtractError::Undecodable));
    assert_eq!(simple_metadata_from_image(b""), Err(ExtractError::Undecodable));
    assert_eq!(simple_metadata_from_raw_image(b"junk"), Err(ExtractError::Undecodable));
    assert_eq!(Metadata::from_file("a.nef", b"junk"), Err(ExtractError::Undecodable));
}

#[test]
fn file_of_unknown_format_gives_no_metadata() {
    assert_eq!(Metadata::from_file("a.gif", &jpeg(4, 4, None)), Err(ExtractError::UnknownFormat));
    assert_eq!(Metadata::from_file("", b""), Err(ExtractError::UnknownFormat));
}

#[test]
fn small_dimensions_of_a_raw_image_are_not_believed() {
    assert_eq!((RAW_MIN_WIDTH, RAW_MIN_HEIGHT), (600, 400));
    let small = Metadata::bare(320, 240);
    assert!(small.needs_true_dimensions());
    assert!(Metadata::bare(599, 4000).needs_true_dimensions());
    assert!(Metadata::bare(6000, 399).needs_true_dimensions());
    assert!(!Metadata::bare(600, 400).needs_true_dimensions());
    assert!(!Metadata::bare(6000, 4000).needs_true_dimensions());
}

#[test]
fn dimensions_of_a_raw_image_are_overridden_and_nothing_else() {
    let primary = Metadata {
        width: 320,
        height: 240,
        date_time: Some(1_577_934_245),
        gps_location: Some(Coordinates { latitude: 1, longitude: 2 }),
        rotation: Some(Rotate::Cw180),
        type_specific: no_image_fields(),
    };
    assert!(primary.needs_true_dimensions());
    let settled = primary.with_dimensions(6000, 4000);
    assert_eq!((settled.width, settled.height), (6000, 4000));
    assert_eq!(settled.date_time, primary.date_time);
    assert_eq!(settled.gps_location, primary.gps_location);
    assert_eq!(settled.rotation, primary.rotation);
    assert_eq!(settled.type_specific, primary.type_specific);
}

#[test]
fn raw_file_with_small_tag_dimensions_needs_its_sensor_image() {
    // The tags say 320 by 240, so the sensor image is asked; these bytes hold
    // none, and the extraction fails instead of believing the tags.
    let block = tags(Some((320, 240)));
    assert_eq!(Metadata::from_file("shot.dng", &block), Err(ExtractError::Undecodable));
    // Tags that say enough are believed without the sensor image.
    let m = Metadata::from_file("shot.dng", &tags(Some((6000, 4000)))).unwrap();
    assert_eq!((m.width, m.height), (6000, 4000));
    assert_eq!(m.rotation, Some(Rotate::Cw90));
}

#[test]
fn video_is_described_by_the_probing_tool() {
    let json = br#"{"streams": [{"codec_type": "video", "width": 1280, "height": 720}],
        "format": {"duration": "4.25"}}"#;
    let m = Metadata::from_file("clip.mp4", json).unwrap();
    assert_eq!((m.width, m.height), (1280, 720));
    assert_eq!(
        m.type_specific,
        TypeSpecific::Video(VideoMetadata { duration: 4_250_000, framerate: None })
    );
    assert_eq!(Metadata::from_file("clip.mov", b"oops"), Err(ExtractError::MalformedProbe));
}

#[test]
fn raw_dimensions_below_the_threshold_are_overridden_by_the_sensor_image() {
    let primary = Metadata {
        width: 320,
        height: 240,
        date_time: Some(7),
        gps_location: None,
        rotation: Some(Rotate::Cw90),
        type_specific: no_image_fields(),
    };
    assert!(primary.needs_true_dimensions());
    let settled = override_dimensions(&primary, Ok(Metadata::bare(6000, 4000))).unwrap();
    assert_eq!((settled.width, settled.height), (6000, 4000));
    assert_eq!((settled.date_time, settled.rotation), (Some(7), Some(Rotate::Cw90)));
    assert_eq!(
        override_dimensions(&primary, Err(ExtractError::Undecodable)),
        Err(ExtractError::Undecodable)
    );
}
