use vstd::prelude::*;
use crate::capture::{exif_parse, exif_uint, parsed_exif, tag_orientation, uint_at, TagGroup, TagId};
use crate::codec::{
    decode_rgb, decoded_sides, develop_raw, encode_jpeg_rgb, jpeg_encoded, resize_exact_rgb,
    resize_to_fill_rgb, ResampleFilter,
};
use crate::crop::{
    fill_window, lemma_preview_bounds, lemma_preview_has_pixels, plan_crop, plan_preview, spec_plan_crop, spec_plan_preview, Bbox,
    CropPlan, PreviewPlan, THUMBNAIL_HEIGHT, THUMBNAIL_WIDTH,
};
use crate::error::{Error, ErrorKind};
use crate::format::{file_type_from_path, final_component, spec_file_type, MediaType};
use crate::frame::{lemma_rotated_dimensions, Frame, FrameView};
use crate::paths::{
    is_upload_set, spec_original_path, spec_preview_path, spec_thumbnail_path, ArtifactSet,
};
use crate::metadata::{find_orientation, spec_orientation, Metadata, Rotate, TypeSpecific};

verus! {

/// The quality at which thumbnails and previews are encoded.
pub const JPEG_QUALITY: u8 = 75;

/// The filter by which thumbnails and previews are resampled: a cubic one.
pub const RENDER_FILTER: ResampleFilter = ResampleFilter::CatmullRom;

/// The frame that sides and bytes make, where the sides are the expected ones
/// and there is a byte for each channel of each pixel.
pub open spec fn accepted(parts: (u32, u32, Seq<u8>), width: u32, height: u32) -> Result<
    FrameView,
    Error,
> {
    if parts.0 == width && parts.1 == height && parts.2.len() >= width * height * 3 {
        Ok(
            FrameView {
                width: width as nat,
                height: height as nat,
                pixels: parts.2.take(width * height * 3),
            },
        )
    } else {
        Err(Error { kind: ErrorKind::DecodeFailure })
    }
}

/// Whether a result holds the frame, or the error, that a specification names.
pub open spec fn yields(r: Result<Frame, Error>, expected: Result<FrameView, Error>) -> bool {
    match r {
        Ok(frame) => expected == Ok::<FrameView, Error>(frame@),
        Err(e) => expected == Err::<FrameView, Error>(e),
    }
}

/// Makes a frame of what a resampling handed back, if it has the sides that
/// were asked for.
pub fn accept(parts: (u32, u32, Vec<u8>), width: u32, height: u32) -> (r: Result<Frame, Error>)
    ensures
        yields(r, accepted((parts.0, parts.1, parts.2@), width, height)),
{
    if parts.0 != width || parts.1 != height {
        return Err(Error::new(ErrorKind::DecodeFailure));
    }
    match Frame::from_raw(width, height, parts.2) {
        Some(frame) => Ok(frame),
        None => Err(Error::new(ErrorKind::DecodeFailure)),
    }
}

/// The frame that a decoding handed back makes: none where there was no
/// picture, or bytes are missing.
pub open spec fn spec_frame_from_decoded(parts: Option<(u32, u32, Seq<u8>)>) -> Result<
    FrameView,
    Error,
> {
    match parts {
        Some(parts) => accepted(parts, parts.0, parts.1),
        None => Err(Error { kind: ErrorKind::DecodeFailure }),
    }
}

pub open spec fn decoded_view(parts: Option<(u32, u32, Vec<u8>)>) -> Option<(u32, u32, Seq<u8>)> {
    match parts {
        Some(parts) => Some((parts.0, parts.1, parts.2@)),
        None => None,
    }
}

/// Makes a frame of what the decoding of an image file handed back: see
/// `spec_frame_from_decoded`.
pub fn frame_from_decoded(parts: Option<(u32, u32, Vec<u8>)>) -> (r: Result<Frame, Error>)
    ensures
        yields(r, spec_frame_from_decoded(decoded_view(parts))),
{
    match parts {
        Some(parts) => {
            let width = parts.0;
            let height = parts.1;
            accept(parts, width, height)
        },
        None => Err(Error::new(ErrorKind::DecodeFailure)),
    }
}

/// Whether a frame has the sides that the bytes of an image file encode.
pub open spec fn is_decoding_of(frame: FrameView, data: Seq<u8>) -> bool {
    decoded_sides(data) == Some((frame.width as u32, frame.height as u32)) && frame.wf()
}

/// Decodes the bytes of an image file to a frame of the sides that the file
/// encodes. The samples are up to the decoder; bytes that encode no picture
/// give `DecodeFailure`.
pub fn decode_image(data: &[u8]) -> (r: Result<Frame, Error>)
    ensures
        r is Ok <==> decoded_sides(data@) is Some,
        r is Ok ==> is_decoding_of(r->Ok_0@, data@),
        r is Err ==> r->Err_0 == (Error { kind: ErrorKind::DecodeFailure }),
{
    frame_from_decoded(decode_rgb(data))
}

/// The frame that a development handed back makes: none where there was no
/// development, or a side is beyond 32 bits, or bytes are missing.
pub open spec fn spec_frame_from_developed(parts: Option<(usize, usize, Seq<u8>)>) -> Result<
    FrameView,
    Error,
> {
    match parts {
        Some(parts) => if parts.0 <= u32::MAX && parts.1 <= u32::MAX {
            accepted((parts.0 as u32, parts.1 as u32, parts.2), parts.0 as u32, parts.1 as u32)
        } else {
            Err(Error { kind: ErrorKind::DecodeFailure })
        },
        None => Err(Error { kind: ErrorKind::DecodeFailure }),
    }
}

pub open spec fn developed_view(parts: Option<(usize, usize, Vec<u8>)>) -> Option<
    (usize, usize, Seq<u8>),
> {
    match parts {
        Some(parts) => Some((parts.0, parts.1, parts.2@)),
        None => None,
    }
}

/// Makes a frame of what the development of a raw file handed back: see
/// `spec_frame_from_developed`.
pub fn frame_from_developed(parts: Option<(usize, usize, Vec<u8>)>) -> (r: Result<Frame, Error>)
    ensures
        yields(r, spec_frame_from_developed(developed_view(parts))),
{
    match parts {
        Some(parts) => {
            if parts.0 > u32::MAX as usize || parts.1 > u32::MAX as usize {
                return Err(Error::new(ErrorKind::DecodeFailure));
            }
            let width = parts.0 as u32;
            let height = parts.1 as u32;
            accept((width, height, parts.2), width, height)
        },
        None => Err(Error::new(ErrorKind::DecodeFailure)),
    }
}

/// Develops the bytes of a raw file to a frame. What the frame holds is up to
/// the development; bytes that it cannot develop, and a picture that makes no
/// frame, give `DecodeFailure`.
pub fn open_raw_image(data: &[u8]) -> (r: Result<Frame, Error>)
    ensures
        r is Ok ==> r->Ok_0@.wf(),
        r is Err ==> r->Err_0 == (Error { kind: ErrorKind::DecodeFailure }),
{
    frame_from_developed(develop_raw(data))
}

/// The turn that the capture tags of an image file ask for; none where the
/// file has no tags, no orientation or one that names no turn.
pub open spec fn spec_image_rotation(data: Seq<u8>) -> Rotate {
    match parsed_exif(data) {
        Some(block) => match uint_at(block, tag_orientation()) {
            Some(v) => match spec_orientation(v) {
                Some(turn) => turn,
                None => Rotate::Zero,
            },
            None => Rotate::Zero,
        },
        None => Rotate::Zero,
    }
}

pub fn image_rotation(data: &[u8]) -> (r: Rotate)
    ensures
        r == spec_image_rotation(data@),
{
    match exif_parse(data) {
        Some(block) => {
            let value = exif_uint(&block, TagId { group: TagGroup::Tiff, number: 0x112 });
            match find_orientation(value) {
                Some(turn) => turn,
                None => Rotate::Zero,
            }
        },
        None => Rotate::Zero,
    }
}

/// Whether `r` is what opening the file of this name can give. A name of no
/// known format is refused with `UnknownFormat`. An image that encodes a
/// picture is decoded and turned as its tags ask: what comes out is a picture
/// of the sides encoded, turned that way. A raw image is developed and kept as
/// it comes. A video has no frame of its own here, its snapshot comes from
/// the frame decoder: it is refused with `DecodeFailure`, as is a file that
/// cannot be decoded.
pub open spec fn is_upright_of(r: Result<Frame, Error>, name: Seq<char>, data: Seq<u8>) -> bool {
    match spec_file_type(name) {
        None => r is Err && r->Err_0 == (Error { kind: ErrorKind::UnknownFormat }),
        Some(t) => {
            &&& r is Err ==> r->Err_0 == (Error { kind: ErrorKind::DecodeFailure })
            &&& r is Ok ==> r->Ok_0@.wf()
            &&& t.spec_media_type() == MediaType::Video ==> r is Err
            &&& t.spec_media_type() == MediaType::Image ==> (r is Ok <==> decoded_sides(data)
                is Some)
            &&& t.spec_media_type() == MediaType::Image && r is Ok ==> exists|stored: FrameView|
                is_decoding_of(stored, data) && r->Ok_0@ == #[trigger] stored.rotated(
                    spec_image_rotation(data),
                )
        },
    }
}

/// Decodes a still image and turns it upright, before any step that depends
/// on geometry: see `is_upright_of`.
pub fn open_upright(file_name: &str, data: &[u8]) -> (r: Result<Frame, Error>)
    ensures
        is_upright_of(r, file_name@, data@),
{
    let file_type = match file_type_from_path(file_name) {
        Some(t) => t,
        None => {
            return Err(Error::new(ErrorKind::UnknownFormat));
        },
    };
    match file_type.media_type() {
        MediaType::Image => match decode_image(data) {
            Ok(frame) => {
                let rotation = image_rotation(data);
                let upright = frame.rotate(rotation);
                proof {
                    lemma_rotated_dimensions(frame@, rotation);
                }
                Ok(upright)
            },
            Err(e) => Err(e),
        },
        MediaType::RawImage => open_raw_image(data),
        MediaType::Video => Err(Error::new(ErrorKind::DecodeFailure)),
    }
}

/// What is resampled to make the thumbnail of an upright frame in which the
/// detector found `boxes`: the frame cut as planned; `None` where, with no
/// face to keep, the frame is scaled to fill the thumbnail and cut about its
/// centre.
pub open spec fn spec_thumbnail_cut(frame: FrameView, boxes: Seq<Bbox>) -> Option<FrameView> {
    match spec_plan_crop(frame.width as int, frame.height as int, boxes) {
        CropPlan::CenteredFill => None,
        CropPlan::Region(region) => Some(frame.cropped(region)),
    }
}

/// Cuts an upright frame for its thumbnail: see `spec_thumbnail_cut`.
pub fn thumbnail_cut(frame: &Frame, faces: &Vec<Bbox>) -> (r: Option<Frame>)
    ensures
        match r {
            Some(cut) => spec_thumbnail_cut(frame@, faces@) == Some(cut@),
            None => spec_thumbnail_cut(frame@, faces@) is None,
        },
{
    match plan_crop(frame.width(), frame.height(), faces) {
        CropPlan::CenteredFill => None,
        CropPlan::Region(region) => Some(frame.crop(region)),
    }
}

/// Whether a frame has the sides of a thumbnail.
pub open spec fn is_thumbnail(frame: FrameView) -> bool {
    frame.width == THUMBNAIL_WIDTH && frame.height == THUMBNAIL_HEIGHT && frame.wf()
}

/// Renders the thumbnail of an upright frame: the frame cut as planned and
/// resampled with the cubic filter, or, with no face to keep, scaled to fill
/// the thumbnail and cut about its centre; of a very long or very wide frame
/// only the middle is scaled (see `spec_fill_window`). A thumbnail is always
/// 300 pixels wide and 200 high. Only a frame without pixels that would have
/// to be scaled to fill has none: it gives `DecodeFailure`.
pub fn create_thumbnail_image(frame: &Frame, faces: &Vec<Bbox>) -> (r: Result<Frame, Error>)
    ensures
        r is Err <==> spec_thumbnail_cut(frame@, faces@) is None && (frame@.width == 0
            || frame@.height == 0),
        r is Ok ==> is_thumbnail(r->Ok_0@),
        r is Err ==> r->Err_0 == (Error { kind: ErrorKind::DecodeFailure }),
{
    let parts = match thumbnail_cut(frame, faces) {
        None => {
            if frame.width() == 0 || frame.height() == 0 {
                return Err(Error::new(ErrorKind::DecodeFailure));
            }
            let window = fill_window(frame.width(), frame.height());
            if window.width == frame.width() && window.height == frame.height() {
                resize_to_fill_rgb(
                    frame.width(),
                    frame.height(),
                    frame.pixels(),
                    THUMBNAIL_WIDTH,
                    THUMBNAIL_HEIGHT,
                    RENDER_FILTER,
                )
            } else {
                let middle = frame.crop(window);
                assert(frame@.clamped(window) == window);
                resize_to_fill_rgb(
                    middle.width(),
                    middle.height(),
                    middle.pixels(),
                    THUMBNAIL_WIDTH,
                    THUMBNAIL_HEIGHT,
                    RENDER_FILTER,
                )
            }
        },
        Some(cut) => resize_exact_rgb(
            cut.width(),
            cut.height(),
            cut.pixels(),
            THUMBNAIL_WIDTH,
            THUMBNAIL_HEIGHT,
            RENDER_FILTER,
        ),
    };
    accept(parts, THUMBNAIL_WIDTH, THUMBNAIL_HEIGHT)
}

/// Whether a frame can be the preview of an upright frame: the frame itself
/// where it is within bounds, else a frame of the planned size.
pub open spec fn is_preview_of(preview: FrameView, frame: FrameView) -> bool {
    match spec_plan_preview(frame.width as int, frame.height as int) {
        PreviewPlan::Keep => preview == frame,
        PreviewPlan::Resize { width, height } => preview.width == width && preview.height
            == height && preview.wf(),
    }
}

/// Renders the preview of an upright frame, which every frame has. A frame
/// within bounds is its own preview. Any other is resampled with the cubic
/// filter to the planned size.
pub fn create_preview(frame: &Frame) -> (r: Result<Frame, Error>)
    ensures
        r is Ok,
        is_preview_of(r->Ok_0@, frame@),
{
    let data = frame.pixels();
    match plan_preview(frame.width(), frame.height()) {
        PreviewPlan::Keep => {
            let copy = data.clone();
            assert(copy@ == data@);
            assert(data@.take(data@.len() as int) == data@);
            match Frame::from_raw(frame.width(), frame.height(), copy) {
                Some(same) => Ok(same),
                None => Err(Error::new(ErrorKind::DecodeFailure)),
            }
        },
        PreviewPlan::Resize { width, height } => {
            proof {
                lemma_preview_bounds(frame@.width as int, frame@.height as int);
                assert(width * height * 3 <= 0x7fff_ffff) by (nonlinear_arith)
                    requires
                        0 <= width <= 4096,
                        0 <= height <= 4096,
                ;
            }
            let parts = resize_exact_rgb(
                frame.width(),
                frame.height(),
                data,
                width,
                height,
                RENDER_FILTER,
            );
            accept(parts, width, height)
        },
    }
}

/// A frame as a JPEG file at the fixed quality.
pub open spec fn spec_to_jpeg(frame: FrameView) -> Result<Seq<u8>, Error> {
    match jpeg_encoded(frame.width as u32, frame.height as u32, frame.pixels, JPEG_QUALITY) {
        Some(bytes) => Ok(bytes),
        None => Err(Error { kind: ErrorKind::DecodeFailure }),
    }
}

/// Encodes a frame as a JPEG file at the fixed quality. A frame with a side
/// of zero or of more than 65535 pixels, which the encoder refuses, gives
/// `DecodeFailure`.
pub fn to_jpeg(frame: &Frame) -> (r: Result<Vec<u8>, Error>)
    ensures
        match r {
            Ok(bytes) => spec_to_jpeg(frame@) == Ok::<Seq<u8>, Error>(bytes@),
            Err(e) => spec_to_jpeg(frame@) == Err::<Seq<u8>, Error>(e),
        },
        r is Ok <==> (1 <= frame@.width <= 65535 && 1 <= frame@.height <= 65535),
{
    match encode_jpeg_rgb(frame.width(), frame.height(), frame.pixels(), JPEG_QUALITY) {
        Some(bytes) => Ok(bytes),
        None => Err(Error::new(ErrorKind::DecodeFailure)),
    }
}

/// The places of a file's artifacts and the two renditions to write there,
/// each a JPEG file.
#[derive(Clone, Debug, PartialEq, Eq)]
pub struct Artifacts {
    pub paths: ArtifactSet,
    pub thumbnail: Vec<u8>,
    pub preview: Vec<u8>,
}

/// Whether two JPEG files can be the renditions of an upright frame: the
/// thumbnail is the file of a frame of 300 by 200, and the preview is the file
/// of a preview of the frame.
pub open spec fn renditions_of(thumbnail: Seq<u8>, preview: Seq<u8>, upright: FrameView) -> bool {
    &&& exists|frame: FrameView|
        is_preview_of(frame, upright) && #[trigger] spec_to_jpeg(frame) == Ok::<Seq<u8>, Error>(
            preview,
        )
    &&& exists|frame: FrameView|
        is_thumbnail(frame) && #[trigger] spec_to_jpeg(frame) == Ok::<Seq<u8>, Error>(thumbnail)
}

/// Whether artifacts can be those of the upright frame of the file at this
/// path: the places are those of the path's last component, and the
/// renditions are renditions of the frame.
pub open spec fn artifacts_of(artifacts: Artifacts, name: Seq<char>, upright: FrameView) -> bool {
    &&& artifacts.paths.original_path@ == spec_original_path(name)
    &&& artifacts.paths.thumbnail_path@ == spec_thumbnail_path(name)
    &&& artifacts.paths.preview_path@ == spec_preview_path(name)
    &&& renditions_of(artifacts.thumbnail@, artifacts.preview@, upright)
}

/// Whether artifacts can be those of the upright frame of a file that came as
/// bytes under a bare name.
pub open spec fn upload_artifacts_of(artifacts: Artifacts, name: Seq<char>, upright: FrameView) -> bool {
    is_upload_set(artifacts.paths, name) && renditions_of(
        artifacts.thumbnail@,
        artifacts.preview@,
        upright,
    )
}

/// Renders thumbnail and preview of an upright frame, each as a JPEG file. A
/// frame without pixels has neither.
fn render_both(upright: &Frame, faces: &Vec<Bbox>) -> (r: Result<(Vec<u8>, Vec<u8>), Error>)
    ensures
        r is Ok <==> upright@.width > 0 && upright@.height > 0,
        r is Ok ==> renditions_of(r->Ok_0.0@, r->Ok_0.1@, upright@),
        r is Err ==> r->Err_0 == (Error { kind: ErrorKind::DecodeFailure }),
{
    let width = upright.width();
    let height = upright.height();
    proof {
        lemma_preview_bounds(width as int, height as int);
        lemma_preview_has_pixels(width as int, height as int);
    }
    let preview = match create_preview(upright) {
        Ok(frame) => match to_jpeg(&frame) {
            Ok(bytes) => bytes,
            Err(e) => {
                return Err(e);
            },
        },
        Err(e) => {
            return Err(e);
        },
    };
    let thumbnail = match create_thumbnail_image(upright, faces) {
        Ok(frame) => match to_jpeg(&frame) {
            Ok(bytes) => bytes,
            Err(e) => {
                return Err(e);
            },
        },
        Err(e) => {
            return Err(e);
        },
    };
    Ok((thumbnail, preview))
}

/// Renders both renditions of the upright frame of the file at a path, around
/// the faces that the detector found in it, and names the places where they
/// and the copy of the original belong. Nothing is written here. A path
/// without a last component is refused with `IoFailure` before anything is
/// rendered; a frame without pixels, which has no renditions, gives
/// `DecodeFailure`. Every other file has its artifacts.
pub fn copy_and_create_thumbnail(file_name: &str, upright: &Frame, faces: &Vec<Bbox>) -> (r: Result<
    Artifacts,
    Error,
>)
    ensures
        r is Ok <==> final_component(file_name@).len() > 0 && upright@.width > 0
            && upright@.height > 0,
        r is Ok ==> artifacts_of(r->Ok_0, file_name@, upright@),
        final_component(file_name@).len() == 0 ==> r is Err && r->Err_0 == (Error {
            kind: ErrorKind::IoFailure,
        }),
        final_component(file_name@).len() > 0 && r is Err ==> r->Err_0 == (Error {
            kind: ErrorKind::DecodeFailure,
        }),
{
    let paths = match ArtifactSet::for_file(file_name) {
        Ok(p) => p,
        Err(e) => {
            return Err(e);
        },
    };
    match render_both(upright, faces) {
        Ok((thumbnail, preview)) => Ok(Artifacts { paths, thumbnail, preview }),
        Err(e) => Err(e),
    }
}

/// Renders both renditions of the upright frame of a file that came as bytes
/// under a bare name, and names the places where they and the bytes belong:
/// the renditions are filed under the whole name, extension and all. Nothing
/// is written here. An empty name is refused with `IoFailure` before anything
/// is rendered; a frame without pixels gives `DecodeFailure`.
pub fn copy_and_create_thumbnail_bytes(file_name: &str, upright: &Frame, faces: &Vec<Bbox>) -> (r:
    Result<Artifacts, Error>)
    ensures
        r is Ok <==> file_name@.len() > 0 && upright@.width > 0 && upright@.height > 0,
        r is Ok ==> upload_artifacts_of(r->Ok_0, file_name@, upright@),
        file_name@.len() == 0 ==> r is Err && r->Err_0 == (Error { kind: ErrorKind::IoFailure }),
        file_name@.len() > 0 && r is Err ==> r->Err_0 == (Error {
            kind: ErrorKind::DecodeFailure,
        }),
{
    let paths = match ArtifactSet::for_upload(file_name) {
        Ok(p) => p,
        Err(e) => {
            return Err(e);
        },
    };
    match render_both(upright, faces) {
        Ok((thumbnail, preview)) => Ok(Artifacts { paths, thumbnail, preview }),
        Err(e) => Err(e),
    }
}

/// What the frame decoder is asked for and what it hands back is read as:
/// the offset of the frame in millionths of a second, and the sides of the
/// frame as it comes out.
#[derive(Clone, Copy, Debug, PartialEq, Eq, Structural)]
pub struct SnapshotPlan {
    pub skip_to: i64,
    pub width: u32,
    pub height: u32,
}

/// Half of a duration, the fraction of a millionth dropped.
pub open spec fn half_of(duration: i64) -> i64 {
    if duration >= 0 {
        (duration / 2) as i64
    } else {
        (-((-duration) / 2)) as i64
    }
}

/// The plan for the snapshot of a video: the frame at half of the duration,
/// with width and height exchanged where the video is turned by a quarter.
pub open spec fn spec_plan_snapshot(metadata: Metadata) -> Result<SnapshotPlan, Error> {
    match metadata.type_specific {
        TypeSpecific::Image(_) => Err(Error { kind: ErrorKind::DecodeFailure }),
        TypeSpecific::Video(video) => {
            let swap = metadata.rotation == Some(Rotate::Cw90) || metadata.rotation == Some(
                Rotate::Ccw90,
            );
            Ok(
                SnapshotPlan {
                    skip_to: half_of(video.duration),
                    width: if swap {
                        metadata.height
                    } else {
                        metadata.width
                    },
                    height: if swap {
                        metadata.width
                    } else {
                        metadata.height
                    },
                },
            )
        },
    }
}

/// Plans the snapshot of a video from its metadata. Metadata of a still image
/// is refused.
pub fn plan_snapshot(metadata: &Metadata) -> (r: Result<SnapshotPlan, Error>)
    ensures
        r == spec_plan_snapshot(*metadata),
{
    match metadata.type_specific {
        TypeSpecific::Image(_) => Err(Error::new(ErrorKind::DecodeFailure)),
        TypeSpecific::Video(video) => {
            let skip_to: i64 = if video.duration >= 0 {
                video.duration / 2
            } else if video.duration == i64::MIN {
                i64::MIN / 2
            } else {
                -((-video.duration) / 2)
            };
            let swap = match metadata.rotation {
                Some(Rotate::Cw90) | Some(Rotate::Ccw90) => true,
                _ => false,
            };
            let (width, height) = if swap {
                (metadata.height, metadata.width)
            } else {
                (metadata.width, metadata.height)
            };
            Ok(SnapshotPlan { skip_to, width, height })
        },
    }
}

/// The frame that the decoder's bytes make under a plan: `ExternalToolFailure`
/// where the decoder handed back fewer bytes than the frame has.
pub fn get_video_snapshot(plan: &SnapshotPlan, raw: Vec<u8>) -> (r: Result<Frame, Error>)
    ensures
        r is Ok <==> raw@.len() >= plan.width * plan.height * 3,
        r is Ok ==> r->Ok_0@ == (FrameView {
            width: plan.width as nat,
            height: plan.height as nat,
            pixels: raw@.take(plan.width * plan.height * 3),
        }),
        r is Err ==> r->Err_0.kind == ErrorKind::ExternalToolFailure,
{
    match Frame::from_raw(plan.width, plan.height, raw) {
        Some(frame) => Ok(frame),
        None => Err(Error::new(ErrorKind::ExternalToolFailure)),
    }
}

} // verus!
