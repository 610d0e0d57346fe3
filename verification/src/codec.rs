use vstd::prelude::*;

verus! {

/// The filter by which a picture is resampled.
#[derive(Clone, Copy, Debug, PartialEq, Eq, Structural)]
pub enum ResampleFilter {
    Nearest,
    Triangle,
    CatmullRom,
    Gaussian,
    Lanczos3,
}

/// Width and height of the picture that the bytes of an image file encode;
/// `None` where they encode none that can be decoded.
pub uninterp spec fn decoded_sides(data: Seq<u8>) -> Option<(u32, u32)>;

/// Width and height that the header of an image file declares.
pub uninterp spec fn probed_dimensions(data: Seq<u8>) -> Option<(u32, u32)>;

/// The JPEG file that encodes a picture at a quality; `None` where the
/// encoder refuses the picture, which it does for a side of zero or of more
/// than 65535 pixels.
pub uninterp spec fn jpeg_encoded(width: u32, height: u32, pixels: Seq<u8>, quality: u8) -> Option<
    Seq<u8>,
>;

/// Width and height of the sensor image that the bytes of a raw file hold.
pub uninterp spec fn raw_dimensions(data: Seq<u8>) -> Option<(usize, usize)>;

/// `image::load_from_memory`, then `DynamicImage::into_rgb8`: the picture in
/// the bytes of an image file, as sides and raw bytes, three bytes a pixel in
/// row order. Whether there is a picture, and its sides, depend on the bytes
/// alone; the buffer holds a byte for each channel of each pixel. Decoders
/// may differ in the last bit of a sample, so nothing is claimed of the
/// samples.
#[verifier::external_body]
pub(crate) fn decode_rgb(data: &[u8]) -> (r: Option<(u32, u32, Vec<u8>)>)
    ensures
        r is Some <==> decoded_sides(data@) is Some,
        r is Some ==> Some((r->Some_0.0, r->Some_0.1)) == decoded_sides(data@),
        r is Some ==> r->Some_0.2@.len() >= r->Some_0.0 * r->Some_0.1 * 3,
{
    let decoded = image::load_from_memory(data).ok().map(|picture| picture.into_rgb8());
    decoded.map(|buffer| (buffer.width(), buffer.height(), buffer.into_raw()))
}

/// `image::ImageReader::with_guessed_format`, then `into_dimensions`: the
/// sides that an image file declares, read without decoding its pixels.
#[verifier::external_body]
pub(crate) fn probe_dimensions(data: &[u8]) -> (r: Option<(u32, u32)>)
    ensures
        r == probed_dimensions(data@),
{
    let reader = image::ImageReader::new(std::io::Cursor::new(data)).with_guessed_format().ok();
    reader.and_then(|with_format| with_format.into_dimensions().ok())
}

/// `image::imageops::resize` on a picture given as sides and raw bytes: the
/// picture resampled to `nwidth` by `nheight`, the aspect not kept. What
/// comes back has the sides asked for and a byte for each channel of each
/// pixel. The call is made only with a byte for each channel of each pixel,
/// and for a target that one buffer can hold. The filters compute in
/// floating point, so nothing is claimed of the samples.
#[verifier::external_body]
pub(crate) fn resize_exact_rgb(
    width: u32,
    height: u32,
    data: &Vec<u8>,
    nwidth: u32,
    nheight: u32,
    filter: ResampleFilter,
) -> (r: (u32, u32, Vec<u8>))
    requires
        data@.len() == width * height * 3,
        nwidth * nheight * 3 <= 0x7fff_ffff,
    ensures
        r.0 == nwidth,
        r.1 == nheight,
        r.2@.len() == nwidth * nheight * 3,
{
    let source = image::RgbImage::from_raw(width, height, data.clone()).unwrap();
    let filter = match filter {
        ResampleFilter::Nearest => image::imageops::FilterType::Nearest,
        ResampleFilter::Triangle => image::imageops::FilterType::Triangle,
        ResampleFilter::CatmullRom => image::imageops::FilterType::CatmullRom,
        ResampleFilter::Gaussian => image::imageops::FilterType::Gaussian,
        ResampleFilter::Lanczos3 => image::imageops::FilterType::Lanczos3,
    };
    let out = image::imageops::resize(&source, nwidth, nheight, filter);
    (out.width(), out.height(), out.into_raw())
}

/// `DynamicImage::resize_to_fill` on a picture given as sides and raw bytes:
/// the picture scaled, the aspect kept, until it covers `nwidth` by
/// `nheight`, and then cut to that size about its centre. What comes back has
/// the sides asked for and a byte for each channel of each pixel. The call is
/// made only for a picture and a target that both have pixels, and for a
/// picture no more than sixteen times as long as wide or as wide as long, so
/// that the scaled picture stays within the sides that the crate can hold.
/// The filters compute in floating point, so nothing is claimed of the
/// samples.
#[verifier::external_body]
pub(crate) fn resize_to_fill_rgb(
    width: u32,
    height: u32,
    data: &Vec<u8>,
    nwidth: u32,
    nheight: u32,
    filter: ResampleFilter,
) -> (r: (u32, u32, Vec<u8>))
    requires
        data@.len() == width * height * 3,
        width > 0 && height > 0,
        height <= 16 * width && width <= 16 * height,
        nwidth > 0 && nheight > 0,
        nwidth <= 4096 && nheight <= 4096,
    ensures
        r.0 == nwidth,
        r.1 == nheight,
        r.2@.len() == nwidth * nheight * 3,
{
    let source = image::DynamicImage::ImageRgb8(image::RgbImage::from_raw(width, height, data.clone()).unwrap());
    let filter = match filter {
        ResampleFilter::Nearest => image::imageops::FilterType::Nearest,
        ResampleFilter::Triangle => image::imageops::FilterType::Triangle,
        ResampleFilter::CatmullRom => image::imageops::FilterType::CatmullRom,
        ResampleFilter::Gaussian => image::imageops::FilterType::Gaussian,
        ResampleFilter::Lanczos3 => image::imageops::FilterType::Lanczos3,
    };
    let out = source.resize_to_fill(nwidth, nheight, filter).into_rgb8();
    (out.width(), out.height(), out.into_raw())
}

/// `image::codecs::jpeg::JpegEncoder::new_with_quality`, then `encode` for
/// three bytes a pixel: the JPEG file of a picture, which there is exactly
/// where both sides are from 1 to 65535. The call is made only with a byte
/// for each channel of each pixel.
#[verifier::external_body]
pub(crate) fn encode_jpeg_rgb(width: u32, height: u32, data: &Vec<u8>, quality: u8) -> (r: Option<
    Vec<u8>,
>)
    requires
        data@.len() == width * height * 3,
    ensures
        r is Some <==> jpeg_encoded(width, height, data@, quality) is Some,
        r is Some ==> Some(r->Some_0@) == jpeg_encoded(width, height, data@, quality),
        r is Some <==> (1 <= width <= 65535 && 1 <= height <= 65535),
{
    let mut out: Vec<u8> = Vec::new();
    let mut encoder = image::codecs::jpeg::JpegEncoder::new_with_quality(&mut out, quality);
    let done = encoder.encode(data, width, height, image::ExtendedColorType::Rgb8).ok();
    done.map(|_| out)
}

/// `rawloader::decode` on the bytes of a raw file: the sides of the sensor
/// image.
#[verifier::external_body]
pub(crate) fn raw_sides(data: &[u8]) -> (r: Option<(usize, usize)>)
    ensures
        r == raw_dimensions(data@),
{
    rawloader::decode(&mut std::io::Cursor::new(data)).ok().map(|raw| (raw.width, raw.height))
}

/// `rawloader::decode`, then `imagepipe::Pipeline::new_from_source` and
/// `output_8bit`: the picture that a raw file develops to, as sides and raw
/// bytes. The development computes in floating point with the machine's
/// mathematical functions, so nothing is claimed of what comes back.
#[verifier::external_body]
pub(crate) fn develop_raw(data: &[u8]) -> (r: Option<(usize, usize, Vec<u8>)>)
{
    let raw = rawloader::decode(&mut std::io::Cursor::new(data)).ok();
    let source = raw.map(|sensor| imagepipe::ImageSource::Raw(sensor));
    let pipeline = source.and_then(|s| imagepipe::Pipeline::new_from_source(s).ok());
    let picture = pipeline.and_then(|mut p| p.output_8bit(None).ok());
    picture.map(|p| (p.width, p.height, p.data))
}

} // verus!
