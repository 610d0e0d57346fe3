use vstd::prelude::*;
use crate::capture::{extract_exif_metadata, spec_extract_exif_metadata};
use crate::codec::{probe_dimensions, probed_dimensions, raw_dimensions, raw_sides};
use crate::format::{file_type_from_path, spec_file_type, MediaType};
use crate::metadata::{ExtractError, ImageMetadata, Metadata, TypeSpecific};
use crate::video::{extract_metadata_video, spec_extract_metadata_video};

verus! {

/// A raw image narrower than this has its dimensions read again.
pub const RAW_MIN_WIDTH: u32 = 600;

/// A raw image lower than this has its dimensions read again.
pub const RAW_MIN_HEIGHT: u32 = 400;

/// Metadata of a still image of which only the dimensions are known.
pub open spec fn bare_metadata(width: u32, height: u32) -> Metadata {
    Metadata {
        width,
        height,
        date_time: None,
        gps_location: None,
        rotation: None,
        type_specific: TypeSpecific::Image(
            ImageMetadata { exposure_time: None, aperture: None, iso: None, flash: None },
        ),
    }
}

/// The dimensions that the header of an image file declares, and nothing
/// else.
pub open spec fn spec_simple_metadata_from_image(data: Seq<u8>) -> Result<Metadata, ExtractError> {
    match probed_dimensions(data) {
        Some(d) => Ok(bare_metadata(d.0, d.1)),
        None => Err(ExtractError::Undecodable),
    }
}

/// The dimensions of the sensor image in a raw file, and nothing else.
pub open spec fn spec_simple_metadata_from_raw_image(data: Seq<u8>) -> Result<
    Metadata,
    ExtractError,
> {
    match raw_dimensions(data) {
        Some(d) => if d.0 <= u32::MAX && d.1 <= u32::MAX {
            Ok(bare_metadata(d.0 as u32, d.1 as u32))
        } else {
            Err(ExtractError::Undecodable)
        },
        None => Err(ExtractError::Undecodable),
    }
}

/// Whether dimensions read from the tags of a raw file are too small to be
/// believed.
pub open spec fn spec_needs_true_dimensions(metadata: Metadata) -> bool {
    metadata.width < RAW_MIN_WIDTH || metadata.height < RAW_MIN_HEIGHT
}

/// `first`, or where it failed `second`.
pub open spec fn or_else(
    first: Result<Metadata, ExtractError>,
    second: Result<Metadata, ExtractError>,
) -> Result<Metadata, ExtractError> {
    match first {
        Ok(m) => Ok(m),
        Err(_) => second,
    }
}

/// Metadata with the dimensions that the sensor image has, and with nothing
/// else changed; the failure to read the sensor image where it could not be
/// read.
pub open spec fn spec_override_dimensions(
    primary: Metadata,
    sensor: Result<Metadata, ExtractError>,
) -> Result<Metadata, ExtractError> {
    match sensor {
        Ok(simple) => Ok(primary.spec_with_dimensions(simple.width, simple.height)),
        Err(e) => Err(e),
    }
}

/// The metadata of a raw image. The capture tags are read first, with the
/// sensor image's dimensions as the fallback; where the dimensions so found
/// are too small to be believed, those of the sensor image replace them, and
/// only them.
pub open spec fn spec_raw_metadata(data: Seq<u8>) -> Result<Metadata, ExtractError> {
    match or_else(spec_extract_exif_metadata(data), spec_simple_metadata_from_raw_image(data)) {
        Err(e) => Err(e),
        Ok(m) => if spec_needs_true_dimensions(m) {
            spec_override_dimensions(m, spec_simple_metadata_from_raw_image(data))
        } else {
            Ok(m)
        },
    }
}

/// Replaces the dimensions of a raw image's metadata by those that reading
/// its sensor image gave: see `spec_override_dimensions`.
pub fn override_dimensions(primary: &Metadata, sensor: Result<Metadata, ExtractError>) -> (r: Result<
    Metadata,
    ExtractError,
>)
    ensures
        r == spec_override_dimensions(*primary, sensor),
{
    match sensor {
        Ok(simple) => Ok(primary.with_dimensions(simple.width, simple.height)),
        Err(e) => Err(e),
    }
}

/// The metadata of a media file, by the class that its name puts it in. For
/// an image and a raw image `source` is the content of the file; for a video
/// it is what the probing tool printed about the file.
pub open spec fn spec_from_file(name: Seq<char>, source: Seq<u8>) -> Result<Metadata, ExtractError> {
    match spec_file_type(name) {
        None => Err(ExtractError::UnknownFormat),
        Some(t) => match t.spec_media_type() {
            MediaType::Image => or_else(
                spec_extract_exif_metadata(source),
                spec_simple_metadata_from_image(source),
            ),
            MediaType::RawImage => spec_raw_metadata(source),
            MediaType::Video => spec_extract_metadata_video(source),
        },
    }
}

/// Reads only the dimensions of an image, from the header of its file.
pub fn simple_metadata_from_image(data: &[u8]) -> (r: Result<Metadata, ExtractError>)
    ensures
        r == spec_simple_metadata_from_image(data@),
{
    match probe_dimensions(data) {
        Some((width, height)) => Ok(Metadata::bare(width, height)),
        None => Err(ExtractError::Undecodable),
    }
}

/// Reads only the dimensions of a raw image, from its sensor image.
pub fn simple_metadata_from_raw_image(data: &[u8]) -> (r: Result<Metadata, ExtractError>)
    ensures
        r == spec_simple_metadata_from_raw_image(data@),
{
    match raw_sides(data) {
        Some((width, height)) => {
            if width > u32::MAX as usize || height > u32::MAX as usize {
                Err(ExtractError::Undecodable)
            } else {
                Ok(Metadata::bare(width as u32, height as u32))
            }
        },
        None => Err(ExtractError::Undecodable),
    }
}

impl Metadata {
    /// Metadata of a still image of which only the dimensions are known.
    pub fn bare(width: u32, height: u32) -> (m: Metadata)
        ensures
            m == bare_metadata(width, height),
    {
        Metadata {
            width,
            height,
            date_time: None,
            gps_location: None,
            rotation: None,
            type_specific: TypeSpecific::Image(
                ImageMetadata { exposure_time: None, aperture: None, iso: None, flash: None },
            ),
        }
    }

    pub open spec fn spec_with_dimensions(self, width: u32, height: u32) -> Metadata {
        Metadata { width, height, ..self }
    }

    /// The same metadata with other dimensions.
    pub fn with_dimensions(&self, width: u32, height: u32) -> (m: Metadata)
        ensures
            m == self.spec_with_dimensions(width, height),
    {
        Metadata { width, height, ..*self }
    }

    /// Whether the dimensions are below what a raw image is believed to have.
    pub fn needs_true_dimensions(&self) -> (r: bool)
        ensures
            r == spec_needs_true_dimensions(*self),
    {
        self.width < RAW_MIN_WIDTH || self.height < RAW_MIN_HEIGHT
    }

    /// Extracts the metadata of a media file: see `spec_from_file`.
    pub fn from_file(file_name: &str, source: &[u8]) -> (r: Result<Metadata, ExtractError>)
        ensures
            r == spec_from_file(file_name@, source@),
    {
        let file_type = match file_type_from_path(file_name) {
            Some(t) => t,
            None => {
                return Err(ExtractError::UnknownFormat);
            },
        };
        match file_type.media_type() {
            MediaType::Image => match extract_exif_metadata(source) {
                Ok(m) => Ok(m),
                Err(_) => simple_metadata_from_image(source),
            },
            MediaType::RawImage => {
                let metadata = match extract_exif_metadata(source) {
                    Ok(m) => m,
                    Err(_) => match simple_metadata_from_raw_image(source) {
                        Ok(m) => m,
                        Err(e) => {
                            return Err(e);
                        },
                    },
                };
                if metadata.needs_true_dimensions() {
                    override_dimensions(&metadata, simple_metadata_from_raw_image(source))
                } else {
                    Ok(metadata)
                }
            },
            MediaType::Video => extract_metadata_video(source),
        }
    }
}

} // verus!
