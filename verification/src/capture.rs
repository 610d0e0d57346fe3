use vstd::prelude::*;
use crate::coord::{Coordinates, DecDegrees, Rational};
use crate::metadata::{
    find_orientation, spec_orientation, Aperture, ExtractError, ImageMetadata, Metadata,
    TypeSpecific,
};
use crate::text::same_text;
use crate::time::{naive_timestamp, parse_naive};

verus! {

#[verifier::external_type_specification]
#[verifier::external_body]
pub struct ExExif(exif::Exif);

/// The table that a tag number belongs to.
#[derive(Clone, Copy, Debug, PartialEq, Eq, Structural)]
pub enum TagGroup {
    Tiff,
    Exif,
    Gps,
}

/// A capture tag: its table and its number there.
#[derive(Clone, Copy, Debug, PartialEq, Eq, Structural)]
pub struct TagId {
    pub group: TagGroup,
    pub number: u16,
}

/// What a field of a tag block holds, as far as this library reads it.
pub struct FieldView {
    /// The first value, where the field holds unsigned integers.
    pub first_uint: Option<u32>,
    /// The values, where the field holds unsigned rationals.
    pub rationals: Option<Seq<Rational>>,
    /// The value as the tag's own manner of display prints it.
    pub text: Seq<char>,
}

/// The tag block that the bytes of an image file hold, or `None` where the
/// file is of no container kind that is known or holds no block that parses.
pub uninterp spec fn parsed_exif(data: Seq<u8>) -> Option<exif::Exif>;

/// The fields of the primary image in a tag block, by tag.
pub uninterp spec fn exif_fields(block: exif::Exif) -> Map<TagId, FieldView>;

/// `exif::Reader::read_from_container` on the bytes: the tag block of an image
/// file, or `None` where the call reports an error.
#[verifier::external_body]
pub(crate) fn exif_parse(data: &[u8]) -> (r: Option<exif::Exif>)
    ensures
        r == parsed_exif(data@),
{
    exif::Reader::new().read_from_container(&mut std::io::Cursor::new(data)).ok()
}

/// `Exif::get_field` for the primary image, then `Value::get_uint(0)`.
#[verifier::external_body]
pub(crate) fn exif_uint(block: &exif::Exif, tag: TagId) -> (r: Option<u32>)
    ensures
        r is Some <==> (exif_fields(*block).contains_key(tag) && exif_fields(*block)[tag].first_uint is Some),
        r is Some ==> r == exif_fields(*block)[tag].first_uint,
{
    let context = match tag.group {
        TagGroup::Tiff => exif::Context::Tiff,
        TagGroup::Exif => exif::Context::Exif,
        TagGroup::Gps => exif::Context::Gps,
    };
    block.get_field(exif::Tag(context, tag.number), exif::In::PRIMARY).and_then(|f| f.value.get_uint(0))
}

/// `Exif::get_field` for the primary image; the values of a field of the
/// `Rational` variant, each as numerator and denominator.
#[verifier::external_body]
pub(crate) fn exif_rationals(block: &exif::Exif, tag: TagId) -> (r: Option<Vec<Rational>>)
    ensures
        r is Some <==> (exif_fields(*block).contains_key(tag) && exif_fields(*block)[tag].rationals is Some),
        r is Some ==> Some(r->Some_0@) == exif_fields(*block)[tag].rationals,
{
    let context = match tag.group {
        TagGroup::Tiff => exif::Context::Tiff,
        TagGroup::Exif => exif::Context::Exif,
        TagGroup::Gps => exif::Context::Gps,
    };
    match block.get_field(exif::Tag(context, tag.number), exif::In::PRIMARY).map(|f| &f.value) {
        Some(exif::Value::Rational(v)) => Some(v.iter().map(|x| Rational { num: x.num, denom: x.denom }).collect()),
        _ => None,
    }
}

/// `Exif::get_field` for the primary image, then `Field::display_value` as
/// text.
#[verifier::external_body]
pub(crate) fn exif_text(block: &exif::Exif, tag: TagId) -> (r: Option<String>)
    ensures
        r is Some <==> exif_fields(*block).contains_key(tag),
        r is Some ==> r->Some_0@ == exif_fields(*block)[tag].text,
{
    let context = match tag.group {
        TagGroup::Tiff => exif::Context::Tiff,
        TagGroup::Exif => exif::Context::Exif,
        TagGroup::Gps => exif::Context::Gps,
    };
    block.get_field(exif::Tag(context, tag.number), exif::In::PRIMARY).map(|f| f.display_value().to_string())
}

pub open spec fn tag_image_width() -> TagId {
    TagId { group: TagGroup::Tiff, number: 0x100 }
}

pub open spec fn tag_image_length() -> TagId {
    TagId { group: TagGroup::Tiff, number: 0x101 }
}

pub open spec fn tag_orientation() -> TagId {
    TagId { group: TagGroup::Tiff, number: 0x112 }
}

pub open spec fn tag_date_time() -> TagId {
    TagId { group: TagGroup::Tiff, number: 0x132 }
}

pub open spec fn tag_exposure_time() -> TagId {
    TagId { group: TagGroup::Exif, number: 0x829a }
}

pub open spec fn tag_f_number() -> TagId {
    TagId { group: TagGroup::Exif, number: 0x829d }
}

pub open spec fn tag_sensitivity() -> TagId {
    TagId { group: TagGroup::Exif, number: 0x8827 }
}

pub open spec fn tag_aperture_value() -> TagId {
    TagId { group: TagGroup::Exif, number: 0x9202 }
}

pub open spec fn tag_flash() -> TagId {
    TagId { group: TagGroup::Exif, number: 0x9209 }
}

pub open spec fn tag_pixel_x_dimension() -> TagId {
    TagId { group: TagGroup::Exif, number: 0xa002 }
}

pub open spec fn tag_pixel_y_dimension() -> TagId {
    TagId { group: TagGroup::Exif, number: 0xa003 }
}

pub open spec fn tag_gps_latitude_ref() -> TagId {
    TagId { group: TagGroup::Gps, number: 1 }
}

pub open spec fn tag_gps_latitude() -> TagId {
    TagId { group: TagGroup::Gps, number: 2 }
}

pub open spec fn tag_gps_longitude_ref() -> TagId {
    TagId { group: TagGroup::Gps, number: 3 }
}

pub open spec fn tag_gps_longitude() -> TagId {
    TagId { group: TagGroup::Gps, number: 4 }
}

/// The format in which a tag block's date and time are displayed.
pub open spec fn date_time_format() -> Seq<char> {
    "%Y-%m-%d %H:%M:%S"@
}

/// The capture tags that the extraction looks at. A field of another type
/// than the one read counts as absent.
#[derive(Clone, Debug, PartialEq, Eq)]
pub struct ExifTags {
    /// `DateTime`, in seconds since the epoch.
    pub date_time: Option<i64>,
    pub orientation: Option<u32>,
    pub image_length: Option<u32>,
    pub image_width: Option<u32>,
    pub pixel_x_dimension: Option<u32>,
    pub pixel_y_dimension: Option<u32>,
    pub exposure_time: Option<Vec<Rational>>,
    pub aperture_value: Option<Vec<Rational>>,
    pub f_number: Option<Vec<Rational>>,
    /// `PhotographicSensitivity`.
    pub iso: Option<u32>,
    pub flash: Option<u32>,
    /// Degrees, minutes and seconds.
    pub gps_latitude: Option<Vec<Rational>>,
    pub gps_longitude: Option<Vec<Rational>>,
    /// `N` or `S`.
    pub gps_latitude_ref: Option<String>,
    /// `E` or `W`.
    pub gps_longitude_ref: Option<String>,
}

pub struct ExifTagsView {
    pub date_time: Option<i64>,
    pub orientation: Option<u32>,
    pub image_length: Option<u32>,
    pub image_width: Option<u32>,
    pub pixel_x_dimension: Option<u32>,
    pub pixel_y_dimension: Option<u32>,
    pub exposure_time: Option<Seq<Rational>>,
    pub aperture_value: Option<Seq<Rational>>,
    pub f_number: Option<Seq<Rational>>,
    pub iso: Option<u32>,
    pub flash: Option<u32>,
    pub gps_latitude: Option<Seq<Rational>>,
    pub gps_longitude: Option<Seq<Rational>>,
    pub gps_latitude_ref: Option<Seq<char>>,
    pub gps_longitude_ref: Option<Seq<char>>,
}

pub open spec fn rationals_view(v: Option<Vec<Rational>>) -> Option<Seq<Rational>> {
    match v {
        Some(v) => Some(v@),
        None => None,
    }
}

pub open spec fn ref_view(v: Option<String>) -> Option<Seq<char>> {
    match v {
        Some(s) => Some(s@),
        None => None,
    }
}

impl View for ExifTags {
    type V = ExifTagsView;

    open spec fn view(&self) -> ExifTagsView {
        ExifTagsView {
            date_time: self.date_time,
            orientation: self.orientation,
            image_length: self.image_length,
            image_width: self.image_width,
            pixel_x_dimension: self.pixel_x_dimension,
            pixel_y_dimension: self.pixel_y_dimension,
            exposure_time: rationals_view(self.exposure_time),
            aperture_value: rationals_view(self.aperture_value),
            f_number: rationals_view(self.f_number),
            iso: self.iso,
            flash: self.flash,
            gps_latitude: rationals_view(self.gps_latitude),
            gps_longitude: rationals_view(self.gps_longitude),
            gps_latitude_ref: ref_view(self.gps_latitude_ref),
            gps_longitude_ref: ref_view(self.gps_longitude_ref),
        }
    }
}

pub open spec fn uint_at(block: exif::Exif, tag: TagId) -> Option<u32> {
    if exif_fields(block).contains_key(tag) {
        exif_fields(block)[tag].first_uint
    } else {
        None
    }
}

pub open spec fn rationals_at(block: exif::Exif, tag: TagId) -> Option<Seq<Rational>> {
    if exif_fields(block).contains_key(tag) {
        exif_fields(block)[tag].rationals
    } else {
        None
    }
}

pub open spec fn text_at(block: exif::Exif, tag: TagId) -> Option<Seq<char>> {
    if exif_fields(block).contains_key(tag) {
        Some(exif_fields(block)[tag].text)
    } else {
        None
    }
}

/// What a tag block says, as far as the extraction looks at it.
pub open spec fn tags_view(block: exif::Exif) -> ExifTagsView {
    ExifTagsView {
        date_time: match text_at(block, tag_date_time()) {
            Some(t) => naive_timestamp(t, date_time_format()),
            None => None,
        },
        orientation: uint_at(block, tag_orientation()),
        image_length: uint_at(block, tag_image_length()),
        image_width: uint_at(block, tag_image_width()),
        pixel_x_dimension: uint_at(block, tag_pixel_x_dimension()),
        pixel_y_dimension: uint_at(block, tag_pixel_y_dimension()),
        exposure_time: rationals_at(block, tag_exposure_time()),
        aperture_value: rationals_at(block, tag_aperture_value()),
        f_number: rationals_at(block, tag_f_number()),
        iso: uint_at(block, tag_sensitivity()),
        flash: uint_at(block, tag_flash()),
        gps_latitude: rationals_at(block, tag_gps_latitude()),
        gps_longitude: rationals_at(block, tag_gps_longitude()),
        gps_latitude_ref: text_at(block, tag_gps_latitude_ref()),
        gps_longitude_ref: text_at(block, tag_gps_longitude_ref()),
    }
}

/// Reads from a tag block what the extraction looks at.
pub fn read_tags(block: &exif::Exif) -> (r: ExifTags)
    ensures
        r@ == tags_view(*block),
{
    let tiff = TagGroup::Tiff;
    let exif = TagGroup::Exif;
    let gps = TagGroup::Gps;
    let date_time = match exif_text(block, TagId { group: tiff, number: 0x132 }) {
        Some(t) => parse_naive(t.as_str(), "%Y-%m-%d %H:%M:%S"),
        None => None,
    };
    ExifTags {
        date_time,
        orientation: exif_uint(block, TagId { group: tiff, number: 0x112 }),
        image_length: exif_uint(block, TagId { group: tiff, number: 0x101 }),
        image_width: exif_uint(block, TagId { group: tiff, number: 0x100 }),
        pixel_x_dimension: exif_uint(block, TagId { group: exif, number: 0xa002 }),
        pixel_y_dimension: exif_uint(block, TagId { group: exif, number: 0xa003 }),
        exposure_time: exif_rationals(block, TagId { group: exif, number: 0x829a }),
        aperture_value: exif_rationals(block, TagId { group: exif, number: 0x9202 }),
        f_number: exif_rationals(block, TagId { group: exif, number: 0x829d }),
        iso: exif_uint(block, TagId { group: exif, number: 0x8827 }),
        flash: exif_uint(block, TagId { group: exif, number: 0x9209 }),
        gps_latitude: exif_rationals(block, TagId { group: gps, number: 2 }),
        gps_longitude: exif_rationals(block, TagId { group: gps, number: 4 }),
        gps_latitude_ref: exif_text(block, TagId { group: gps, number: 1 }),
        gps_longitude_ref: exif_text(block, TagId { group: gps, number: 3 }),
    }
}

/// Width and height as the tags give them: the values of `ImageWidth`, the
/// number of columns, and `ImageLength`, the number of rows, where both are
/// there; else the values of `PixelXDimension` and `PixelYDimension`, where
/// both are there.
pub open spec fn spec_width_and_height(tags: ExifTagsView) -> Option<(u32, u32)> {
    if tags.image_width is Some && tags.image_length is Some {
        Some((tags.image_width->Some_0, tags.image_length->Some_0))
    } else if tags.pixel_x_dimension is Some && tags.pixel_y_dimension is Some {
        Some((tags.pixel_x_dimension->Some_0, tags.pixel_y_dimension->Some_0))
    } else {
        None
    }
}

pub fn width_and_height(tags: &ExifTags) -> (r: Result<(u32, u32), ExtractError>)
    ensures
        r == match spec_width_and_height(tags@) {
            Some(d) => Ok::<(u32, u32), ExtractError>(d),
            None => Err::<(u32, u32), ExtractError>(ExtractError::NoDimensions),
        },
{
    let mut width = tags.image_width;
    let mut height = tags.image_length;
    if width.is_none() || height.is_none() {
        width = tags.pixel_x_dimension;
        height = tags.pixel_y_dimension;
    }
    match (width, height) {
        (Some(w), Some(h)) => Ok((w, h)),
        _ => Err(ExtractError::NoDimensions),
    }
}

/// The first of the values of a field, where it has one.
pub open spec fn first_rational(values: Option<Seq<Rational>>) -> Option<Rational> {
    match values {
        Some(v) => if v.len() > 0 {
            Some(v[0])
        } else {
            None
        },
        None => None,
    }
}

fn first_of(values: &Option<Vec<Rational>>) -> (r: Option<Rational>)
    ensures
        r == first_rational(rationals_view(*values)),
{
    match values {
        Some(v) => if v.len() > 0 {
            Some(v[0])
        } else {
            None
        },
        None => None,
    }
}

/// The exposure time in seconds.
pub fn exposure_time(tags: &ExifTags) -> (r: Option<Rational>)
    ensures
        r == first_rational(tags@.exposure_time),
{
    first_of(&tags.exposure_time)
}

/// The lens opening: from the APEX value where the tags hold one, else from
/// the f-number where they hold one.
pub open spec fn spec_aperture(tags: ExifTagsView) -> Option<Aperture> {
    match first_rational(tags.aperture_value) {
        Some(v) => Some(Aperture::Apex(v)),
        None => match first_rational(tags.f_number) {
            Some(v) => Some(Aperture::FNumber(v)),
            None => None,
        },
    }
}

pub fn aperture(tags: &ExifTags) -> (r: Option<Aperture>)
    ensures
        r == spec_aperture(tags@),
{
    match first_of(&tags.aperture_value) {
        Some(v) => Some(Aperture::Apex(v)),
        None => match first_of(&tags.f_number) {
            Some(v) => Some(Aperture::FNumber(v)),
            None => None,
        },
    }
}

/// The values of the flash tag that say that the flash fired.
pub open spec fn flash_fired_values() -> Seq<u32> {
    seq![
        0x1, 0x5, 0x7, 0x9, 0xd, 0xf, 0x19, 0x1d, 0x1f, 0x41, 0x45, 0x47, 0x49, 0x4d, 0x4f, 0x59,
        0x5d, 0x5f,
    ]
}

/// Whether a value of the flash tag says that the flash fired.
pub fn flash_fired(value: u32) -> (r: bool)
    ensures
        r == flash_fired_values().contains(value),
{
    let fired: [u32; 18] = [
        0x1, 0x5, 0x7, 0x9, 0xd, 0xf, 0x19, 0x1d, 0x1f, 0x41, 0x45, 0x47, 0x49, 0x4d, 0x4f, 0x59,
        0x5d, 0x5f,
    ];
    assert(fired@ =~= flash_fired_values());
    let mut i: usize = 0;
    while i < 18
        invariant
            i <= 18,
            fired@ == flash_fired_values(),
            forall|j: int| 0 <= j < i ==> fired@[j] != value,
        decreases 18 - i,
    {
        if fired[i] == value {
            assert(flash_fired_values()[i as int] == value);
            return true;
        }
        i += 1;
    }
    false
}

/// Whether the flash fired, where the tags say.
pub fn flash(tags: &ExifTags) -> (r: Option<bool>)
    ensures
        r == match tags@.flash {
            Some(v) => Some(flash_fired_values().contains(v)),
            None => None,
        },
{
    match tags.flash {
        Some(v) => Some(flash_fired(v)),
        None => None,
    }
}

/// An angle from its degrees, minutes and seconds; `None` where fewer than
/// three values are there.
pub open spec fn spec_dms(values: Seq<Rational>, is_positive: bool) -> Option<DecDegrees> {
    if values.len() >= 3 {
        Some(DecDegrees { d: values[0], m: values[1], s: values[2], is_positive })
    } else {
        None
    }
}

/// Whether a hemisphere reference means a positive angle: a missing one does,
/// and so does the one that equals `positive`.
pub open spec fn spec_is_positive(reference: Option<Seq<char>>, positive: Seq<char>) -> bool {
    match reference {
        Some(text) => text == positive,
        None => true,
    }
}

/// The place of capture: latitude and longitude from their degrees, minutes
/// and seconds, south and west negative.
pub open spec fn spec_gps_image(tags: ExifTagsView) -> Option<Coordinates> {
    if tags.gps_latitude is None || tags.gps_longitude is None {
        None
    } else {
        let lat = spec_dms(
            tags.gps_latitude->Some_0,
            spec_is_positive(tags.gps_latitude_ref, "N"@),
        );
        let lon = spec_dms(
            tags.gps_longitude->Some_0,
            spec_is_positive(tags.gps_longitude_ref, "E"@),
        );
        if lat is None || lon is None {
            None
        } else {
            Coordinates::spec_from_dec_degrees(lat->Some_0, lon->Some_0)
        }
    }
}

fn is_positive(reference: &Option<String>, positive: &str) -> (r: bool)
    ensures
        r == spec_is_positive(ref_view(*reference), positive@),
{
    match reference {
        Some(text) => same_text(text.as_str(), positive),
        None => true,
    }
}

fn dms(values: &Vec<Rational>, is_positive: bool) -> (r: Option<DecDegrees>)
    ensures
        r == spec_dms(values@, is_positive),
{
    if values.len() >= 3 {
        Some(DecDegrees::new(values[0], values[1], values[2], is_positive))
    } else {
        None
    }
}

pub fn gps_image(tags: &ExifTags) -> (r: Option<Coordinates>)
    ensures
        r == spec_gps_image(tags@),
{
    match (&tags.gps_latitude, &tags.gps_longitude) {
        (Some(lat_dms), Some(lon_dms)) => {
            let lat = dms(lat_dms, is_positive(&tags.gps_latitude_ref, "N"));
            let lon = dms(lon_dms, is_positive(&tags.gps_longitude_ref, "E"));
            match (lat, lon) {
                (Some(lat), Some(lon)) => Coordinates::from_dec_degrees(&lat, &lon),
                _ => None,
            }
        },
        _ => None,
    }
}

/// The metadata that capture tags give. Only the dimensions are required.
pub open spec fn spec_metadata_from_tags(tags: ExifTagsView) -> Result<Metadata, ExtractError> {
    match spec_width_and_height(tags) {
        None => Err(ExtractError::NoDimensions),
        Some(d) => Ok(
            Metadata {
                width: d.0,
                height: d.1,
                date_time: tags.date_time,
                gps_location: spec_gps_image(tags),
                rotation: match tags.orientation {
                    Some(v) => spec_orientation(v),
                    None => None,
                },
                type_specific: TypeSpecific::Image(
                    ImageMetadata {
                        exposure_time: first_rational(tags.exposure_time),
                        aperture: spec_aperture(tags),
                        iso: tags.iso,
                        flash: match tags.flash {
                            Some(v) => Some(flash_fired_values().contains(v)),
                            None => None,
                        },
                    },
                ),
            },
        ),
    }
}

/// Turns capture tags into metadata: see `spec_metadata_from_tags`.
pub fn metadata_from_tags(tags: &ExifTags) -> (r: Result<Metadata, ExtractError>)
    ensures
        r == spec_metadata_from_tags(tags@),
{
    let rotation = find_orientation(tags.orientation);
    let (width, height) = match width_and_height(tags) {
        Ok(d) => d,
        Err(e) => {
            return Err(e);
        },
    };
    let gps_location = gps_image(tags);
    let image_metadata = ImageMetadata {
        exposure_time: exposure_time(tags),
        aperture: aperture(tags),
        iso: tags.iso,
        flash: flash(tags),
    };
    Ok(
        Metadata {
            width,
            height,
            date_time: tags.date_time,
            gps_location,
            rotation,
            type_specific: TypeSpecific::Image(image_metadata),
        },
    )
}

/// The metadata that the capture tags of an image file give.
pub open spec fn spec_extract_exif_metadata(data: Seq<u8>) -> Result<Metadata, ExtractError> {
    match parsed_exif(data) {
        Some(block) => spec_metadata_from_tags(tags_view(block)),
        None => Err(ExtractError::NoTagBlock),
    }
}

/// Extracts metadata from the capture tags embedded in an image file.
pub fn extract_exif_metadata(data: &[u8]) -> (r: Result<Metadata, ExtractError>)
    ensures
        r == spec_extract_exif_metadata(data@),
{
    match exif_parse(data) {
        Some(block) => {
            let tags = read_tags(&block);
            metadata_from_tags(&tags)
        },
        None => Err(ExtractError::NoTagBlock),
    }
}

} // verus!
