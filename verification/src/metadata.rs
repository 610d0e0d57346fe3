use vstd::prelude::*;
use crate::coord::{Coordinates, Rational};
use crate::error::{Error, ErrorKind};
use crate::text::same_text;

verus! {

/// The clockwise turn that brings stored pixels upright.
#[derive(Clone, Copy, Debug, PartialEq, Eq, Structural)]
pub enum Rotate {
    Zero,
    Cw90,
    Ccw90,
    Cw180,
}

/// The lens opening as the capture tags give it.
#[derive(Clone, Copy, Debug, PartialEq, Eq, Structural)]
pub enum Aperture {
    /// An APEX value `v`: the f-number is two to the power of `v / 2`.
    Apex(Rational),
    /// The f-number itself.
    FNumber(Rational),
}

/// What only a still image's metadata holds.
#[derive(Clone, Copy, Debug, PartialEq, Eq, Structural)]
pub struct ImageMetadata {
    /// Exposure time in seconds.
    pub exposure_time: Option<Rational>,
    pub aperture: Option<Aperture>,
    pub iso: Option<u32>,
    /// Whether the flash fired.
    pub flash: Option<bool>,
}

/// What only a video's metadata holds.
#[derive(Clone, Copy, Debug, PartialEq, Eq, Structural)]
pub struct VideoMetadata {
    /// Length in millionths of a second.
    pub duration: i64,
    /// Frames per second, in millionths.
    pub framerate: Option<i64>,
}

#[derive(Clone, Copy, Debug, PartialEq, Eq, Structural)]
pub enum TypeSpecific {
    Image(ImageMetadata),
    Video(VideoMetadata),
}

/// Capture metadata of one media file. Every optional field may be absent.
#[derive(Clone, Copy, Debug, PartialEq, Eq, Structural)]
pub struct Metadata {
    pub width: u32,
    pub height: u32,
    /// Time of capture in whole seconds since the Unix epoch, UTC.
    pub date_time: Option<i64>,
    pub gps_location: Option<Coordinates>,
    pub rotation: Option<Rotate>,
    pub type_specific: TypeSpecific,
}

/// Why no metadata could be extracted from a source.
#[derive(Clone, Copy, Debug, PartialEq, Eq, Structural)]
pub enum ExtractError {
    /// The file name stands for no known format.
    UnknownFormat,
    /// The source holds no block of capture tags that can be read.
    NoTagBlock,
    /// The tags or the description give no pixel dimensions.
    NoDimensions,
    /// The payload could not be decoded to read its dimensions.
    Undecodable,
    /// The probing tool's output is no JSON document.
    MalformedProbe,
    /// The description gives no duration in decimal seconds.
    NoDuration,
    /// The description lists no streams.
    NoStreams,
    /// None of the listed streams is a video stream.
    NoVideoStream,
    /// More than one of the listed streams is a video stream.
    SeveralVideoStreams,
}

impl ExtractError {
    /// The kind under which the pipeline files this failure. A failure of the
    /// probing tool's output is the tool's; an unknown name is an unknown
    /// format; every other one leaves the file without metadata.
    pub open spec fn spec_kind(self) -> ErrorKind {
        match self {
            ExtractError::UnknownFormat => ErrorKind::UnknownFormat,
            ExtractError::MalformedProbe => ErrorKind::ExternalToolFailure,
            _ => ErrorKind::MetadataUnavailable,
        }
    }

    pub fn kind(&self) -> (k: ErrorKind)
        ensures
            k == self.spec_kind(),
    {
        match self {
            ExtractError::UnknownFormat => ErrorKind::UnknownFormat,
            ExtractError::MalformedProbe => ErrorKind::ExternalToolFailure,
            _ => ErrorKind::MetadataUnavailable,
        }
    }
}

impl Rotate {
    /// Whether the turn exchanges width and height.
    pub open spec fn spec_swaps_sides(self) -> bool {
        self == Rotate::Cw90 || self == Rotate::Ccw90
    }

    pub fn swaps_sides(&self) -> (r: bool)
        ensures
            r == self.spec_swaps_sides(),
    {
        match self {
            Rotate::Cw90 | Rotate::Ccw90 => true,
            Rotate::Zero | Rotate::Cw180 => false,
        }
    }

    /// The turn that applying `self` and then `next` amounts to.
    pub open spec fn spec_then(self, next: Rotate) -> Rotate {
        quarter_turn((self.quarters() + next.quarters()) % 4)
    }

    /// The number of clockwise quarter turns.
    pub open spec fn quarters(self) -> int {
        match self {
            Rotate::Zero => 0,
            Rotate::Cw90 => 1,
            Rotate::Cw180 => 2,
            Rotate::Ccw90 => 3,
        }
    }
}

pub open spec fn quarter_turn(n: int) -> Rotate {
    if n == 1 {
        Rotate::Cw90
    } else if n == 2 {
        Rotate::Cw180
    } else if n == 3 {
        Rotate::Ccw90
    } else {
        Rotate::Zero
    }
}

/// The turn that a video container's rotate tag asks for.
pub open spec fn spec_map_rotation(rot: Seq<char>) -> Rotate {
    if rot == "90"@ {
        Rotate::Cw90
    } else if rot == "180"@ {
        Rotate::Cw180
    } else if rot == "270"@ {
        Rotate::Ccw90
    } else {
        Rotate::Zero
    }
}

/// Maps the rotate tag of a video stream, degrees as text, to a turn. Any text
/// but `90`, `180` and `270` means no turn. The mapping never fails.
pub fn map_rotation(rot: &str) -> (r: Result<Rotate, Error>)
    ensures
        r == Ok::<Rotate, Error>(spec_map_rotation(rot@)),
{
    if same_text(rot, "90") {
        Ok(Rotate::Cw90)
    } else if same_text(rot, "180") {
        Ok(Rotate::Cw180)
    } else if same_text(rot, "270") {
        Ok(Rotate::Ccw90)
    } else {
        Ok(Rotate::Zero)
    }
}

/// The turn that the orientation tag of a still image asks for: 1 none, 3 a
/// half turn, 6 a quarter turn clockwise, 8 a quarter turn counter-clockwise.
/// Mirrored orientations and unknown values give no turn to apply.
pub open spec fn spec_orientation(value: u32) -> Option<Rotate> {
    if value == 1 {
        Some(Rotate::Zero)
    } else if value == 3 {
        Some(Rotate::Cw180)
    } else if value == 6 {
        Some(Rotate::Cw90)
    } else if value == 8 {
        Some(Rotate::Ccw90)
    } else {
        None
    }
}

/// Maps the value of the orientation tag, where there is one, to a turn.
pub fn find_orientation(orientation: Option<u32>) -> (r: Option<Rotate>)
    ensures
        r == match orientation {
            Some(v) => spec_orientation(v),
            None => None,
        },
{
    match orientation {
        Some(1) => Some(Rotate::Zero),
        Some(3) => Some(Rotate::Cw180),
        Some(6) => Some(Rotate::Cw90),
        Some(8) => Some(Rotate::Ccw90),
        _ => None,
    }
}

/// Width and height of a frame after a turn.
pub open spec fn spec_rotated_dimensions(width: u32, height: u32, rotation: Rotate) -> (u32, u32) {
    if rotation.spec_swaps_sides() {
        (height, width)
    } else {
        (width, height)
    }
}

/// Width and height of a frame after a turn: a quarter turn either way
/// exchanges them.
pub fn rotated_dimensions(width: u32, height: u32, rotation: Rotate) -> (r: (u32, u32))
    ensures
        r == spec_rotated_dimensions(width, height, rotation),
{
    if rotation.swaps_sides() {
        (height, width)
    } else {
        (width, height)
    }
}

} // verus!
