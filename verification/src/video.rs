use vstd::prelude::*;
use crate::coord::{gps_video, spec_gps_video, Coordinates};
use crate::decimal::{decimal_micros, parse_decimal};
use crate::json::{
    json_item, json_items, json_leaves, json_len, json_parse, json_text, json_text_at,
    json_unsigned, json_unsigned_at, parsed_json, JsonLeaf,
};
use crate::metadata::{
    map_rotation, spec_map_rotation, ExtractError, Metadata, Rotate, TypeSpecific, VideoMetadata,
};
use crate::text::{chars_of, same_text};
use crate::time::{parse_rfc3339, rfc3339_timestamp};

verus! {

/// What the description of one stream says, as far as it is read.
#[derive(Clone, Debug, PartialEq, Eq)]
pub struct StreamReport {
    pub codec_type: Option<String>,
    pub width: Option<u64>,
    pub height: Option<u64>,
    pub rotate: Option<String>,
}

/// What the probing tool's description of a container says, as far as it is
/// read. A value of another JSON type than the one read counts as absent.
#[derive(Clone, Debug, PartialEq, Eq)]
pub struct ProbeReport {
    /// `format.duration`, decimal seconds as text.
    pub duration: Option<String>,
    /// `format.tags.creation_time`, read as RFC 3339, in seconds since the epoch.
    pub creation_time: Option<i64>,
    /// `format.tags` under `com.android.capture.fps`.
    pub framerate: Option<String>,
    /// `format.tags.location`.
    pub location: Option<String>,
    /// `format.tags` under `com.apple.quicktime.location.ISO6709`.
    pub apple_location: Option<String>,
    /// `streams`, where it is an array.
    pub streams: Option<Vec<StreamReport>>,
}

pub struct StreamView {
    pub codec_type: Option<Seq<char>>,
    pub width: Option<u64>,
    pub height: Option<u64>,
    pub rotate: Option<Seq<char>>,
}

pub struct ProbeView {
    pub duration: Option<Seq<char>>,
    pub creation_time: Option<i64>,
    pub framerate: Option<Seq<char>>,
    pub location: Option<Seq<char>>,
    pub apple_location: Option<Seq<char>>,
    pub streams: Option<Seq<StreamView>>,
}

pub open spec fn text_view(text: Option<String>) -> Option<Seq<char>> {
    match text {
        Some(s) => Some(s@),
        None => None,
    }
}

impl View for StreamReport {
    type V = StreamView;

    open spec fn view(&self) -> StreamView {
        StreamView {
            codec_type: text_view(self.codec_type),
            width: self.width,
            height: self.height,
            rotate: text_view(self.rotate),
        }
    }
}

impl View for ProbeReport {
    type V = ProbeView;

    open spec fn view(&self) -> ProbeView {
        ProbeView {
            duration: text_view(self.duration),
            creation_time: self.creation_time,
            framerate: text_view(self.framerate),
            location: text_view(self.location),
            apple_location: text_view(self.apple_location),
            streams: match self.streams {
                Some(v) => Some(Seq::new(v@.len(), |i: int| v@[i]@)),
                None => None,
            },
        }
    }
}

/// What a stream's description holds.
pub open spec fn stream_view(item: serde_json::Value) -> StreamView {
    StreamView {
        codec_type: json_text_at(item, "/codec_type"@),
        width: json_unsigned_at(item, "/width"@),
        height: json_unsigned_at(item, "/height"@),
        rotate: json_text_at(item, "/tags/rotate"@),
    }
}

/// What a container's description holds.
pub open spec fn probe_view(doc: serde_json::Value) -> ProbeView {
    ProbeView {
        duration: json_text_at(doc, "/format/duration"@),
        creation_time: match json_text_at(doc, "/format/tags/creation_time"@) {
            Some(t) => rfc3339_timestamp(t),
            None => None,
        },
        framerate: json_text_at(doc, "/format/tags/com.android.capture.fps"@),
        location: json_text_at(doc, "/format/tags/location"@),
        apple_location: json_text_at(doc, "/format/tags/com.apple.quicktime.location.ISO6709"@),
        streams: match json_items(doc, "/streams"@) {
            Some(items) => Some(Seq::new(items.len(), |i: int| stream_view(items[i]))),
            None => None,
        },
    }
}

fn read_stream(item: &serde_json::Value) -> (r: StreamReport)
    ensures
        r@ == stream_view(*item),
{
    StreamReport {
        codec_type: json_text(item, "/codec_type"),
        width: json_unsigned(item, "/width"),
        height: json_unsigned(item, "/height"),
        rotate: json_text(item, "/tags/rotate"),
    }
}

/// Reads from a container's description what the extraction looks at.
pub fn read_probe(doc: &serde_json::Value) -> (r: ProbeReport)
    ensures
        r@ == probe_view(*doc),
{
    let creation_time = match json_text(doc, "/format/tags/creation_time") {
        Some(t) => parse_rfc3339(t.as_str()),
        None => None,
    };
    let streams = match json_len(doc, "/streams") {
        Some(n) => {
            let ghost items = json_items(*doc, "/streams"@)->Some_0;
            let mut v: Vec<StreamReport> = Vec::new();
            let mut i: usize = 0;
            while i < n
                invariant
                    i <= n,
                    n == items.len(),
                    json_items(*doc, "/streams"@) == Some(items),
                    v@.len() == i,
                    forall|j: int| 0 <= j < i ==> (#[trigger] v@[j])@ == stream_view(items[j]),
                decreases n - i,
            {
                match json_item(doc, "/streams", i) {
                    Some(item) => {
                        v.push(read_stream(item));
                    },
                    None => {
                        assert(false);
                    },
                }
                i += 1;
            }
            Some(v)
        },
        None => None,
    };
    let r = ProbeReport {
        duration: json_text(doc, "/format/duration"),
        creation_time,
        framerate: json_text(doc, "/format/tags/com.android.capture.fps"),
        location: json_text(doc, "/format/tags/location"),
        apple_location: json_text(doc, "/format/tags/com.apple.quicktime.location.ISO6709"),
        streams,
    };
    proof {
        if r.streams is Some {
            assert(r@.streams->Some_0 =~= probe_view(*doc).streams->Some_0);
        }
    }
    r
}

pub open spec fn is_video(stream: StreamView) -> bool {
    stream.codec_type == Some("video"@)
}

/// The number of video streams among the streams.
pub open spec fn count_video(streams: Seq<StreamView>) -> nat
    decreases streams.len(),
{
    if streams.len() == 0 {
        0
    } else {
        count_video(streams.drop_last()) + if is_video(streams.last()) {
            1nat
        } else {
            0nat
        }
    }
}

/// The position of the first video stream; the number of streams where there
/// is none.
pub open spec fn first_video(streams: Seq<StreamView>) -> int
    decreases streams.len(),
{
    if streams.len() == 0 {
        0
    } else {
        let i = first_video(streams.drop_last());
        if i < streams.len() - 1 {
            i
        } else if is_video(streams.last()) {
            streams.len() - 1
        } else {
            streams.len() as int
        }
    }
}

/// The coordinate text that is read: the one under `location`, or else the
/// one under the QuickTime key.
pub open spec fn location_text(probe: ProbeView) -> Option<Seq<char>> {
    if probe.location is Some {
        probe.location
    } else {
        probe.apple_location
    }
}

pub open spec fn spec_probe_gps(probe: ProbeView) -> Option<Coordinates> {
    match location_text(probe) {
        Some(text) => spec_gps_video(text),
        None => None,
    }
}

pub open spec fn spec_probe_framerate(probe: ProbeView) -> Option<i64> {
    match probe.framerate {
        Some(text) => decimal_micros(text),
        None => None,
    }
}

pub open spec fn spec_stream_rotation(stream: StreamView) -> Option<Rotate> {
    match stream.rotate {
        Some(text) => Some(spec_map_rotation(text)),
        None => None,
    }
}

/// The metadata of the video that a description describes.
///
/// The duration is required, and must be a decimal. Exactly one of the streams
/// must be a video stream; its width and height are required and must fit 32
/// bits. Every other field is optional: a creation time, a frame rate, a
/// location and a rotation that cannot be read are absent.
pub open spec fn spec_video_metadata(probe: ProbeView) -> Result<Metadata, ExtractError> {
    if probe.duration is None || decimal_micros(probe.duration->Some_0) is None {
        Err(ExtractError::NoDuration)
    } else if probe.streams is None {
        Err(ExtractError::NoStreams)
    } else if count_video(probe.streams->Some_0) == 0 {
        Err(ExtractError::NoVideoStream)
    } else if count_video(probe.streams->Some_0) > 1 {
        Err(ExtractError::SeveralVideoStreams)
    } else {
        let stream = probe.streams->Some_0[first_video(probe.streams->Some_0)];
        if stream.width is None || stream.height is None || stream.width->Some_0 > u32::MAX
            || stream.height->Some_0 > u32::MAX {
            Err(ExtractError::NoDimensions)
        } else {
            Ok(
                Metadata {
                    width: stream.width->Some_0 as u32,
                    height: stream.height->Some_0 as u32,
                    date_time: probe.creation_time,
                    gps_location: spec_probe_gps(probe),
                    rotation: spec_stream_rotation(stream),
                    type_specific: TypeSpecific::Video(
                        VideoMetadata {
                            duration: decimal_micros(probe.duration->Some_0)->Some_0,
                            framerate: spec_probe_framerate(probe),
                        },
                    ),
                },
            )
        }
    }
}

fn parse_decimal_text(text: &str) -> (r: Option<i64>)
    ensures
        r == decimal_micros(text@),
{
    let v = chars_of(text);
    assert(v@.subrange(0, v@.len() as int) == v@);
    parse_decimal(&v, 0, v.len())
}

fn stream_is_video(stream: &StreamReport) -> (r: bool)
    ensures
        r == is_video(stream@),
{
    match &stream.codec_type {
        Some(t) => same_text(t.as_str(), "video"),
        None => false,
    }
}

/// The first video stream is a video stream, and there is one exactly where
/// the number of video streams is not zero.
proof fn lemma_first_video(streams: Seq<StreamView>)
    ensures
        0 <= first_video(streams) <= streams.len(),
        first_video(streams) < streams.len() ==> is_video(streams[first_video(streams)]),
        first_video(streams) == streams.len() <==> count_video(streams) == 0,
    decreases streams.len(),
{
    if streams.len() > 0 {
        lemma_first_video(streams.drop_last());
        let i = first_video(streams.drop_last());
        if i < streams.len() - 1 {
            assert(streams.drop_last()[i] == streams[i]);
        }
    }
}

/// Turns what a description says into the metadata of the video: see
/// `spec_video_metadata`.
pub fn metadata_from_probe(report: &ProbeReport) -> (r: Result<Metadata, ExtractError>)
    ensures
        r == spec_video_metadata(report@),
{
    let duration = match &report.duration {
        Some(text) => match parse_decimal_text(text.as_str()) {
            Some(d) => d,
            None => {
                return Err(ExtractError::NoDuration);
            },
        },
        None => {
            return Err(ExtractError::NoDuration);
        },
    };
    let framerate = match &report.framerate {
        Some(text) => parse_decimal_text(text.as_str()),
        None => None,
    };
    let gps_location = match &report.location {
        Some(text) => gps_video(text.as_str()),
        None => match &report.apple_location {
            Some(text) => gps_video(text.as_str()),
            None => None,
        },
    };
    let streams = match &report.streams {
        Some(s) => s,
        None => {
            return Err(ExtractError::NoStreams);
        },
    };
    let ghost views = report@.streams->Some_0;
    let mut found: usize = 0;
    let mut first: usize = 0;
    let mut i: usize = 0;
    while i < streams.len()
        invariant
            i <= streams.len(),
            views.len() == streams.len(),
            forall|j: int| 0 <= j < streams.len() ==> views[j] == (#[trigger] streams@[j])@,
            found == count_video(views.take(i as int)),
            found <= i,
            found > 0 ==> first == first_video(views.take(i as int)) && first < i,
            found == 0 ==> first_video(views.take(i as int)) == i,
        decreases streams.len() - i,
    {
        let video = stream_is_video(&streams[i]);
        proof {
            let next = views.take(i + 1);
            assert(next.drop_last() == views.take(i as int));
            assert(next.last() == views[i as int]);
        }
        if video {
            if found == 0 {
                first = i;
            }
            found += 1;
        }
        i += 1;
    }
    assert(views.take(i as int) == views);
    if found == 0 {
        return Err(ExtractError::NoVideoStream);
    }
    if found > 1 {
        return Err(ExtractError::SeveralVideoStreams);
    }
    let stream = &streams[first];
    let (width, height) = match (stream.width, stream.height) {
        (Some(w), Some(h)) => {
            if w > u32::MAX as u64 || h > u32::MAX as u64 {
                return Err(ExtractError::NoDimensions);
            }
            (w as u32, h as u32)
        },
        _ => {
            return Err(ExtractError::NoDimensions);
        },
    };
    let rotation = match &stream.rotate {
        Some(text) => match map_rotation(text.as_str()) {
            Ok(turn) => Some(turn),
            Err(_) => None,
        },
        None => None,
    };
    Ok(
        Metadata {
            width,
            height,
            date_time: report.creation_time,
            gps_location,
            rotation,
            type_specific: TypeSpecific::Video(VideoMetadata { duration, framerate }),
        },
    )
}

/// The metadata of the video that the probing tool's output describes.
pub open spec fn spec_extract_metadata_video(output: Seq<u8>) -> Result<Metadata, ExtractError> {
    match parsed_json(output) {
        Some(doc) => spec_video_metadata(probe_view(doc)),
        None => Err(ExtractError::MalformedProbe),
    }
}

/// Extracts the metadata of a video from what the probing tool printed for
/// it: a JSON document with the container under `format` and the streams
/// under `streams`.
pub fn extract_metadata_video(output: &[u8]) -> (r: Result<Metadata, ExtractError>)
    ensures
        r == spec_extract_metadata_video(output@),
{
    match json_parse(output) {
        Some(doc) => {
            let report = read_probe(&doc);
            metadata_from_probe(&report)
        },
        None => Err(ExtractError::MalformedProbe),
    }
}

} // verus!
