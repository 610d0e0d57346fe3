use vstd::prelude::*;
use crate::coord::Coordinates;
use crate::error::{Error, ErrorKind};
use crate::format::{file_type_from_path, get_media_type, spec_file_type, EntityType, MediaType};
use crate::hash::{sha3_256, Sha3};
use crate::metadata::Metadata;
use crate::paths::ArtifactSet;

verus! {

/// The steps that one file goes through, in order.
#[derive(Clone, Copy, Debug, PartialEq, Eq, Structural)]
pub enum Stage {
    Classify,
    Hash,
    DedupCheck,
    Decode,
    Detect,
    RenderThumbnail,
    RenderPreview,
    ExtractMetadata,
    Emit,
}

/// How the handling of one file ended.
#[derive(Clone, Copy, Debug, PartialEq, Eq, Structural)]
pub enum Outcome {
    /// The file is in the catalog now, with or without capture metadata.
    Imported { with_metadata: bool },
    /// The content was in the catalog already, under this identity.
    AlreadyPresent { id: i32 },
    /// The name stands for no known format.
    Skipped,
    /// A step failed; the batch goes on with the next file.
    Failed { stage: Stage, kind: ErrorKind },
}

/// Where the handling of one file stands.
#[derive(Clone, Copy, Debug, PartialEq, Eq, Structural)]
pub enum Ingest {
    /// The step `stage` has been asked for and its report is awaited.
    Running { stage: Stage, media: MediaType, with_metadata: bool },
    Finished(Outcome),
}

/// What the surroundings report about the step that was asked for.
#[derive(Clone, Copy, Debug, PartialEq, Eq, Structural)]
pub enum Event {
    /// The step was done. For the dedup check: the hash is not in the catalog.
    Succeeded,
    /// The catalog holds the content already, under this identity.
    Duplicate(i32),
    /// The step failed.
    Failed(ErrorKind),
}

/// What the surroundings are asked to do next.
#[derive(Clone, Copy, Debug, PartialEq, Eq, Structural)]
pub enum Action {
    /// Hash the content of the file.
    ComputeHash,
    /// Ask the catalog for the hash.
    LookupHash,
    /// Decode the file and turn it upright; for a video, probe it and take the
    /// frame at half of its duration.
    Decode(MediaType),
    /// Run the face detector on the upright frame.
    DetectFaces,
    /// Plan the crop, render the thumbnail and write it.
    RenderThumbnail,
    /// Render the preview and write it.
    RenderPreview,
    /// Extract the capture metadata.
    ExtractMetadata,
    /// Hand the result to the catalog.
    Emit,
    /// Nothing: the file is done with.
    Stop,
}

impl Action {
    /// Whether the action writes a derivative file.
    pub open spec fn spec_renders(self) -> bool {
        self == Action::RenderThumbnail || self == Action::RenderPreview
    }

    pub fn renders(&self) -> (r: bool)
        ensures
            r == self.spec_renders(),
    {
        match self {
            Action::RenderThumbnail | Action::RenderPreview => true,
            _ => false,
        }
    }
}

/// The step after `stage`, and what it asks for.
pub open spec fn advance(stage: Stage, media: MediaType, with_metadata: bool) -> (Ingest, Action) {
    match stage {
        Stage::Classify => (Ingest::Running { stage: Stage::Hash, media, with_metadata }, Action::ComputeHash),
        Stage::Hash => (
            Ingest::Running { stage: Stage::DedupCheck, media, with_metadata },
            Action::LookupHash,
        ),
        Stage::DedupCheck => (
            Ingest::Running { stage: Stage::Decode, media, with_metadata },
            Action::Decode(media),
        ),
        Stage::Decode => (
            Ingest::Running { stage: Stage::Detect, media, with_metadata },
            Action::DetectFaces,
        ),
        Stage::Detect => (
            Ingest::Running { stage: Stage::RenderThumbnail, media, with_metadata },
            Action::RenderThumbnail,
        ),
        Stage::RenderThumbnail => (
            Ingest::Running { stage: Stage::RenderPreview, media, with_metadata },
            Action::RenderPreview,
        ),
        Stage::RenderPreview => (
            Ingest::Running { stage: Stage::ExtractMetadata, media, with_metadata },
            Action::ExtractMetadata,
        ),
        Stage::ExtractMetadata => (
            Ingest::Running { stage: Stage::Emit, media, with_metadata },
            Action::Emit,
        ),
        Stage::Emit => (Ingest::Finished(Outcome::Imported { with_metadata }), Action::Stop),
    }
}

/// Where the handling of a file starts: a name of no known format is skipped,
/// any other file is to be hashed.
pub open spec fn spec_start(name: Seq<char>) -> (Ingest, Action) {
    match spec_file_type(name) {
        None => (Ingest::Finished(Outcome::Skipped), Action::Stop),
        Some(t) => advance(Stage::Classify, t.spec_media_type(), false),
    }
}

/// The state after a report, and what is asked for next.
///
/// A finished file stays finished. A duplicate ends the file as already
/// present, at whatever step it is reported. A failure ends the file as
/// failed at the step it was reported for, but for the metadata: without
/// metadata the file is emitted all the same. On success the next step is
/// asked for.
pub open spec fn spec_step(state: Ingest, event: Event) -> (Ingest, Action) {
    match state {
        Ingest::Finished(_) => (state, Action::Stop),
        Ingest::Running { stage, media, with_metadata } => match event {
            Event::Duplicate(id) => (Ingest::Finished(Outcome::AlreadyPresent { id }), Action::Stop),
            Event::Failed(kind) => if stage == Stage::ExtractMetadata {
                advance(stage, media, false)
            } else {
                (Ingest::Finished(Outcome::Failed { stage, kind }), Action::Stop)
            },
            Event::Succeeded => if stage == Stage::ExtractMetadata {
                advance(stage, media, true)
            } else {
                advance(stage, media, with_metadata)
            },
        },
    }
}

/// The state after a run of reports.
pub open spec fn run(state: Ingest, events: Seq<Event>) -> Ingest
    decreases events.len(),
{
    if events.len() == 0 {
        state
    } else {
        spec_step(run(state, events.drop_last()), events.last()).0
    }
}

/// What is asked for after a run of reports that is not empty.
pub open spec fn last_action(state: Ingest, events: Seq<Event>) -> Action
    recommends
        events.len() > 0,
{
    spec_step(run(state, events.drop_last()), events.last()).1
}

fn next(stage: Stage, media: MediaType, with_metadata: bool) -> (r: (Ingest, Action))
    ensures
        r == advance(stage, media, with_metadata),
{
    match stage {
        Stage::Classify => (Ingest::Running { stage: Stage::Hash, media, with_metadata }, Action::ComputeHash),
        Stage::Hash => (
            Ingest::Running { stage: Stage::DedupCheck, media, with_metadata },
            Action::LookupHash,
        ),
        Stage::DedupCheck => (
            Ingest::Running { stage: Stage::Decode, media, with_metadata },
            Action::Decode(media),
        ),
        Stage::Decode => (
            Ingest::Running { stage: Stage::Detect, media, with_metadata },
            Action::DetectFaces,
        ),
        Stage::Detect => (
            Ingest::Running { stage: Stage::RenderThumbnail, media, with_metadata },
            Action::RenderThumbnail,
        ),
        Stage::RenderThumbnail => (
            Ingest::Running { stage: Stage::RenderPreview, media, with_metadata },
            Action::RenderPreview,
        ),
        Stage::RenderPreview => (
            Ingest::Running { stage: Stage::ExtractMetadata, media, with_metadata },
            Action::ExtractMetadata,
        ),
        Stage::ExtractMetadata => (
            Ingest::Running { stage: Stage::Emit, media, with_metadata },
            Action::Emit,
        ),
        Stage::Emit => (Ingest::Finished(Outcome::Imported { with_metadata }), Action::Stop),
    }
}

impl Ingest {
    /// Begins the handling of the file of this name: see `spec_start`.
    pub fn start(file_name: &str) -> (r: (Ingest, Action))
        ensures
            r == spec_start(file_name@),
    {
        match file_type_from_path(file_name) {
            None => (Ingest::Finished(Outcome::Skipped), Action::Stop),
            Some(t) => next(Stage::Classify, t.media_type(), false),
        }
    }

    /// Takes the report about the step that was asked for: see `spec_step`.
    pub fn step(&self, event: Event) -> (r: (Ingest, Action))
        ensures
            r == spec_step(*self, event),
    {
        match *self {
            Ingest::Finished(_) => (*self, Action::Stop),
            Ingest::Running { stage, media, with_metadata } => match event {
                Event::Duplicate(id) => (
                    Ingest::Finished(Outcome::AlreadyPresent { id }),
                    Action::Stop,
                ),
                Event::Failed(kind) => match stage {
                    Stage::ExtractMetadata => next(stage, media, false),
                    _ => (Ingest::Finished(Outcome::Failed { stage, kind }), Action::Stop),
                },
                Event::Succeeded => match stage {
                    Stage::ExtractMetadata => next(stage, media, true),
                    _ => next(stage, media, with_metadata),
                },
            },
        }
    }

    /// The outcome, once the file is done with.
    pub fn outcome(&self) -> (r: Option<Outcome>)
        ensures
            r == match *self {
                Ingest::Finished(o) => Some(o),
                Ingest::Running { .. } => None,
            },
    {
        match *self {
            Ingest::Finished(o) => Some(o),
            Ingest::Running { .. } => None,
        }
    }
}

/// What the catalog is handed for an imported file.
#[derive(Clone, Debug, PartialEq, Eq)]
pub struct CatalogRecord {
    pub media_type: EntityType,
    pub original_path: String,
    pub thumbnail_path: String,
    pub preview_path: String,
    /// Size of the original in bytes.
    pub size: u64,
    pub sha3: Sha3,
    /// Time of capture in seconds since the epoch, where the metadata has it.
    pub created: Option<i64>,
    /// Place of capture, where the metadata has it.
    pub location: Option<Coordinates>,
}

/// Puts together what the catalog is handed for an imported file: its kind
/// by its name, the places of its artifacts, its size and hash, and from its
/// metadata, where it has any, the time and the place of capture. A name of
/// no known format is refused with `UnknownFormat`.
pub fn catalog_record(
    file_name: &str,
    paths: ArtifactSet,
    size: u64,
    sha3: Sha3,
    metadata: Option<Metadata>,
) -> (r: Result<CatalogRecord, Error>)
    ensures
        r is Ok <==> spec_file_type(file_name@) is Some,
        r is Err ==> r->Err_0 == (Error { kind: ErrorKind::UnknownFormat }),
        r is Ok ==> ({
            let record = r->Ok_0;
            &&& record.media_type == spec_file_type(
                file_name@,
            )->Some_0.spec_media_type().spec_entity_type()
            &&& record.original_path == paths.original_path
            &&& record.thumbnail_path == paths.thumbnail_path
            &&& record.preview_path == paths.preview_path
            &&& record.size == size
            &&& record.sha3 == sha3
            &&& record.created == match metadata {
                Some(m) => m.date_time,
                None => None,
            }
            &&& record.location == match metadata {
                Some(m) => m.gps_location,
                None => None,
            }
        }),
{
    let media_type = match get_media_type(file_name) {
        Ok(t) => t,
        Err(e) => {
            return Err(e);
        },
    };
    let (created, location) = match metadata {
        Some(m) => (m.date_time, m.gps_location),
        None => (None, None),
    };
    Ok(
        CatalogRecord {
            media_type,
            original_path: paths.original_path,
            thumbnail_path: paths.thumbnail_path,
            preview_path: paths.preview_path,
            size,
            sha3,
            created,
            location,
        },
    )
}

/// A finished file stays as it is, whatever is reported, and nothing more is
/// asked for.
pub proof fn lemma_finished_stays(outcome: Outcome, events: Seq<Event>)
    ensures
        run(Ingest::Finished(outcome), events) == Ingest::Finished(outcome),
        events.len() > 0 ==> last_action(Ingest::Finished(outcome), events) == Action::Stop,
    decreases events.len(),
{
    if events.len() > 0 {
        lemma_finished_stays(outcome, events.drop_last());
    }
}

/// After a hit of the dedup check the file is already present, and whatever
/// is reported afterwards, no rendering is asked for.
pub proof fn lemma_duplicate_renders_nothing(media: MediaType, id: i32, later: Seq<Event>)
    ensures
        ({
            let waiting = Ingest::Running {
                stage: Stage::DedupCheck,
                media,
                with_metadata: false,
            };
            let hit = spec_step(waiting, Event::Duplicate(id));
            &&& hit.0 == Ingest::Finished(Outcome::AlreadyPresent { id })
            &&& hit.1 == Action::Stop
            &&& run(hit.0, later) == hit.0
            &&& later.len() > 0 ==> !last_action(hit.0, later).spec_renders()
        }),
{
    lemma_finished_stays(Outcome::AlreadyPresent { id }, later);
}

/// A file whose metadata cannot be extracted is emitted all the same, without
/// metadata; the failure of any other step ends the file at that step, and
/// only the file.
pub proof fn lemma_failure_is_per_file(stage: Stage, media: MediaType, flag: bool, kind: ErrorKind)
    ensures
        ({
            let r = spec_step(
                Ingest::Running { stage, media, with_metadata: flag },
                Event::Failed(kind),
            );
            if stage == Stage::ExtractMetadata {
                r == (
                    Ingest::Running { stage: Stage::Emit, media, with_metadata: false },
                    Action::Emit,
                )
            } else {
                r == (Ingest::Finished(Outcome::Failed { stage, kind }), Action::Stop)
            }
        }),
{
}

/// The catalog as far as the dedup check sees it: the identity under which
/// each known content hash is filed.
pub type Known = Map<Seq<u8>, i32>;

/// What the dedup check reports for a content.
pub open spec fn dedup_report(known: Known, content: Seq<u8>) -> Event {
    if known.contains_key(sha3_256(content)) {
        Event::Duplicate(known[sha3_256(content)])
    } else {
        Event::Succeeded
    }
}

/// The state of a file of this name and content once it was hashed, checked
/// against the catalog, and `later` was reported for the steps after that.
pub open spec fn import_run(known: Known, name: Seq<char>, content: Seq<u8>, later: Seq<Event>) -> Ingest {
    let hashed = spec_step(spec_start(name).0, Event::Succeeded).0;
    let checked = spec_step(hashed, dedup_report(known, content)).0;
    run(checked, later)
}

/// The catalog after the import of a file that was filed under `id` if it
/// was imported.
pub open spec fn known_after(known: Known, content: Seq<u8>, id: i32, end: Ingest) -> Known {
    match end {
        Ingest::Finished(Outcome::Imported { .. }) => known.insert(sha3_256(content), id),
        _ => known,
    }
}

/// Importing the same content twice leaves one catalog entry: once a file was
/// imported, a file of the same content, under whatever name of a known
/// format, ends as already present under the first one's identity, the
/// catalog stays as it was, and no rendering is asked for at any point.
pub proof fn lemma_import_is_idempotent(
    known: Known,
    first_name: Seq<char>,
    second_name: Seq<char>,
    content: Seq<u8>,
    id: i32,
    first_reports: Seq<Event>,
    second_reports: Seq<Event>,
)
    requires
        import_run(known, first_name, content, first_reports) is Finished,
        import_run(known, first_name, content, first_reports)->Finished_0 is Imported,
        spec_file_type(second_name) is Some,
    ensures
        !known.contains_key(sha3_256(content)),
        ({
            let first = import_run(known, first_name, content, first_reports);
            let after_first = known_after(known, content, id, first);
            let second = import_run(after_first, second_name, content, second_reports);
            let after_second = known_after(after_first, content, id, second);
            &&& second == Ingest::Finished(Outcome::AlreadyPresent { id })
            &&& after_second == after_first
            &&& after_first.dom() == known.dom().insert(sha3_256(content))
            &&& forall|k: int|
                0 < k <= second_reports.len() ==> !(#[trigger] last_action(
                    spec_step(
                        spec_step(spec_start(second_name).0, Event::Succeeded).0,
                        dedup_report(after_first, content),
                    ).0,
                    second_reports.take(k),
                )).spec_renders()
        }),
{
    let first = import_run(known, first_name, content, first_reports);
    if known.contains_key(sha3_256(content)) {
        // The first file would have ended as already present, or skipped.
        let begun = spec_step(spec_start(first_name).0, Event::Succeeded).0;
        let found = spec_step(begun, dedup_report(known, content)).0;
        assert(found is Finished);
        lemma_finished_stays(found->Finished_0, first_reports);
        assert(false);
    }
    let after_first = known_after(known, content, id, first);
    let hashed = spec_step(spec_start(second_name).0, Event::Succeeded).0;
    let checked = spec_step(hashed, dedup_report(after_first, content)).0;
    assert(after_first.contains_key(sha3_256(content)));
    assert(checked == Ingest::Finished(Outcome::AlreadyPresent { id }));
    lemma_finished_stays(Outcome::AlreadyPresent { id }, second_reports);
    assert forall|k: int| 0 < k <= second_reports.len() implies !(#[trigger] last_action(
        checked,
        second_reports.take(k),
    )).spec_renders() by {
        lemma_finished_stays(Outcome::AlreadyPresent { id }, second_reports.take(k));
    }
    assert(after_first.dom() =~= known.dom().insert(sha3_256(content)));
}

} // verus!
