use media_ingest::error::{Error, ErrorKind};
use media_ingest::format::MediaType;
use media_ingest::hash::Sha3;
use media_ingest::coord::Coordinates;
use media_ingest::format::EntityType;
use media_ingest::ingest::{catalog_record, Action, Event, Ingest, Outcome, Stage};
use media_ingest::metadata::Metadata;
use media_ingest::paths::ArtifactSet;
use media_ingest::metadata::ExtractError;

/// Runs a file through the steps against a catalog of known hashes, every
/// step but the dedup check succeeding.
fn import(known: &mut Vec<(Sha3, i32)>, name: &str, content: &[u8]) -> (Outcome, Vec<Action>) {
    let (mut state, mut action) = Ingest::start(name);
    let mut asked = vec![action];
    let hash = Sha3::from_bytes(content);
    loop {
        let event = match action {
            Action::Stop => break,
            Action::LookupHash => match known.iter().find(|(h, _)| *h == hash) {
                Some((_, id)) => Event::Duplicate(*id),
                None => Event::Succeeded,
            },
            Action::Emit => {
                known.push((hash.clone(), known.len() as i32 + 1));
                Event::Succeeded
            }
            _ => Event::Succeeded,
        };
        let (next, then) = state.step(event);
        state = next;
        action = then;
        asked.push(action);
    }
    (state.outcome().unwrap(), asked)
}

#[test]
fn file_of_unknown_format_is_skipped() {
    let (state, action) = Ingest::start("notes.txt");
    assert_eq!(state, Ingest::Finished(Outcome::Skipped));
    assert_eq!(action, Action::Stop);
    assert_eq!(state.outcome(), Some(Outcome::Skipped));
}

#[test]
fn steps_follow_one_another() {
    let (mut state, action) = Ingest::start("a.jpg");
    assert_eq!(action, Action::ComputeHash);
    assert_eq!(state.outcome(), None);
    let expected = [
        Action::LookupHash,
        Action::Decode(MediaType::Image),
        Action::DetectFaces,
        Action::RenderThumbnail,
        Action::RenderPreview,
        Action::ExtractMetadata,
        Action::Emit,
        Action::Stop,
    ];
    for want in expected {
        let (next, action) = state.step(Event::Succeeded);
        assert_eq!(action, want);
        state = next;
    }
    assert_eq!(state, Ingest::Finished(Outcome::Imported { with_metadata: true }));
    assert_eq!(state.step(Event::Succeeded), (state, Action::Stop));
    assert_eq!(state.step(Event::Failed(ErrorKind::IoFailure)), (state, Action::Stop));
    assert_eq!(state.step(Event::Duplicate(3)), (state, Action::Stop));
}

#[test]
fn video_and_raw_image_are_decoded_as_such() {
    let (state, _) = Ingest::start("clip.MOV");
    let (state, _) = state.step(Event::Succeeded);
    assert_eq!(state.step(Event::Succeeded).1, Action::Decode(MediaType::Video));
    let (state, _) = Ingest::start("shot.cr2");
    let (state, _) = state.step(Event::Succeeded);
    assert_eq!(state.step(Event::Succeeded).1, Action::Decode(MediaType::RawImage));
}

#[test]
fn identical_bytes_in_one_batch_are_imported_once() {
    let mut known = Vec::new();
    let content = b"the very same bytes";
    let (first, first_actions) = import(&mut known, "one.jpg", content);
    assert_eq!(first, Outcome::Imported { with_metadata: true });
    assert_eq!(first_actions.iter().filter(|a| a.renders()).count(), 2);
    let (second, second_actions) = import(&mut known, "two.png", content);
    assert_eq!(second, Outcome::AlreadyPresent { id: 1 });
    assert_eq!(second_actions, vec![Action::ComputeHash, Action::LookupHash, Action::Stop]);
    assert!(second_actions.iter().all(|a| !a.renders()));
    assert_eq!(known.len(), 1);
    let (third, _) = import(&mut known, "three.jpg", b"other bytes");
    assert_eq!(third, Outcome::Imported { with_metadata: true });
    assert_eq!(known.len(), 2);
}

#[test]
fn failure_ends_the_file_at_its_step() {
    let stages = [
        (Stage::Hash, ErrorKind::IoFailure),
        (Stage::DedupCheck, ErrorKind::IoFailure),
        (Stage::Decode, ErrorKind::DecodeFailure),
        (Stage::Detect, ErrorKind::DetectionFailure),
        (Stage::RenderThumbnail, ErrorKind::IoFailure),
        (Stage::RenderPreview, ErrorKind::IoFailure),
    ];
    for (i, (stage, kind)) in stages.iter().enumerate() {
        let (mut state, _) = Ingest::start("a.mp4");
        for _ in 0..i {
            state = state.step(Event::Succeeded).0;
        }
        let (end, action) = state.step(Event::Failed(*kind));
        assert_eq!(end, Ingest::Finished(Outcome::Failed { stage: *stage, kind: *kind }));
        assert_eq!(action, Action::Stop);
    }
}

#[test]
fn missing_metadata_does_not_block_the_import() {
    let (mut state, _) = Ingest::start("a.jpg");
    for _ in 0..6 {
        state = state.step(Event::Succeeded).0;
    }
    let (state, action) = state.step(Event::Failed(ErrorKind::MetadataUnavailable));
    assert_eq!(action, Action::Emit);
    let (state, action) = state.step(Event::Succeeded);
    assert_eq!(action, Action::Stop);
    assert_eq!(state, Ingest::Finished(Outcome::Imported { with_metadata: false }));
}

#[test]
fn failure_to_emit_fails_the_file() {
    let (mut state, _) = Ingest::start("a.jpg");
    for _ in 0..7 {
        state = state.step(Event::Succeeded).0;
    }
    let (state, _) = state.step(Event::Failed(ErrorKind::IoFailure));
    assert_eq!(
        state,
        Ingest::Finished(Outcome::Failed { stage: Stage::Emit, kind: ErrorKind::IoFailure })
    );
}

#[test]
fn duplicate_found_when_emitting_is_already_present() {
    let (mut state, _) = Ingest::start("a.jpg");
    for _ in 0..7 {
        state = state.step(Event::Succeeded).0;
    }
    let (state, action) = state.step(Event::Duplicate(7));
    assert_eq!(state, Ingest::Finished(Outcome::AlreadyPresent { id: 7 }));
    assert_eq!(action, Action::Stop);
}

#[test]
fn only_rendering_writes_derivatives() {
    assert!(Action::RenderThumbnail.renders());
    assert!(Action::RenderPreview.renders());
    for a in [
        Action::ComputeHash,
        Action::LookupHash,
        Action::Decode(MediaType::Image),
        Action::DetectFaces,
        Action::ExtractMetadata,
        Action::Emit,
        Action::Stop,
    ] {
        assert!(!a.renders());
    }
}

#[test]
fn kinds_of_error_abort_the_file_or_not() {
    for kind in [
        ErrorKind::IoFailure,
        ErrorKind::DecodeFailure,
        ErrorKind::ExternalToolFailure,
        ErrorKind::DetectionFailure,
    ] {
        assert!(kind.aborts_file());
    }
    for kind in
        [ErrorKind::UnknownFormat, ErrorKind::MetadataUnavailable, ErrorKind::DuplicateContent]
    {
        assert!(!kind.aborts_file());
    }
    assert_eq!(Error::new(ErrorKind::UnknownFormat).message(), "Unknown file type");
    assert_eq!(Error::new(ErrorKind::DuplicateContent).kind, ErrorKind::DuplicateContent);
}

#[test]
fn extraction_failures_are_filed_under_a_kind() {
    assert_eq!(ExtractError::UnknownFormat.kind(), ErrorKind::UnknownFormat);
    assert_eq!(ExtractError::MalformedProbe.kind(), ErrorKind::ExternalToolFailure);
    for e in [
        ExtractError::NoTagBlock,
        ExtractError::NoDimensions,
        ExtractError::Undecodable,
        ExtractError::NoDuration,
        ExtractError::NoStreams,
        ExtractError::NoVideoStream,
        ExtractError::SeveralVideoStreams,
    ] {
        assert_eq!(e.kind(), ErrorKind::MetadataUnavailable);
    }
}

#[test]
fn catalog_is_handed_kind_places_size_hash_time_and_place() {
    let paths = ArtifactSet::for_file("in/IMG_1.jpg").unwrap();
    let hash = Sha3::from_bytes(b"content");
    let mut metadata = Metadata::bare(4000, 3000);
    metadata.date_time = Some(1_577_934_245);
    metadata.gps_location = Some(Coordinates { latitude: 59_000_000, longitude: 18_000_000 });
    let record =
        catalog_record("in/IMG_1.jpg", paths.clone(), 1234, hash.clone(), Some(metadata)).unwrap();
    assert_eq!(record.media_type, EntityType::Image);
    assert_eq!(record.original_path, "dest/IMG_1.jpg");
    assert_eq!(record.thumbnail_path, "dest/IMG_1_thumbnail.jpg");
    assert_eq!(record.preview_path, "dest/IMG_1_preview.jpg");
    assert_eq!(record.size, 1234);
    assert_eq!(record.sha3, hash);
    assert_eq!(record.created, Some(1_577_934_245));
    assert_eq!(record.location, Some(Coordinates { latitude: 59_000_000, longitude: 18_000_000 }));
    let bare = catalog_record("clip.mov", paths.clone(), 0, hash.clone(), None).unwrap();
    assert_eq!(bare.media_type, EntityType::Video);
    assert_eq!((bare.created, bare.location), (None, None));
    let refused = catalog_record("notes.txt", paths, 0, hash, None);
    assert_eq!(refused.unwrap_err().kind, ErrorKind::UnknownFormat);
}
