use media_ingest::error::{Error, ErrorKind};
use media_ingest::paths::{add_suffix, ArtifactSet};

#[test]
fn suffix_and_extension_replace_the_extension() {
    assert_eq!(add_suffix("dest/b.png", "_preview", ".jpg").unwrap(), "dest/b_preview.jpg");
    assert_eq!(add_suffix("photo.jpeg", "_thumbnail", ".jpg").unwrap(), "photo_thumbnail.jpg");
    assert_eq!(add_suffix("a/b/c", "_x", ".y").unwrap(), "a/b/c_x.y");
    assert_eq!(add_suffix("a.b/c.d.e", "_x", ".y").unwrap(), "a.b/c.d_x.y");
    assert_eq!(add_suffix(".hidden", "_x", ".y").unwrap(), ".hidden_x.y");
    assert_eq!(add_suffix("a", "", "").unwrap(), "a");
    assert_eq!(add_suffix("dir/b.png/", "_x", ".y").unwrap(), "dir/b_x.y");
    assert_eq!(add_suffix("dir//", "_x", ".y").unwrap(), "dir_x.y");
}

#[test]
fn path_without_a_file_name_is_refused() {
    assert_eq!(add_suffix("", "_x", ".y"), Err(Error { kind: ErrorKind::IoFailure }));
    assert_eq!(add_suffix("/", "_x", ".y"), Err(Error { kind: ErrorKind::IoFailure }));
    assert_eq!(add_suffix("///", "_x", ".y"), Err(Error { kind: ErrorKind::IoFailure }));
    assert!(ArtifactSet::for_file("").is_err());
    assert!(ArtifactSet::for_file("/").is_err());
    assert_eq!(ArtifactSet::for_upload("").unwrap_err().kind, ErrorKind::IoFailure);
}

#[test]
fn artifacts_lie_under_the_root_by_the_stem_of_the_file() {
    let set = ArtifactSet::for_file("/home/me/pictures/IMG_0001.JPG").unwrap();
    assert_eq!(set.original_path, "dest/IMG_0001.JPG");
    assert_eq!(set.thumbnail_path, "dest/IMG_0001_thumbnail.jpg");
    assert_eq!(set.preview_path, "dest/IMG_0001_preview.jpg");
    let set = ArtifactSet::for_file("clip.final.mp4").unwrap();
    assert_eq!(set.original_path, "dest/clip.final.mp4");
    assert_eq!(set.thumbnail_path, "dest/clip.final_thumbnail.jpg");
    assert_eq!(set.preview_path, "dest/clip.final_preview.jpg");
}

#[test]
fn slashes_at_the_end_of_a_path_are_not_part_of_its_name() {
    let set = ArtifactSet::for_file("in/clip.mov/").unwrap();
    assert_eq!(set.original_path, "dest/clip.mov");
    assert_eq!(set.thumbnail_path, "dest/clip_thumbnail.jpg");
    assert_eq!(set.preview_path, "dest/clip_preview.jpg");
}

#[test]
fn artifacts_of_an_upload_keep_the_whole_name() {
    let set = ArtifactSet::for_upload("IMG_0001.JPG").unwrap();
    assert_eq!(set.original_path, "dest/IMG_0001.JPG");
    assert_eq!(set.thumbnail_path, "dest/IMG_0001.JPG_thumbnail.jpg");
    assert_eq!(set.preview_path, "dest/IMG_0001.JPG_preview.jpg");
}
