use vstd::prelude::*;
use crate::error::{Error, ErrorKind};
use crate::format::{final_component, find_last, trim_slashes, trimmed};
use crate::text::{chars_of, last_index_of, string_of};

verus! {

/// Where the copy of the original and its two renditions are stored.
#[derive(Clone, Debug, PartialEq, Eq)]
pub struct ArtifactSet {
    pub original_path: String,
    pub thumbnail_path: String,
    pub preview_path: String,
}

/// A file name without its extension: what stands before its last `.`, or all
/// of it where it has no `.` but as its first character.
pub open spec fn file_stem(name: Seq<char>) -> Seq<char> {
    let dot = last_index_of(name, '.');
    if dot <= 0 {
        name
    } else {
        name.take(dot)
    }
}

/// A path with `suffix` and `extension` in place of the extension of its last
/// component, and without the slashes at its end; `None` where the path has
/// no last component.
pub open spec fn spec_add_suffix(path: Seq<char>, suffix: Seq<char>, extension: Seq<char>) -> Option<
    Seq<char>,
> {
    let name = final_component(path);
    if name.len() == 0 {
        None
    } else {
        Some(
            trimmed(path).take(trimmed(path).len() - name.len()) + file_stem(name) + suffix
                + extension,
        )
    }
}

/// The directory that holds the catalog's files.
pub open spec fn dest_root() -> Seq<char> {
    "dest/"@
}

pub open spec fn spec_original_path(file_name: Seq<char>) -> Seq<char> {
    dest_root() + final_component(file_name)
}

pub open spec fn spec_thumbnail_path(file_name: Seq<char>) -> Seq<char> {
    dest_root() + file_stem(final_component(file_name)) + "_thumbnail"@ + ".jpg"@
}

pub open spec fn spec_preview_path(file_name: Seq<char>) -> Seq<char> {
    dest_root() + file_stem(final_component(file_name)) + "_preview"@ + ".jpg"@
}

/// The places of the artifacts of a file that came as bytes under a bare
/// name: under the root, the bytes under the name, the thumbnail and the
/// preview under the whole name with `_thumbnail.jpg` and `_preview.jpg`.
pub open spec fn is_upload_set(set: ArtifactSet, file_name: Seq<char>) -> bool {
    &&& set.original_path@ == dest_root() + file_name
    &&& set.thumbnail_path@ == dest_root() + file_name + "_thumbnail"@ + ".jpg"@
    &&& set.preview_path@ == dest_root() + file_name + "_preview"@ + ".jpg"@
}

fn append_text(out: &mut Vec<char>, text: &str)
    ensures
        final(out)@ == old(out)@ + text@,
{
    let v = chars_of(text);
    let ghost before = out@;
    let mut i: usize = 0;
    while i < v.len()
        invariant
            i <= v.len(),
            v@ == text@,
            out@ == before + v@.take(i as int),
        decreases v.len() - i,
    {
        out.push(v[i]);
        assert(v@.take(i + 1) == v@.take(i as int).push(v@[i as int]));
        i += 1;
    }
    assert(v@.take(i as int) == v@);
}

fn append_range(out: &mut Vec<char>, v: &Vec<char>, from: usize, to: usize)
    requires
        from <= to <= v.len(),
    ensures
        final(out)@ == old(out)@ + v@.subrange(from as int, to as int),
{
    let ghost before = out@;
    let mut i: usize = from;
    while i < to
        invariant
            from <= i <= to <= v.len(),
            out@ == before + v@.subrange(from as int, i as int),
        decreases to - i,
    {
        out.push(v[i]);
        assert(v@.subrange(from as int, i + 1) == v@.subrange(from as int, i as int).push(
            v@[i as int],
        ));
        i += 1;
    }
}

/// Where the last component of a path without slashes at its end starts and
/// where its stem ends.
fn stem_bounds(v: &Vec<char>) -> (r: (usize, usize))
    requires
        trimmed(v@) == v@,
    ensures
        r.0 <= r.1 <= v.len(),
        v@.skip(r.0 as int) == final_component(v@),
        v@.subrange(r.0 as int, r.1 as int) == file_stem(final_component(v@)),
{
    assert(v@.skip(0) == v@);
    let start: usize = match find_last(v, 0, '/') {
        Some(i) => i + 1,
        None => 0,
    };
    let ghost name = v@.skip(start as int);
    match find_last(v, start, '.') {
        Some(dot) => {
            if dot > 0 {
                assert(name.take(dot as int) == v@.subrange(start as int, start + dot));
                (start, start + dot)
            } else {
                assert(name == v@.subrange(start as int, v@.len() as int));
                (start, v.len())
            }
        },
        None => {
            assert(name == v@.subrange(start as int, v@.len() as int));
            (start, v.len())
        },
    }
}

/// Puts a suffix and an extension in the place of the extension of a path's
/// last component, as in `a/b.png` to `a/b_preview.jpg`. A path without a
/// last component is refused with `IoFailure`.
pub fn add_suffix(img_path: &str, suffix: &str, extension: &str) -> (r: Result<String, Error>)
    ensures
        match r {
            Ok(path) => spec_add_suffix(img_path@, suffix@, extension@) == Some(path@),
            Err(e) => e.kind == ErrorKind::IoFailure && spec_add_suffix(
                img_path@,
                suffix@,
                extension@,
            ) is None,
        },
{
    let mut v = chars_of(img_path);
    trim_slashes(&mut v);
    let (start, end) = stem_bounds(&v);
    if start == v.len() {
        return Err(Error::new(ErrorKind::IoFailure));
    }
    let mut out: Vec<char> = Vec::new();
    append_range(&mut out, &v, 0, end);
    append_text(&mut out, suffix);
    append_text(&mut out, extension);
    proof {
        let name = final_component(v@);
        assert(v@.subrange(0, end as int) =~= v@.take(v@.len() - name.len()) + file_stem(name));
        assert(out@ =~= v@.take(v@.len() - name.len()) + file_stem(name) + suffix@ + extension@);
    }
    Ok(string_of(&out))
}

impl ArtifactSet {
    /// The places of the artifacts of the file of this name: under the
    /// root, the original under its own name, the thumbnail and the preview
    /// under its stem with `_thumbnail.jpg` and `_preview.jpg`. A name without
    /// a last component is refused with `IoFailure`.
    pub fn for_file(file_name: &str) -> (r: Result<ArtifactSet, Error>)
        ensures
            r is Ok <==> final_component(file_name@).len() > 0,
            r is Ok ==> r->Ok_0.original_path@ == spec_original_path(file_name@),
            r is Ok ==> r->Ok_0.thumbnail_path@ == spec_thumbnail_path(file_name@),
            r is Ok ==> r->Ok_0.preview_path@ == spec_preview_path(file_name@),
            r is Err ==> r->Err_0 == (Error { kind: ErrorKind::IoFailure }),
    {
        let mut v = chars_of(file_name);
        trim_slashes(&mut v);
        let (start, end) = stem_bounds(&v);
        if start == v.len() {
            return Err(Error::new(ErrorKind::IoFailure));
        }
        let mut original: Vec<char> = Vec::new();
        append_text(&mut original, "dest/");
        append_range(&mut original, &v, start, v.len());
        assert(v@.subrange(start as int, v@.len() as int) == v@.skip(start as int));
        let mut thumbnail: Vec<char> = Vec::new();
        append_text(&mut thumbnail, "dest/");
        append_range(&mut thumbnail, &v, start, end);
        append_text(&mut thumbnail, "_thumbnail");
        append_text(&mut thumbnail, ".jpg");
        let mut preview: Vec<char> = Vec::new();
        append_text(&mut preview, "dest/");
        append_range(&mut preview, &v, start, end);
        append_text(&mut preview, "_preview");
        append_text(&mut preview, ".jpg");
        assert(Seq::<char>::empty() + "dest/"@ =~= "dest/"@);
        Ok(
            ArtifactSet {
                original_path: string_of(&original),
                thumbnail_path: string_of(&thumbnail),
                preview_path: string_of(&preview),
            },
        )
    }

    /// The places of the artifacts of a file that came as bytes under a bare
    /// name: see `is_upload_set`. An empty name is refused with `IoFailure`.
    pub fn for_upload(file_name: &str) -> (r: Result<ArtifactSet, Error>)
        ensures
            r is Ok <==> file_name@.len() > 0,
            r is Ok ==> is_upload_set(r->Ok_0, file_name@),
            r is Err ==> r->Err_0 == (Error { kind: ErrorKind::IoFailure }),
    {
        let v = chars_of(file_name);
        if v.len() == 0 {
            return Err(Error::new(ErrorKind::IoFailure));
        }
        assert(v@.subrange(0, v@.len() as int) == v@);
        let mut original: Vec<char> = Vec::new();
        append_text(&mut original, "dest/");
        append_range(&mut original, &v, 0, v.len());
        let mut thumbnail: Vec<char> = Vec::new();
        append_text(&mut thumbnail, "dest/");
        append_range(&mut thumbnail, &v, 0, v.len());
        append_text(&mut thumbnail, "_thumbnail");
        append_text(&mut thumbnail, ".jpg");
        let mut preview: Vec<char> = Vec::new();
        append_text(&mut preview, "dest/");
        append_range(&mut preview, &v, 0, v.len());
        append_text(&mut preview, "_preview");
        append_text(&mut preview, ".jpg");
        assert(Seq::<char>::empty() + "dest/"@ =~= "dest/"@);
        Ok(
            ArtifactSet {
                original_path: string_of(&original),
                thumbnail_path: string_of(&thumbnail),
                preview_path: string_of(&preview),
            },
        )
    }
}

} // verus!
