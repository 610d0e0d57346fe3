use vstd::prelude::*;
use crate::error::{Error, ErrorKind};
use crate::text::{ascii_lowercase, chars_of, last_index_of, lemma_last_index_of, tail_is_word};

verus! {

/// Coarse processing category of a media file.
#[derive(Clone, Copy, Debug, PartialEq, Eq, Structural)]
pub enum MediaType {
    Image,
    RawImage,
    Video,
}

/// Container format of a media file, told from the extension of its name.
#[derive(Clone, Copy, Debug, PartialEq, Eq, Structural)]
pub enum FileType {
    Mp4,
    Mov,
    Jpeg,
    Png,
    Cr2,
    Nef,
    Dng,
}

/// The kind under which the catalog files an entry.
#[derive(Clone, Copy, Debug, PartialEq, Eq, Structural)]
pub enum EntityType {
    Image,
    Video,
}

impl FileType {
    pub open spec fn spec_media_type(self) -> MediaType {
        match self {
            FileType::Mp4 | FileType::Mov => MediaType::Video,
            FileType::Jpeg | FileType::Png => MediaType::Image,
            FileType::Cr2 | FileType::Nef | FileType::Dng => MediaType::RawImage,
        }
    }

    /// The processing category that governs how a file of this format is handled.
    pub fn media_type(&self) -> (class: MediaType)
        ensures
            class == self.spec_media_type(),
    {
        match self {
            FileType::Mp4 | FileType::Mov => MediaType::Video,
            FileType::Jpeg | FileType::Png => MediaType::Image,
            FileType::Cr2 | FileType::Nef | FileType::Dng => MediaType::RawImage,
        }
    }
}

impl MediaType {
    pub open spec fn spec_entity_type(self) -> EntityType {
        match self {
            MediaType::Image | MediaType::RawImage => EntityType::Image,
            MediaType::Video => EntityType::Video,
        }
    }
}

/// A path without the slashes at its end.
pub open spec fn trimmed(path: Seq<char>) -> Seq<char>
    decreases path.len(),
{
    if path.len() > 0 && path.last() == '/' {
        trimmed(path.drop_last())
    } else {
        path
    }
}

/// The last component of a path: what follows the last `/` that is not at
/// the path's end, without the slashes at the end.
pub open spec fn final_component(path: Seq<char>) -> Seq<char> {
    trimmed(path).skip(last_index_of(trimmed(path), '/') + 1)
}

/// Takes the slashes off the end of a path.
pub(crate) fn trim_slashes(v: &mut Vec<char>)
    ensures
        final(v)@ == trimmed(old(v)@),
        trimmed(final(v)@) == final(v)@,
{
    while v.len() > 0 && v[v.len() - 1] == '/'
        invariant
            trimmed(v@) == trimmed(old(v)@),
        decreases v.len(),
    {
        let ghost before = v@;
        v.pop();
        assert(v@ == before.drop_last());
    }
}

/// The extension of a path: what follows the last `.` of its last component.
/// A component without a `.`, or whose only `.` is its first character, has none.
pub open spec fn extension(path: Seq<char>) -> Option<Seq<char>> {
    let name = final_component(path);
    let dot = last_index_of(name, '.');
    if dot <= 0 {
        None
    } else {
        Some(name.skip(dot + 1))
    }
}

/// The format that an extension stands for, whatever its case.
pub open spec fn format_of_extension(ext: Seq<char>) -> Option<FileType> {
    let e = ascii_lowercase(ext);
    if e == "jpg"@ || e == "jpeg"@ {
        Some(FileType::Jpeg)
    } else if e == "png"@ {
        Some(FileType::Png)
    } else if e == "cr2"@ {
        Some(FileType::Cr2)
    } else if e == "nef"@ {
        Some(FileType::Nef)
    } else if e == "mov"@ {
        Some(FileType::Mov)
    } else if e == "mp4"@ {
        Some(FileType::Mp4)
    } else if e == "dng"@ {
        Some(FileType::Dng)
    } else {
        None
    }
}

/// The format of the file that a path names, or `None` where the path has no
/// extension or one that stands for no known format.
pub open spec fn spec_file_type(path: Seq<char>) -> Option<FileType> {
    match extension(path) {
        Some(ext) => format_of_extension(ext),
        None => None,
    }
}

/// Position of the last occurrence of `c` at or after `from`, as an offset from `from`.
pub(crate) fn find_last(v: &Vec<char>, from: usize, c: char) -> (r: Option<usize>)
    requires
        from <= v.len(),
    ensures
        match r {
            Some(i) => i == last_index_of(v@.skip(from as int), c) && from + i < v.len(),
            None => last_index_of(v@.skip(from as int), c) == -1,
        },
{
    let ghost s = v@.skip(from as int);
    let mut i: usize = v.len();
    proof {
        lemma_last_index_of(s, c);
    }
    while i > from
        invariant
            from <= i <= v.len(),
            s == v@.skip(from as int),
            last_index_of(s, c) < i - from,
        decreases i,
    {
        i -= 1;
        if v[i] == c {
            proof {
                lemma_last_index_of(s, c);
                assert(s[i - from] == c);
            }
            return Some(i - from);
        }
        proof {
            lemma_last_index_of(s, c);
            assert(s[i - from] == v@[i as int]);
        }
    }
    None
}

/// Classifies a file by the extension of its name, without regard to case.
/// `None` means that the file is none of the catalog's business.
pub fn file_type_from_path(path: &str) -> (kind: Option<FileType>)
    ensures
        kind == spec_file_type(path@),
{
    let mut v = chars_of(path);
    trim_slashes(&mut v);
    let start: usize = match find_last(&v, 0, '/') {
        Some(i) => i + 1,
        None => 0,
    };
    assert(v@.skip(0) == v@);
    assert(v@.skip(start as int) == final_component(path@));
    let dot: usize = match find_last(&v, start, '.') {
        Some(i) => i,
        None => 0,
    };
    if dot == 0 {
        return None;
    }
    let from: usize = start + dot + 1;
    assert(v@.skip(from as int) == v@.skip(start as int).skip(dot + 1));
    assert(extension(path@) == Some(v@.skip(from as int)));
    if tail_is_word(&v, from, "jpg") || tail_is_word(&v, from, "jpeg") {
        Some(FileType::Jpeg)
    } else if tail_is_word(&v, from, "png") {
        Some(FileType::Png)
    } else if tail_is_word(&v, from, "cr2") {
        Some(FileType::Cr2)
    } else if tail_is_word(&v, from, "nef") {
        Some(FileType::Nef)
    } else if tail_is_word(&v, from, "mov") {
        Some(FileType::Mov)
    } else if tail_is_word(&v, from, "mp4") {
        Some(FileType::Mp4)
    } else if tail_is_word(&v, from, "dng") {
        Some(FileType::Dng)
    } else {
        None
    }
}

/// The catalog kind of the file that a path names. A path of no known format
/// is refused with `UnknownFormat`.
pub fn get_media_type(path: &str) -> (r: Result<EntityType, Error>)
    ensures
        r == match spec_file_type(path@) {
            Some(t) => Ok::<EntityType, Error>(t.spec_media_type().spec_entity_type()),
            None => Err::<EntityType, Error>(Error { kind: ErrorKind::UnknownFormat }),
        },
{
    match file_type_from_path(path) {
        Some(t) => match t.media_type() {
            MediaType::Image | MediaType::RawImage => Ok(EntityType::Image),
            MediaType::Video => Ok(EntityType::Video),
        },
        None => Err(Error::new(ErrorKind::UnknownFormat)),
    }
}

} // verus!
