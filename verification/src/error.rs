use vstd::prelude::*;

verus! {

/// The ways in which the handling of one file can depart from a plain import.
#[derive(Clone, Copy, Debug, PartialEq, Eq, Structural)]
pub enum ErrorKind {
    /// The file name carries no known extension: the file is skipped.
    UnknownFormat,
    /// Reading, writing or inspecting a file failed.
    IoFailure,
    /// The payload is corrupt or of an unsupported kind.
    DecodeFailure,
    /// No capture metadata could be read; the import goes on with fewer fields.
    MetadataUnavailable,
    /// The probing tool or the frame decoder failed or printed something malformed.
    ExternalToolFailure,
    /// The face detector could not be run on this file.
    DetectionFailure,
    /// The content is in the catalog already.
    DuplicateContent,
}

/// An error of the library: its kind, from which everything else about it follows.
#[derive(Clone, Copy, Debug, PartialEq, Eq, Structural)]
pub struct Error {
    pub kind: ErrorKind,
}

impl ErrorKind {
    /// Whether an error of this kind ends the handling of the file it arose on
    /// with a failure. The three other kinds are ordinary outcomes: a skipped
    /// file, an import with fewer metadata fields, a duplicate.
    pub open spec fn spec_aborts_file(self) -> bool {
        match self {
            ErrorKind::IoFailure
            | ErrorKind::DecodeFailure
            | ErrorKind::ExternalToolFailure
            | ErrorKind::DetectionFailure => true,
            ErrorKind::UnknownFormat
            | ErrorKind::MetadataUnavailable
            | ErrorKind::DuplicateContent => false,
        }
    }

    pub fn aborts_file(&self) -> (r: bool)
        ensures
            r == self.spec_aborts_file(),
    {
        match self {
            ErrorKind::IoFailure
            | ErrorKind::DecodeFailure
            | ErrorKind::ExternalToolFailure
            | ErrorKind::DetectionFailure => true,
            ErrorKind::UnknownFormat
            | ErrorKind::MetadataUnavailable
            | ErrorKind::DuplicateContent => false,
        }
    }
}

impl Error {
    pub fn new(kind: ErrorKind) -> (e: Error)
        ensures
            e.kind == kind,
    {
        Error { kind }
    }

    /// A short text for logs, one per kind.
    pub fn message(&self) -> (text: &'static str)
        ensures
            text@ == match self.kind {
                ErrorKind::UnknownFormat => "Unknown file type"@,
                ErrorKind::IoFailure => "Failed to read or write a file"@,
                ErrorKind::DecodeFailure => "Failed to decode the media payload"@,
                ErrorKind::MetadataUnavailable => "No metadata available"@,
                ErrorKind::ExternalToolFailure => "External tool failed"@,
                ErrorKind::DetectionFailure => "Face detection failed"@,
                ErrorKind::DuplicateContent => "Content is already imported"@,
            },
    {
        match self.kind {
            ErrorKind::UnknownFormat => "Unknown file type",
            ErrorKind::IoFailure => "Failed to read or write a file",
            ErrorKind::DecodeFailure => "Failed to decode the media payload",
            ErrorKind::MetadataUnavailable => "No metadata available",
            ErrorKind::ExternalToolFailure => "External tool failed",
            ErrorKind::DetectionFailure => "Face detection failed",
            ErrorKind::DuplicateContent => "Content is already imported",
        }
    }
}

} // verus!
