use vstd::prelude::*;
use vstd::string::StringExecFns;

verus! {

/// Why the sync of one file failed.
///
/// The two fallible collaborators — the filesystem and the embedded-metadata
/// codec — each contribute a variant carrying the collaborator's own error
/// text for diagnostic display; the third variant is the domain failure of a
/// container format that cannot hold the target fields at all.
#[derive(Clone, Debug)]
pub enum SyncError {
    /// The file or its filesystem attributes could not be read or written.
    Io(String),
    /// The embedded-metadata container could not be opened, read or
    /// persisted.
    Exif(String),
    /// The file's container format has no facility for embedded timestamp
    /// fields; detected before anything is written.
    NotExifFormat,
}

impl SyncError {
    /// The human-readable description of the failure.
    pub open spec fn spec_description(self) -> Seq<char> {
        match self {
            SyncError::Io(detail) => detail@,
            SyncError::Exif(detail) => detail@,
            SyncError::NotExifFormat => "This format does not support exif."@,
        }
    }

    /// Returns the description: the collaborator's own error text for the
    /// two carried kinds, a fixed sentence for the unsupported format.
    pub fn description(&self) -> (r: String)
        ensures
            r@ == self.spec_description(),
    {
        match self {
            SyncError::Io(detail) => detail.clone(),
            SyncError::Exif(detail) => detail.clone(),
            SyncError::NotExifFormat => String::from_str("This format does not support exif."),
        }
    }
}

} // verus!
