//! The failures of the client, by component and by kind.

use vstd::prelude::*;

verus! {

/// Every kind of failure that a step of the client can report.
#[derive(Clone, Copy, Debug, PartialEq, Eq, Structural)]
pub enum ErrorKind {
    /// The project directory cannot be determined.
    NoCwd,
    /// The modules directory is already there; reported, and not fatal.
    DirExists,
    /// The host could not be reached.
    NetworkFailure,
    /// The host answered with a status outside the successful range.
    HttpStatusFailure,
    /// A local file could not be read, written or deleted.
    FileIoFailure,
    /// The downloaded file is not a readable archive.
    ArchiveOpenFailure,
    /// An entry of the archive cannot be read or may not be written.
    ArchiveEntryFailure,
    /// The project has no manifest.
    ManifestNotFound,
    /// The manifest is not a document of the expected shape.
    ManifestMalformed,
}

impl ErrorKind {
    /// Whether a failure of this kind ends the operation. Only a modules
    /// directory that is already there does not: it is reported, and the
    /// set-up goes on.
    pub open spec fn is_fatal_spec(self) -> bool {
        self != ErrorKind::DirExists
    }

    /// Whether a failure of this kind ends the operation.
    #[verifier::when_used_as_spec(is_fatal_spec)]
    pub fn is_fatal(self) -> (fatal: bool)
        ensures
            fatal == self.is_fatal_spec(),
    {
        match self {
            ErrorKind::DirExists => false,
            _ => true,
        }
    }
}

/// The failures of the manifest store.
#[derive(Clone, Copy, Debug, PartialEq, Eq, Structural)]
pub enum ManifestError {
    /// The working directory, and so the project's name, is unknown.
    NoCwd,
    /// There is no manifest file.
    NotFound,
    /// The manifest is not JSON, or not of the shape that the operation needs,
    /// or cannot be written.
    Malformed,
}

/// The failures of the archive extractor.
#[derive(Clone, Copy, Debug, PartialEq, Eq, Structural)]
pub enum ExtractError {
    /// The archive is missing or is not a valid archive.
    Open,
    /// The entry at `index` cannot be read from the archive.
    Entry { index: usize },
    /// The name of the entry at `index` holds a `..` segment and could leave
    /// the output directory.
    Traversal { index: usize },
    /// A directory or file could not be written.
    Io,
}

/// The failures of the package fetcher.
#[derive(Clone, Copy, Debug, PartialEq, Eq, Structural)]
pub enum FetchError {
    /// No response arrived.
    Network,
    /// The response carried the unsuccessful status `code`.
    Status { code: u16 },
    /// The body could not be written to the destination.
    Io,
}

impl ManifestError {
    /// The kind under which this failure is reported.
    pub open spec fn kind_spec(self) -> ErrorKind {
        match self {
            ManifestError::NoCwd => ErrorKind::NoCwd,
            ManifestError::NotFound => ErrorKind::ManifestNotFound,
            ManifestError::Malformed => ErrorKind::ManifestMalformed,
        }
    }

    /// The kind under which this failure is reported.
    #[verifier::when_used_as_spec(kind_spec)]
    pub fn kind(self) -> (kind: ErrorKind)
        ensures
            kind == self.kind_spec(),
    {
        match self {
            ManifestError::NoCwd => ErrorKind::NoCwd,
            ManifestError::NotFound => ErrorKind::ManifestNotFound,
            ManifestError::Malformed => ErrorKind::ManifestMalformed,
        }
    }
}

impl ExtractError {
    /// The kind under which this failure is reported.
    pub open spec fn kind_spec(self) -> ErrorKind {
        match self {
            ExtractError::Open => ErrorKind::ArchiveOpenFailure,
            ExtractError::Entry { .. } => ErrorKind::ArchiveEntryFailure,
            ExtractError::Traversal { .. } => ErrorKind::ArchiveEntryFailure,
            ExtractError::Io => ErrorKind::FileIoFailure,
        }
    }

    /// The kind under which this failure is reported.
    #[verifier::when_used_as_spec(kind_spec)]
    pub fn kind(self) -> (kind: ErrorKind)
        ensures
            kind == self.kind_spec(),
    {
        match self {
            ExtractError::Open => ErrorKind::ArchiveOpenFailure,
            ExtractError::Entry { .. } => ErrorKind::ArchiveEntryFailure,
            ExtractError::Traversal { .. } => ErrorKind::ArchiveEntryFailure,
            ExtractError::Io => ErrorKind::FileIoFailure,
        }
    }
}

impl FetchError {
    /// The kind under which this failure is reported.
    pub open spec fn kind_spec(self) -> ErrorKind {
        match self {
            FetchError::Network => ErrorKind::NetworkFailure,
            FetchError::Status { .. } => ErrorKind::HttpStatusFailure,
            FetchError::Io => ErrorKind::FileIoFailure,
        }
    }

    /// The kind under which this failure is reported.
    #[verifier::when_used_as_spec(kind_spec)]
    pub fn kind(self) -> (kind: ErrorKind)
        ensures
            kind == self.kind_spec(),
    {
        match self {
            FetchError::Network => ErrorKind::NetworkFailure,
            FetchError::Status { .. } => ErrorKind::HttpStatusFailure,
            FetchError::Io => ErrorKind::FileIoFailure,
        }
    }
}

} // verus!
