use vstd::prelude::*;

verus! {

/// The error taxonomy of the upload and retrieval paths. Input problems are
/// surfaced as 4xx statuses, storage problems as 5xx, a missing identifier
/// as 404, and an exhausted rate window as 429; a storage inconsistency (an
/// index entry whose backing file is gone) is never downgraded to NotFound.
#[derive(Clone, Copy, PartialEq, Eq, Structural, Debug)]
pub enum FileError {
    InvalidFilename,
    EmptyUpload,
    StorageIOError,
    StorageInconsistency,
    NotFound,
    RateLimitExceeded,
}

/// The HTTP status under which each error is reported, each variant mapped
/// exactly once.
pub open spec fn status_of(e: FileError) -> u16 {
    match e {
        FileError::InvalidFilename => 400,
        FileError::EmptyUpload => 400,
        FileError::StorageIOError => 500,
        FileError::StorageInconsistency => 500,
        FileError::NotFound => 404,
        FileError::RateLimitExceeded => 429,
    }
}

/// The short human-readable description of each error.
pub open spec fn message_of(e: FileError) -> Seq<char> {
    match e {
        FileError::InvalidFilename => "No filename provided"@,
        FileError::EmptyUpload => "Empty upload"@,
        FileError::StorageIOError => "Storage I/O error"@,
        FileError::StorageInconsistency => "Storage inconsistency"@,
        FileError::NotFound => "File not found"@,
        FileError::RateLimitExceeded => "Rate limit exceeded"@,
    }
}

impl FileError {
    /// The HTTP status under which this error is reported.
    pub fn status_code(&self) -> (r: u16)
        ensures
            r == status_of(*self),
    {
        match self {
            FileError::InvalidFilename => 400,
            FileError::EmptyUpload => 400,
            FileError::StorageIOError => 500,
            FileError::StorageInconsistency => 500,
            FileError::NotFound => 404,
            FileError::RateLimitExceeded => 429,
        }
    }

    /// A short human-readable description of the error.
    pub fn message(&self) -> (r: String)
        ensures
            r@ == message_of(*self),
    {
        match self {
            FileError::InvalidFilename => "No filename provided".to_owned(),
            FileError::EmptyUpload => "Empty upload".to_owned(),
            FileError::StorageIOError => "Storage I/O error".to_owned(),
            FileError::StorageInconsistency => "Storage inconsistency".to_owned(),
            FileError::NotFound => "File not found".to_owned(),
            FileError::RateLimitExceeded => "Rate limit exceeded".to_owned(),
        }
    }
}

} // verus!
