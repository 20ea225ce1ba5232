use vstd::prelude::*;

use crate::ids::fresh_uuid;

verus! {

/// A record of one fully persisted file: its generated identifier, the
/// sanitized name it was uploaded under, the number of bytes actually
/// written, and the path of the backing file inside the store directory.
/// A record exists in an index if and only if its bytes were fully and
/// successfully persisted; it is created only at commit time and never
/// mutated afterwards.
pub struct File {
    pub id: String,
    pub filename: String,
    pub size: u64,
    pub file_path: String,
}

impl File {
    /// Builds the record for a commit, drawing a fresh identifier for it.
    /// Everything but the identifier is pinned to the arguments; of the
    /// identifier only its shape is known, since it is freshly drawn.
    pub fn new(filename: String, size: u64, file_path: String) -> (r: File)
        ensures
            r.filename == filename,
            r.size == size,
            r.file_path == file_path,
            r.id@.len() == 36,
    {
        File { id: fresh_uuid(), filename, size, file_path }
    }
}

impl Clone for File {
    fn clone(&self) -> (r: Self)
        ensures
            r == *self,
    {
        File {
            id: self.id.clone(),
            filename: self.filename.clone(),
            size: self.size,
            file_path: self.file_path.clone(),
        }
    }
}

} // verus!
