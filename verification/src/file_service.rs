use vstd::prelude::*;

use crate::errors::FileError;
use crate::file::File;
use crate::file_repository::FileRepository;
use crate::file_store::FileStore;

verus! {

/// The characters the name sanitizer strips: path separators, characters
/// reserved by common filesystems, and control characters.
pub open spec fn forbidden_in_filename(c: char) -> bool {
    ||| c == '/'
    ||| c == '\\'
    ||| c == '?'
    ||| c == '<'
    ||| c == '>'
    ||| c == ':'
    ||| c == '*'
    ||| c == '|'
    ||| c == '"'
    ||| (c as u32) <= 0x1f
    ||| (0x80 <= (c as u32) && (c as u32) <= 0x9f)
}

/// A name is sanitized when none of the stripped characters occurs in it.
pub open spec fn sanitized_name(s: Seq<char>) -> bool {
    forall|i: int| 0 <= i < s.len() ==> !forbidden_in_filename(#[trigger] s[i])
}

/// Whether `a` can be obtained from `b` by deleting characters, keeping the
/// order of those that remain.
pub open spec fn is_subsequence_of(a: Seq<char>, b: Seq<char>) -> bool
    decreases b.len(),
{
    if a.len() == 0 {
        true
    } else if b.len() == 0 {
        false
    } else if a.first() == b.first() {
        is_subsequence_of(a.drop_first(), b.drop_first())
    } else {
        is_subsequence_of(a, b.drop_first())
    }
}

/// Relies on sanitize_filename::sanitize: every match of its illegal and
/// control character patterns is replaced by the empty string, so none of
/// those characters survives into the result, and the function only ever
/// deletes — what remains is a subsequence of the name it was given. Which
/// further host-reserved names are deleted depends on the machine, so no
/// more is stated.
#[verifier::external_body]
fn sanitize_name(name: &str) -> (r: String)
    ensures
        sanitized_name(r@),
        is_subsequence_of(r@, name@),
{
    sanitize_filename::sanitize(name)
}

/// The byte-counting half of one streamed upload: the caller writes each
/// chunk to its staging file and reports the chunk's length here, so that
/// the committed record carries the number of bytes actually written, never
/// a declared size.
pub struct UploadStaging {
    pub filename: String,
    pub size: u64,
}

impl UploadStaging {
    /// Opens the staging of one upload. A missing filename is refused; a
    /// present one is sanitized before use.
    pub fn new(raw_filename: Option<&str>) -> (r: Result<UploadStaging, FileError>)
        ensures
            match r {
                Ok(st) => {
                    &&& raw_filename matches Some(n)
                    &&& st.size == 0
                    &&& sanitized_name(st.filename@)
                    &&& is_subsequence_of(st.filename@, n@)
                },
                Err(e) => raw_filename is None && e == FileError::InvalidFilename,
            },
    {
        match raw_filename {
            Some(name) => Ok(UploadStaging { filename: sanitize_name(name), size: 0 }),
            None => Err(FileError::InvalidFilename),
        }
    }

    /// Counts one written chunk into the running size.
    pub fn add_chunk(&mut self, chunk_len: usize)
        requires
            old(self).size + chunk_len <= u64::MAX,
        ensures
            final(self).size == old(self).size + chunk_len,
            final(self).filename == old(self).filename,
    {
        self.size = self.size + (chunk_len as u64);
    }
}

/// Where a retrieval finds its record: the repository cache is consulted
/// first, then the store index.
pub open spec fn lookup(
    repo: Map<Seq<char>, File>,
    stored: Map<Seq<char>, File>,
    id: Seq<char>,
) -> Option<File> {
    if repo.contains_key(id) {
        Option::Some(repo[id])
    } else if stored.contains_key(id) {
        Option::Some(stored[id])
    } else {
        Option::None
    }
}

/// The ingestion and retrieval pipeline: it owns the blob store's
/// bookkeeping and the repository cache, commits fully staged uploads, and
/// resolves identifiers for retrieval. The caller persists bytes before a
/// commit is registered, so no partially written record is ever visible.
pub struct FileService {
    store: FileStore,
    repository: FileRepository,
}

impl FileService {
    /// The repository cache, as a map from identifier to record.
    pub closed spec fn repo(&self) -> Map<Seq<char>, File> {
        self.repository@
    }

    /// The store index, as a map from identifier to record.
    pub closed spec fn stored(&self) -> Map<Seq<char>, File> {
        self.store@
    }

    /// The directory under which the store keeps persisted bytes.
    pub closed spec fn dir(&self) -> Seq<char> {
        self.store.dir()
    }

    /// Sets the pipeline up over a store directory; creating the directory
    /// itself is I/O and happens at the caller's edge.
    pub fn new(storage_path: String) -> (r: Self)
        ensures
            r.repo() == Map::<Seq<char>, File>::empty(),
            r.stored() == Map::<Seq<char>, File>::empty(),
            r.dir() == storage_path@,
    {
        FileService { store: FileStore::new(storage_path), repository: FileRepository::new() }
    }

    /// The path under which a commit with the given identifier persists its
    /// bytes.
    pub fn generate_file_path(&self, id: &str) -> (r: String)
        ensures
            r@ == self.dir() + "/"@ + id@,
    {
        self.store.generate_file_path(id)
    }

    /// Commits a fully staged upload. An upload that carried no bytes is
    /// refused and nothing is registered; otherwise a record with a fresh
    /// identifier is created and registered in the repository and the store
    /// index under the path the caller persisted the bytes to.
    pub fn save_file(&mut self, staging: UploadStaging, file_path: String) -> (r: Result<
        File,
        FileError,
    >)
        ensures
            match r {
                Ok(f) => {
                    &&& staging.size > 0
                    &&& f.filename == staging.filename
                    &&& f.size == staging.size
                    &&& f.file_path == file_path
                    &&& f.id@.len() == 36
                    &&& final(self).repo() == old(self).repo().insert(f.id@, f)
                    &&& final(self).stored() == old(self).stored().insert(f.id@, f)
                    &&& final(self).dir() == old(self).dir()
                },
                Err(e) => {
                    &&& e == FileError::EmptyUpload
                    &&& staging.size == 0
                    &&& *final(self) == *old(self)
                },
            },
    {
        if staging.size == 0 {
            return Err(FileError::EmptyUpload);
        }
        let file = File::new(staging.filename, staging.size, file_path);
        self.repository.save(file.clone());
        self.store.add_file(file.clone());
        Ok(file)
    }

    /// Resolves an identifier to its committed record: the repository cache
    /// first, then the store index; an identifier neither holds is missing.
    pub fn read_file(&self, id: &str) -> (r: Result<File, FileError>)
        ensures
            match r {
                Ok(f) => lookup(self.repo(), self.stored(), id@) == Option::Some(f),
                Err(e) => e == FileError::NotFound && lookup(self.repo(), self.stored(), id@)
                    is None,
            },
    {
        if let Some(f) = self.repository.get(id) {
            return Ok(f);
        }
        match self.store.get_file(id) {
            Some(f) => Ok(f),
            None => Err(FileError::NotFound),
        }
    }
}

/// Decides a retrieval after the caller re-validated the backing file: if
/// the bytes opened, the record stands; if the index held a record whose
/// file is gone, that is a storage inconsistency, surfaced as such and
/// never downgraded to a missing identifier.
pub fn resolve_open(record: File, opened: bool) -> (r: Result<File, FileError>)
    ensures
        opened ==> r == Result::<File, FileError>::Ok(record),
        !opened ==> r == Result::<File, FileError>::Err(FileError::StorageInconsistency),
{
    if opened {
        Ok(record)
    } else {
        Err(FileError::StorageInconsistency)
    }
}

/// The metadata round-trip law: once a commit has registered a record,
/// looking its identifier up yields exactly that record, whatever else the
/// two indexes held.
pub proof fn lemma_commit_then_lookup(
    repo: Map<Seq<char>, File>,
    stored: Map<Seq<char>, File>,
    f: File,
)
    ensures
        lookup(repo.insert(f.id@, f), stored.insert(f.id@, f), f.id@) == Option::Some(f),
{
}

/// The uniqueness law: commits under distinct identifiers never displace
/// one another — after both, each identifier still yields its own record.
pub proof fn lemma_distinct_ids_coexist(repo: Map<Seq<char>, File>, f1: File, f2: File)
    requires
        f1.id@ != f2.id@,
    ensures
        repo.insert(f1.id@, f1).insert(f2.id@, f2)[f1.id@] == f1,
        repo.insert(f1.id@, f1).insert(f2.id@, f2)[f2.id@] == f2,
{
}

} // verus!
