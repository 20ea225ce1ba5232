use vstd::prelude::*;

use vstd::hash_map::StringHashMap;
use vstd::string::StringExecFns;

use crate::file::File;

verus! {

/// The blob store's bookkeeping: the directory that holds the persisted
/// bytes, and an index of the records committed into it. Creating and
/// validating the directory itself is I/O and happens at the caller's edge;
/// here the store is the authority on where a file's bytes live.
pub struct FileStore {
    storage_path: String,
    files: StringHashMap<File>,
}

impl View for FileStore {
    type V = Map<Seq<char>, File>;

    closed spec fn view(&self) -> Map<Seq<char>, File> {
        self.files@
    }
}

impl FileStore {
    /// The directory under which every committed file's bytes are kept.
    pub closed spec fn dir(&self) -> Seq<char> {
        self.storage_path@
    }

    pub fn new(storage_path: String) -> (r: Self)
        ensures
            r@ == Map::<Seq<char>, File>::empty(),
            r.dir() == storage_path@,
    {
        FileStore { storage_path, files: StringHashMap::new() }
    }

    /// Registers a committed record under its identifier, replacing any
    /// record already there; every other entry and the directory are
    /// untouched.
    pub fn add_file(&mut self, file: File)
        ensures
            final(self)@ == old(self)@.insert(file.id@, file),
            final(self).dir() == old(self).dir(),
    {
        let key = file.id.clone();
        self.files.insert(key, file);
    }

    /// Looks an identifier up: the stored record, exactly when the index
    /// holds the identifier.
    pub fn get_file(&self, id: &str) -> (r: Option<File>)
        ensures
            match r {
                Some(f) => self@.contains_key(id@) && f == self@[id@],
                None => !self@.contains_key(id@),
            },
    {
        match self.files.get(id) {
            Some(f) => Some(f.clone()),
            None => None,
        }
    }

    /// The store directory, as a path of its own.
    pub fn generate_storage_path(&self) -> (r: String)
        ensures
            r@ == self.dir(),
    {
        self.storage_path.clone()
    }

    /// The path under which a file with the given identifier is persisted:
    /// the store directory, a separator, and the identifier.
    pub fn generate_file_path(&self, id: &str) -> (r: String)
        ensures
            r@ == self.dir() + "/"@ + id@,
    {
        let mut r = self.storage_path.clone();
        r.append("/");
        r.append(id);
        r
    }
}

} // verus!
