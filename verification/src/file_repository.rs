use vstd::prelude::*;

use vstd::hash_map::StringHashMap;

use crate::file::File;

verus! {

/// The in-memory metadata index: it maps a file identifier to the record
/// committed under it. Viewed as a map, a commit is a single atomic insert,
/// so no lookup ever observes a partially written entry, and one identifier
/// never names two records.
pub struct FileRepository {
    storage: StringHashMap<File>,
}

impl View for FileRepository {
    type V = Map<Seq<char>, File>;

    closed spec fn view(&self) -> Map<Seq<char>, File> {
        self.storage@
    }
}

impl FileRepository {
    pub fn new() -> (r: Self)
        ensures
            r@ == Map::<Seq<char>, File>::empty(),
    {
        FileRepository { storage: StringHashMap::new() }
    }

    /// Registers a committed record under its identifier, replacing any
    /// record already there; every other entry is untouched.
    pub fn save(&mut self, file: File)
        ensures
            final(self)@ == old(self)@.insert(file.id@, file),
    {
        let key = file.id.clone();
        self.storage.insert(key, file);
    }

    /// Looks an identifier up: the stored record, exactly when the index
    /// holds the identifier.
    pub fn get(&self, file_id: &str) -> (r: Option<File>)
        ensures
            match r {
                Some(f) => self@.contains_key(file_id@) && f == self@[file_id@],
                None => !self@.contains_key(file_id@),
            },
    {
        match self.storage.get(file_id) {
            Some(f) => Some(f.clone()),
            None => None,
        }
    }
}

} // verus!
