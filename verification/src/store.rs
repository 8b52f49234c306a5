use vstd::prelude::*;
use vstd::hash_map::StringHashMap;

verus! {

/// A name-keyed store of text entries: the shape shared by a registry run
/// key (value name to value data) and a per-user directory of descriptor
/// files (file name to file content).
pub struct FileMap {
    entries: StringHashMap<String>,
}

impl View for FileMap {
    type V = Map<Seq<char>, Seq<char>>;

    closed spec fn view(&self) -> Map<Seq<char>, Seq<char>> {
        Map::new(
            |k: Seq<char>| self.entries@.contains_key(k),
            |k: Seq<char>| self.entries@[k]@,
        )
    }
}

impl FileMap {
    /// An empty store.
    pub fn new() -> (r: FileMap)
        ensures
            r@ == Map::<Seq<char>, Seq<char>>::empty(),
    {
        let r = FileMap { entries: StringHashMap::new() };
        proof {
            assert(r@ =~= Map::<Seq<char>, Seq<char>>::empty());
        }
        r
    }

    /// Whether an entry of this name is present.
    pub fn contains(&self, name: &str) -> (r: bool)
        ensures
            r == self@.contains_key(name@),
    {
        self.entries.contains_key(name)
    }

    /// The text stored under this name, if any.
    pub fn get<'a>(&'a self, name: &str) -> (r: Option<&'a String>)
        ensures
            match r {
                Some(v) => self@.contains_key(name@) && v@ == self@[name@],
                None => !self@.contains_key(name@),
            },
    {
        self.entries.get(name)
    }

    /// Stores `value` under `name`, overwriting any previous entry.
    pub fn set(&mut self, name: &str, value: String)
        ensures
            final(self)@ == old(self)@.insert(name@, value@),
    {
        self.entries.insert(name.to_owned(), value);
        proof {
            assert(self@ =~= old(self)@.insert(name@, value@));
        }
    }

    /// Removes the entry of this name; reports whether one was present.
    pub fn remove(&mut self, name: &str) -> (r: bool)
        ensures
            final(self)@ == old(self)@.remove(name@),
            r == old(self)@.contains_key(name@),
    {
        let had = self.entries.contains_key(name);
        self.entries.remove(name);
        proof {
            assert(self@ =~= old(self)@.remove(name@));
        }
        had
    }
}

/// The set of filesystem paths that exist, as the drivers see it: an
/// injected stand-in for the real filesystem, so that the proactive
/// launch-target check can be stated and tested without touching a disk.
pub struct PathSet {
    present: StringHashMap<()>,
}

impl View for PathSet {
    type V = Set<Seq<char>>;

    closed spec fn view(&self) -> Set<Seq<char>> {
        Set::new(|k: Seq<char>| self.present@.contains_key(k))
    }
}

impl PathSet {
    /// The empty set of paths.
    pub fn new() -> (r: PathSet)
        ensures
            r@ == Set::<Seq<char>>::empty(),
    {
        let r = PathSet { present: StringHashMap::new() };
        proof {
            assert(r@ =~= Set::<Seq<char>>::empty());
        }
        r
    }

    /// Records that a path exists.
    pub fn insert(&mut self, path: &str)
        ensures
            final(self)@ == old(self)@.insert(path@),
    {
        self.present.insert(path.to_owned(), ());
        proof {
            assert(self@ =~= old(self)@.insert(path@));
        }
    }

    /// Whether a path exists.
    pub fn contains(&self, path: &str) -> (r: bool)
        ensures
            r == self@.contains(path@),
    {
        self.present.contains_key(path)
    }
}

} // verus!
