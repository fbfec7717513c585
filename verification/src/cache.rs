//! A keyed cache of the last readings.

use vstd::hash_map::StringHashMap;
use vstd::prelude::*;

verus! {

/// A cache of texts by name, opened with a key.
pub struct DataCache {
    pub key: String,
    pub store: StringHashMap<String>,
}

impl DataCache {
    /// An empty cache opened with `key`.
    pub fn new(key: &str) -> (cache: DataCache)
        ensures
            cache.key@ == key@,
            cache.store@ == Map::<Seq<char>, String>::empty(),
    {
        DataCache { key: key.to_owned(), store: StringHashMap::new() }
    }

    /// Stores `v` under `k`, in place of what was stored under `k` before.
    /// Every other entry stays.
    pub fn store(&mut self, k: &str, v: &str)
        ensures
            final(self).key == old(self).key,
            final(self).store@.contains_key(k@),
            final(self).store@[k@]@ == v@,
            final(self).store@.remove(k@) == old(self).store@.remove(k@),
    {
        let value = v.to_owned();
        self.store.insert(k.to_owned(), value);
        assert(final(self).store@.remove(k@) =~= old(self).store@.remove(k@));
    }

    /// What is stored under `k`, if anything.
    pub fn retrieve(&self, k: &str) -> (r: Option<&String>)
        ensures
            r is Some <==> self.store@.contains_key(k@),
            r matches Some(v) ==> *v == self.store@[k@],
    {
        self.store.get(k)
    }
}

} // verus!
