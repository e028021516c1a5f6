//! One shard of the in-memory byte store: a map from record id to the
//! [`Item`] accumulating that record's bytes.

use std::collections::HashMap;
use vstd::prelude::*;

use crate::item::Item;
use crate::spec_calculation;

verus! {

broadcast use vstd::std_specs::hash::group_hash_axioms;

/// A run of stored bytes.
pub type Bytes = Vec<u8>;

/// A record identifier.
pub type Id = usize;

/// The bytes a record held before an append: what was already accumulated,
/// or nothing at all.
pub open spec fn previous_or_empty(prior: Option<Seq<u8>>) -> Seq<u8> {
    match prior {
        Some(s) => s,
        None => Seq::empty(),
    }
}

/// One shard of the byte store.
pub struct CacheCell {
    items: HashMap<Id, Item>,
}

impl CacheCell {
    pub closed spec fn wf(self) -> bool {
        forall|id: Id| #[trigger]
            self.items@.contains_key(id) ==> self.items@[id].wf()
    }

    /// The bytes accumulated under `id`, or `None` if nothing was ever
    /// appended to that record.
    pub closed spec fn contents(self, id: Id) -> Option<Seq<u8>> {
        if self.items@.contains_key(id) {
            Some(self.items@[id]@)
        } else {
            None
        }
    }

    /// An empty shard.
    pub fn new() -> (r: CacheCell)
        ensures
            r.wf(),
            forall|id: Id| r.contents(id) is None,
    {
        CacheCell { items: HashMap::new() }
    }

    /// Assemble `size` bytes of the record stored under `id`, or `None` if
    /// the record does not exist. Which stored bytes are sampled is left to
    /// chance; the length of the answer is exact.
    pub fn get(&self, id: Id, size: usize) -> (r: Option<Bytes>)
        requires
            self.wf(),
            1 <= size,
        ensures
            r is Some <==> self.contents(id) is Some,
            r matches Some(v) ==> v@.len() == size,
    {
        match self.items.get(&id) {
            Some(item) => Some(item.get(size)),
            None => None,
        }
    }

    /// Append `bytes`, stamped with its checksum, to the record stored
    /// under `id`, creating the record if it does not exist yet. No other
    /// record changes.
    pub fn append(&mut self, id: Id, bytes: Bytes)
        requires
            old(self).wf(),
            bytes@.len() >= 1,
        ensures
            final(self).wf(),
            final(self).contents(id) == Some(
                previous_or_empty(old(self).contents(id)) + spec_calculation(bytes@),
            ),
            forall|other: Id|
                other != id ==> final(self).contents(other) == old(self).contents(other),
    {
        let mut item = match self.items.remove(&id) {
            Some(it) => it,
            None => Item::default(),
        };
        item.put(bytes);
        self.items.insert(id, item);
    }
}

impl Default for CacheCell {
    /// An empty shard.
    fn default() -> (r: CacheCell)
        ensures
            r.wf(),
            forall|id: Id| r.contents(id) is None,
    {
        CacheCell::new()
    }
}

} // verus!
