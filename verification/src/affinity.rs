//! The core-affinity load driver's per-worker shard, and the lane choice
//! that routes a record to a worker.
//!
//! Each worker thread owns one [`AffinityShard`]; a record submitted to it
//! is folded down to a local slot `id % CACHE_PER_SHARD`, which serves both
//! as the cache index and as the record key inside that cache. Records
//! whose ids share a slot therefore share their bytes; the contracts below
//! state that aliasing rather than hide it.

use vstd::prelude::*;

use crate::cache::Bytes;
use crate::cache::CacheCell;
use crate::cache::Id;
use crate::cache::previous_or_empty;
use crate::calculation;
use crate::spec_calculation;

verus! {

/// How many worker lanes the core-affinity driver runs.
pub const CORE_NUM: usize = 15;

/// How many caches each worker's shard holds.
pub const CACHE_PER_SHARD: usize = 10;

/// The lane whose worker serves record `id`.
pub fn shard_id(id: Id) -> (r: usize)
    ensures
        r == id as int % CORE_NUM as int,
        r < CORE_NUM,
{
    id % CORE_NUM
}

/// The byte store owned by one worker thread of the core-affinity driver.
pub struct AffinityShard {
    caches: Vec<CacheCell>,
}

impl AffinityShard {
    /// The slot a record id is folded down to inside one shard.
    pub open spec fn spec_shard_id(id: Id) -> int {
        id as int % CACHE_PER_SHARD as int
    }

    pub closed spec fn wf(self) -> bool {
        &&& self.caches@.len() == CACHE_PER_SHARD
        &&& forall|i: int| 0 <= i < CACHE_PER_SHARD ==> self.caches@[i].wf()
    }

    /// The bytes accumulated in the slot of record `id`, or `None` if no
    /// record with that slot was ever appended.
    pub closed spec fn contents(self, id: Id) -> Option<Seq<u8>> {
        self.caches@[Self::spec_shard_id(id)].contents(
            (id as int % CACHE_PER_SHARD as int) as usize,
        )
    }

    /// A shard of `CACHE_PER_SHARD` empty caches.
    pub fn new() -> (r: AffinityShard)
        ensures
            r.wf(),
            forall|id: Id| r.contents(id) is None,
    {
        let mut caches: Vec<CacheCell> = Vec::new();
        let mut i: usize = 0;
        while i < CACHE_PER_SHARD
            invariant
                i <= CACHE_PER_SHARD,
                caches@.len() == i,
                forall|j: int|
                    0 <= j < i ==> caches@[j].wf() && (forall|id: Id|
                        #![auto]
                        caches@[j].contents(id) is None),
            decreases CACHE_PER_SHARD - i,
        {
            caches.push(CacheCell::new());
            i = i + 1;
        }
        AffinityShard { caches }
    }

    /// Stamp `bytes` with its checksum and append it to the slot of record
    /// `id`; the store stamps it once more on the way in. Records whose ids
    /// share the slot change together; every other slot is untouched.
    pub fn append(&mut self, id: Id, bytes: Bytes)
        requires
            old(self).wf(),
            bytes@.len() >= 1,
        ensures
            final(self).wf(),
            final(self).contents(id) == Some(
                previous_or_empty(old(self).contents(id)) + spec_calculation(
                    spec_calculation(bytes@),
                ),
            ),
            forall|other: Id|
                Self::spec_shard_id(other) == Self::spec_shard_id(id) ==> final(self).contents(
                    other,
                ) == final(self).contents(id),
            forall|other: Id|
                Self::spec_shard_id(other) != Self::spec_shard_id(id) ==> final(self).contents(
                    other,
                ) == old(self).contents(other),
    {
        let bytes = calculation(bytes);
        let slot = id % CACHE_PER_SHARD;
        let ghost before = self.caches@;
        let mut cache = self.caches.remove(slot);
        cache.append(slot, bytes);
        self.caches.insert(slot, cache);
        proof {
            assert(self.caches@ =~= before.update(slot as int, cache));
        }
    }

    /// Assemble `size` bytes from the slot of record `id`, stamped with
    /// their checksum, or `None` if that slot holds nothing.
    pub fn get(&self, id: Id, size: usize) -> (r: Option<Bytes>)
        requires
            self.wf(),
            1 <= size,
        ensures
            r is Some <==> self.contents(id) is Some,
            r matches Some(v) ==> v@.len() == size,
    {
        let slot = id % CACHE_PER_SHARD;
        match self.caches[slot].get(slot, size) {
            Some(v) => Some(calculation(v)),
            None => None,
        }
    }

    /// The slot of record `id`, decided executably.
    pub fn shard_id(id: Id) -> (r: usize)
        ensures
            r == Self::spec_shard_id(id),
            r < CACHE_PER_SHARD,
    {
        id % CACHE_PER_SHARD
    }
}

} // verus!
