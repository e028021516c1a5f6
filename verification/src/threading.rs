//! The plain multi-threaded load driver's store: a fixed array of shards,
//! a record's shard chosen by its id.

use vstd::prelude::*;

use crate::cache::Bytes;
use crate::cache::CacheCell;
use crate::cache::Id;
use crate::cache::previous_or_empty;
use crate::calculation;
use crate::spec_calculation;

verus! {

/// How many shards the driver spreads records over.
pub const SHARD_NUM: usize = 128;

/// The store behind the plain multi-threaded load driver.
pub struct ThreadingLoad {
    shards: Vec<CacheCell>,
}

impl ThreadingLoad {
    /// The shard that holds record `id`.
    pub open spec fn spec_shard_id(id: Id) -> int {
        id as int % SHARD_NUM as int
    }

    pub closed spec fn wf(self) -> bool {
        &&& self.shards@.len() == SHARD_NUM
        &&& forall|i: int| 0 <= i < SHARD_NUM ==> self.shards@[i].wf()
    }

    /// The bytes accumulated under `id`, or `None` if nothing was ever
    /// appended to that record.
    pub closed spec fn contents(self, id: Id) -> Option<Seq<u8>> {
        self.shards@[Self::spec_shard_id(id)].contents(id)
    }

    /// A store of `SHARD_NUM` empty shards.
    pub fn new() -> (r: ThreadingLoad)
        ensures
            r.wf(),
            forall|id: Id| r.contents(id) is None,
    {
        let mut shards: Vec<CacheCell> = Vec::new();
        let mut i: usize = 0;
        while i < SHARD_NUM
            invariant
                i <= SHARD_NUM,
                shards@.len() == i,
                forall|j: int|
                    0 <= j < i ==> shards@[j].wf() && (forall|id: Id|
                        #![auto]
                        shards@[j].contents(id) is None),
            decreases SHARD_NUM - i,
        {
            shards.push(CacheCell::new());
            i = i + 1;
        }
        ThreadingLoad { shards }
    }

    /// Stamp `bytes` with its checksum and append it to record `id` on the
    /// record's shard; the store stamps it once more on the way in. No
    /// other record changes.
    pub fn append(&mut self, id: Id, bytes: Bytes)
        requires
            old(self).wf(),
            bytes@.len() >= 1,
        ensures
            final(self).wf(),
            final(self).contents(id) == Some(
                previous_or_empty(old(self).contents(id)) + spec_calculation(
                    spec_calculation(bytes@),
                ),
            ),
            forall|other: Id|
                other != id ==> final(self).contents(other) == old(self).contents(other),
    {
        let bytes = Self::calculation(bytes);
        let index = self.shard_id(id);
        let ghost before = self.shards@;
        let mut shard = self.shards.remove(index);
        shard.append(id, bytes);
        self.shards.insert(index, shard);
        proof {
            assert(self.shards@ =~= before.update(index as int, shard));
        }
    }

    /// Assemble `size` bytes of record `id`, stamped with their checksum,
    /// or `None` if the record does not exist.
    pub fn get(&self, id: Id, size: usize) -> (r: Option<Bytes>)
        requires
            self.wf(),
            1 <= size,
        ensures
            r is Some <==> self.contents(id) is Some,
            r matches Some(v) ==> v@.len() == size,
    {
        let index = self.shard_id(id);
        match self.shards[index].get(id, size) {
            Some(v) => Some(Self::calculation(v)),
            None => None,
        }
    }

    /// The shard index of record `id`, decided executably.
    pub fn shard_id(&self, id: Id) -> (r: usize)
        ensures
            r == Self::spec_shard_id(id),
            r < SHARD_NUM,
    {
        id % SHARD_NUM
    }

    /// Stamp the checksum of `bytes` onto its first byte.
    pub fn calculation(bytes: Bytes) -> (r: Bytes)
        requires
            bytes@.len() >= 1,
        ensures
            r@ == spec_calculation(bytes@),
    {
        calculation(bytes)
    }
}

} // verus!
