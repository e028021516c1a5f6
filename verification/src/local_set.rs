//! The alternate-runtime load driver's shard worker: its unit of work and
//! the dispatch that applies one unit to the worker's caches.
//!
//! The surrounding channel plumbing — one inbound queue per worker thread,
//! a reply channel per request — stays outside the library; a worker hands
//! each received unit to [`LocalShard::run_task`] and sends the reply back.

use vstd::prelude::*;

use crate::cache::Bytes;
use crate::cache::CacheCell;
use crate::cache::Id;
use crate::cache::previous_or_empty;
use crate::calculation;
use crate::spec_calculation;

verus! {

/// How many worker threads the alternate-runtime driver spreads records
/// over.
pub const WORKING_THREAD: usize = 15;

/// The worker whose queue serves record `id`.
pub fn shard_id(id: Id) -> (r: usize)
    ensures
        r == id as int % WORKING_THREAD as int,
        r < WORKING_THREAD,
{
    id % WORKING_THREAD
}

/// One unit of work handed to a shard worker.
pub enum ShardTask {
    /// Append the bytes to the record.
    Append(Id, Bytes),
    /// Assemble that many bytes of the record.
    Get(Id, usize),
}

/// What a shard worker sends back for one unit of work.
pub enum ShardReply {
    /// The append took place.
    Appended,
    /// The assembled bytes, or `None` if the record does not exist.
    Fetched(Option<Bytes>),
}

/// The caches owned by one worker thread of the alternate-runtime driver,
/// `SHARD_NUM` of them; a record is folded down to the slot
/// `id % SHARD_NUM`, which serves both as cache index and as record key.
pub struct LocalShard<const SHARD_NUM: usize> {
    caches: Vec<CacheCell>,
}

impl<const SHARD_NUM: usize> LocalShard<SHARD_NUM> {
    /// The slot a record id is folded down to inside one shard.
    pub open spec fn spec_shard_id(id: Id) -> int {
        id as int % SHARD_NUM as int
    }

    pub closed spec fn wf(self) -> bool {
        &&& SHARD_NUM >= 1
        &&& self.caches@.len() == SHARD_NUM
        &&& forall|i: int| 0 <= i < SHARD_NUM ==> self.caches@[i].wf()
    }

    /// The bytes accumulated in the slot of record `id`, or `None` if no
    /// record with that slot was ever appended.
    pub closed spec fn contents(self, id: Id) -> Option<Seq<u8>> {
        self.caches@[Self::spec_shard_id(id)].contents(
            (id as int % SHARD_NUM as int) as usize,
        )
    }

    /// A shard of `SHARD_NUM` empty caches.
    pub fn new() -> (r: LocalShard<SHARD_NUM>)
        requires
            SHARD_NUM >= 1,
        ensures
            r.wf(),
            forall|id: Id| r.contents(id) is None,
    {
        let mut caches: Vec<CacheCell> = Vec::new();
        let mut i: usize = 0;
        while i < SHARD_NUM
            invariant
                i <= SHARD_NUM,
                caches@.len() == i,
                forall|j: int|
                    0 <= j < i ==> caches@[j].wf() && (forall|id: Id|
                        #![auto]
                        caches@[j].contents(id) is None),
            decreases SHARD_NUM - i,
        {
            caches.push(CacheCell::new());
            i = i + 1;
        }
        LocalShard { caches }
    }

    /// The slot of record `id`, decided executably.
    pub fn shard_id(id: Id) -> (r: usize)
        requires
            SHARD_NUM >= 1,
        ensures
            r == Self::spec_shard_id(id),
            r < SHARD_NUM,
    {
        id % SHARD_NUM
    }

    /// Apply one unit of work to this worker's caches. An append stamps
    /// the bytes with their checksum before the store stamps them once
    /// more; a get leaves the caches untouched and reports the assembled
    /// bytes as they are stored.
    pub fn run_task(&mut self, task: ShardTask) -> (r: ShardReply)
        requires
            old(self).wf(),
            task matches ShardTask::Append(_, bytes) ==> bytes@.len() >= 1,
            task matches ShardTask::Get(_, size) ==> size >= 1,
        ensures
            final(self).wf(),
            task matches ShardTask::Append(id, bytes) ==> {
                &&& r is Appended
                &&& final(self).contents(id) == Some(
                    previous_or_empty(old(self).contents(id)) + spec_calculation(
                        spec_calculation(bytes@),
                    ),
                )
                &&& forall|other: Id|
                    Self::spec_shard_id(other) != Self::spec_shard_id(id)
                        ==> final(self).contents(other) == old(self).contents(other)
            },
            task matches ShardTask::Get(id, size) ==> {
                &&& *final(self) == *old(self)
                &&& r matches ShardReply::Fetched(fetched)
                &&& (fetched is Some <==> old(self).contents(id) is Some)
                &&& (fetched matches Some(v) ==> v@.len() == size)
            },
    {
        match task {
            ShardTask::Append(id, bytes) => {
                let bytes = calculation(bytes);
                let slot = id % SHARD_NUM;
                let ghost before = self.caches@;
                let mut cache = self.caches.remove(slot);
                cache.append(slot, bytes);
                self.caches.insert(slot, cache);
                proof {
                    assert(self.caches@ =~= before.update(slot as int, cache));
                }
                ShardReply::Appended
            },
            ShardTask::Get(id, size) => {
                let slot = id % SHARD_NUM;
                ShardReply::Fetched(self.caches[slot].get(slot, size))
            },
        }
    }
}

} // verus!
