//! The lane fabric of the executor: one FIFO queue of task ids per lane,
//! each drained by exactly one worker.
//!
//! The model pins down the routing rule the real fabric lives by: a task
//! is stamped with its lane when it is spawned, every re-enqueue goes to
//! that same lane, and a worker draining lane `k` only ever receives
//! tasks stamped `k` — a task never migrates. The threads, channels and
//! core pinning around this sit outside the library; they hand ids and
//! poll outcomes back and forth and take every scheduling decision from
//! here and from [`crate::task`].

use vstd::prelude::*;

use crate::task::CellState;

verus! {

/// The per-lane queues of one runtime, together with the lane stamp of
/// every task ever spawned on it.
pub struct Runtime {
    queues: Vec<Vec<usize>>,
    task_lanes: Vec<usize>,
}

impl Runtime {
    /// How many lanes the runtime was built with.
    pub closed spec fn lane_count(self) -> int {
        self.queues@.len() as int
    }

    /// How many tasks were spawned so far; ids are handed out in order.
    pub closed spec fn task_count(self) -> int {
        self.task_lanes@.len() as int
    }

    /// The lane task `t` was spawned on.
    pub closed spec fn task_lane(self, t: int) -> int {
        self.task_lanes@[t] as int
    }

    /// The ids queued on lane `k`, front first.
    pub closed spec fn queue(self, k: int) -> Seq<usize> {
        self.queues@[k]@
    }

    pub closed spec fn wf(self) -> bool {
        &&& forall|t: int|
            0 <= t < self.task_lanes@.len() ==> (#[trigger] self.task_lanes@[t] as int)
                < self.queues@.len()
        &&& forall|k: int, j: int|
            0 <= k < self.queues@.len() && 0 <= j < self.queues@[k]@.len() ==> {
                &&& (#[trigger] self.queues@[k]@[j] as int) < self.task_lanes@.len()
                &&& self.task_lanes@[self.queues@[k]@[j] as int] as int == k
            }
    }

    /// A runtime of `lanes` lanes, each with an empty queue and no tasks
    /// yet.
    pub fn new(lanes: usize) -> (r: Runtime)
        ensures
            r.wf(),
            r.lane_count() == lanes,
            r.task_count() == 0,
            forall|k: int| 0 <= k < lanes ==> (#[trigger] r.queue(k)).len() == 0,
    {
        let mut queues: Vec<Vec<usize>> = Vec::new();
        let mut i: usize = 0;
        while i < lanes
            invariant
                i <= lanes,
                queues@.len() == i,
                forall|k: int| 0 <= k < i ==> (#[trigger] queues@[k])@.len() == 0,
            decreases lanes - i,
        {
            queues.push(Vec::new());
            i = i + 1;
        }
        Runtime { queues, task_lanes: Vec::new() }
    }

    /// Spawn a computation onto `lane`: stamp a fresh task id with the
    /// lane, enqueue it there once, and hand back the id with the task
    /// cell's initial accounting state.
    pub fn spawn(&mut self, lane: usize) -> (r: (usize, CellState))
        requires
            old(self).wf(),
            lane < old(self).lane_count(),
        ensures
            final(self).wf(),
            r.0 == old(self).task_count(),
            final(self).task_count() == old(self).task_count() + 1,
            final(self).lane_count() == old(self).lane_count(),
            final(self).task_lane(r.0 as int) == lane,
            forall|t: int|
                0 <= t < old(self).task_count() ==> final(self).task_lane(t) == old(self).task_lane(t),
            final(self).queue(lane as int) == old(self).queue(lane as int).push(r.0),
            forall|k: int|
                0 <= k < old(self).lane_count() && k != lane ==> final(self).queue(k) == old(self).queue(k),
            r.1.inv(),
            r.1.lane == lane,
            r.1.status is Idle,
            r.1.queued == 1,
            r.1.wakers == 0,
            r.1.pollers == 0,
            r.1.refs == 1,
    {
        let t = self.task_lanes.len();
        self.task_lanes.push(lane);
        let ghost before = self.queues@;
        let mut q = self.queues.remove(lane);
        q.push(t);
        self.queues.insert(lane, q);
        proof {
            assert(self.queues@ =~= before.update(lane as int, q));
        }
        (t, CellState::spawn(lane))
    }

    /// Re-enqueue task `t` after a wake found it parked: the entry goes
    /// onto the queue of the lane the task was spawned on, never another.
    pub fn enqueue(&mut self, t: usize)
        requires
            old(self).wf(),
            t < old(self).task_count(),
        ensures
            final(self).wf(),
            final(self).task_count() == old(self).task_count(),
            final(self).lane_count() == old(self).lane_count(),
            forall|u: int|
                0 <= u < old(self).task_count() ==> final(self).task_lane(u) == old(self).task_lane(u),
            final(self).queue(old(self).task_lane(t as int)) == old(self).queue(
                old(self).task_lane(t as int),
            ).push(t),
            forall|k: int|
                0 <= k < old(self).lane_count() && k != old(self).task_lane(t as int)
                    ==> final(self).queue(k) == old(self).queue(k),
    {
        let lane = self.task_lanes[t];
        let ghost before = self.queues@;
        let mut q = self.queues.remove(lane);
        q.push(t);
        self.queues.insert(lane, q);
        proof {
            assert(self.queues@ =~= before.update(lane as int, q));
        }
    }

    /// One worker drains its own lane: take the task at the front of
    /// lane `k`'s queue, if any. Whatever comes out was spawned on `k` —
    /// a task is never handed to another lane's worker.
    pub fn take(&mut self, lane: usize) -> (r: Option<usize>)
        requires
            old(self).wf(),
            lane < old(self).lane_count(),
        ensures
            final(self).wf(),
            final(self).task_count() == old(self).task_count(),
            final(self).lane_count() == old(self).lane_count(),
            forall|u: int|
                0 <= u < old(self).task_count() ==> final(self).task_lane(u) == old(self).task_lane(u),
            forall|k: int|
                0 <= k < old(self).lane_count() && k != lane ==> final(self).queue(k) == old(self).queue(k),
            r matches Some(t) ==> {
                &&& (t as int) < old(self).task_count()
                &&& old(self).task_lane(t as int) == lane
                &&& old(self).queue(lane as int) == seq![t] + final(self).queue(lane as int)
            },
            r is None ==> old(self).queue(lane as int).len() == 0 && final(self).queue(
                lane as int,
            ) == old(self).queue(lane as int),
    {
        let ghost before = self.queues@;
        let mut q = self.queues.remove(lane);
        let r = if q.len() > 0 {
            Some(q.remove(0))
        } else {
            None
        };
        self.queues.insert(lane, q);
        proof {
            assert(self.queues@ =~= before.update(lane as int, q));
            if r is Some {
                assert(before[lane as int]@ =~= seq![r->Some_0] + q@);
            }
        }
        r
    }
}

/// Lane affinity: every entry sitting in lane `k`'s queue is a task that
/// was spawned on lane `k`. Together with the lane preservation of every
/// [`crate::task::CellState`] step, a computation spawned on lane `k` is
/// polled by lane `k`'s worker for its entire lifetime.
pub proof fn lemma_lane_affinity(rt: Runtime, k: int, j: int)
    requires
        rt.wf(),
        0 <= k < rt.lane_count(),
        0 <= j < rt.queue(k).len(),
    ensures
        0 <= rt.queue(k)[j] < rt.task_count(),
        rt.task_lane(rt.queue(k)[j] as int) == k,
{
}

} // verus!
