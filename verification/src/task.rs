//! The task cell of the per-lane executor: the atomic status latch that
//! serialises polling without a lock, and the accounting model of one
//! cell's life across queue entries, wake callbacks and pollers.
//!
//! A task cell pairs a suspended computation with a status word. The status
//! word is the one turnstile through which every thread — the lane's worker
//! and any wake callback — must pass: the transition functions here are the
//! pure decisions those threads take, and [`CellState`] records what each
//! decision does to the cell's queue entries, callback shares and ownership
//! count. The invariant [`CellState::inv`] is preserved by every step, and
//! it bounds the number of threads inside the poll cycle by one.

use vstd::prelude::*;

verus! {

/// The status latch of one task cell.
#[derive(Clone, Copy, Debug, PartialEq, Eq, Structural)]
pub enum Status {
    /// Parked: nobody holds polling rights and nothing is queued on the
    /// cell's behalf; only a wake can move it.
    Idle,
    /// One worker holds polling rights, or a queue entry is about to hand
    /// them to one.
    Polling,
    /// A wake arrived while a poll was in flight; the result of that poll
    /// must be discarded and the computation polled again at once.
    RepollRequested,
    /// The computation finished; every further wake is a no-op.
    Complete,
}

/// The byte stored in the cell's atomic status word for each status.
pub open spec fn spec_status_code(s: Status) -> u8 {
    match s {
        Status::Idle => 0,
        Status::Polling => 1,
        Status::RepollRequested => 2,
        Status::Complete => 3,
    }
}

/// The status a byte of the atomic status word decodes to.
pub open spec fn spec_status_from_code(c: u8) -> Option<Status> {
    if c == 0 {
        Some(Status::Idle)
    } else if c == 1 {
        Some(Status::Polling)
    } else if c == 2 {
        Some(Status::RepollRequested)
    } else if c == 3 {
        Some(Status::Complete)
    } else {
        None
    }
}

/// Encode a status for the atomic status word.
pub fn status_code(s: Status) -> (c: u8)
    ensures
        c == spec_status_code(s),
{
    match s {
        Status::Idle => 0,
        Status::Polling => 1,
        Status::RepollRequested => 2,
        Status::Complete => 3,
    }
}

/// Decode a byte read from the atomic status word.
pub fn status_from_code(c: u8) -> (r: Option<Status>)
    ensures
        r == spec_status_from_code(c),
{
    if c == 0 {
        Some(Status::Idle)
    } else if c == 1 {
        Some(Status::Polling)
    } else if c == 2 {
        Some(Status::RepollRequested)
    } else if c == 3 {
        Some(Status::Complete)
    } else {
        None
    }
}

/// Encoding and decoding the status word invert each other.
pub proof fn lemma_status_code_round_trip(s: Status, c: u8)
    ensures
        spec_status_from_code(spec_status_code(s)) == Some(s),
        spec_status_from_code(c) matches Some(d) ==> spec_status_code(d) == c,
{
}

/// What a wake callback must do once its status transition has landed.
pub enum WakeAction {
    /// The cell was parked: push one owning reference of it onto its
    /// lane's queue.
    Enqueue,
    /// Somebody already holds or is owed polling rights: nothing to do.
    Nothing,
}

/// The status a wake moves the latch to.
pub open spec fn spec_wake_next(s: Status) -> Status {
    match s {
        Status::Idle => Status::Polling,
        Status::Polling => Status::RepollRequested,
        Status::RepollRequested => Status::RepollRequested,
        Status::Complete => Status::Complete,
    }
}

/// Whether a wake at this status re-enqueues the cell.
pub open spec fn spec_wake_enqueues(s: Status) -> bool {
    s is Idle
}

/// The decision a wake callback takes against the status it read. The
/// caller commits it with a compare-and-swap on the status word and, on
/// success, performs the returned action; on a failed swap it reads again.
pub fn wake_transition(cur: Status) -> (r: (Status, WakeAction))
    ensures
        r.0 == spec_wake_next(cur),
        r.1 is Enqueue <==> spec_wake_enqueues(cur),
{
    match cur {
        Status::Idle => (Status::Polling, WakeAction::Enqueue),
        Status::Polling => (Status::RepollRequested, WakeAction::Nothing),
        Status::RepollRequested => (Status::RepollRequested, WakeAction::Nothing),
        Status::Complete => (Status::Complete, WakeAction::Nothing),
    }
}

/// What the worker does after one poll step of the computation returned.
pub enum PollDecision {
    /// The computation finished; the worker is done with the cell.
    Finished,
    /// The computation suspended and no wake raced the poll: the cell is
    /// parked until a wake re-enqueues it.
    Parked,
    /// A wake raced the poll: the same worker polls again at once, before
    /// touching its queue.
    PollAgain,
}

/// The status the latch moves to when a poll step returns, and what the
/// worker must do next. A pending result commits `Polling -> Idle` by
/// compare-and-swap; the swap fails exactly when a racing wake left
/// `RepollRequested`, and the worker then restores `Polling` and loops.
pub fn poll_exit_transition(cur: Status, ready: bool) -> (r: (Status, PollDecision))
    requires
        cur is Polling || cur is RepollRequested,
    ensures
        ready ==> r.0 is Complete && r.1 is Finished,
        !ready && cur is Polling ==> r.0 is Idle && r.1 is Parked,
        !ready && cur is RepollRequested ==> r.0 is Polling && r.1 is PollAgain,
{
    if ready {
        (Status::Complete, PollDecision::Finished)
    } else {
        match cur {
            Status::RepollRequested => (Status::Polling, PollDecision::PollAgain),
            _ => (Status::Idle, PollDecision::Parked),
        }
    }
}

/// The accounting model of one task cell, as the whole system sees it:
/// the status latch together with how many queue entries, wake callbacks
/// and pollers refer to the cell, and the ownership count that keeps its
/// allocation alive.
pub struct CellState {
    /// The status latch.
    pub status: Status,
    /// Entries for this cell sitting in its lane's queue, each owning one
    /// reference.
    pub queued: u64,
    /// Live wake callbacks bound to the cell, each owning one reference.
    pub wakers: u64,
    /// Worker threads currently inside the cell's poll cycle, each holding
    /// the reference it took off the queue.
    pub pollers: u64,
    /// The shared-ownership count backing the allocation; the cell is
    /// freed exactly when it reaches zero.
    pub refs: u64,
    /// The lane the cell was spawned on; its queue handle never changes.
    pub lane: usize,
}

impl CellState {
    /// The invariant every reachable cell state satisfies. Its first
    /// clause is the whole concurrency contract: at most one thread — a
    /// queue entry waiting to be drained counts as its lane's worker —
    /// ever holds polling rights.
    pub open spec fn inv(self) -> bool {
        &&& self.queued + self.pollers <= 1
        &&& self.pollers >= 1 ==> self.status is Polling || self.status is RepollRequested
        &&& (self.status is Polling || self.status is RepollRequested) ==> self.queued
            + self.pollers >= 1
        &&& self.status is Idle && self.wakers >= 1 ==> self.queued == 0
        &&& self.queued >= 1 ==> !(self.status is Complete)
        &&& self.refs == self.queued + self.wakers + self.pollers
    }

    /// Parked: the cell sits suspended with no queue entry and no poller;
    /// only its wake callbacks can revive it.
    pub open spec fn parked(self) -> bool {
        self.status is Idle && self.queued == 0 && self.pollers == 0
    }

    /// The state a freshly spawned cell starts in: enqueued once on its
    /// lane, with no callbacks yet — none can exist before the first poll
    /// hands one out.
    pub open spec fn spawn_state(lane: usize) -> CellState {
        CellState { status: Status::Idle, queued: 1, wakers: 0, pollers: 0, refs: 1, lane }
    }

    /// Spawn a computation onto `lane`.
    pub fn spawn(lane: usize) -> (c: CellState)
        ensures
            c == Self::spawn_state(lane),
            c.inv(),
            c.status is Idle,
            c.queued == 1,
            c.wakers == 0,
            c.pollers == 0,
            c.refs == 1,
            c.lane == lane,
    {
        CellState { status: Status::Idle, queued: 1, wakers: 0, pollers: 0, refs: 1, lane }
    }

    /// A worker takes the cell off its lane's queue and enters the poll
    /// cycle, storing `Polling` into the latch. The invariant guarantees
    /// nobody else was polling: the queue entry is the ticket.
    pub fn dequeue(&mut self)
        requires
            old(self).inv(),
            old(self).queued >= 1,
        ensures
            final(self).inv(),
            old(self).pollers == 0,
            final(self).pollers == 1,
            final(self).queued == old(self).queued - 1,
            final(self).status is Polling,
            final(self).wakers == old(self).wakers,
            final(self).refs == old(self).refs,
            final(self).lane == old(self).lane,
            *final(self) == step(*old(self), CellEvent::Dequeue),
    {
        self.status = Status::Polling;
        self.queued = self.queued - 1;
        self.pollers = self.pollers + 1;
    }

    /// A new ownership share for a wake callback: handed out by the poll
    /// context while a poll is in flight, or cloned from a live callback.
    pub fn clone_waker(&mut self)
        requires
            old(self).inv(),
            old(self).wakers >= 1 || old(self).pollers >= 1,
            old(self).refs < u64::MAX,
        ensures
            final(self).inv(),
            final(self).wakers == old(self).wakers + 1,
            final(self).refs == old(self).refs + 1,
            final(self).status == old(self).status,
            final(self).queued == old(self).queued,
            final(self).pollers == old(self).pollers,
            final(self).lane == old(self).lane,
            *final(self) == step(*old(self), CellEvent::CloneWaker),
    {
        self.wakers = self.wakers + 1;
        self.refs = self.refs + 1;
    }

    /// Drop a wake callback without invoking it: one ownership share goes
    /// away. When the count hits zero the allocation is released, and the
    /// invariant shows nothing can still reach it.
    pub fn drop_waker(&mut self)
        requires
            old(self).inv(),
            old(self).wakers >= 1,
        ensures
            final(self).inv(),
            final(self).wakers == old(self).wakers - 1,
            final(self).refs == old(self).refs - 1,
            final(self).status == old(self).status,
            final(self).queued == old(self).queued,
            final(self).pollers == old(self).pollers,
            final(self).lane == old(self).lane,
            *final(self) == step(*old(self), CellEvent::DropWaker),
    {
        self.wakers = self.wakers - 1;
        self.refs = self.refs - 1;
    }

    /// `wake`: consume one callback share and demand a re-poll. On a
    /// parked cell this enqueues the cell — the share moves from the
    /// callback to the queue entry; during an in-flight poll it flags
    /// `RepollRequested`; after completion it is a no-op. Either way, a
    /// wake of an uncompleted cell leaves it scheduled: queued, or pinned
    /// on a poller that must poll again.
    pub fn wake(&mut self) -> (enqueued: bool)
        requires
            old(self).inv(),
            old(self).wakers >= 1,
        ensures
            final(self).inv(),
            final(self).status == spec_wake_next(old(self).status),
            enqueued == spec_wake_enqueues(old(self).status),
            final(self).wakers == old(self).wakers - 1,
            final(self).pollers == old(self).pollers,
            final(self).lane == old(self).lane,
            enqueued ==> final(self).queued == old(self).queued + 1 && final(self).refs == old(
                self,
            ).refs,
            !enqueued ==> final(self).queued == old(self).queued && final(self).refs == old(
                self,
            ).refs - 1,
            !(old(self).status is Complete) ==> final(self).queued >= 1 || (final(self).pollers
                >= 1 && final(self).status is RepollRequested),
            *final(self) == step(*old(self), CellEvent::Wake),
    {
        let (next, action) = wake_transition(self.status);
        self.status = next;
        self.wakers = self.wakers - 1;
        match action {
            WakeAction::Enqueue => {
                self.queued = self.queued + 1;
                true
            },
            WakeAction::Nothing => {
                self.refs = self.refs - 1;
                false
            },
        }
    }

    /// `wake_by_reference`: the same transition as `wake`, but the caller
    /// keeps its callback; an enqueue therefore clones a fresh owning
    /// share for the queue entry.
    pub fn wake_by_ref(&mut self) -> (enqueued: bool)
        requires
            old(self).inv(),
            old(self).wakers >= 1 || old(self).pollers >= 1,
            old(self).refs < u64::MAX,
        ensures
            final(self).inv(),
            final(self).status == spec_wake_next(old(self).status),
            enqueued == spec_wake_enqueues(old(self).status),
            final(self).wakers == old(self).wakers,
            final(self).pollers == old(self).pollers,
            final(self).lane == old(self).lane,
            enqueued ==> final(self).queued == old(self).queued + 1 && final(self).refs == old(
                self,
            ).refs + 1,
            !enqueued ==> final(self).queued == old(self).queued && final(self).refs == old(
                self,
            ).refs,
            !(old(self).status is Complete) ==> final(self).queued >= 1 || (final(self).pollers
                >= 1 && final(self).status is RepollRequested),
            *final(self) == step(*old(self), CellEvent::WakeByRef),
    {
        let (next, action) = wake_transition(self.status);
        self.status = next;
        match action {
            WakeAction::Enqueue => {
                self.queued = self.queued + 1;
                self.refs = self.refs + 1;
                true
            },
            WakeAction::Nothing => false,
        }
    }

    /// The poller reports the outcome of one poll step. A ready result
    /// completes the cell; a pending result parks it unless a wake raced
    /// the poll, in which case the same poller must poll again — the
    /// raced wake is never lost.
    pub fn finish_poll(&mut self, ready: bool) -> (again: bool)
        requires
            old(self).inv(),
            old(self).pollers >= 1,
        ensures
            final(self).inv(),
            final(self).wakers == old(self).wakers,
            final(self).queued == old(self).queued,
            final(self).lane == old(self).lane,
            ready ==> final(self).status is Complete && !again && final(self).pollers == old(
                self,
            ).pollers - 1 && final(self).refs == old(self).refs - 1,
            !ready && old(self).status is Polling ==> final(self).status is Idle && !again
                && final(self).pollers == old(self).pollers - 1 && final(self).refs == old(
                self,
            ).refs - 1,
            !ready && old(self).status is RepollRequested ==> final(self).status is Polling
                && again && final(self).pollers == old(self).pollers && final(self).refs == old(
                self,
            ).refs,
            *final(self) == step(*old(self), CellEvent::FinishPoll(ready)),
    {
        let (next, decision) = poll_exit_transition(self.status, ready);
        self.status = next;
        match decision {
            PollDecision::PollAgain => true,
            _ => {
                self.pollers = self.pollers - 1;
                self.refs = self.refs - 1;
                false
            },
        }
    }
}

/// One step some thread takes against a task cell.
pub enum CellEvent {
    /// A worker drains the cell from its lane's queue and begins polling.
    Dequeue,
    /// A callback share is handed out or cloned.
    CloneWaker,
    /// A callback is dropped uninvoked.
    DropWaker,
    /// A callback is consumed by `wake`.
    Wake,
    /// A callback fires `wake_by_reference`.
    WakeByRef,
    /// The poller's poll step returned; the payload tells whether the
    /// computation finished.
    FinishPoll(bool),
}

/// Whether a thread can take this step in this state.
pub open spec fn event_enabled(s: CellState, e: CellEvent) -> bool {
    match e {
        CellEvent::Dequeue => s.queued >= 1,
        CellEvent::CloneWaker => (s.wakers >= 1 || s.pollers >= 1) && s.wakers < u64::MAX
            && s.refs < u64::MAX,
        CellEvent::DropWaker => s.wakers >= 1,
        CellEvent::Wake => s.wakers >= 1,
        CellEvent::WakeByRef => (s.wakers >= 1 || s.pollers >= 1) && s.refs < u64::MAX,
        CellEvent::FinishPoll(_) => s.pollers >= 1,
    }
}

/// The transition system of one task cell: what one step does to the
/// cell's accounting. A step that is not enabled changes nothing. The
/// executable methods of [`CellState`] each perform exactly one of these
/// steps.
pub open spec fn step(s: CellState, e: CellEvent) -> CellState {
    if !event_enabled(s, e) {
        s
    } else {
        match e {
            CellEvent::Dequeue => CellState {
                status: Status::Polling,
                queued: (s.queued - 1) as u64,
                pollers: (s.pollers + 1) as u64,
                ..s
            },
            CellEvent::CloneWaker => CellState {
                wakers: (s.wakers + 1) as u64,
                refs: (s.refs + 1) as u64,
                ..s
            },
            CellEvent::DropWaker => CellState {
                wakers: (s.wakers - 1) as u64,
                refs: (s.refs - 1) as u64,
                ..s
            },
            CellEvent::Wake => if spec_wake_enqueues(s.status) {
                CellState {
                    status: spec_wake_next(s.status),
                    queued: (s.queued + 1) as u64,
                    wakers: (s.wakers - 1) as u64,
                    ..s
                }
            } else {
                CellState {
                    status: spec_wake_next(s.status),
                    wakers: (s.wakers - 1) as u64,
                    refs: (s.refs - 1) as u64,
                    ..s
                }
            },
            CellEvent::WakeByRef => if spec_wake_enqueues(s.status) {
                CellState {
                    status: spec_wake_next(s.status),
                    queued: (s.queued + 1) as u64,
                    refs: (s.refs + 1) as u64,
                    ..s
                }
            } else {
                CellState { status: spec_wake_next(s.status), ..s }
            },
            CellEvent::FinishPoll(ready) => if ready {
                CellState {
                    status: Status::Complete,
                    pollers: (s.pollers - 1) as u64,
                    refs: (s.refs - 1) as u64,
                    ..s
                }
            } else if s.status is Polling {
                CellState {
                    status: Status::Idle,
                    pollers: (s.pollers - 1) as u64,
                    refs: (s.refs - 1) as u64,
                    ..s
                }
            } else {
                CellState { status: Status::Polling, ..s }
            },
        }
    }
}

/// The state a cell reaches after a sequence of steps.
pub open spec fn run(s: CellState, events: Seq<CellEvent>) -> CellState
    decreases events.len(),
{
    if events.len() == 0 {
        s
    } else {
        run(step(s, events.first()), events.drop_first())
    }
}

/// Every single step preserves the cell invariant, and never moves the
/// cell off the lane it was spawned on.
pub proof fn lemma_step_preserves_inv(s: CellState, e: CellEvent)
    requires
        s.inv(),
    ensures
        step(s, e).inv(),
        step(s, e).lane == s.lane,
{
}

/// Every state reachable from a spawned cell — under any interleaving of
/// dequeues, wakes, callback clones and drops, and poll exits — satisfies
/// the invariant and still carries the lane it was spawned with.
pub proof fn lemma_run_preserves_inv(s: CellState, events: Seq<CellEvent>)
    requires
        s.inv(),
    ensures
        run(s, events).inv(),
        run(s, events).lane == s.lane,
    decreases events.len(),
{
    if events.len() > 0 {
        lemma_step_preserves_inv(s, events.first());
        lemma_run_preserves_inv(step(s, events.first()), events.drop_first());
    }
}

/// Single poller: the invariant bounds the number of threads inside a
/// cell's poll cycle by one, so no two threads ever poll the same
/// computation concurrently.
pub proof fn lemma_single_poller(s: CellState)
    requires
        s.inv(),
    ensures
        s.pollers <= 1,
        s.pollers == 1 ==> s.queued == 0,
{
}

/// No lost wakeup, first half: a wake delivered to a cell that has not
/// completed leaves the cell queued for its lane, or pinned on a poller
/// whose latch demands another poll.
pub proof fn lemma_no_lost_wakeup(s: CellState, e: CellEvent)
    requires
        s.inv(),
        !(s.status is Complete),
        e is Wake || e is WakeByRef,
        event_enabled(s, e),
    ensures
        step(s, e).queued >= 1 || (step(s, e).pollers >= 1 && step(
            s,
            e,
        ).status is RepollRequested),
{
}

/// No lost wakeup, second half: a poller that finds `RepollRequested`
/// when its poll step returns pending does not park the cell; it keeps
/// its polling rights and the latch returns to `Polling` for the re-run.
pub proof fn lemma_repoll_runs(s: CellState)
    requires
        s.inv(),
        s.pollers >= 1,
        s.status is RepollRequested,
    ensures
        step(s, CellEvent::FinishPoll(false)).status is Polling,
        step(s, CellEvent::FinishPoll(false)).pollers == s.pollers,
        step(s, CellEvent::FinishPoll(false)).queued == s.queued,
{
}

/// Only wake steps.
pub open spec fn all_wake_events(events: Seq<CellEvent>) -> bool {
    forall|i: int| 0 <= i < events.len() ==> events[i] is Wake || events[i] is WakeByRef
}

proof fn lemma_wake_burst_stable(s: CellState, events: Seq<CellEvent>)
    requires
        s.inv(),
        s.status is Polling || s.status is RepollRequested,
        s.queued == 1,
        all_wake_events(events),
    ensures
        run(s, events).queued == 1,
    decreases events.len(),
{
    if events.len() > 0 {
        lemma_step_preserves_inv(s, events.first());
        assert(all_wake_events(events.drop_first())) by {
            assert forall|i: int| 0 <= i < events.drop_first().len() implies events.drop_first()[i] is Wake
                || events.drop_first()[i] is WakeByRef by {
                assert(events.drop_first()[i] == events[i + 1]);
            }
        }
        lemma_wake_burst_stable(step(s, events.first()), events.drop_first());
    }
}

/// No double-enqueue: however many `wake` and `wake_by_reference` calls
/// race on a parked cell that still holds a live callback, exactly one
/// queue entry comes out of the burst.
pub proof fn lemma_no_double_enqueue(s: CellState, events: Seq<CellEvent>)
    requires
        s.inv(),
        s.parked(),
        s.wakers >= 1,
        s.refs < u64::MAX,
        events.len() >= 1,
        all_wake_events(events),
    ensures
        run(s, events).queued == 1,
    decreases events.len(),
{
    lemma_step_preserves_inv(s, events.first());
    assert(all_wake_events(events.drop_first())) by {
        assert forall|i: int| 0 <= i < events.drop_first().len() implies events.drop_first()[i] is Wake
            || events.drop_first()[i] is WakeByRef by {
            assert(events.drop_first()[i] == events[i + 1]);
        }
    }
    lemma_wake_burst_stable(step(s, events.first()), events.drop_first());
}

/// The example round trip, as a theorem. A computation spawned on a lane
/// is dequeued and polled by that lane's worker; it hands out one wake
/// callback and suspends; the callback fires once, from wherever, and
/// puts the cell back on the same lane's queue; one dequeue later the
/// computation completes — and with the callback consumed and the poll
/// finished, the cell's last ownership share is gone.
pub proof fn lemma_example_round_trip(lane: usize)
    ensures
        ({
            let end = step(
                step(
                    step(
                        step(
                            step(
                                step(CellState::spawn_state(lane), CellEvent::Dequeue),
                                CellEvent::CloneWaker,
                            ),
                            CellEvent::FinishPoll(false),
                        ),
                        CellEvent::Wake,
                    ),
                    CellEvent::Dequeue,
                ),
                CellEvent::FinishPoll(true),
            );
            end.status is Complete && end.refs == 0 && end.lane == lane
        }),
{
    let s0 = CellState::spawn_state(lane);
    let s1 = step(s0, CellEvent::Dequeue);
    assert(s1.status is Polling && s1.pollers == 1 && s1.queued == 0);
    let s2 = step(s1, CellEvent::CloneWaker);
    assert(s2.wakers == 1 && s2.refs == 2);
    let s3 = step(s2, CellEvent::FinishPoll(false));
    assert(s3.status is Idle && s3.pollers == 0 && s3.refs == 1);
    let s4 = step(s3, CellEvent::Wake);
    assert(s4.status is Polling && s4.queued == 1 && s4.wakers == 0 && s4.refs == 1);
    let s5 = step(s4, CellEvent::Dequeue);
    assert(s5.pollers == 1 && s5.queued == 0);
    let s6 = step(s5, CellEvent::FinishPoll(true));
    assert(s6.status is Complete && s6.refs == 0 && s6.lane == lane);
}

/// Lifecycle: the ownership count equals the live handles — queue
/// entries, callbacks, pollers — so the allocation is released only once
/// nothing can still reach the cell, a released cell never moves again,
/// and no single step drops more than one share: no use-after-free and no
/// double release.
pub proof fn lemma_release_safety(s: CellState, e: CellEvent)
    requires
        s.inv(),
    ensures
        s.refs == 0 ==> s.queued == 0 && s.wakers == 0 && s.pollers == 0,
        s.refs == 0 ==> step(s, e) == s,
        step(s, e).refs >= s.refs - 1,
{
}

} // verus!
