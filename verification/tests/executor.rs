//! Tests of the executor's status latch, cell accounting and lane fabric.

use shard_affinity::runtime::Runtime;
use shard_affinity::task::CellState;
use shard_affinity::task::PollDecision;
use shard_affinity::task::Status;
use shard_affinity::task::WakeAction;
use shard_affinity::task::poll_exit_transition;
use shard_affinity::task::status_code;
use shard_affinity::task::status_from_code;
use shard_affinity::task::wake_transition;

#[test]
fn status_codes_round_trip() {
    for s in [Status::Idle, Status::Polling, Status::RepollRequested, Status::Complete] {
        assert_eq!(status_from_code(status_code(s)), Some(s));
    }
    assert_eq!(status_from_code(4), None);
    assert_eq!(status_from_code(255), None);
}

#[test]
fn wake_transition_cases() {
    let (next, action) = wake_transition(Status::Idle);
    assert_eq!(next, Status::Polling);
    assert!(matches!(action, WakeAction::Enqueue));

    let (next, action) = wake_transition(Status::Polling);
    assert_eq!(next, Status::RepollRequested);
    assert!(matches!(action, WakeAction::Nothing));

    let (next, action) = wake_transition(Status::RepollRequested);
    assert_eq!(next, Status::RepollRequested);
    assert!(matches!(action, WakeAction::Nothing));

    let (next, action) = wake_transition(Status::Complete);
    assert_eq!(next, Status::Complete);
    assert!(matches!(action, WakeAction::Nothing));
}

#[test]
fn poll_exit_cases() {
    let (next, d) = poll_exit_transition(Status::Polling, true);
    assert_eq!(next, Status::Complete);
    assert!(matches!(d, PollDecision::Finished));

    let (next, d) = poll_exit_transition(Status::Polling, false);
    assert_eq!(next, Status::Idle);
    assert!(matches!(d, PollDecision::Parked));

    let (next, d) = poll_exit_transition(Status::RepollRequested, false);
    assert_eq!(next, Status::Polling);
    assert!(matches!(d, PollDecision::PollAgain));
}

#[test]
fn wake_during_idle_enqueues_once() {
    // a parked cell holding three callbacks
    let mut cell = CellState::spawn(0);
    cell.dequeue();
    cell.clone_waker();
    cell.clone_waker();
    cell.clone_waker();
    let again = cell.finish_poll(false);
    assert!(!again);
    assert_eq!(cell.status, Status::Idle);
    assert_eq!(cell.queued, 0);

    // many racing wakes: exactly one enqueue comes out
    let first = cell.wake_by_ref();
    assert!(first);
    assert!(!cell.wake_by_ref());
    assert!(!cell.wake());
    assert!(!cell.wake());
    assert_eq!(cell.queued, 1);
}

#[test]
fn wake_during_poll_forces_repoll() {
    let mut cell = CellState::spawn(0);
    cell.dequeue();
    cell.clone_waker();
    assert_eq!(cell.status, Status::Polling);

    // the wake races the in-flight poll: no enqueue, but the pending
    // result must be discarded and the poll re-run
    let enqueued = cell.wake();
    assert!(!enqueued);
    assert_eq!(cell.status, Status::RepollRequested);

    let again = cell.finish_poll(false);
    assert!(again);
    assert_eq!(cell.status, Status::Polling);
    assert_eq!(cell.pollers, 1);

    let again = cell.finish_poll(false);
    assert!(!again);
    assert_eq!(cell.status, Status::Idle);
    assert_eq!(cell.pollers, 0);
}

#[test]
fn wake_after_complete_is_noop() {
    let mut cell = CellState::spawn(0);
    cell.dequeue();
    cell.clone_waker();
    cell.finish_poll(true);
    assert_eq!(cell.status, Status::Complete);

    let enqueued = cell.wake();
    assert!(!enqueued);
    assert_eq!(cell.status, Status::Complete);
    assert_eq!(cell.queued, 0);
}

#[test]
fn lifecycle_releases_exactly_after_last_handle() {
    let mut cell = CellState::spawn(0);
    assert_eq!(cell.refs, 1);
    cell.dequeue();
    assert_eq!(cell.refs, 1);
    cell.clone_waker();
    assert_eq!(cell.refs, 2);
    cell.finish_poll(false);
    assert_eq!(cell.refs, 1);
    // the wake moves the callback's share onto the queue entry
    assert!(cell.wake());
    assert_eq!(cell.refs, 1);
    cell.dequeue();
    cell.finish_poll(true);
    assert_eq!(cell.refs, 0);
    assert_eq!(cell.queued, 0);
    assert_eq!(cell.wakers, 0);
    assert_eq!(cell.pollers, 0);
}

#[test]
fn abandoned_callback_releases_suspended_cell() {
    let mut cell = CellState::spawn(3);
    cell.dequeue();
    cell.clone_waker();
    cell.finish_poll(false);
    // the callback is dropped without ever firing: the suspended cell's
    // last share goes away
    cell.drop_waker();
    assert_eq!(cell.refs, 0);
    assert_eq!(cell.status, Status::Idle);
}

#[test]
fn spawn_wake_and_resume_stay_on_lane_zero() {
    let mut rt = Runtime::new(2);

    // spawn on lane 0
    let (t, mut cell) = rt.spawn(0);
    assert_eq!(cell.lane, 0);

    // lane 0's worker drains it and polls; the computation hands out a
    // callback and suspends
    let got = rt.take(0).expect("the spawned task is queued on lane 0");
    assert_eq!(got, t);
    cell.dequeue();
    cell.clone_waker();
    let again = cell.finish_poll(false);
    assert!(!again);
    assert_eq!(cell.status, Status::Idle);

    // lane 1's thread fires the callback: the cell goes back onto its own
    // lane's queue, not lane 1's
    let enqueued = cell.wake();
    assert!(enqueued);
    rt.enqueue(t);
    assert!(rt.take(1).is_none());

    // exactly one round trip later, lane 0's worker resumes and completes it
    let got = rt.take(0).expect("the woken task is queued on lane 0 again");
    assert_eq!(got, t);
    assert_eq!(cell.lane, 0);
    cell.dequeue();
    let again = cell.finish_poll(true);
    assert!(!again);
    assert_eq!(cell.status, Status::Complete);
    assert_eq!(cell.refs, 0);
}

#[test]
fn lane_queue_is_fifo() {
    let mut rt = Runtime::new(1);
    let (t0, _) = rt.spawn(0);
    let (t1, _) = rt.spawn(0);
    assert_eq!(rt.take(0), Some(t0));
    assert_eq!(rt.take(0), Some(t1));
    assert!(rt.take(0).is_none());
}

#[test]
fn runtime_routes_to_own_lane() {
    let mut rt = Runtime::new(3);
    let (t0, c0) = rt.spawn(0);
    let (t2, c2) = rt.spawn(2);
    assert_eq!(c0.lane, 0);
    assert_eq!(c2.lane, 2);
    assert!(rt.take(1).is_none());
    assert_eq!(rt.take(2), Some(t2));
    assert_eq!(rt.take(0), Some(t0));
    assert!(rt.take(0).is_none());
}
