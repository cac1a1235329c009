//! The loop of one worker, as a state machine: at the top of each round it
//! looks at the session's stop signal, then runs one attempt, and either goes
//! round again, stops at its limit, or stops the whole session on a failure.
//!
//! The caller performs each action and feeds back what it saw.

use vstd::prelude::*;
use core::sync::atomic::{AtomicBool, Ordering};

verus! {

/// The signal that tells every worker of a session to stop. It starts clear
/// and can only be raised.
pub struct StopSignal {
    flag: AtomicBool,
}

impl StopSignal {
    pub fn new() -> (r: StopSignal) {
        StopSignal { flag: AtomicBool::new(false) }
    }

    /// Whether some worker has raised the signal.
    pub fn is_raised(&self) -> (r: bool) {
        self.flag.load(Ordering::SeqCst)
    }

    /// Raises the signal for good.
    pub fn raise(&self) {
        self.flag.store(true, Ordering::SeqCst)
    }
}

/// Where a worker stands in its loop.
#[derive(Debug, Clone, Copy, PartialEq, Eq, Structural)]
pub enum WorkerPhase {
    /// About to look at the stop signal.
    LoopTop,
    /// Waiting for the outcome of its current attempt.
    Attempting,
    /// Finished; it starts nothing more.
    Done,
}

/// The state of one worker.
#[derive(Debug, Clone, Copy, PartialEq, Eq)]
pub struct Worker {
    /// This worker's index in the session.
    pub which: u8,
    /// The number of attempts after which it stops (`None`: no limit).
    pub stop_after: Option<usize>,
    /// Attempts completed successfully so far.
    pub ntries: usize,
    pub phase: WorkerPhase,
}

/// What a worker reports when it finishes.
#[derive(Debug, PartialEq, Eq)]
pub struct WorkerResult {
    /// Attempts completed successfully; a failing attempt does not count.
    pub ntries: usize,
    /// Ok, or the failure that ended the worker.
    pub result: Result<(), String>,
}

/// What the worker saw.
#[derive(Debug, PartialEq, Eq)]
pub enum WorkerEvent {
    /// The stop signal, as read at the top of the loop.
    Polled(bool),
    /// The current attempt succeeded.
    AttemptSucceeded,
    /// The current attempt failed with this report.
    AttemptFailed(String),
}

/// What the worker asks for next.
#[derive(Debug, PartialEq, Eq)]
pub enum WorkerAction {
    /// Read the stop signal and report it.
    Poll,
    /// Run the attempt with this run number.
    Attempt(usize),
    /// The worker is finished with this result; raise the stop signal first
    /// where `raise_stop` says so.
    Finish { result: WorkerResult, raise_stop: bool },
    /// Nothing: the worker had already finished.
    Idle,
}

impl Worker {
    /// A worker at the top of its first round, with no attempt made.
    pub open spec fn initial(which: u8, stop_after: Option<usize>) -> Worker {
        Worker { which, stop_after, ntries: 0, phase: WorkerPhase::LoopTop }
    }

    pub fn new(which: u8, stop_after: Option<usize>) -> (r: Worker)
        ensures
            r == Worker::initial(which, stop_after),
    {
        Worker { which, stop_after, ntries: 0, phase: WorkerPhase::LoopTop }
    }

    /// Whether `e` is what the worker is waiting for.
    pub open spec fn expects(self, e: WorkerEvent) -> bool {
        match self.phase {
            WorkerPhase::LoopTop => e is Polled,
            WorkerPhase::Attempting => !(e is Polled),
            WorkerPhase::Done => false,
        }
    }
}

/// Whether `ntries` completed attempts reach the limit.
pub open spec fn limit_reached(stop_after: Option<usize>, ntries: nat) -> bool {
    match stop_after {
        Some(k) => ntries >= k,
        None => false,
    }
}

pub open spec fn with_phase(w: Worker, phase: WorkerPhase, ntries: usize) -> Worker {
    Worker { which: w.which, stop_after: w.stop_after, ntries, phase }
}

/// One step of a worker. An event it does not expect leaves it as it is.
pub open spec fn worker_step(w: Worker, e: WorkerEvent) -> (Worker, WorkerAction) {
    if !w.expects(e) {
        (w, if w.phase == WorkerPhase::Done { WorkerAction::Idle } else { WorkerAction::Poll })
    } else {
        match e {
            WorkerEvent::Polled(stopping) => if stopping {
                (
                    with_phase(w, WorkerPhase::Done, w.ntries),
                    WorkerAction::Finish {
                        result: WorkerResult { ntries: w.ntries, result: Ok(()) },
                        raise_stop: false,
                    },
                )
            } else if limit_reached(w.stop_after, w.ntries as nat) {
                (
                    with_phase(w, WorkerPhase::Done, w.ntries),
                    WorkerAction::Finish {
                        result: WorkerResult { ntries: w.ntries, result: Ok(()) },
                        raise_stop: false,
                    },
                )
            } else {
                (with_phase(w, WorkerPhase::Attempting, w.ntries), WorkerAction::Attempt(w.ntries))
            },
            WorkerEvent::AttemptSucceeded => {
                let n = (w.ntries + 1) as usize;
                if limit_reached(w.stop_after, n as nat) {
                    (
                        with_phase(w, WorkerPhase::Done, n),
                        WorkerAction::Finish {
                            result: WorkerResult { ntries: n, result: Ok(()) },
                            raise_stop: false,
                        },
                    )
                } else {
                    (with_phase(w, WorkerPhase::LoopTop, n), WorkerAction::Poll)
                }
            },
            WorkerEvent::AttemptFailed(msg) => (
                with_phase(w, WorkerPhase::Done, w.ntries),
                WorkerAction::Finish {
                    result: WorkerResult { ntries: w.ntries, result: Err(msg) },
                    raise_stop: true,
                },
            ),
        }
    }
}

/// Drives one worker through its loop: takes what it saw and returns what to
/// do next.
///
/// A raised stop signal at the top of the loop finishes the worker without a
/// new attempt, and so does a limit already reached there (a limit of 0 makes
/// no attempt at all). A successful attempt counts; reaching `stop_after` attempts
/// finishes the worker normally. A failed attempt finishes it with that
/// failure, uncounted, and asks for the stop signal to be raised.
pub fn gocrash_worker(worker: &mut Worker, event: WorkerEvent) -> (r: WorkerAction)
    requires
        (event is AttemptSucceeded && old(worker).phase == WorkerPhase::Attempting)
            ==> old(worker).ntries < usize::MAX,
    ensures
        (*final(worker), r) == worker_step(*old(worker), event),
{
    match event {
        WorkerEvent::Polled(stopping) => {
            if worker.phase != WorkerPhase::LoopTop {
                if worker.phase == WorkerPhase::Done {
                    WorkerAction::Idle
                } else {
                    WorkerAction::Poll
                }
            } else if stopping {
                worker.phase = WorkerPhase::Done;
                WorkerAction::Finish {
                    result: WorkerResult { ntries: worker.ntries, result: Ok(()) },
                    raise_stop: false,
                }
            } else {
                let reached = match worker.stop_after {
                    Some(k) => worker.ntries >= k,
                    None => false,
                };
                if reached {
                    worker.phase = WorkerPhase::Done;
                    WorkerAction::Finish {
                        result: WorkerResult { ntries: worker.ntries, result: Ok(()) },
                        raise_stop: false,
                    }
                } else {
                    worker.phase = WorkerPhase::Attempting;
                    WorkerAction::Attempt(worker.ntries)
                }
            }
        },
        WorkerEvent::AttemptSucceeded => {
            if worker.phase != WorkerPhase::Attempting {
                if worker.phase == WorkerPhase::Done {
                    WorkerAction::Idle
                } else {
                    WorkerAction::Poll
                }
            } else {
                worker.ntries = worker.ntries + 1;
                let reached = match worker.stop_after {
                    Some(k) => worker.ntries >= k,
                    None => false,
                };
                if reached {
                    worker.phase = WorkerPhase::Done;
                    WorkerAction::Finish {
                        result: WorkerResult { ntries: worker.ntries, result: Ok(()) },
                        raise_stop: false,
                    }
                } else {
                    worker.phase = WorkerPhase::LoopTop;
                    WorkerAction::Poll
                }
            }
        },
        WorkerEvent::AttemptFailed(msg) => {
            if worker.phase != WorkerPhase::Attempting {
                if worker.phase == WorkerPhase::Done {
                    WorkerAction::Idle
                } else {
                    WorkerAction::Poll
                }
            } else {
                worker.phase = WorkerPhase::Done;
                WorkerAction::Finish {
                    result: WorkerResult { ntries: worker.ntries, result: Err(msg) },
                    raise_stop: true,
                }
            }
        },
    }
}

/// A worker fed a sequence of events: its final state and every action it asked for.
pub open spec fn run_worker(w: Worker, events: Seq<WorkerEvent>) -> (Worker, Seq<WorkerAction>)
    decreases events.len(),
{
    if events.len() == 0 {
        (w, Seq::empty())
    } else {
        let (v, acts) = run_worker(w, events.drop_last());
        let (u, a) = worker_step(v, events.last());
        (u, acts.push(a))
    }
}

/// `k` rounds in which the stop signal is clear and every attempt succeeds,
/// then one more look at the (still clear) signal.
pub open spec fn clean_rounds(k: nat) -> Seq<WorkerEvent> {
    Seq::new(
        2 * k + 1,
        |i: int|
            if i % 2 == 0 {
                WorkerEvent::Polled(false)
            } else {
                WorkerEvent::AttemptSucceeded
            },
    )
}

/// What a worker that finishes normally after `k` attempts reports.
pub open spec fn clean_finish(k: usize) -> WorkerAction {
    WorkerAction::Finish { result: WorkerResult { ntries: k, result: Ok(()) }, raise_stop: false }
}

/// A failed attempt finishes the worker, uncounted, and raises the stop
/// signal; a raised signal seen at the top of the loop finishes it without a
/// new attempt; and a finished worker never starts another attempt, whatever
/// it is told afterwards.
pub proof fn lemma_stop_is_final(w: Worker, msg: String, events: Seq<WorkerEvent>)
    ensures
        w.phase == WorkerPhase::Attempting ==> worker_step(w, WorkerEvent::AttemptFailed(msg)) == (
        with_phase(w, WorkerPhase::Done, w.ntries),
        WorkerAction::Finish {
            result: WorkerResult { ntries: w.ntries, result: Err(msg) },
            raise_stop: true,
        }),
        w.phase == WorkerPhase::LoopTop ==> worker_step(w, WorkerEvent::Polled(true)).0.phase
            == WorkerPhase::Done && !(worker_step(w, WorkerEvent::Polled(true)).1 is Attempt),
        run_worker(w, events).1.len() == events.len(),
        w.phase == WorkerPhase::Done ==> run_worker(w, events).0 == w && forall|i: int|
            0 <= i < events.len() ==> !(#[trigger] run_worker(w, events).1[i] is Attempt),
    decreases events.len(),
{
    if events.len() > 0 {
        lemma_stop_is_final(w, msg, events.drop_last());
        let (v, acts) = run_worker(w, events.drop_last());
        if w.phase == WorkerPhase::Done {
            assert(v == w);
            assert(worker_step(v, events.last()) == (w, WorkerAction::Idle));
            assert(run_worker(w, events).1 == acts.push(WorkerAction::Idle));
        }
    }
}

proof fn lemma_clean_prefix(which: u8, k: usize, j: nat)
    requires
        j <= k,
    ensures
        ({
            let (v, acts) = run_worker(Worker::initial(which, Some(k)), clean_rounds(k as nat).take(2 * j as int));
            &&& v.ntries == j
            &&& v.which == which
            &&& v.stop_after == Some(k)
            &&& v.phase == (if j == k && j > 0 { WorkerPhase::Done } else { WorkerPhase::LoopTop })
            &&& acts.len() == 2 * j
            &&& forall|i: int| 0 <= i < j ==> #[trigger] acts[2 * i] == WorkerAction::Attempt(i as usize)
            &&& forall|i: int| 0 <= i < j ==> !(#[trigger] acts[2 * i + 1] is Attempt)
            &&& forall|i: int| 0 <= i < acts.len() && (#[trigger] acts[i]) is Finish ==> acts[i] == clean_finish(k)
            &&& j == k && j > 0 ==> acts.last() == clean_finish(k)
        }),
    decreases j,
{
    let ev = clean_rounds(k as nat);
    let init = Worker::initial(which, Some(k));
    if j == 0 {
        assert(ev.take(0) =~= Seq::<WorkerEvent>::empty());
    } else {
        let j0 = (j - 1) as nat;
        lemma_clean_prefix(which, k, j0);
        let e2 = ev.take(2 * j as int);
        let e1 = ev.take(2 * j - 1);
        let e0 = ev.take(2 * j0 as int);
        assert(e2.drop_last() =~= e1);
        assert(e1.drop_last() =~= e0);
        assert((2 * j0) % 2 == 0);
        assert((2 * j - 1) % 2 == 1);
        assert(e1.last() == WorkerEvent::Polled(false));
        assert(e2.last() == WorkerEvent::AttemptSucceeded);
        let (v0, a0) = run_worker(init, e0);
        let (v1, a1) = run_worker(init, e1);
        let (v2, a2) = run_worker(init, e2);
        assert(v1 == with_phase(v0, WorkerPhase::Attempting, v0.ntries));
        assert(a1 == a0.push(WorkerAction::Attempt(j0 as usize)));
        assert(a2 == a1.push(worker_step(v1, WorkerEvent::AttemptSucceeded).1));
        assert forall|i: int| 0 <= i < j implies #[trigger] a2[2 * i] == WorkerAction::Attempt(
            i as usize,
        ) by {
            if i < j0 {
                assert(a2[2 * i] == a0[2 * i]);
            } else {
                assert(2 * i == 2 * j0);
            }
        }
        assert forall|i: int| 0 <= i < j implies !(#[trigger] a2[2 * i + 1] is Attempt) by {
            if i < j0 {
                assert(a2[2 * i + 1] == a0[2 * i + 1]);
            } else {
                assert(2 * i + 1 == 2 * j - 1);
            }
        }
        assert forall|i: int| 0 <= i < a2.len() && (#[trigger] a2[i]) is Finish implies a2[i]
            == clean_finish(k) by {
            if i < a0.len() {
                assert(a2[i] == a0[i]);
            }
        }
    }
}

/// With a limit of `k` attempts and no failure and no stop, a worker makes
/// exactly `k` attempts, numbered `0` to `k - 1`, and finishes normally with
/// `k` completed attempts; a limit of 0 makes no attempt.
pub proof fn lemma_runs_to_limit(which: u8, k: usize)
    ensures
        ({
            let (v, acts) = run_worker(Worker::initial(which, Some(k)), clean_rounds(k as nat));
            &&& v.phase == WorkerPhase::Done
            &&& v.ntries == k
            &&& acts.len() == 2 * k + 1
            &&& forall|i: int| 0 <= i < k ==> #[trigger] acts[2 * i] == WorkerAction::Attempt(i as usize)
            &&& forall|i: int| 0 <= i < k ==> !(#[trigger] acts[2 * i + 1] is Attempt)
            &&& !(acts[2 * k as int] is Attempt)
            &&& exists|f: int| 0 <= f < acts.len() && #[trigger] acts[f] == clean_finish(k)
            &&& forall|i: int| 0 <= i < acts.len() && (#[trigger] acts[i]) is Finish ==> acts[i] == clean_finish(k)
        }),
{
    let ev = clean_rounds(k as nat);
    let init = Worker::initial(which, Some(k));
    lemma_clean_prefix(which, k, k as nat);
    let e0 = ev.take(2 * k as int);
    assert(ev.drop_last() =~= e0);
    assert((2 * k) % 2 == 0);
    assert(ev.last() == WorkerEvent::Polled(false));
    let (v0, a0) = run_worker(init, e0);
    let (v, acts) = run_worker(init, ev);
    if k == 0 {
        assert(acts[0] == clean_finish(k));
    } else {
        assert(acts[2 * k - 1] == a0[2 * k - 1]);
        assert(acts[2 * k - 1] == clean_finish(k));
    }
    assert forall|i: int| 0 <= i < k implies #[trigger] acts[2 * i] == WorkerAction::Attempt(i as usize) by {
        assert(acts[2 * i] == a0[2 * i]);
    }
    assert forall|i: int| 0 <= i < k implies !(#[trigger] acts[2 * i + 1] is Attempt) by {
        assert(acts[2 * i + 1] == a0[2 * i + 1]);
    }
    assert forall|i: int| 0 <= i < acts.len() && (#[trigger] acts[i]) is Finish implies acts[i]
        == clean_finish(k) by {
        if i < a0.len() {
            assert(acts[i] == a0[i]);
        }
    }
}

/// Whatever a worker is told, the attempts it asks for carry strictly
/// increasing run numbers, so it never asks for one run twice, and it keeps
/// its own worker index throughout.
pub proof fn lemma_runs_numbered_in_order(w: Worker, events: Seq<WorkerEvent>)
    requires
        w.phase == WorkerPhase::LoopTop,
        w.ntries as int + events.len() <= usize::MAX,
    ensures
        ({
            let (v, acts) = run_worker(w, events);
            &&& v.which == w.which
            &&& forall|i: int, j: int|
                0 <= i < j < acts.len() && (#[trigger] acts[i]) is Attempt && (#[trigger] acts[j]) is Attempt
                    ==> acts[i]->Attempt_0 < acts[j]->Attempt_0
            &&& forall|i: int| 0 <= i < acts.len() && (#[trigger] acts[i]) is Attempt ==> w.ntries <= acts[i]->Attempt_0
        }),
{
    lemma_numbering_invariant(w, events);
}

proof fn lemma_numbering_invariant(w: Worker, events: Seq<WorkerEvent>)
    requires
        w.phase == WorkerPhase::LoopTop,
        w.ntries as int + events.len() <= usize::MAX,
    ensures
        ({
            let (v, acts) = run_worker(w, events);
            &&& v.which == w.which
            &&& acts.len() == events.len()
            &&& w.ntries <= v.ntries <= w.ntries + events.len()
            &&& forall|i: int| 0 <= i < acts.len() && (#[trigger] acts[i]) is Attempt ==> w.ntries <= acts[i]->Attempt_0
                <= v.ntries && (acts[i]->Attempt_0 == v.ntries ==> v.phase != WorkerPhase::LoopTop)
            &&& forall|i: int, j: int|
                0 <= i < j < acts.len() && (#[trigger] acts[i]) is Attempt && (#[trigger] acts[j]) is Attempt
                    ==> acts[i]->Attempt_0 < acts[j]->Attempt_0
        }),
    decreases events.len(),
{
    if events.len() > 0 {
        let prev = events.drop_last();
        lemma_numbering_invariant(w, prev);
        let (v0, a0) = run_worker(w, prev);
        let (v, acts) = run_worker(w, events);
        let e = events.last();
        assert(acts == a0.push(worker_step(v0, e).1));
        assert(v == worker_step(v0, e).0);
        assert forall|i: int| 0 <= i < a0.len() implies #[trigger] acts[i] == a0[i] by {}
        if v0.phase == WorkerPhase::LoopTop && e is Polled && !e->Polled_0 && !limit_reached(v0.stop_after, v0.ntries as nat) {
            assert(acts.last() == WorkerAction::Attempt(v0.ntries));
        }
        assert forall|i: int, j: int|
            0 <= i < j < acts.len() && (#[trigger] acts[i]) is Attempt && (#[trigger] acts[j]) is Attempt
                implies acts[i]->Attempt_0 < acts[j]->Attempt_0 by {
            if j < a0.len() {
                assert(acts[i] == a0[i] && acts[j] == a0[j]);
            } else {
                assert(acts[i] == a0[i]);
            }
        }
    }
}

} // verus!
