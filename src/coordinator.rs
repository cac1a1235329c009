//! The session as a whole: its parameters, the workers it launches, and how
//! their results make up the outcome of the run.

use vstd::prelude::*;
use vstd::string::*;
use crate::command::string_views;
use crate::names::{
    ConfigError, dataset_of_snapshot, snapshot_dataset, working_dataset, working_dataset_name,
};
use crate::text::{decimal, decimal_string};
use crate::worker::{
    WorkerAction, WorkerResult, Worker, clean_rounds, clean_finish, lemma_runs_to_limit, run_worker,
};

verus! {

/// The fixed parameters of one run, shared read-only by its workers.
#[derive(Debug, PartialEq, Eq)]
pub struct Session {
    /// The snapshot cloned for every attempt.
    pub source_snapshot: String,
    /// Attempts per worker (`None`: until a failure).
    pub stop_after: Option<usize>,
    /// Whether clones of successful runs are kept.
    pub keep_success: bool,
    /// The dataset under which every attempt's clone is made.
    pub working_dataset: String,
}

impl Session {
    /// Sets up a session for `snapshot`, its working dataset named after the
    /// session's start time `millis`. Fails when the snapshot name has no `@`.
    pub fn new(snapshot: &str, stop_after: Option<usize>, keep_success: bool, millis: u128) -> (r:
        Result<Session, ConfigError>)
        ensures
            snapshot_dataset(snapshot@) is None <==> r == Err::<Session, ConfigError>(
                ConfigError::MissingAt,
            ),
            r is Ok ==> ({
                let s = r->Ok_0;
                &&& s.source_snapshot@ == snapshot@
                &&& s.stop_after == stop_after
                &&& s.keep_success == keep_success
                &&& s.working_dataset@ == working_dataset(
                    snapshot_dataset(snapshot@)->Some_0,
                    millis as nat,
                )
            }),
    {
        match dataset_of_snapshot(snapshot) {
            Err(e) => Err(e),
            Ok(dataset) => {
                let working = working_dataset_name(dataset.as_str(), millis);
                Ok(
                    Session {
                        source_snapshot: String::from_str(snapshot),
                        stop_after,
                        keep_success,
                        working_dataset: working,
                    },
                )
            },
        }
    }
}

pub open spec fn retention_text(keep_success: bool) -> Seq<char> {
    if keep_success {
        "for all runs"@
    } else {
        "for failed runs only"@
    }
}

pub open spec fn stop_text(stop_after: Option<usize>) -> Seq<char> {
    match stop_after {
        None => "after any run fails"@,
        Some(k) => "after all threads do "@ + decimal(k as nat) + " run"@ + (if k == 1 {
            ""@
        } else {
            "s"@
        }),
    }
}

/// The lines that describe a session before it starts.
pub open spec fn summary_lines(s: Session, concurrency: u8) -> Seq<Seq<char>> {
    seq![
        "using snapshot:  "@ + s.source_snapshot@,
        "working dataset: "@ + s.working_dataset@,
        "concurrency:     "@ + decimal(concurrency as nat),
        "save results:    "@ + retention_text(s.keep_success),
        "stop:            "@ + stop_text(s.stop_after),
        ""@,
    ]
}

fn stop_description(stop_after: Option<usize>) -> (r: String)
    ensures
        r@ == stop_text(stop_after),
{
    match stop_after {
        None => {
            proof { reveal_strlit("after any run fails"); }
            String::from_str("after any run fails")
        },
        Some(k) => {
            proof {
                reveal_strlit("after all threads do ");
                reveal_strlit(" run");
                reveal_strlit("");
                reveal_strlit("s");
            }
            let n = decimal_string(k as u128);
            let plural = if k == 1 { "" } else { "s" };
            String::from_str("after all threads do ").concat(n.as_str()).concat(" run").concat(plural)
        },
    }
}

/// Describes the parameters of a session, one line each, ending with an empty line.
pub fn parameter_summary(s: &Session, concurrency: u8) -> (r: Vec<String>)
    ensures
        string_views(r@) == summary_lines(*s, concurrency),
{
    proof {
        reveal_strlit("using snapshot:  ");
        reveal_strlit("working dataset: ");
        reveal_strlit("concurrency:     ");
        reveal_strlit("save results:    ");
        reveal_strlit("stop:            ");
        reveal_strlit("for all runs");
        reveal_strlit("for failed runs only");
        reveal_strlit("");
    }
    let n = decimal_string(concurrency as u128);
    let retention = if s.keep_success { "for all runs" } else { "for failed runs only" };
    let stop = stop_description(s.stop_after);
    let r = vec![
        String::from_str("using snapshot:  ").concat(s.source_snapshot.as_str()),
        String::from_str("working dataset: ").concat(s.working_dataset.as_str()),
        String::from_str("concurrency:     ").concat(n.as_str()),
        String::from_str("save results:    ").concat(retention),
        String::from_str("stop:            ").concat(stop.as_str()),
        String::new(),
    ];
    proof {
        assert(retention@ == retention_text(s.keep_success));
        assert(""@ =~= Seq::<char>::empty());
        assert(string_views(r@) =~= summary_lines(*s, concurrency));
    }
    r
}

/// The indices of the workers a session launches: `0` up to `concurrency - 1`,
/// one each.
pub fn worker_indices(concurrency: u8) -> (r: Vec<u8>)
    ensures
        r@.len() == concurrency,
        forall|i: int| 0 <= i < concurrency ==> #[trigger] r@[i] == i,
{
    let mut r: Vec<u8> = Vec::new();
    let mut i: u8 = 0;
    while i < concurrency
        invariant
            i <= concurrency,
            r@.len() == i,
            forall|j: int| 0 <= j < i ==> #[trigger] r@[j] == j,
        decreases concurrency - i,
    {
        r.push(i);
        i = i + 1;
    }
    r
}

pub open spec fn outcome_text(r: Result<(), String>) -> Seq<char> {
    match r {
        Ok(_) => "ok"@,
        Err(e) => e@,
    }
}

/// The line that reports a finished worker:
/// `thread <which>: <ntries> tries, result = <ok or the failure>`.
pub open spec fn report_line(which: nat, r: WorkerResult) -> Seq<char> {
    "thread "@ + decimal(which) + ": "@ + decimal(r.ntries as nat) + " tries, result = "@
        + outcome_text(r.result)
}

pub fn worker_report_line(which: usize, r: &WorkerResult) -> (line: String)
    ensures
        line@ == report_line(which as nat, *r),
{
    proof {
        reveal_strlit("thread ");
        reveal_strlit(": ");
        reveal_strlit(" tries, result = ");
        reveal_strlit("ok");
    }
    let w = decimal_string(which as u128);
    let n = decimal_string(r.ntries as u128);
    let head = String::from_str("thread ").concat(w.as_str()).concat(": ").concat(n.as_str()).concat(
        " tries, result = ",
    );
    match &r.result {
        Ok(_) => head.concat("ok"),
        Err(e) => head.concat(e.as_str()),
    }
}

pub open spec fn panic_text(which: nat, payload: Seq<char>) -> Seq<char> {
    "thread "@ + decimal(which) + " panicked: "@ + payload
}

/// The error for a worker that ended abnormally instead of reporting a result.
pub fn panic_message(which: usize, payload: &str) -> (r: String)
    ensures
        r@ == panic_text(which as nat, payload@),
{
    proof {
        reveal_strlit("thread ");
        reveal_strlit(" panicked: ");
    }
    let w = decimal_string(which as u128);
    String::from_str("thread ").concat(w.as_str()).concat(" panicked: ").concat(payload)
}

/// Whether every worker finished without failure.
pub open spec fn all_succeeded(results: Seq<WorkerResult>) -> bool {
    forall|i: int| 0 <= i < results.len() ==> (#[trigger] results[i]).result is Ok
}

/// The number of workers that finished with a failure.
pub open spec fn failure_count(results: Seq<WorkerResult>) -> nat
    decreases results.len(),
{
    if results.len() == 0 {
        0
    } else {
        failure_count(results.drop_last()) + if results.last().result is Err {
            1nat
        } else {
            0nat
        }
    }
}

proof fn lemma_failure_count(results: Seq<WorkerResult>)
    ensures
        failure_count(results) <= results.len(),
        failure_count(results) == 0 <==> all_succeeded(results),
    decreases results.len(),
{
    if results.len() > 0 {
        lemma_failure_count(results.drop_last());
        if all_succeeded(results.drop_last()) && results.last().result is Ok {
            assert forall|i: int| 0 <= i < results.len() implies (
            #[trigger] results[i]).result is Ok by {
                if i < results.len() - 1 {
                    assert(results[i] == results.drop_last()[i]);
                }
            }
        }
        if all_succeeded(results) {
            assert forall|i: int| 0 <= i < results.len() - 1 implies (
            #[trigger] results.drop_last()[i]).result is Ok by {
                assert(results[i] == results.drop_last()[i]);
            }
            assert(results[results.len() - 1].result is Ok);
        }
    }
}

/// Counts the workers that finished with a failure.
pub fn count_failures(results: &Vec<WorkerResult>) -> (n: usize)
    ensures
        n == failure_count(results@),
{
    let mut n: usize = 0;
    let mut i: usize = 0;
    while i < results.len()
        invariant
            i <= results@.len(),
            n == failure_count(results@.take(i as int)),
            n <= i,
        decreases results@.len() - i,
    {
        proof {
            assert(results@.take(i + 1int).drop_last() =~= results@.take(i as int));
            lemma_failure_count(results@.take(i as int));
        }
        if results[i].result.is_err() {
            n = n + 1;
        }
        i = i + 1;
    }
    proof {
        assert(results@.take(results@.len() as int) =~= results@);
    }
    n
}

/// The outcome of a run whose workers all reported: success only when every
/// one of them succeeded, else `test failed`.
pub fn session_result(results: &Vec<WorkerResult>) -> (r: Result<(), String>)
    ensures
        r is Ok <==> all_succeeded(results@),
        r is Err ==> r->Err_0@ == "test failed"@,
{
    let nerrors = count_failures(results);
    proof { lemma_failure_count(results@); }
    if nerrors == 0 {
        Ok(())
    } else {
        proof { reveal_strlit("test failed"); }
        Err(String::from_str("test failed"))
    }
}

/// The process exit code for the outcome of a run: 0 for success, 1 otherwise.
pub fn exit_code(outcome: &Result<(), String>) -> (code: i32)
    ensures
        code == (if outcome is Ok { 0i32 } else { 1i32 }),
{
    match outcome {
        Ok(_) => 0,
        Err(_) => 1,
    }
}

pub open spec fn exit_code_of(outcome_ok: bool) -> int {
    if outcome_ok {
        0
    } else {
        1
    }
}

/// A run exits with code 0 exactly when every worker succeeded: one failed
/// worker makes the exit code nonzero, whatever the others did.
pub proof fn lemma_exit_code_reflects_every_worker(results: Seq<WorkerResult>, failed: int)
    ensures
        exit_code_of(all_succeeded(results)) == 0 <==> forall|i: int|
            0 <= i < results.len() ==> (#[trigger] results[i]).result is Ok,
        0 <= failed < results.len() && results[failed].result is Err ==> exit_code_of(
            all_succeeded(results),
        ) != 0,
{
}

/// Worker `which`, given a limit of `k` and meeting neither failure nor stop,
/// finishes with result `r`.
pub open spec fn finishes_cleanly_with(which: u8, k: usize, r: WorkerResult) -> bool {
    let acts = run_worker(Worker::initial(which, Some(k)), clean_rounds(k as nat)).1;
    exists|f: int| 0 <= f < acts.len() && acts[f] == (WorkerAction::Finish { result: r, raise_stop: false })
}

/// With a limit of `k` attempts per worker and neither failure nor stop, every
/// worker of a session reports exactly `k` completed attempts and success, and
/// the run exits with code 0.
pub proof fn lemma_clean_session(k: usize, results: Seq<WorkerResult>)
    requires
        results.len() <= 256,
        forall|i: int| 0 <= i < results.len() ==> finishes_cleanly_with(i as u8, k, #[trigger] results[i]),
    ensures
        forall|i: int| 0 <= i < results.len() ==> (#[trigger] results[i]).ntries == k,
        all_succeeded(results),
        exit_code_of(all_succeeded(results)) == 0,
{
    assert forall|i: int| 0 <= i < results.len() implies (#[trigger] results[i]).ntries == k
        && results[i].result is Ok by {
        assert(finishes_cleanly_with(i as u8, k, results[i]));
        lemma_runs_to_limit(i as u8, k);
        let acts = run_worker(Worker::initial(i as u8, Some(k)), clean_rounds(k as nat)).1;
        let f = choose|f: int| 0 <= f < acts.len() && acts[f] == (WorkerAction::Finish {
            result: results[i],
            raise_stop: false,
        });
        assert(acts[f] is Finish);
        assert(acts[f] == clean_finish(k));
    }
}

} // verus!
