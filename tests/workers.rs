use gocrash::coordinator::{
    count_failures, exit_code, panic_message, parameter_summary, session_result,
    worker_indices, worker_report_line,
};
use gocrash::{gocrash_worker, ConfigError, Session, StopSignal, Worker, WorkerAction, WorkerEvent, WorkerPhase, WorkerResult};

/// Runs a worker against a script of attempt outcomes (true: success), with
/// the stop signal as given; returns the attempts started and the finish.
fn drive(stop_after: Option<usize>, outcomes: &[bool], stop: &StopSignal) -> (Vec<usize>, WorkerResult, bool) {
    let mut w = Worker::new(0, stop_after);
    let mut started = vec![];
    let mut action = gocrash_worker(&mut w, WorkerEvent::Polled(stop.is_raised()));
    loop {
        match action {
            WorkerAction::Attempt(run) => {
                started.push(run);
                let event = if outcomes[run] {
                    WorkerEvent::AttemptSucceeded
                } else {
                    WorkerEvent::AttemptFailed(String::from("command failed: \"bash\" \"./all.bash\": exited with code 1"))
                };
                action = gocrash_worker(&mut w, event);
            }
            WorkerAction::Poll => {
                action = gocrash_worker(&mut w, WorkerEvent::Polled(stop.is_raised()));
            }
            WorkerAction::Finish { result, raise_stop } => {
                if raise_stop {
                    stop.raise();
                }
                assert_eq!(w.phase, WorkerPhase::Done);
                return (started, result, raise_stop);
            }
            WorkerAction::Idle => panic!("worker already finished"),
        }
    }
}

#[test]
fn limit_gives_exactly_k_attempts() {
    let stop = StopSignal::new();
    let (started, result, raised) = drive(Some(3), &[true; 10], &stop);
    assert_eq!(started, vec![0, 1, 2]);
    assert_eq!(result, WorkerResult { ntries: 3, result: Ok(()) });
    assert!(!raised);
    assert!(!stop.is_raised());
}

#[test]
fn limit_of_one() {
    let stop = StopSignal::new();
    let (started, result, _) = drive(Some(1), &[true; 3], &stop);
    assert_eq!(started, vec![0]);
    assert_eq!(result.ntries, 1);
}

#[test]
fn limit_of_zero_makes_no_attempt() {
    let stop = StopSignal::new();
    let (started, result, raised) = drive(Some(0), &[true; 3], &stop);
    assert!(started.is_empty());
    assert_eq!(result, WorkerResult { ntries: 0, result: Ok(()) });
    assert!(!raised);
}

#[test]
fn failure_on_attempt_three_reports_three_tries() {
    let stop = StopSignal::new();
    let (started, result, raised) = drive(None, &[true, true, true, false, true], &stop);
    assert_eq!(started, vec![0, 1, 2, 3]);
    assert_eq!(result.ntries, 3);
    let e = result.result.unwrap_err();
    assert!(e.contains("exited with code 1"));
    assert!(!e.contains("signal"));
    assert!(raised);
    assert!(stop.is_raised());
}

#[test]
fn raised_signal_stops_before_any_attempt() {
    let stop = StopSignal::new();
    stop.raise();
    let (started, result, raised) = drive(None, &[true], &stop);
    assert!(started.is_empty());
    assert_eq!(result, WorkerResult { ntries: 0, result: Ok(()) });
    assert!(!raised);
}

#[test]
fn stop_signal_stays_raised() {
    let stop = StopSignal::new();
    assert!(!stop.is_raised());
    stop.raise();
    stop.raise();
    assert!(stop.is_raised());
    // A second worker sees it and starts nothing.
    let (started, _, _) = drive(None, &[true], &stop);
    assert!(started.is_empty());
    assert!(stop.is_raised());
}

#[test]
fn finished_worker_stays_idle() {
    let mut w = Worker::new(5, None);
    gocrash_worker(&mut w, WorkerEvent::Polled(true));
    assert_eq!(gocrash_worker(&mut w, WorkerEvent::Polled(false)), WorkerAction::Idle);
    assert_eq!(gocrash_worker(&mut w, WorkerEvent::AttemptSucceeded), WorkerAction::Idle);
    assert_eq!(w.phase, WorkerPhase::Done);
    assert_eq!(w.ntries, 0);
}

#[test]
fn unexpected_event_is_ignored() {
    let mut w = Worker::new(0, None);
    assert_eq!(gocrash_worker(&mut w, WorkerEvent::AttemptSucceeded), WorkerAction::Poll);
    assert_eq!(w, Worker::new(0, None));
}

#[test]
fn session_setup() {
    let s = Session::new("rpool/go@base", Some(2), false, 42).unwrap();
    assert_eq!(s.source_snapshot, "rpool/go@base");
    assert_eq!(s.working_dataset, "rpool/go/gocrash-42");
    assert_eq!(s.stop_after, Some(2));
    assert!(!s.keep_success);
    assert_eq!(Session::new("rpool/go", None, true, 1).unwrap_err(), ConfigError::MissingAt);
}

#[test]
fn summary_of_parameters() {
    let s = Session::new("p@s", Some(3), false, 9).unwrap();
    assert_eq!(
        parameter_summary(&s, 2),
        vec![
            "using snapshot:  p@s",
            "working dataset: p/gocrash-9",
            "concurrency:     2",
            "save results:    for failed runs only",
            "stop:            after all threads do 3 runs",
            "",
        ]
    );
    let one = Session::new("p@s", Some(1), true, 9).unwrap();
    let lines = parameter_summary(&one, 1);
    assert_eq!(lines[3], "save results:    for all runs");
    assert_eq!(lines[4], "stop:            after all threads do 1 run");
    let open = Session::new("p@s", None, false, 9).unwrap();
    assert_eq!(parameter_summary(&open, 1)[4], "stop:            after any run fails");
}

#[test]
fn one_index_per_worker() {
    assert_eq!(worker_indices(4), vec![0, 1, 2, 3]);
    assert_eq!(worker_indices(1), vec![0]);
    assert!(worker_indices(0).is_empty());
    assert_eq!(worker_indices(255).len(), 255);
}

#[test]
fn report_lines() {
    let ok = WorkerResult { ntries: 5, result: Ok(()) };
    assert_eq!(worker_report_line(0, &ok), "thread 0: 5 tries, result = ok");
    let bad = WorkerResult { ntries: 3, result: Err(String::from("command failed: x")) };
    assert_eq!(worker_report_line(2, &bad), "thread 2: 3 tries, result = command failed: x");
    assert_eq!(panic_message(1, "Any { .. }"), "thread 1 panicked: Any { .. }");
}

#[test]
fn all_successes_give_exit_zero() {
    let results = vec![
        WorkerResult { ntries: 3, result: Ok(()) },
        WorkerResult { ntries: 3, result: Ok(()) },
    ];
    let r = session_result(&results);
    assert_eq!(r, Ok(()));
    assert_eq!(exit_code(&r), 0);
    assert_eq!(count_failures(&results), 0);
    assert_eq!(session_result(&vec![]), Ok(()));
}

#[test]
fn one_failure_gives_nonzero_exit() {
    let results = vec![
        WorkerResult { ntries: 4, result: Ok(()) },
        WorkerResult { ntries: 2, result: Err(String::from("boom")) },
        WorkerResult { ntries: 4, result: Ok(()) },
    ];
    assert_eq!(count_failures(&results), 1);
    let r = session_result(&results);
    assert_eq!(r, Err(String::from("test failed")));
    assert_eq!(exit_code(&r), 1);
}
