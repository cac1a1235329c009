use gocrash::attempt::attempt_start_line;
use gocrash::{Attempt, AttemptAction, AttemptEvent, AttemptPhase};

fn ok(s: &str) -> AttemptEvent {
    AttemptEvent::Succeeded(String::from(s))
}

fn run_words(a: &AttemptAction) -> Vec<String> {
    match a {
        AttemptAction::Run(c) => {
            let mut v = vec![c.program.clone()];
            v.extend(c.args.iter().cloned());
            v
        }
        _ => panic!("expected a command"),
    }
}

#[test]
fn successful_attempt_destroys_its_clone() {
    let (mut a, first) = Attempt::start("p@s", "p/w", 1, 4, false);
    assert_eq!(a.dataset, "p/w/thread-1-run-4");
    assert_eq!(run_words(&first), vec!["pfexec", "zfs", "clone", "p@s", "p/w/thread-1-run-4"]);
    let list = a.advance(ok(""));
    assert_eq!(run_words(&list), vec!["zfs", "list", "-H", "-omountpoint", "p/w/thread-1-run-4"]);
    let sinks = a.advance(ok("  /p/w/thread-1-run-4\n"));
    assert_eq!(
        sinks,
        AttemptAction::OpenSinks {
            stdout_path: String::from("/p/w/thread-1-run-4/test_run_stdout"),
            stderr_path: String::from("/p/w/thread-1-run-4/test_run_stderr"),
        }
    );
    match a.advance(ok("")) {
        AttemptAction::RunTest { command, dir } => {
            assert_eq!(command.program, "bash");
            assert_eq!(command.args, vec![String::from("./all.bash")]);
            assert_eq!(dir, "/p/w/thread-1-run-4/goroot/src");
        }
        _ => panic!("expected the test run"),
    }
    let destroy = a.advance(ok("all ok"));
    assert_eq!(run_words(&destroy), vec!["pfexec", "zfs", "destroy", "p/w/thread-1-run-4"]);
    assert_eq!(a.phase, AttemptPhase::Releasing);
    assert_eq!(a.advance(ok("")), AttemptAction::Finish(Ok(())));
    assert_eq!(a.phase, AttemptPhase::Finished);
}

#[test]
fn kept_success_is_not_destroyed() {
    let (mut a, _) = Attempt::start("p@s", "p/w", 0, 0, true);
    a.advance(ok(""));
    a.advance(ok("/m"));
    a.advance(ok(""));
    assert_eq!(a.advance(ok("")), AttemptAction::Finish(Ok(())));
    assert_eq!(a.phase, AttemptPhase::Finished);
}

#[test]
fn failed_test_keeps_clone_whatever_the_policy() {
    for keep in [false, true] {
        let (mut a, _) = Attempt::start("p@s", "p/w", 0, 2, keep);
        a.advance(ok(""));
        a.advance(ok("/m"));
        a.advance(ok(""));
        let r = a.advance(AttemptEvent::Failed(String::from("command failed: x: exited with code 1")));
        assert_eq!(
            r,
            AttemptAction::Finish(Err(String::from("command failed: x: exited with code 1")))
        );
        assert_eq!(a.phase, AttemptPhase::Finished);
    }
}

#[test]
fn failure_to_clone_ends_attempt() {
    let (mut a, _) = Attempt::start("p@s", "p/w", 0, 0, false);
    let r = a.advance(AttemptEvent::Failed(String::from("clone failed")));
    assert_eq!(r, AttemptAction::Finish(Err(String::from("clone failed"))));
}

#[test]
fn failed_destroy_fails_attempt() {
    let (mut a, _) = Attempt::start("p@s", "p/w", 0, 0, false);
    a.advance(ok(""));
    a.advance(ok("/m"));
    a.advance(ok(""));
    a.advance(ok(""));
    let r = a.advance(AttemptEvent::Failed(String::from("destroy failed")));
    assert_eq!(r, AttemptAction::Finish(Err(String::from("destroy failed"))));
}

#[test]
fn sink_paths_join_like_paths() {
    let (mut a, _) = Attempt::start("p@s", "p/w", 0, 0, false);
    a.advance(ok(""));
    assert_eq!(
        a.advance(ok("/\n")),
        AttemptAction::OpenSinks {
            stdout_path: String::from("/test_run_stdout"),
            stderr_path: String::from("/test_run_stderr"),
        }
    );
    assert_eq!(a.mountpoint, "/");
}

#[test]
fn start_line_names_thread_and_attempt() {
    assert_eq!(
        attempt_start_line("2022-01-01 00:00:00 UTC", 2, 7, "/m/test_run_stdout"),
        "2022-01-01 00:00:00 UTC: thread 2: attempt 7: start (see /m/test_run_stdout)"
    );
}
