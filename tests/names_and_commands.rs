use gocrash::command::{
    clone_command, command_failure_message, command_label, command_result, create_command,
    destroy_command, exec_failure_message, mountpoint_command, termination_summary, test_command,
    CommandLine, Termination,
};
use gocrash::names::{attempt_dataset_name, dataset_of_snapshot, working_dataset_name, ConfigError};
use gocrash::text::{decimal_string, signed_decimal_string};

fn words(c: &CommandLine) -> Vec<String> {
    let mut v = vec![c.program.clone()];
    v.extend(c.args.iter().cloned());
    v
}

#[test]
fn decimal_renders_numbers() {
    assert_eq!(decimal_string(0), "0");
    assert_eq!(decimal_string(7), "7");
    assert_eq!(decimal_string(10), "10");
    assert_eq!(decimal_string(1234567890), "1234567890");
    assert_eq!(decimal_string(u128::MAX), u128::MAX.to_string());
}

#[test]
fn signed_decimal_renders_sign() {
    assert_eq!(signed_decimal_string(-15), "-15");
    assert_eq!(signed_decimal_string(0), "0");
    assert_eq!(signed_decimal_string(i64::MIN), i64::MIN.to_string());
}

#[test]
fn dataset_is_text_before_first_at() {
    assert_eq!(dataset_of_snapshot("rpool/go@base"), Ok(String::from("rpool/go")));
    assert_eq!(dataset_of_snapshot("a@b@c"), Ok(String::from("a")));
    assert_eq!(dataset_of_snapshot("@snap"), Ok(String::new()));
}

#[test]
fn snapshot_without_at_is_refused() {
    let e = dataset_of_snapshot("rpool/go").unwrap_err();
    assert_eq!(e, ConfigError::MissingAt);
    assert_eq!(e.message(), "bad syntax for snapshot name (missing '@')");
    assert_eq!(dataset_of_snapshot(""), Err(ConfigError::MissingAt));
}

#[test]
fn working_dataset_is_keyed_by_time() {
    assert_eq!(
        working_dataset_name("rpool/go", 1700000000123),
        "rpool/go/gocrash-1700000000123"
    );
}

#[test]
fn attempt_dataset_names_worker_and_run() {
    assert_eq!(attempt_dataset_name("w", 3, 12), "w/thread-3-run-12");
    assert_eq!(attempt_dataset_name("p/gocrash-5", 0, 0), "p/gocrash-5/thread-0-run-0");
}

#[test]
fn attempt_dataset_names_do_not_collide() {
    let mut seen = std::collections::HashSet::new();
    for which in 0..15u8 {
        for run in 0..130usize {
            assert!(seen.insert(attempt_dataset_name("p/w", which, run)));
        }
    }
    assert_ne!(attempt_dataset_name("w", 1, 23), attempt_dataset_name("w", 12, 3));
}

#[test]
fn zfs_command_lines() {
    assert_eq!(words(&create_command("p/w")), vec!["pfexec", "zfs", "create", "p/w"]);
    assert_eq!(
        words(&clone_command("p@s", "p/w/thread-0-run-0")),
        vec!["pfexec", "zfs", "clone", "p@s", "p/w/thread-0-run-0"]
    );
    assert_eq!(
        words(&mountpoint_command("p/w")),
        vec!["zfs", "list", "-H", "-omountpoint", "p/w"]
    );
    assert_eq!(words(&destroy_command("p/w")), vec!["pfexec", "zfs", "destroy", "p/w"]);
    assert_eq!(words(&test_command()), vec!["bash", "./all.bash"]);
}

#[test]
fn label_quotes_each_word() {
    assert_eq!(
        command_label(&clone_command("p@s", "d")),
        "\"pfexec\" \"zfs\" \"clone\" \"p@s\" \"d\""
    );
    let c = CommandLine { program: String::from("echo"), args: vec![String::from("a \"b\"")] };
    assert_eq!(command_label(&c), "\"echo\" \"a \\\"b\\\"\"");
    let bare = CommandLine { program: String::from("true"), args: vec![] };
    assert_eq!(command_label(&bare), "\"true\"");
}

#[test]
fn termination_is_described() {
    assert_eq!(termination_summary(Termination::Code(1)), "exited with code 1");
    assert_eq!(termination_summary(Termination::Code(-2)), "exited with code -2");
    assert_eq!(termination_summary(Termination::Signal(9)), "terminated by signal 9");
}

#[test]
fn failure_report_includes_nonempty_streams() {
    assert_eq!(
        command_failure_message("\"false\"", Termination::Code(1), "", ""),
        "command failed: \"false\": exited with code 1"
    );
    assert_eq!(
        command_failure_message("\"x\"", Termination::Signal(11), "boom", "out"),
        "command failed: \"x\": terminated by signal 11\nstderr:\nboom\n\nstdout:\nout\n"
    );
    assert_eq!(
        command_failure_message("\"x\"", Termination::Code(2), "", "out"),
        "command failed: \"x\": exited with code 2\nstdout:\nout\n"
    );
}

#[test]
fn zero_exit_gives_stdout() {
    assert_eq!(
        command_result("\"zfs\"", Termination::Code(0), String::from("/mnt\n"), "noise"),
        Ok(String::from("/mnt\n"))
    );
}

#[test]
fn exit_code_one_is_not_a_signal() {
    let r = command_result("\"bash\"", Termination::Code(1), String::new(), "");
    assert_eq!(r, Err(String::from("command failed: \"bash\": exited with code 1")));
    let s = command_result("\"bash\"", Termination::Signal(1), String::new(), "");
    assert_eq!(s, Err(String::from("command failed: \"bash\": terminated by signal 1")));
}

#[test]
fn exec_failure_is_distinct() {
    assert_eq!(
        exec_failure_message("\"nope\"", "No such file or directory (os error 2)"),
        "failed to exec \"nope\": No such file or directory (os error 2)"
    );
}
