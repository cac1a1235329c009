//! The life cycle of one attempt: clone the snapshot, find the clone's
//! mountpoint, open the two output files in it, run the test suite there, and
//! destroy the clone unless it is to be kept.
//!
//! The caller carries out each action and reports back how it went.

use vstd::prelude::*;
use vstd::string::*;
use crate::command::{
    CommandLine, clone_command, destroy_command, mountpoint_command, test_command,
};
use crate::names::{attempt_dataset, attempt_dataset_name};
use crate::text::{decimal, decimal_string};

verus! {

/// Where an attempt stands.
#[derive(Debug, Clone, Copy, PartialEq, Eq, Structural)]
pub enum AttemptPhase {
    /// The clone of the snapshot is being made.
    Cloning,
    /// The clone's mountpoint is being looked up.
    Locating,
    /// The output files are being created in the clone.
    OpeningSinks,
    /// The test suite is running.
    Testing,
    /// The clone of a successful run is being destroyed.
    Releasing,
    /// Nothing is left to do.
    Finished,
}

/// What the caller is asked to do next.
#[derive(Debug, PartialEq, Eq)]
pub enum AttemptAction {
    /// Run this command and report its standard output, or its failure.
    Run(CommandLine),
    /// Create these two files, failing where either exists already.
    OpenSinks { stdout_path: String, stderr_path: String },
    /// Run the test suite in `dir`, its standard output and standard error
    /// going to the two files just created.
    RunTest { command: CommandLine, dir: String },
    /// The attempt is over, with this result.
    Finish(Result<(), String>),
}

/// How the last action went.
#[derive(Debug, PartialEq, Eq)]
pub enum AttemptEvent {
    /// It succeeded; for a command, with what it printed.
    Succeeded(String),
    /// It failed, with this report.
    Failed(String),
}

impl AttemptEvent {
    pub open spec fn is_ok(&self) -> bool {
        self is Succeeded
    }
}

/// One attempt of one worker.
pub struct Attempt {
    /// The dataset cloned for this attempt.
    pub dataset: String,
    /// Whether the clone of a successful run is kept.
    pub keep_success: bool,
    /// Where the clone is mounted, once known.
    pub mountpoint: String,
    pub phase: AttemptPhase,
}

/// The phase an attempt moves to when the action of phase `p` went as `ok` says.
pub open spec fn next_phase(p: AttemptPhase, keep_success: bool, ok: bool) -> AttemptPhase {
    if !ok {
        AttemptPhase::Finished
    } else {
        match p {
            AttemptPhase::Cloning => AttemptPhase::Locating,
            AttemptPhase::Locating => AttemptPhase::OpeningSinks,
            AttemptPhase::OpeningSinks => AttemptPhase::Testing,
            AttemptPhase::Testing => if keep_success {
                AttemptPhase::Finished
            } else {
                AttemptPhase::Releasing
            },
            _ => AttemptPhase::Finished,
        }
    }
}

/// What `str::trim` leaves of a string.
pub uninterp spec fn trim_of(s: Seq<char>) -> Seq<char>;

/// Relies on `str::trim`: the result depends on the characters alone.
#[verifier::external_body]
fn trimmed(s: &str) -> (r: &str)
    ensures
        r@ == trim_of(s@),
{
    s.trim()
}

/// `dir` joined with a relative file name, as a path: a separator goes
/// between them unless `dir` is empty or already ends in one.
pub open spec fn join_path(dir: Seq<char>, name: Seq<char>) -> Seq<char> {
    if dir.len() == 0 || dir.last() == '/' {
        dir + name
    } else {
        dir + "/"@ + name
    }
}

fn join(dir: &str, name: &str) -> (r: String)
    ensures
        r@ == join_path(dir@, name@),
{
    let n = dir.unicode_len();
    if n == 0 || dir.get_char(n - 1) == '/' {
        String::from_str(dir).concat(name)
    } else {
        proof { reveal_strlit("/"); }
        String::from_str(dir).concat("/").concat(name)
    }
}

pub open spec fn stdout_sink(mountpoint: Seq<char>) -> Seq<char> {
    join_path(mountpoint, "test_run_stdout"@)
}

pub open spec fn stderr_sink(mountpoint: Seq<char>) -> Seq<char> {
    join_path(mountpoint, "test_run_stderr"@)
}

/// The directory the test suite runs in.
pub open spec fn test_dir(mountpoint: Seq<char>) -> Seq<char> {
    mountpoint + "/goroot/src"@
}

/// The log line that announces an attempt:
/// `<now>: thread <which>: attempt <run>: start (see <stdout file>)`.
pub open spec fn start_line(now: Seq<char>, which: nat, run: nat, stdout_path: Seq<char>) -> Seq<
    char,
> {
    now + ": thread "@ + decimal(which) + ": attempt "@ + decimal(run) + ": start (see "@
        + stdout_path + ")"@
}

pub fn attempt_start_line(now: &str, which: u8, run: usize, stdout_path: &str) -> (r: String)
    ensures
        r@ == start_line(now@, which as nat, run as nat, stdout_path@),
{
    proof {
        reveal_strlit(": thread ");
        reveal_strlit(": attempt ");
        reveal_strlit(": start (see ");
        reveal_strlit(")");
    }
    let w = decimal_string(which as u128);
    let n = decimal_string(run as u128);
    String::from_str(now).concat(": thread ").concat(w.as_str()).concat(": attempt ").concat(
        n.as_str(),
    ).concat(": start (see ").concat(stdout_path).concat(")")
}

impl Attempt {
    /// Begins run `run` of worker `which`: its first action clones `snapshot`
    /// to the attempt's own dataset under `working`.
    pub fn start(snapshot: &str, working: &str, which: u8, run: usize, keep_success: bool) -> (r: (
        Attempt,
        AttemptAction,
    ))
        ensures
            r.0.dataset@ == attempt_dataset(working@, which as nat, run as nat),
            r.0.keep_success == keep_success,
            r.0.phase == AttemptPhase::Cloning,
            r.1 is Run,
            r.1->Run_0.words() == seq!["pfexec"@, "zfs"@, "clone"@, snapshot@, r.0.dataset@],
    {
        let dataset = attempt_dataset_name(working, which, run);
        let cmd = clone_command(snapshot, dataset.as_str());
        (Attempt { dataset, keep_success, mountpoint: String::new(), phase: AttemptPhase::Cloning }, AttemptAction::Run(cmd))
    }

    /// Takes the report of the last action and says what to do next.
    ///
    /// Any failure ends the attempt with that failure and leaves the clone in
    /// place. A successful test run destroys the clone unless it is to be kept.
    pub fn advance(&mut self, event: AttemptEvent) -> (r: AttemptAction)
        requires
            old(self).phase != AttemptPhase::Finished,
        ensures
            final(self).phase == next_phase(old(self).phase, old(self).keep_success, event.is_ok()),
            final(self).dataset == old(self).dataset,
            final(self).keep_success == old(self).keep_success,
            (old(self).phase != AttemptPhase::Locating || event is Failed) ==> final(self).mountpoint
                == old(self).mountpoint,
            match event {
                AttemptEvent::Failed(e) => r == AttemptAction::Finish(Err(e)),
                AttemptEvent::Succeeded(out) => match old(self).phase {
                    AttemptPhase::Cloning => r is Run && r->Run_0.words() == seq![
                        "zfs"@,
                        "list"@,
                        "-H"@,
                        "-omountpoint"@,
                        old(self).dataset@,
                    ],
                    AttemptPhase::Locating => final(self).mountpoint@ == trim_of(out@) && r
                        is OpenSinks && r->stdout_path@ == stdout_sink(final(self).mountpoint@)
                        && r->stderr_path@ == stderr_sink(final(self).mountpoint@),
                    AttemptPhase::OpeningSinks => r is RunTest && r->command.words() == seq![
                        "bash"@,
                        "./all.bash"@,
                    ] && r->dir@ == test_dir(old(self).mountpoint@),
                    AttemptPhase::Testing => if old(self).keep_success {
                        r == AttemptAction::Finish(Ok(()))
                    } else {
                        r is Run && r->Run_0.words() == seq![
                            "pfexec"@,
                            "zfs"@,
                            "destroy"@,
                            old(self).dataset@,
                        ]
                    },
                    _ => r == AttemptAction::Finish(Ok(())),
                },
            },
    {
        match event {
            AttemptEvent::Failed(e) => {
                self.phase = AttemptPhase::Finished;
                AttemptAction::Finish(Err(e))
            },
            AttemptEvent::Succeeded(out) => match self.phase {
                AttemptPhase::Cloning => {
                    self.phase = AttemptPhase::Locating;
                    AttemptAction::Run(mountpoint_command(self.dataset.as_str()))
                },
                AttemptPhase::Locating => {
                    let m = String::from_str(trimmed(out.as_str()));
                    proof {
                        reveal_strlit("test_run_stdout");
                        reveal_strlit("test_run_stderr");
                    }
                    let stdout_path = join(m.as_str(), "test_run_stdout");
                    let stderr_path = join(m.as_str(), "test_run_stderr");
                    self.mountpoint = m;
                    self.phase = AttemptPhase::OpeningSinks;
                    AttemptAction::OpenSinks { stdout_path, stderr_path }
                },
                AttemptPhase::OpeningSinks => {
                    proof { reveal_strlit("/goroot/src"); }
                    let dir = self.mountpoint.clone().concat("/goroot/src");
                    self.phase = AttemptPhase::Testing;
                    AttemptAction::RunTest { command: test_command(), dir }
                },
                AttemptPhase::Testing => {
                    if self.keep_success {
                        self.phase = AttemptPhase::Finished;
                        AttemptAction::Finish(Ok(()))
                    } else {
                        self.phase = AttemptPhase::Releasing;
                        AttemptAction::Run(destroy_command(self.dataset.as_str()))
                    }
                },
                _ => {
                    self.phase = AttemptPhase::Finished;
                    AttemptAction::Finish(Ok(()))
                },
            },
        }
    }
}

/// A failed step always leaves the attempt's clone in place, and the clone is
/// destroyed only after a successful test run when successful runs are not
/// kept: `Releasing`, the one phase that destroys, is entered exactly then.
pub proof fn lemma_volume_retention(p: AttemptPhase, keep_success: bool, ok: bool)
    requires
        p != AttemptPhase::Finished,
    ensures
        !ok ==> next_phase(p, keep_success, ok) == AttemptPhase::Finished,
        next_phase(p, keep_success, ok) == AttemptPhase::Releasing <==> (p == AttemptPhase::Testing
            && ok && !keep_success),
{
}

} // verus!
