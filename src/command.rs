//! Command lines that a session runs, their labels, and how a finished
//! command is judged and reported.

use vstd::prelude::*;
use vstd::string::*;
use crate::text::{signed_decimal, signed_decimal_string};

verus! {

/// A program and its arguments.
#[derive(Debug, PartialEq, Eq)]
pub struct CommandLine {
    pub program: String,
    pub args: Vec<String>,
}

pub open spec fn string_views(v: Seq<String>) -> Seq<Seq<char>> {
    v.map_values(|s: String| s@)
}

impl CommandLine {
    /// The program followed by its arguments.
    pub open spec fn words(&self) -> Seq<Seq<char>> {
        seq![self.program@] + string_views(self.args@)
    }
}

/// How a process that ran came to an end.
#[derive(Debug, Clone, Copy, PartialEq, Eq)]
pub enum Termination {
    /// It exited with this status code.
    Code(i32),
    /// It was killed by this signal.
    Signal(i32),
}

impl Termination {
    pub open spec fn is_success(self) -> bool {
        self == Termination::Code(0)
    }
}

/// What `str`'s `Debug` formatting makes of a string: quoted and escaped.
pub uninterp spec fn debug_quoted(s: Seq<char>) -> Seq<char>;

/// Relies on `<str as Debug>::fmt`: the quoted form depends on the characters alone.
#[verifier::external_body]
fn quoted(s: &str) -> (r: String)
    ensures
        r@ == debug_quoted(s@),
{
    format!("{:?}", s)
}

/// The quoted words joined by single spaces.
pub open spec fn label_of(words: Seq<Seq<char>>) -> Seq<char>
    decreases words.len(),
{
    if words.len() == 0 {
        Seq::empty()
    } else if words.len() == 1 {
        debug_quoted(words[0])
    } else {
        label_of(words.drop_last()) + " "@ + debug_quoted(words.last())
    }
}

/// A readable rendering of a command line for log and error messages: each
/// word quoted, separated by spaces.
pub fn command_label(cmd: &CommandLine) -> (r: String)
    ensures
        r@ == label_of(cmd.words()),
{
    proof { reveal_strlit(" "); }
    let mut r = quoted(cmd.program.as_str());
    let mut i: usize = 0;
    while i < cmd.args.len()
        invariant
            i <= cmd.args@.len(),
            r@ == label_of(cmd.words().take(i + 1)),
        decreases cmd.args@.len() - i,
    {
        let q = quoted(cmd.args[i].as_str());
        proof {
            let w = cmd.words();
            assert(w.take(i + 2).drop_last() =~= w.take(i + 1));
            assert(w.take(i + 2).last() == cmd.args@[i as int]@);
        }
        r = r.concat(" ").concat(q.as_str());
        i = i + 1;
    }
    proof {
        assert(cmd.words().take(cmd.args@.len() + 1int) =~= cmd.words());
    }
    r
}

pub open spec fn termination_text(t: Termination) -> Seq<char> {
    match t {
        Termination::Code(c) => "exited with code "@ + signed_decimal(c as int),
        Termination::Signal(s) => "terminated by signal "@ + signed_decimal(s as int),
    }
}

/// Describes how a process ended: `exited with code N` or `terminated by signal N`.
pub fn termination_summary(t: Termination) -> (r: String)
    ensures
        r@ == termination_text(t),
{
    match t {
        Termination::Code(c) => {
            proof { reveal_strlit("exited with code "); }
            let n = signed_decimal_string(c as i64);
            String::from_str("exited with code ").concat(n.as_str())
        },
        Termination::Signal(s) => {
            proof { reveal_strlit("terminated by signal "); }
            let n = signed_decimal_string(s as i64);
            String::from_str("terminated by signal ").concat(n.as_str())
        },
    }
}

/// A captured stream as it appears in a failure report: nothing when it is
/// empty, else a titled block.
pub open spec fn stream_section(title: Seq<char>, text: Seq<char>) -> Seq<char> {
    if text.len() == 0 {
        Seq::empty()
    } else {
        "\n"@ + title + ":\n"@ + text + "\n"@
    }
}

pub open spec fn failure_text(
    label: Seq<char>,
    t: Termination,
    stderr: Seq<char>,
    stdout: Seq<char>,
) -> Seq<char> {
    "command failed: "@ + label + ": "@ + termination_text(t) + stream_section("stderr"@, stderr)
        + stream_section("stdout"@, stdout)
}

fn append_section(r: String, title: &str, text: &str) -> (out: String)
    ensures
        out@ == r@ + stream_section(title@, text@),
{
    if text.unicode_len() == 0 {
        r
    } else {
        proof {
            reveal_strlit("\n");
            reveal_strlit(":\n");
        }
        let out = r.concat("\n").concat(title).concat(":\n").concat(text).concat("\n");
        proof {
            assert(out@ =~= r@ + stream_section(title@, text@));
        }
        out
    }
}

/// The report of a command that ran and failed: its label, how it ended, and
/// whatever it wrote to standard error and standard output.
pub fn command_failure_message(label: &str, t: Termination, stderr: &str, stdout: &str) -> (r: String)
    ensures
        r@ == failure_text(label@, t, stderr@, stdout@),
{
    proof {
        reveal_strlit("command failed: ");
        reveal_strlit(": ");
        reveal_strlit("stderr");
        reveal_strlit("stdout");
    }
    let summary = termination_summary(t);
    let head = String::from_str("command failed: ").concat(label).concat(": ").concat(
        summary.as_str(),
    );
    let with_err = append_section(head, "stderr", stderr);
    let r = append_section(with_err, "stdout", stdout);
    proof {
        assert(r@ =~= failure_text(label@, t, stderr@, stdout@));
    }
    r
}

pub open spec fn exec_failure_text(label: Seq<char>, cause: Seq<char>) -> Seq<char> {
    "failed to exec "@ + label + ": "@ + cause
}

/// The report of a command that could not be started at all.
pub fn exec_failure_message(label: &str, cause: &str) -> (r: String)
    ensures
        r@ == exec_failure_text(label@, cause@),
{
    proof {
        reveal_strlit("failed to exec ");
        reveal_strlit(": ");
    }
    String::from_str("failed to exec ").concat(label).concat(": ").concat(cause)
}

/// Judges a command that ran: a zero exit code gives its standard output,
/// anything else the failure report.
pub fn command_result(label: &str, t: Termination, stdout: String, stderr: &str) -> (r: Result<
    String,
    String,
>)
    ensures
        t.is_success() ==> r == Ok::<String, String>(stdout),
        !t.is_success() ==> r is Err && r->Err_0@ == failure_text(label@, t, stderr@, stdout@),
{
    match t {
        Termination::Code(0) => Ok(stdout),
        _ => Err(command_failure_message(label, t, stderr, stdout.as_str())),
    }
}

/// `pfexec zfs create <dataset>`: makes the working dataset of a session.
pub fn create_command(dataset: &str) -> (r: CommandLine)
    ensures
        r.words() == seq!["pfexec"@, "zfs"@, "create"@, dataset@],
{
    proof {
        reveal_strlit("pfexec");
        reveal_strlit("zfs");
        reveal_strlit("create");
    }
    let r = CommandLine {
        program: String::from_str("pfexec"),
        args: vec![String::from_str("zfs"), String::from_str("create"), String::from_str(dataset)],
    };
    proof {
        assert(r.words() =~= seq!["pfexec"@, "zfs"@, "create"@, dataset@]);
    }
    r
}

/// `pfexec zfs clone <snapshot> <dataset>`: makes the volume of one attempt.
pub fn clone_command(snapshot: &str, dataset: &str) -> (r: CommandLine)
    ensures
        r.words() == seq!["pfexec"@, "zfs"@, "clone"@, snapshot@, dataset@],
{
    proof {
        reveal_strlit("pfexec");
        reveal_strlit("zfs");
        reveal_strlit("clone");
    }
    let r = CommandLine {
        program: String::from_str("pfexec"),
        args: vec![
            String::from_str("zfs"),
            String::from_str("clone"),
            String::from_str(snapshot),
            String::from_str(dataset),
        ],
    };
    proof {
        assert(r.words() =~= seq!["pfexec"@, "zfs"@, "clone"@, snapshot@, dataset@]);
    }
    r
}

/// `zfs list -H -omountpoint <dataset>`: prints where a dataset is mounted.
pub fn mountpoint_command(dataset: &str) -> (r: CommandLine)
    ensures
        r.words() == seq!["zfs"@, "list"@, "-H"@, "-omountpoint"@, dataset@],
{
    proof {
        reveal_strlit("zfs");
        reveal_strlit("list");
        reveal_strlit("-H");
        reveal_strlit("-omountpoint");
    }
    let r = CommandLine {
        program: String::from_str("zfs"),
        args: vec![
            String::from_str("list"),
            String::from_str("-H"),
            String::from_str("-omountpoint"),
            String::from_str(dataset),
        ],
    };
    proof {
        assert(r.words() =~= seq!["zfs"@, "list"@, "-H"@, "-omountpoint"@, dataset@]);
    }
    r
}

/// `pfexec zfs destroy <dataset>`: removes a volume and everything in it.
pub fn destroy_command(dataset: &str) -> (r: CommandLine)
    ensures
        r.words() == seq!["pfexec"@, "zfs"@, "destroy"@, dataset@],
{
    proof {
        reveal_strlit("pfexec");
        reveal_strlit("zfs");
        reveal_strlit("destroy");
    }
    let r = CommandLine {
        program: String::from_str("pfexec"),
        args: vec![String::from_str("zfs"), String::from_str("destroy"), String::from_str(dataset)],
    };
    proof {
        assert(r.words() =~= seq!["pfexec"@, "zfs"@, "destroy"@, dataset@]);
    }
    r
}

/// `bash ./all.bash`: the test suite.
pub fn test_command() -> (r: CommandLine)
    ensures
        r.words() == seq!["bash"@, "./all.bash"@],
{
    proof {
        reveal_strlit("bash");
        reveal_strlit("./all.bash");
    }
    let r = CommandLine {
        program: String::from_str("bash"),
        args: vec![String::from_str("./all.bash")],
    };
    proof {
        assert(r.words() =~= seq!["bash"@, "./all.bash"@]);
    }
    r
}

} // verus!
