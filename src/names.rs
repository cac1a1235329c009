//! Names of the datasets that one session creates.

use vstd::prelude::*;
use vstd::string::*;
use crate::text::{all_digits, decimal, decimal_string, is_digit, lemma_decimal_digits, lemma_decimal_injective};

verus! {

/// Why a session could not be set up from its arguments.
#[derive(Debug, Clone, Copy, PartialEq, Eq)]
pub enum ConfigError {
    /// The snapshot name has no `@` between dataset and snapshot.
    MissingAt,
}

impl ConfigError {
    /// The message shown to the user.
    pub fn message(&self) -> (r: String)
        ensures
            r@ == config_error_text(*self),
    {
        proof { reveal_strlit("bad syntax for snapshot name (missing '@')"); }
        String::from_str("bad syntax for snapshot name (missing '@')")
    }
}

pub open spec fn config_error_text(e: ConfigError) -> Seq<char> {
    match e {
        ConfigError::MissingAt => "bad syntax for snapshot name (missing '@')"@,
    }
}

/// The dataset part of a snapshot name: what precedes its first `@`.
pub open spec fn snapshot_dataset(s: Seq<char>) -> Option<Seq<char>> {
    if exists|i: int| 0 <= i < s.len() && s[i] == '@' {
        let i = choose|i: int| 0 <= i < s.len() && s[i] == '@' && forall|j: int| 0 <= j < i ==> s[j] != '@';
        Some(s.take(i))
    } else {
        None
    }
}

pub open spec fn gocrash_prefix() -> Seq<char> {
    seq!['/', 'g', 'o', 'c', 'r', 'a', 's', 'h', '-']
}

pub open spec fn thread_prefix() -> Seq<char> {
    seq!['/', 't', 'h', 'r', 'e', 'a', 'd', '-']
}

pub open spec fn run_infix() -> Seq<char> {
    seq!['-', 'r', 'u', 'n', '-']
}

/// The working dataset of a session: `<dataset>/gocrash-<millis>`.
pub open spec fn working_dataset(dataset: Seq<char>, millis: nat) -> Seq<char> {
    dataset + gocrash_prefix() + decimal(millis)
}

/// The dataset of one attempt: `<working>/thread-<which>-run-<run>`.
pub open spec fn attempt_dataset(working: Seq<char>, which: nat, run: nat) -> Seq<char> {
    working + thread_prefix() + decimal(which) + run_infix() + decimal(run)
}

proof fn lemma_first_at_exists(s: Seq<char>, k: int)
    requires
        0 <= k < s.len(),
        s[k] == '@',
    ensures
        exists|i: int| 0 <= i < s.len() && s[i] == '@' && forall|j: int| 0 <= j < i ==> s[j] != '@',
    decreases k,
{
    if exists|j: int| 0 <= j < k && s[j] == '@' {
        let j = choose|j: int| 0 <= j < k && s[j] == '@';
        lemma_first_at_exists(s, j);
    }
}

/// Splits a snapshot name at its first `@` and returns the dataset before it.
pub fn dataset_of_snapshot(snapshot: &str) -> (r: Result<String, ConfigError>)
    ensures
        match r {
            Ok(d) => snapshot_dataset(snapshot@) == Some(d@),
            Err(e) => snapshot_dataset(snapshot@) is None && e == ConfigError::MissingAt,
        },
{
    let n = snapshot.unicode_len();
    let mut i: usize = 0;
    while i < n
        invariant
            n == snapshot@.len(),
            i <= n,
            forall|j: int| 0 <= j < i ==> snapshot@[j] != '@',
        decreases n - i,
    {
        if snapshot.get_char(i) == '@' {
            let d = snapshot.substring_char(0, i);
            proof {
                let s = snapshot@;
                lemma_first_at_exists(s, i as int);
                let k = choose|k: int| 0 <= k < s.len() && s[k] == '@' && forall|j: int| 0 <= j < k ==> s[j] != '@';
                assert(k == i);
                assert(d@ =~= s.take(i as int));
            }
            return Ok(String::from_str(d));
        }
        i = i + 1;
    }
    Err(ConfigError::MissingAt)
}

/// The name of a session's working dataset, under the snapshot's dataset and
/// keyed by the time the session started.
pub fn working_dataset_name(dataset: &str, millis: u128) -> (r: String)
    ensures
        r@ == working_dataset(dataset@, millis as nat),
{
    proof { reveal_strlit("/gocrash-"); }
    let digits = decimal_string(millis);
    let r = String::from_str(dataset).concat("/gocrash-").concat(digits.as_str());
    r
}

/// The name of the dataset cloned for run `run` of worker `which`.
pub fn attempt_dataset_name(working: &str, which: u8, run: usize) -> (r: String)
    ensures
        r@ == attempt_dataset(working@, which as nat, run as nat),
{
    proof {
        reveal_strlit("/thread-");
        reveal_strlit("-run-");
    }
    let w = decimal_string(which as u128);
    let n = decimal_string(run as u128);
    let r = String::from_str(working).concat("/thread-").concat(w.as_str()).concat("-run-").concat(
        n.as_str(),
    );
    r
}

proof fn lemma_split_at_run_infix(a: Seq<char>, b: Seq<char>, c: Seq<char>, d: Seq<char>)
    requires
        all_digits(a),
        all_digits(c),
        a + run_infix() + b == c + run_infix() + d,
    ensures
        a == c,
        b == d,
{
    let x = a + run_infix() + b;
    let y = c + run_infix() + d;
    if a.len() < c.len() {
        assert(x[a.len() as int] == '-');
        assert(y[a.len() as int] == c[a.len() as int]);
        assert(is_digit(c[a.len() as int]));
        assert(false);
    }
    if c.len() < a.len() {
        assert(y[c.len() as int] == '-');
        assert(x[c.len() as int] == a[c.len() as int]);
        assert(is_digit(a[c.len() as int]));
        assert(false);
    }
    assert(a =~= x.take(a.len() as int));
    assert(c =~= y.take(c.len() as int));
    assert(b =~= x.skip(a.len() + 5int));
    assert(d =~= y.skip(c.len() + 5int));
}

/// No two attempts of one session share a dataset: the names of different
/// (worker, run) pairs under the same working dataset differ.
pub proof fn lemma_attempt_names_unique(working: Seq<char>, w1: nat, r1: nat, w2: nat, r2: nat)
    requires
        w1 != w2 || r1 != r2,
    ensures
        attempt_dataset(working, w1, r1) != attempt_dataset(working, w2, r2),
{
    if attempt_dataset(working, w1, r1) == attempt_dataset(working, w2, r2) {
        let head = working + thread_prefix();
        let t1 = decimal(w1) + run_infix() + decimal(r1);
        let t2 = decimal(w2) + run_infix() + decimal(r2);
        assert(attempt_dataset(working, w1, r1) =~= head + t1);
        assert(attempt_dataset(working, w2, r2) =~= head + t2);
        assert(t1 =~= (head + t1).skip(head.len() as int));
        assert(t2 =~= (head + t2).skip(head.len() as int));
        lemma_decimal_digits(w1);
        lemma_decimal_digits(w2);
        lemma_split_at_run_infix(decimal(w1), decimal(r1), decimal(w2), decimal(r2));
        lemma_decimal_injective(w1, w2);
        lemma_decimal_injective(r1, r2);
    }
}

} // verus!
