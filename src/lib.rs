//! Repeatedly runs a test suite against disposable copy-on-write clones of a
//! snapshot, in parallel, until a run fails or each worker reaches its limit.
//!
//! The library holds the decisions: names of datasets, the command lines to
//! run, the life cycle of one attempt, the loop of one worker, and how the
//! workers' results combine. Running commands, threads and clocks is left to
//! the program around it.

pub mod attempt;
pub mod command;
pub mod coordinator;
pub mod names;
pub mod text;
pub mod worker;

pub use attempt::{Attempt, AttemptAction, AttemptEvent, AttemptPhase};
pub use command::{CommandLine, Termination, command_label};
pub use coordinator::Session;
pub use names::ConfigError;
pub use worker::{StopSignal, Worker, WorkerAction, WorkerEvent, WorkerPhase, WorkerResult, gocrash_worker};
