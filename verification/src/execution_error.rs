//! The error taxonomy of an execution, and the classification of a child
//! process outcome into it.

use vstd::prelude::*;
use vstd::string::StringExecFns;
use crate::text::{dec_digits, join_sep, join_with, lemma_join_sep_piece_len,
    lines_to_chars, push_str_chars, string_from_chars};

verus! {

/// What went wrong. One kind per failure class of a run.
#[derive(Clone, Copy, PartialEq, Eq, Structural, Debug)]
pub enum ErrorKind {
    /// Directory creation, file write, or cache reset failed.
    StorageInit,
    /// The entrypoint was missing or its inline metadata block malformed.
    ManifestSynthesis,
    /// The child could not be spawned.
    Spawn,
    /// The wall-clock deadline passed before the child exited.
    Timeout,
    /// The child exited non-zero.
    ChildFailed,
    /// No sentinel frame was found, or the framed payload was not JSON.
    Protocol,
    /// A container backend was demanded but the probe found none running.
    ProbeUnavailable,
}

/// An execution error: its kind, a human-readable message, and, for a
/// failed child, the tail of what it wrote to its error stream.
#[derive(Debug)]
pub struct ExecutionError {
    pub kind: ErrorKind,
    pub message: String,
    pub stderr_tail: Option<String>,
}

impl ExecutionError {
    /// An error of the given kind.
    pub fn new(kind: ErrorKind, message: String, stderr_tail: Option<String>) -> (r:
        ExecutionError)
        ensures
            r.kind == kind,
            r.message == message,
            r.stderr_tail == stderr_tail,
    {
        ExecutionError { kind, message, stderr_tail }
    }

    /// The message text.
    pub fn message_text(&self) -> (r: String)
        ensures
            r@ == self.message@,
    {
        self.message.clone()
    }
}

/// The message of a timeout error over a deadline of `secs` seconds.
pub open spec fn spec_timeout_message(secs: int) -> Seq<char> {
    "process timed out after "@ + dec_digits(secs) + "[s]"@
}

/// The timeout error: the deadline of `secs` seconds passed and the child
/// was killed.
pub fn timeout_error(secs: u64) -> (r: ExecutionError)
    ensures
        r.kind == ErrorKind::Timeout,
        r.message@ == spec_timeout_message(secs as int),
        r.stderr_tail is None,
{
    let mut msg: Vec<char> = Vec::new();
    push_str_chars(&mut msg, "process timed out after ");
    crate::text::push_dec(&mut msg, secs);
    push_str_chars(&mut msg, "[s]");
    ExecutionError {
        kind: ErrorKind::Timeout,
        message: string_from_chars(&msg),
        stderr_tail: Option::None,
    }
}

/// How a supervised child ended: it exited with or without success and its
/// two output streams were captured line by line, the deadline passed
/// first, or it could not even be spawned.
pub enum ProcessOutcome {
    Exited { exit_ok: bool, stdout: Vec<String>, stderr: Vec<String> },
    TimedOut { secs: u64 },
    SpawnFailed { message: String },
}

/// The diagnostic attached to a failed child: what it wrote to stderr, or,
/// when that is empty, what it wrote to stdout.
pub open spec fn spec_diagnostic(stdout: Seq<Seq<char>>, stderr: Seq<Seq<char>>) -> Seq<char> {
    if stderr.len() > 0 {
        join_sep(stderr, '\n')
    } else {
        join_sep(stdout, '\n')
    }
}

/// Turn a child outcome into the captured stdout lines or the error the
/// taxonomy assigns to it. A child that exited zero yields exactly its
/// stdout lines; a non-zero exit yields a child-failure error carrying the
/// diagnostic, which holds every stderr line the child produced; a passed
/// deadline yields the timeout error; a spawn failure yields a spawn error.
pub fn classify_outcome(outcome: ProcessOutcome) -> (r: Result<Vec<String>, ExecutionError>)
    ensures
        match outcome {
            ProcessOutcome::Exited { exit_ok, stdout, stderr } => {
                if exit_ok {
                    r is Ok && r->Ok_0 == stdout
                } else {
                    r is Err && r->Err_0.kind == ErrorKind::ChildFailed
                        && (r->Err_0.stderr_tail matches Option::Some(t) && t@ == spec_diagnostic(
                        stdout.deep_view(),
                        stderr.deep_view(),
                    ))
                }
            },
            ProcessOutcome::TimedOut { secs } => r is Err && r->Err_0.kind == ErrorKind::Timeout
                && r->Err_0.message@ == spec_timeout_message(secs as int),
            ProcessOutcome::SpawnFailed { message } => r is Err && r->Err_0.kind
                == ErrorKind::Spawn && r->Err_0.message@ == "failed to spawn command: "@
                + message@,
        },
{
    match outcome {
        ProcessOutcome::Exited { exit_ok, stdout, stderr } => {
            if exit_ok {
                Result::Ok(stdout)
            } else {
                let which: &Vec<String> = if stderr.len() > 0 {
                    &stderr
                } else {
                    &stdout
                };
                let cs = lines_to_chars(which);
                proof {
                    assert(cs.deep_view() =~~= which.deep_view());
                }
                let joined = join_with(&cs, '\n');
                let tail = string_from_chars(&joined);
                proof {
                    assert(stderr@.len() == stderr.deep_view().len());
                }
                Result::Err(ExecutionError {
                    kind: ErrorKind::ChildFailed,
                    message: String::from_str("command execution failed"),
                    stderr_tail: Option::Some(tail),
                })
            }
        },
        ProcessOutcome::TimedOut { secs } => Result::Err(timeout_error(secs)),
        ProcessOutcome::SpawnFailed { message } => {
            let mut msg: Vec<char> = Vec::new();
            push_str_chars(&mut msg, "failed to spawn command: ");
            push_str_chars(&mut msg, message.as_str());
            Result::Err(ExecutionError {
                kind: ErrorKind::Spawn,
                message: string_from_chars(&msg),
                stderr_tail: Option::None,
            })
        },
    }
}

/// When the child produced any error output, the diagnostic of a failed
/// child is not empty.
pub proof fn lemma_diagnostic_nonempty(stdout: Seq<Seq<char>>, stderr: Seq<Seq<char>>, k: int)
    requires
        0 <= k < stderr.len(),
        stderr[k].len() > 0,
    ensures
        spec_diagnostic(stdout, stderr).len() > 0,
{
    lemma_join_sep_piece_len(stderr, '\n', k);
}

/// Whether the run may start at all: a backend demanded outright must be
/// reachable. Only an explicit container choice can fail here, and only
/// when the probe found no running engine.
pub fn check_forced_backend(
    force: Option<crate::execution_context::RunnerType>,
    probe: crate::execution_context::DockerStatus,
) -> (r: Result<(), ExecutionError>)
    ensures
        r is Ok <==> !(force == Option::Some(crate::execution_context::RunnerType::Docker)
            && probe != crate::execution_context::DockerStatus::Running),
        r is Err ==> r->Err_0.kind == ErrorKind::ProbeUnavailable,
{
    match force {
        Option::Some(crate::execution_context::RunnerType::Docker) => {
            if probe == crate::execution_context::DockerStatus::Running {
                Result::Ok(())
            } else {
                Result::Err(
                    ExecutionError {
                        kind: ErrorKind::ProbeUnavailable,
                        message: String::from_str(
                            "a container backend was demanded but no engine is running",
                        ),
                        stderr_tail: Option::None,
                    },
                )
            }
        },
        _ => Result::Ok(()),
    }
}

} // verus!
