//! The helper backend: it runs a code file through the interpreter with
//! every permission and hands back what the child wrote.
//!
//! The surrounding application writes the code to a temporary file,
//! spawns the planned command, and brings the outcome back to
//! [`ShinkaiToolsBackend::finish`].

use vstd::prelude::*;
use vstd::string::StringExecFns;
use crate::command_plan::{arg_views, env_views, plan_backend_run, CommandPlan};
use crate::execution_error::{classify_outcome, spec_diagnostic, spec_timeout_message, ErrorKind,
    ExecutionError, ProcessOutcome};
use crate::shinkai_tools_backend_options::ShinkaiToolsBackendOptions;
use crate::text::{join_sep, join_strings};

verus! {

/// Runs code through the helper backend's interpreter.
pub struct ShinkaiToolsBackend {
    pub options: ShinkaiToolsBackendOptions,
}

impl ShinkaiToolsBackend {
    pub fn new(options: ShinkaiToolsBackendOptions) -> (r: ShinkaiToolsBackend)
        ensures
            r.options == options,
    {
        ShinkaiToolsBackend { options }
    }

    /// The invocation over a code file at `code_path`, with the caller's
    /// environment on top.
    pub fn plan(&self, code_path: &String, envs: &Vec<(String, String)>) -> (r: CommandPlan)
        ensures
            r.program@ == self.options.binary_path@,
            arg_views(r.args@) == seq!["run"@, "--ext"@, "ts"@, "--allow-all"@, code_path@],
            env_views(r.envs@) == env_views(envs@),
    {
        plan_backend_run(&self.options.binary_path, code_path, envs)
    }

    /// The captured output of a finished child, joined with newlines, or
    /// the error its outcome classifies to.
    pub fn finish(&self, outcome: ProcessOutcome) -> (r: Result<String, ExecutionError>)
        ensures
            match outcome {
                ProcessOutcome::Exited { exit_ok, stdout, stderr } => {
                    if exit_ok {
                        r is Ok && r->Ok_0@ == join_sep(stdout.deep_view(), '\n')
                    } else {
                        r is Err && r->Err_0.kind == ErrorKind::ChildFailed
                            && (r->Err_0.stderr_tail matches Option::Some(t) && t@
                            == spec_diagnostic(stdout.deep_view(), stderr.deep_view()))
                    }
                },
                ProcessOutcome::TimedOut { secs } => r is Err && r->Err_0.kind
                    == ErrorKind::Timeout && r->Err_0.message@ == spec_timeout_message(
                    secs as int,
                ),
                ProcessOutcome::SpawnFailed { message } => r is Err && r->Err_0.kind
                    == ErrorKind::Spawn,
            },
    {
        match classify_outcome(outcome) {
            Result::Ok(stdout) => Result::Ok(join_strings(&stdout, '\n')),
            Result::Err(e) => Result::Err(e),
        }
    }
}

impl Default for ShinkaiToolsBackend {
    /// A backend over the default options.
    fn default() -> (r: ShinkaiToolsBackend)
        ensures
            r.options.binary_path@ == "./shinkai-tools-runner-resources/shinkai-tools-backend"@,
    {
        ShinkaiToolsBackend { options: ShinkaiToolsBackendOptions::default() }
    }
}

} // verus!
