//! The Python runner: manifest synthesis, harness wrapping, backend
//! choice, invocation planning, result recovery, and the decisions of the
//! diagnostic pipeline.
//!
//! As with the TypeScript runner, everything that touches the operating
//! system is the surrounding application's; what is decided and what text
//! reaches the child are fixed here, under contract.

use vstd::prelude::*;
use vstd::string::StringExecFns;
use crate::code_files::{lookup, CodeFiles};
use crate::command_plan::{arg_views, env_views, plan_python_container, plan_python_host,
    python_container_args, python_host_args, python_host_env_pairs, CommandPlan};
use crate::execution_context::{spec_selected_runner, DockerStatus, ExecutionContext, RunnerType,
    ShinkaiNodeLocation};
use crate::execution_error::{ErrorKind, ExecutionError};
use crate::execution_storage::{spec_run_root, ExecutionStorage};
use crate::harness::{build_python_harness, python_harness};
use crate::json::{spec_tagged_text, tagged_json_string, JsonValue};
use crate::manifest::{entry_lines, extend_with_pyproject_toml,
    lemma_lookup_store_all, merged_deps, merged_req, rendered_manifest, synth_result_lookup,
    synthesis_succeeds};
use crate::run_result::{parse_run_output, RunResult};
use crate::sentinel::{extracted_text, spec_code_result_close, spec_code_result_open};
use crate::text::{chars_of_str, removed_all, remove_sub, string_from_chars};

verus! {

/// What a Python run needs besides the code: its storage context, the
/// package manager binary, the container image, a forced backend if any,
/// and the external service endpoint.
pub struct PythonRunnerOptions {
    pub context: ExecutionContext,
    pub uv_binary_path: String,
    pub code_runner_docker_image_name: String,
    pub force_runner_type: Option<RunnerType>,
    pub shinkai_node_location: ShinkaiNodeLocation,
}

impl Default for PythonRunnerOptions {
    fn default() -> (r: PythonRunnerOptions)
        ensures
            r.uv_binary_path@ == "./shinkai-tools-runner-resources/uv"@,
            r.code_runner_docker_image_name@ == "dcspark/shinkai-code-runner:0.9.3"@,
            r.force_runner_type is None,
    {
        PythonRunnerOptions {
            context: ExecutionContext::default(),
            uv_binary_path: String::from_str("./shinkai-tools-runner-resources/uv"),
            code_runner_docker_image_name: String::from_str("dcspark/shinkai-code-runner:0.9.3"),
            force_runner_type: Option::None,
            shinkai_node_location: crate::execution_context::ShinkaiNodeLocation::default(),
        }
    }
}

/// Runs Python code through the configured backend.
pub struct PythonRunner {
    pub code: CodeFiles,
    pub configurations: JsonValue,
    pub options: PythonRunnerOptions,
}

/// The entrypoint text the harness wraps: the synthesized entrypoint —
/// with the inline block removed when one was there.
pub open spec fn harness_entry_source(c: CodeFiles) -> Seq<char> {
    synth_result_lookup(c, c.entrypoint@).unwrap()
}

/// The full text of the prepared entrypoint: the synthesized user code
/// wrapped with the harness, with the tagged configuration and parameter
/// payloads embedded.
pub open spec fn prepared_entry_text(c: CodeFiles, cfg: JsonValue, params: JsonValue) -> Seq<
    char,
> {
    python_harness(
        harness_entry_source(c),
        spec_tagged_text(cfg, "py/object"@, "__main__.CONFIG"@),
        spec_tagged_text(params, "py/object"@, "__main__.INPUTS"@),
    )
}

impl PythonRunner {
    pub fn new(
        code_files: CodeFiles,
        configurations: JsonValue,
        options: Option<PythonRunnerOptions>,
    ) -> (r: PythonRunner)
        ensures
            r.code == code_files,
            r.configurations == configurations,
            options matches Option::Some(o) ==> r.options == o,
    {
        let options = match options {
            Option::Some(o) => o,
            Option::None => PythonRunnerOptions::default(),
        };
        PythonRunner { code: code_files, configurations, options }
    }

    /// Prepare the bundle of one run: synthesize the manifest, then bind
    /// the entrypoint to the harness-wrapped code with the tagged
    /// configuration and the tagged parameters embedded. Succeeds exactly
    /// when manifest synthesis does.
    pub fn prepare_run(&self, parameters: &JsonValue) -> (r: Result<CodeFiles, ExecutionError>)
        ensures
            r is Ok <==> synthesis_succeeds(self.code),
            r is Err ==> r->Err_0.kind == ErrorKind::ManifestSynthesis,
            r is Ok ==> r->Ok_0.entrypoint == self.code.entrypoint,
            r is Ok ==> lookup(r->Ok_0.files@, self.code.entrypoint@) == Option::Some(
                prepared_entry_text(self.code, self.configurations, *parameters),
            ),
            r is Ok && self.code.entrypoint@ != "pyproject.toml"@ ==> lookup(
                r->Ok_0.files@,
                "pyproject.toml"@,
            ) == Option::Some(
                rendered_manifest(
                    merged_deps(entry_lines(self.code)),
                    merged_req(entry_lines(self.code)),
                ),
            ),
            r is Ok ==> forall|n: Seq<char>|
                n != "pyproject.toml"@ && n != self.code.entrypoint@ ==> lookup(
                    r->Ok_0.files@,
                    n,
                ) == lookup(self.code.files@, n),
    {
        let bundle = self.code.duplicate();
        proof {
            assert(synthesis_succeeds(bundle) == synthesis_succeeds(self.code));
            assert(entry_lines(bundle) == entry_lines(self.code));
        }
        let extended = match extend_with_pyproject_toml(bundle) {
            Result::Ok(e) => e,
            Result::Err(e) => {
                return Result::Err(e);
            },
        };
        let ep = self.code.entrypoint.clone();
        let entry_code = match extended.get_file(ep.as_str()) {
            Option::Some(c) => c,
            Option::None => {
                proof {
                    assert(false);
                }
                return Result::Err(
                    ExecutionError::new(
                        ErrorKind::ManifestSynthesis,
                        String::from_str("no entrypoint found in the code bundle"),
                        Option::None,
                    ),
                );
            },
        };
        let cfg_s = tagged_json_string(&self.configurations, "py/object", "__main__.CONFIG");
        let cfg_c = chars_of_str(cfg_s.as_str());
        let params_s = tagged_json_string(parameters, "py/object", "__main__.INPUTS");
        let params_c = chars_of_str(params_s.as_str());
        let wrapped = build_python_harness(entry_code.as_str(), &cfg_c, &params_c);
        let mut out = extended;
        let ghost files1 = out.files@;
        out.set_file(ep, wrapped);
        proof {
            lemma_lookup_store_all(
                files1,
                self.code.entrypoint@,
                prepared_entry_text(self.code, self.configurations, *parameters),
            );
        }
        Result::Ok(out)
    }

    /// The backend this run selects: the forced backend wins over the
    /// probe.
    pub fn select(&self, probe: DockerStatus) -> (r: RunnerType)
        ensures
            r == spec_selected_runner(self.options.force_runner_type, false, probe),
    {
        crate::execution_context::select_runner_type(
            self.options.force_runner_type,
            false,
            probe,
        )
    }

    /// The storage of one run over the prepared bundle: the runner's own
    /// context, with the bundle to materialize.
    pub fn storage(&self, prepared: CodeFiles) -> (r: ExecutionStorage)
        ensures
            r.code == prepared,
            r.context.storage_root@ == self.options.context.storage_root@,
            r.context.context_id@ == self.options.context.context_id@,
            r.context.execution_id@ == self.options.context.execution_id@,
            r.context.code_id@ == self.options.context.code_id@,
            r.context.mount_files@ == self.options.context.mount_files@,
            r.context.assets_files@ == self.options.context.assets_files@,
    {
        let ctx = &self.options.context;
        let mount_files = ctx.mount_files.clone();
        let assets_files = ctx.assets_files.clone();
        proof {
            assert(mount_files@ =~= ctx.mount_files@);
            assert(assets_files@ =~= ctx.assets_files@);
        }
        ExecutionStorage::new(
            prepared,
            ExecutionContext {
                storage_root: ctx.storage_root.clone(),
                context_id: ctx.context_id.clone(),
                execution_id: ctx.execution_id.clone(),
                code_id: ctx.code_id.clone(),
                mount_files,
                assets_files,
            },
        )
    }

    /// The invocation of the selected backend over the given storage.
    pub fn plan(
        &self,
        runner_type: RunnerType,
        storage: &ExecutionStorage,
        envs: &Vec<(String, String)>,
    ) -> (r: CommandPlan)
        ensures
            runner_type == RunnerType::Host ==> r.program@ == self.options.uv_binary_path@
                && arg_views(r.args@) == python_host_args(
                storage.context,
                storage.code.entrypoint@,
            ) && env_views(r.envs@) == python_host_env_pairs(
                storage.context,
                self.options.shinkai_node_location,
            ) + env_views(envs@) && (r.cwd matches Option::Some(c) && c@ == spec_run_root(
                storage.context,
            )),
            runner_type == RunnerType::Docker ==> r.program@ == "docker"@ && arg_views(r.args@)
                == python_container_args(
                storage.context,
                self.options.shinkai_node_location,
                self.options.code_runner_docker_image_name@,
                storage.code.entrypoint@,
                env_views(envs@),
            ),
    {
        match runner_type {
            RunnerType::Host => plan_python_host(
                &self.options.uv_binary_path,
                storage,
                &self.options.shinkai_node_location,
                envs,
            ),
            RunnerType::Docker => plan_python_container(
                &self.options.code_runner_docker_image_name,
                storage,
                &self.options.shinkai_node_location,
                envs,
            ),
        }
    }

    /// Recover the typed result from the captured stdout lines, through
    /// the code-result sentinel frame.
    pub fn finish_run(&self, stdout_lines: &Vec<String>) -> (r: Result<
        RunResult,
        ExecutionError,
    >)
        ensures
            r is Ok <==> crate::json::json_ok(
                extracted_text(
                    stdout_lines.deep_view(),
                    spec_code_result_open(),
                    spec_code_result_close(),
                ),
            ),
            r is Ok ==> r->Ok_0.data@ == extracted_text(
                stdout_lines.deep_view(),
                spec_code_result_open(),
                spec_code_result_close(),
            ),
            r is Err ==> r->Err_0.kind == ErrorKind::Protocol,
    {
        parse_run_output(stdout_lines, "<shinkai-code-result>", "</shinkai-code-result>")
    }
}

/// Diagnostics made portable: every mention of the materialized code
/// directory (with its trailing slash) is removed, so paths read as
/// bundle-relative.
pub fn normalize_error_message(message: &String, code_folder_path: &String) -> (r: String)
    ensures
        r@ == removed_all(message@, code_folder_path@ + seq!['/']),
{
    let mc = chars_of_str(message.as_str());
    let mut pat = chars_of_str(code_folder_path.as_str());
    pat.push('/');
    proof {
        assert(pat@ =~= code_folder_path@ + seq!['/']);
    }
    let cleaned = remove_sub(&mc, &pat);
    string_from_chars(&cleaned)
}

/// What the lint stage decides: more than one captured line is a finding
/// list and ends the check with exactly those lines; otherwise the type
/// check runs next.
pub fn ruff_verdict(lines: Vec<String>) -> (r: Option<Vec<String>>)
    ensures
        lines@.len() > 1 ==> (r matches Option::Some(l) && l == lines),
        lines@.len() <= 1 ==> r is None,
{
    if lines.len() > 1 {
        Option::Some(lines)
    } else {
        Option::None
    }
}

/// What the type-check stage decides: a single captured line means a
/// clean run and yields no diagnostics; more lines are returned verbatim.
pub fn pyright_verdict(lines: Vec<String>) -> (r: Vec<String>)
    ensures
        lines@.len() <= 1 ==> r@.len() == 0,
        lines@.len() > 1 ==> r == lines,
{
    if lines.len() <= 1 {
        Vec::new()
    } else {
        lines
    }
}

} // verus!
