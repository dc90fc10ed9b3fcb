//! The TypeScript runner: backend choice and the exact invocation each
//! backend gets.
//!
//! The run itself — materializing the storage plan, spawning the planned
//! command, supervising it — is the surrounding application's; everything
//! that decides what happens is here, under contract.

use vstd::prelude::*;
use crate::command_plan::{arg_views, deno_container_args, deno_host_args, env_views,
    plan_deno_container, plan_deno_host, CommandPlan};
use crate::deno_execution_storage::{deno_storage_wf, DenoExecutionStorage};
use crate::deno_runner_options::DenoRunnerOptions;
use crate::execution_context::{spec_selected_runner, DockerStatus, RunnerType};

verus! {

/// Runs TypeScript code through the configured backend.
pub struct DenoRunner {
    pub options: DenoRunnerOptions,
}

impl DenoRunner {
    pub fn new(options: DenoRunnerOptions) -> (r: DenoRunner)
        ensures
            r.options == options,
    {
        DenoRunner { options }
    }

    /// The storage layout of this runner's next run: keyed by the code
    /// identifier under the context's storage root.
    pub fn storage(&self) -> (r: DenoExecutionStorage)
        ensures
            r.root@ == self.options.context.storage_root@,
            r.id@ == self.options.context.code_id@,
            deno_storage_wf(r),
    {
        DenoExecutionStorage::new(
            self.options.context.storage_root.clone(),
            self.options.context.code_id.as_str(),
        )
    }

    /// The backend this run selects: the host override wins, then the
    /// forced backend, then the probe. When the override field is unset
    /// the caller passes what the process environment says.
    pub fn select(&self, env_force_host: bool, probe: DockerStatus) -> (r: RunnerType)
        ensures
            r == spec_selected_runner(
                self.options.force_runner_type,
                match self.options.force_deno_in_host {
                    Option::Some(b) => b,
                    Option::None => env_force_host,
                },
                probe,
            ),
    {
        let forced_host = match self.options.force_deno_in_host {
            Option::Some(b) => b,
            Option::None => env_force_host,
        };
        crate::execution_context::select_runner_type(
            self.options.force_runner_type,
            forced_host,
            probe,
        )
    }

    /// The invocation of the selected backend, over the given storage
    /// layout and environment overlay.
    pub fn plan(
        &self,
        runner_type: RunnerType,
        storage: &DenoExecutionStorage,
        envs: &Vec<(String, String)>,
    ) -> (r: CommandPlan)
        requires
            deno_storage_wf(*storage),
        ensures
            runner_type == RunnerType::Host ==> r.program@ == self.options.deno_binary_path@
                && arg_views(r.args@) == deno_host_args(storage.home@, storage.code_entrypoint@)
                && env_views(r.envs@) == seq![("DENO_DIR"@, storage.deno_cache@)]
                + crate::command_plan::host_env_pairs(
                storage.home@,
                self.options.context,
                self.options.shinkai_node_location,
            ) + env_views(envs@) && (r.cwd matches Option::Some(c) && c@ == storage.root@),
            runner_type == RunnerType::Docker ==> r.program@ == "docker"@ && arg_views(r.args@)
                == deno_container_args(
                self.options.context,
                self.options.shinkai_node_location,
                self.options.code_runner_docker_image_name@,
                storage.root@,
                storage.id@,
                env_views(envs@),
            ),
    {
        match runner_type {
            RunnerType::Host => plan_deno_host(
                &self.options.deno_binary_path,
                storage,
                &self.options.context,
                &self.options.shinkai_node_location,
                envs,
            ),
            RunnerType::Docker => plan_deno_container(
                &self.options.code_runner_docker_image_name,
                storage,
                &self.options.context,
                &self.options.shinkai_node_location,
                envs,
            ),
        }
    }
}

impl Default for DenoRunner {
    /// A runner over the default options.
    fn default() -> (r: DenoRunner)
        ensures
            r.options.deno_binary_path@ == "./shinkai-tools-runner-resources/deno"@,
            r.options.force_runner_type is None,
    {
        DenoRunner { options: DenoRunnerOptions::default() }
    }
}

} // verus!
