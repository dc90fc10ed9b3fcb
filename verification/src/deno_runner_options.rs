//! Configuration of the TypeScript runner.

use vstd::prelude::*;
use vstd::string::StringExecFns;
use crate::execution_context::{ExecutionContext, RunnerType, ShinkaiNodeLocation};

verus! {

/// What a TypeScript run needs besides the code: where its storage
/// lives, which interpreter binary and container image to use, whether a
/// backend is forced, whether the host override is forced (read from the
/// process environment only when this is unset), and the external
/// service endpoint exposed to the child.
pub struct DenoRunnerOptions {
    pub context: ExecutionContext,
    pub deno_binary_path: String,
    pub code_runner_docker_image_name: String,
    pub force_runner_type: Option<RunnerType>,
    pub force_deno_in_host: Option<bool>,
    pub shinkai_node_location: ShinkaiNodeLocation,
}

impl Default for ExecutionContext {
    /// An empty addressing tuple under the conventional storage root;
    /// identifier generation is the caller's.
    fn default() -> (r: ExecutionContext)
        ensures
            r.storage_root@ == "./shinkai-tools-runner-execution-storage"@,
            r.context_id@ == Seq::<char>::empty(),
            r.execution_id@ == Seq::<char>::empty(),
            r.code_id@ == Seq::<char>::empty(),
            r.mount_files@.len() == 0,
            r.assets_files@.len() == 0,
    {
        ExecutionContext {
            storage_root: String::from_str("./shinkai-tools-runner-execution-storage"),
            context_id: String::new(),
            execution_id: String::new(),
            code_id: String::new(),
            mount_files: Vec::new(),
            assets_files: Vec::new(),
        }
    }
}

impl Default for ShinkaiNodeLocation {
    fn default() -> (r: ShinkaiNodeLocation)
        ensures
            r.protocol@ == "http"@,
            r.host@ == "127.0.0.1"@,
            r.port == 9550,
    {
        ShinkaiNodeLocation {
            protocol: String::from_str("http"),
            host: String::from_str("127.0.0.1"),
            port: 9550,
        }
    }
}

impl Default for DenoRunnerOptions {
    fn default() -> (r: DenoRunnerOptions)
        ensures
            r.deno_binary_path@ == "./shinkai-tools-runner-resources/deno"@,
            r.code_runner_docker_image_name@ == "dcspark/shinkai-code-runner:0.9.3"@,
            r.force_runner_type is None,
            r.force_deno_in_host is None,
    {
        DenoRunnerOptions {
            context: ExecutionContext::default(),
            deno_binary_path: String::from_str("./shinkai-tools-runner-resources/deno"),
            code_runner_docker_image_name: String::from_str("dcspark/shinkai-code-runner:0.9.3"),
            force_runner_type: Option::None,
            force_deno_in_host: Option::None,
            shinkai_node_location: ShinkaiNodeLocation::default(),
        }
    }
}

} // verus!
