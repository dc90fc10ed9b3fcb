//! The addressing of one run, the backend kinds, and the backend choice.

use vstd::prelude::*;

verus! {

/// Which backend executes the child: a host subprocess or a container.
#[derive(Clone, Copy, PartialEq, Eq, Structural, Debug)]
pub enum RunnerType {
    Host,
    Docker,
}

/// What the container probe found.
#[derive(Clone, Copy, PartialEq, Eq, Structural, Debug)]
pub enum DockerStatus {
    NotInstalled,
    NotRunning,
    Running,
}

/// The external service endpoint exposed to the child.
pub struct ShinkaiNodeLocation {
    pub protocol: String,
    pub host: String,
    pub port: u16,
}

/// The addressing tuple of one run and the host paths it exposes.
/// `(context_id, execution_id, code_id)` identify the run; `storage_root`
/// anchors its directory tree. `mount_files` are read-write host paths
/// handed to the child; `assets_files` are read-only.
pub struct ExecutionContext {
    pub storage_root: String,
    pub context_id: String,
    pub execution_id: String,
    pub code_id: String,
    pub mount_files: Vec<String>,
    pub assets_files: Vec<String>,
}

/// What the probe result means: only an exit status of zero from the
/// container CLI counts as a running engine; a failed spawn means no
/// engine is installed at all.
pub fn probe_status(spawn_ok: bool, exit_ok: bool) -> (r: DockerStatus)
    ensures
        !spawn_ok ==> r == DockerStatus::NotInstalled,
        spawn_ok && exit_ok ==> r == DockerStatus::Running,
        spawn_ok && !exit_ok ==> r == DockerStatus::NotRunning,
{
    if !spawn_ok {
        DockerStatus::NotInstalled
    } else if exit_ok {
        DockerStatus::Running
    } else {
        DockerStatus::NotRunning
    }
}

/// The backend a run selects, given the forced choice if any, the
/// process-wide host override, and the probe's finding.
pub open spec fn spec_selected_runner(
    force: Option<RunnerType>,
    force_host_override: bool,
    probe: DockerStatus,
) -> RunnerType {
    if force_host_override {
        RunnerType::Host
    } else if force is Some {
        force->0
    } else if probe == DockerStatus::Running {
        RunnerType::Docker
    } else {
        RunnerType::Host
    }
}

/// Select the backend: the host override wins over everything, a forced
/// backend wins over the probe, and otherwise the container runs exactly
/// when the probe found it running.
pub fn select_runner_type(
    force: Option<RunnerType>,
    force_host_override: bool,
    probe: DockerStatus,
) -> (r: RunnerType)
    ensures
        r == spec_selected_runner(force, force_host_override, probe),
{
    if force_host_override {
        RunnerType::Host
    } else {
        match force {
            Option::Some(t) => t,
            Option::None => {
                if probe == DockerStatus::Running {
                    RunnerType::Docker
                } else {
                    RunnerType::Host
                }
            },
        }
    }
}

} // verus!
