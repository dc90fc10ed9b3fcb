//! The planned invocations: exact argument lists, environments, backend
//! selection, and outcome classification.

use shinkai_tools_runner::code_files::CodeFiles;
use shinkai_tools_runner::command_plan::plan_docker_probe;
use shinkai_tools_runner::deno_execution_storage::DenoExecutionStorage;
use shinkai_tools_runner::deno_runner::DenoRunner;
use shinkai_tools_runner::deno_runner_options::DenoRunnerOptions;
use shinkai_tools_runner::execution_context::probe_status;
use shinkai_tools_runner::execution_context::DockerStatus;
use shinkai_tools_runner::execution_context::ExecutionContext;
use shinkai_tools_runner::execution_context::RunnerType;
use shinkai_tools_runner::execution_context::ShinkaiNodeLocation;
use shinkai_tools_runner::execution_error::check_forced_backend;
use shinkai_tools_runner::execution_error::classify_outcome;
use shinkai_tools_runner::execution_error::timeout_error;
use shinkai_tools_runner::execution_error::ErrorKind;
use shinkai_tools_runner::execution_error::ProcessOutcome;
use shinkai_tools_runner::execution_storage::ExecutionStorage;
use shinkai_tools_runner::python_runner::PythonRunner;
use shinkai_tools_runner::python_runner::PythonRunnerOptions;
use shinkai_tools_runner::python_runner::normalize_error_message;
use shinkai_tools_runner::python_runner::pyright_verdict;
use shinkai_tools_runner::python_runner::ruff_verdict;
use shinkai_tools_runner::shinkai_tools_backend::ShinkaiToolsBackend;
use shinkai_tools_runner::shinkai_tools_backend_options::ShinkaiToolsBackendOptions;

fn deno_runner() -> DenoRunner {
    let mut options = DenoRunnerOptions::default();
    options.context.storage_root = "/srv/runs".to_string();
    options.context.code_id = "run1".to_string();
    DenoRunner::new(options)
}

#[test]
fn deno_host_plan_is_exact() {
    let runner = deno_runner();
    let storage = runner.storage();
    let envs = vec![("HELLO_WORLD".to_string(), "hello world!".to_string())];
    let plan = runner.plan(RunnerType::Host, &storage, &envs);
    assert_eq!(plan.program, "./shinkai-tools-runner-resources/deno");
    assert_eq!(plan.args[0], "run");
    assert_eq!(plan.args[1], "--ext");
    assert_eq!(plan.args[2], "ts");
    assert_eq!(plan.args[3], "--allow-env");
    assert_eq!(plan.args[19], "--allow-write=/srv/runs/home");
    assert_eq!(plan.args[20], "/srv/runs/code/run1/index.ts");
    assert_eq!(plan.args.len(), 21);
    let envs_expected: Vec<(String, String)> = vec![
        ("DENO_DIR".to_string(), "/srv/runs/deno-cache".to_string()),
        ("SHINKAI_NODE_LOCATION".to_string(), "http://127.0.0.1:9550".to_string()),
        ("SHINKAI_HOME".to_string(), "/srv/runs/home".to_string()),
        ("SHINKAI_ASSETS".to_string(), "".to_string()),
        ("SHINKAI_MOUNT".to_string(), "".to_string()),
        ("SHINKAI_CONTEXT_ID".to_string(), "".to_string()),
        ("SHINKAI_EXECUTION_ID".to_string(), "".to_string()),
        ("HELLO_WORLD".to_string(), "hello world!".to_string()),
    ];
    assert_eq!(plan.envs, envs_expected);
    assert_eq!(plan.cwd.as_deref(), Some("/srv/runs"));
}

#[test]
fn deno_container_plan_is_exact() {
    let runner = deno_runner();
    let storage = runner.storage();
    let envs = vec![("K".to_string(), "V".to_string())];
    let plan = runner.plan(RunnerType::Docker, &storage, &envs);
    assert_eq!(plan.program, "docker");
    let expected: Vec<String> = [
        "run",
        "--rm",
        "--mount",
        "type=bind,source=/srv/runs/code/run1,target=/app/code/run1",
        "--mount",
        "type=bind,source=/srv/runs/home,target=/app/home",
        "-e",
        "DENO_DIR=deno-cache",
        "-e",
        "SHINKAI_NODE_LOCATION=http://host.docker.internal:9550",
        "-e",
        "SHINKAI_HOME=/app/home",
        "-e",
        "SHINKAI_ASSETS=",
        "-e",
        "SHINKAI_MOUNT=",
        "-e",
        "SHINKAI_CONTEXT_ID=",
        "-e",
        "SHINKAI_EXECUTION_ID=",
        "-e",
        "K=V",
        "--workdir",
        "/app",
        "dcspark/shinkai-code-runner:0.9.3",
        "run",
        "--ext",
        "ts",
        "--allow-all",
        "code/run1/index.ts",
    ]
    .iter()
    .map(|s| s.to_string())
    .collect();
    assert_eq!(plan.args, expected);
    assert!(plan.cwd.is_none());
}

fn python_runner() -> PythonRunner {
    let mut options = PythonRunnerOptions::default();
    options.context = ExecutionContext {
        storage_root: "/srv/runs".to_string(),
        context_id: "ctx".to_string(),
        execution_id: "exec".to_string(),
        code_id: "code1".to_string(),
        mount_files: vec!["C:\\data\\notes.txt".to_string()],
        assets_files: vec!["/srv/assets/logo.png".to_string()],
    };
    options.shinkai_node_location = ShinkaiNodeLocation {
        protocol: "http".to_string(),
        host: "127.0.0.1".to_string(),
        port: 9550,
    };
    let mut code = CodeFiles::new("main.py".to_string());
    code.set_file("main.py".to_string(), "def run(c, p):\n    return 1\n".to_string());
    PythonRunner::new(code, shinkai_tools_runner::json::JsonValue::Obj(Vec::new()), Some(options))
}

#[test]
fn python_host_plan_is_exact() {
    let runner = python_runner();
    let prepared = runner
        .prepare_run(&shinkai_tools_runner::json::JsonValue::Obj(Vec::new()))
        .unwrap();
    let storage = runner.storage(prepared);
    let envs = vec![("HELLO_WORLD".to_string(), "hello world!".to_string())];
    let plan = runner.plan(RunnerType::Host, &storage, &envs);
    assert_eq!(plan.program, "./shinkai-tools-runner-resources/uv");
    let expected: Vec<String> = [
        "run",
        "--project",
        "/srv/runs/ctx/exec/code1/code/pyproject.toml",
        "/srv/runs/ctx/exec/code1/code/main.py",
    ]
    .iter()
    .map(|s| s.to_string())
    .collect();
    assert_eq!(plan.args, expected);
    let envs_expected: Vec<(String, String)> = vec![
        ("SHINKAI_NODE_LOCATION".to_string(), "http://127.0.0.1:9550".to_string()),
        ("SHINKAI_HOME".to_string(), "/srv/runs/ctx/exec/code1/home".to_string()),
        ("SHINKAI_ASSETS".to_string(), "/srv/assets/logo.png".to_string()),
        ("SHINKAI_MOUNT".to_string(), "C:\\data\\notes.txt".to_string()),
        ("SHINKAI_CONTEXT_ID".to_string(), "ctx".to_string()),
        ("SHINKAI_EXECUTION_ID".to_string(), "exec".to_string()),
        ("HELLO_WORLD".to_string(), "hello world!".to_string()),
    ];
    assert_eq!(plan.envs, envs_expected);
    assert_eq!(plan.cwd.as_deref(), Some("/srv/runs/ctx/exec/code1"));
}

#[test]
fn python_container_plan_is_exact() {
    let runner = python_runner();
    let prepared = runner
        .prepare_run(&shinkai_tools_runner::json::JsonValue::Obj(Vec::new()))
        .unwrap();
    let storage = runner.storage(prepared);
    let plan = runner.plan(RunnerType::Docker, &storage, &Vec::new());
    assert_eq!(plan.program, "docker");
    let expected: Vec<String> = [
        "run",
        "--rm",
        "--mount",
        "type=bind,source=/srv/runs/ctx/exec/code1/code,target=/app/code",
        "--mount",
        "type=bind,source=/srv/runs/ctx/exec/code1/home,target=/app/home",
        "--mount",
        "type=bind,source=C:/data/notes.txt,target=C:/data/notes.txt",
        "--mount",
        "type=bind,readonly=true,source=/srv/assets/logo.png,target=/app/assets/logo.png",
        "-e",
        "SHINKAI_NODE_LOCATION=http://host.docker.internal:9550",
        "-e",
        "SHINKAI_HOME=/app/home",
        "-e",
        "SHINKAI_ASSETS=/app/assets/logo.png,",
        "-e",
        "SHINKAI_MOUNT=C:/data/notes.txt,",
        "-e",
        "SHINKAI_CONTEXT_ID=ctx",
        "-e",
        "SHINKAI_EXECUTION_ID=exec",
        "--workdir",
        "/app",
        "dcspark/shinkai-code-runner:0.9.3",
        "/bin/bash",
        "-c",
        "uv run --project code/pyproject.toml code/main.py",
    ]
    .iter()
    .map(|s| s.to_string())
    .collect();
    assert_eq!(plan.args, expected);
}

#[test]
fn probe_plan_and_status() {
    let plan = plan_docker_probe();
    assert_eq!(plan.program, "docker");
    assert_eq!(plan.args, vec!["info".to_string()]);
    assert!(matches!(probe_status(false, false), DockerStatus::NotInstalled));
    assert!(matches!(probe_status(true, false), DockerStatus::NotRunning));
    assert!(matches!(probe_status(true, true), DockerStatus::Running));
}

#[test]
fn selection_honors_override_force_and_probe() {
    let runner = deno_runner();
    // the host override beats a running engine
    assert!(matches!(runner.select(true, DockerStatus::Running), RunnerType::Host));
    // otherwise a running engine wins
    assert!(matches!(runner.select(false, DockerStatus::Running), RunnerType::Docker));
    assert!(matches!(runner.select(false, DockerStatus::NotRunning), RunnerType::Host));
    assert!(matches!(runner.select(false, DockerStatus::NotInstalled), RunnerType::Host));
    let mut options = DenoRunnerOptions::default();
    options.force_runner_type = Some(RunnerType::Docker);
    let forced = DenoRunner::new(options);
    assert!(matches!(forced.select(false, DockerStatus::NotRunning), RunnerType::Docker));
}

#[test]
fn nonzero_exit_carries_the_stderr_diagnostic() {
    let outcome = ProcessOutcome::Exited {
        exit_ok: false,
        stdout: vec!["partial".to_string()],
        stderr: vec!["PermissionDenied: write access".to_string(), "at main.ts".to_string()],
    };
    let e = classify_outcome(outcome).err().unwrap();
    assert!(matches!(e.kind, ErrorKind::ChildFailed));
    assert_eq!(
        e.stderr_tail.as_deref(),
        Some("PermissionDenied: write access\nat main.ts")
    );
}

#[test]
fn nonzero_exit_with_empty_stderr_falls_back_to_stdout() {
    let outcome = ProcessOutcome::Exited {
        exit_ok: false,
        stdout: vec!["the only clue".to_string()],
        stderr: Vec::new(),
    };
    let e = classify_outcome(outcome).err().unwrap();
    assert_eq!(e.stderr_tail.as_deref(), Some("the only clue"));
}

#[test]
fn zero_exit_returns_the_stdout_lines() {
    let outcome = ProcessOutcome::Exited {
        exit_ok: true,
        stdout: vec!["a".to_string(), "b".to_string()],
        stderr: vec!["ignored".to_string()],
    };
    let lines = classify_outcome(outcome).unwrap();
    assert_eq!(lines, vec!["a".to_string(), "b".to_string()]);
}

#[test]
fn timeout_is_its_own_kind() {
    let e = timeout_error(1);
    assert!(matches!(e.kind, ErrorKind::Timeout));
    assert_eq!(e.message, "process timed out after 1[s]");
    let e10 = classify_outcome(ProcessOutcome::TimedOut { secs: 10 }).err().unwrap();
    assert_eq!(e10.message, "process timed out after 10[s]");
    assert!(e10.stderr_tail.is_none());
}

#[test]
fn spawn_failure_is_its_own_kind() {
    let e = classify_outcome(ProcessOutcome::SpawnFailed {
        message: "No such file or directory".to_string(),
    })
    .err()
    .unwrap();
    assert!(matches!(e.kind, ErrorKind::Spawn));
    assert_eq!(e.message, "failed to spawn command: No such file or directory");
}

#[test]
fn check_pipeline_plans_are_exact() {
    let runner = python_runner();
    let prepared = runner
        .prepare_run(&shinkai_tools_runner::json::JsonValue::Obj(Vec::new()))
        .unwrap();
    let storage = runner.storage(prepared);
    let venv = shinkai_tools_runner::command_plan::plan_uv_venv(
        &"./shinkai-tools-runner-resources/uv".to_string(),
        &storage,
    );
    assert_eq!(
        venv.args,
        vec!["venv".to_string(), "/srv/runs/ctx/cache/python-check-venv".to_string()]
    );
    assert!(venv.env_clear);
    let ruff = shinkai_tools_runner::command_plan::plan_ruff_check(&storage);
    assert_eq!(ruff.program, "ruff");
    assert_eq!(ruff.cwd.as_deref(), Some("/srv/runs/ctx/exec/code1/code"));
    let pyright = shinkai_tools_runner::command_plan::plan_pyright(&storage);
    assert_eq!(pyright.args[4], "/srv/runs/ctx/exec/code1/code/main.py");
    assert_eq!(
        pyright.envs,
        vec![("VIRTUAL_ENV".to_string(), "/srv/runs/ctx/cache/python-check-venv".to_string())]
    );
}

#[test]
fn check_verdicts() {
    let clean = vec!["All checks passed!".to_string()];
    assert!(ruff_verdict(clean).is_none());
    let findings = vec!["main.py:1:1: E999".to_string(), "found 1 error".to_string()];
    assert_eq!(ruff_verdict(findings.clone()).unwrap(), findings);
    assert!(pyright_verdict(vec!["0 errors, 0 warnings".to_string()]).is_empty());
    let noisy = vec!["a".to_string(), "b".to_string()];
    assert_eq!(pyright_verdict(noisy.clone()), noisy);
    let msg = "/srv/runs/ctx/exec/code1/code/main.py:3: error".to_string();
    let folder = "/srv/runs/ctx/exec/code1/code".to_string();
    assert_eq!(normalize_error_message(&msg, &folder), "main.py:3: error");
}

#[test]
fn backend_plan_and_finish() {
    let backend = ShinkaiToolsBackend::new(ShinkaiToolsBackendOptions::default());
    let plan = backend.plan(&"/tmp/code.ts".to_string(), &Vec::new());
    assert_eq!(
        plan.args,
        vec![
            "run".to_string(),
            "--ext".to_string(),
            "ts".to_string(),
            "--allow-all".to_string(),
            "/tmp/code.ts".to_string()
        ]
    );
    let ok = backend
        .finish(ProcessOutcome::Exited {
            exit_ok: true,
            stdout: vec!["<shinkai-tool-result>".to_string(), "1".to_string()],
            stderr: Vec::new(),
        })
        .unwrap();
    assert_eq!(ok, "<shinkai-tool-result>\n1");
}

#[test]
fn legacy_storage_feeds_the_deno_plan() {
    let storage = DenoExecutionStorage::new("/srv/runs".to_string(), "run1");
    let runner = deno_runner();
    let plan = runner.plan(RunnerType::Host, &storage, &Vec::new());
    assert_eq!(plan.args[20], "/srv/runs/code/run1/index.ts");
}

#[test]
fn forcing_a_container_without_an_engine_is_refused() {
    let e = check_forced_backend(Some(RunnerType::Docker), DockerStatus::NotRunning)
        .err()
        .unwrap();
    assert!(matches!(e.kind, ErrorKind::ProbeUnavailable));
    assert!(check_forced_backend(Some(RunnerType::Docker), DockerStatus::Running).is_ok());
    assert!(check_forced_backend(Some(RunnerType::Host), DockerStatus::NotInstalled).is_ok());
    assert!(check_forced_backend(None, DockerStatus::NotInstalled).is_ok());
}
