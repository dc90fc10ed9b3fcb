//! Invocation plans: the exact program, argument list, environment and
//! working directory each backend runs with.
//!
//! A plan is plain data. The surrounding application spawns it and
//! supervises the child; everything about what is spawned is fixed here,
//! argument by argument.

use vstd::prelude::*;
use vstd::string::StringExecFns;
use crate::deno_execution_storage::DenoExecutionStorage;
use crate::execution_context::{ExecutionContext, ShinkaiNodeLocation};
use crate::execution_storage::{spec_code_folder, spec_home_folder, spec_python_check_venv_folder, spec_run_root, ExecutionStorage};
use crate::path_utils::{file_name, file_name_of, joined, normalize_for_docker_path, slashes_of};
use crate::text::{dec_digits, join_sep, join_trailing};

verus! {

/// One child invocation: program, arguments in order, environment entries
/// added over the parent environment (or over an empty one when
/// `env_clear` is set), and the working directory when one is imposed.
pub struct CommandPlan {
    pub program: String,
    pub args: Vec<String>,
    pub envs: Vec<(String, String)>,
    pub env_clear: bool,
    pub cwd: Option<String>,
}

/// The views of an argument list.
pub open spec fn arg_views(args: Seq<String>) -> Seq<Seq<char>> {
    Seq::new(args.len(), |i: int| args[i]@)
}

/// The views of an environment list.
pub open spec fn env_views(envs: Seq<(String, String)>) -> Seq<(Seq<char>, Seq<char>)> {
    Seq::new(envs.len(), |i: int| (envs[i].0@, envs[i].1@))
}

/// Environment entries rendered as container CLI flags: `-e` then
/// `KEY=VALUE`, one pair per entry, in order.
pub open spec fn env_flag_args(envs: Seq<(Seq<char>, Seq<char>)>) -> Seq<Seq<char>> {
    Seq::new(
        2 * envs.len(),
        |i: int|
            if i % 2 == 0 {
                "-e"@
            } else {
                envs[i / 2].0 + "="@ + envs[i / 2].1
            },
    )
}

/// The fixed permission allowlist of a host-mode TypeScript run, ending
/// with write access to the run's own `home` directory: environment,
/// subprocesses, network, system information, package scripts, FFI,
/// imports, reads of the working directory and the temporary directory,
/// and reads of the well-known browser binaries.
pub open spec fn deno_host_permission_args(home: Seq<char>) -> Seq<Seq<char>> {
    seq![
        "--allow-env"@,
        "--allow-run"@,
        "--allow-net"@,
        "--allow-sys"@,
        "--allow-scripts"@,
        "--allow-ffi"@,
        "--allow-import"@,
        "--allow-read=."@,
        "--allow-write=/var/folders"@,
        "--allow-read=/var/folders"@,
        "--allow-read=/Applications/Google Chrome.app/Contents/MacOS/Google Chrome"@,
        "--allow-read=/Applications/Google Chrome Canary.app/Contents/MacOS/Google Chrome Canary"@,
        "--allow-read=/Applications/Chromium.app/Contents/MacOS/Chromium"@,
        "--allow-read=C:\\Program Files (x86)\\Google\\Chrome\\Application\\chrome.exe"@,
        "--allow-read=C:\\Program Files (x86)\\Google\\Chrome SxS\\Application\\chrome.exe"@,
        "--allow-read=C:\\Program Files (x86)\\Chromium\\Application\\chrome.exe"@,
        "--allow-write="@ + home,
    ]
}

/// The argument list of a host-mode TypeScript run: `run --ext ts`, the
/// permission allowlist, then the entrypoint file.
pub open spec fn deno_host_args(home: Seq<char>, entrypoint: Seq<char>) -> Seq<Seq<char>> {
    seq!["run"@, "--ext"@, "ts"@] + deno_host_permission_args(home) + seq![entrypoint]
}

/// The argument list of a container-mode TypeScript run: the code and
/// home directories are bound under `/app`, every user mount at its own
/// path and every asset read-only under `/app/assets`, the cache and the
/// run's environment are handed in as flags, and inside the container the
/// interpreter runs the entrypoint by its relative path with
/// `--allow-all` — isolation comes from the container, not from
/// interpreter permissions.
pub open spec fn deno_container_args(
    ctx: ExecutionContext,
    location: ShinkaiNodeLocation,
    image: Seq<char>,
    root: Seq<char>,
    id: Seq<char>,
    envs: Seq<(Seq<char>, Seq<char>)>,
) -> Seq<Seq<char>> {
    seq![
        "run"@,
        "--rm"@,
        "--mount"@,
        bind_flag(
            slashes_of(crate::deno_execution_storage::spec_code_dir(root, id)),
            "/app/"@ + joined("code"@, id),
        ),
        "--mount"@,
        bind_flag(slashes_of(joined(root, "home"@)), "/app/home"@),
    ] + mount_file_args(arg_views(ctx.mount_files@)) + asset_mount_args(
        arg_views(ctx.assets_files@),
    ) + env_flag_args(
        seq![("DENO_DIR"@, "deno-cache"@)] + container_env_pairs(ctx, location) + envs,
    ) + seq![
        "--workdir"@,
        "/app"@,
        image,
        "run"@,
        "--ext"@,
        "ts"@,
        "--allow-all"@,
        joined(joined("code"@, id), "index.ts"@),
    ]
}

/// Append `s` to `args`, keeping the elementwise correspondence with
/// `target`.
fn push_arg(args: &mut Vec<String>, s: String, Ghost(target): Ghost<Seq<Seq<char>>>)
    requires
        old(args)@.len() < target.len(),
        target[old(args)@.len() as int] == s@,
        forall|i: int| 0 <= i < old(args)@.len() ==> (#[trigger] old(args)@[i])@ == target[i],
    ensures
        final(args)@.len() == old(args)@.len() + 1,
        forall|i: int| 0 <= i < final(args)@.len() ==> (#[trigger] final(args)@[i])@ == target[i],
{
    args.push(s);
}

/// Append the container `-e` flags for `envs` to `args`.
fn push_env_flags(
    args: &mut Vec<String>,
    envs: &Vec<(String, String)>,
    Ghost(target): Ghost<Seq<Seq<char>>>,
    Ghost(base): Ghost<int>,
)
    requires
        old(args)@.len() == base,
        base + 2 * envs@.len() <= target.len(),
        forall|i: int| 0 <= i < base ==> (#[trigger] old(args)@[i])@ == target[i],
        forall|j: int|
            0 <= j < 2 * envs@.len() ==> target[base + j] == env_flag_args(env_views(envs@))[j],
    ensures
        final(args)@.len() == base + 2 * envs@.len(),
        forall|i: int| 0 <= i < final(args)@.len() ==> (#[trigger] final(args)@[i])@ == target[i],
{
    let mut k: usize = 0;
    while k < envs.len()
        invariant
            args@.len() == base + 2 * k,
            k <= envs@.len(),
            base + 2 * envs@.len() <= target.len(),
            forall|i: int| 0 <= i < args@.len() ==> (#[trigger] args@[i])@ == target[i],
            forall|j: int|
                0 <= j < 2 * envs@.len() ==> target[base + j] == env_flag_args(
                    env_views(envs@),
                )[j],
        decreases envs@.len() - k,
    {
        proof {
            assert(env_flag_args(env_views(envs@))[2 * k] == "-e"@);
            assert(env_flag_args(env_views(envs@))[2 * k + 1] == envs@[k as int].0@ + "="@
                + envs@[k as int].1@);
        }
        push_arg(args, String::from_str("-e"), Ghost(target));
        let mut kv: Vec<char> = Vec::new();
        crate::text::push_str_chars(&mut kv, envs[k].0.as_str());
        crate::text::push_str_chars(&mut kv, "=");
        crate::text::push_str_chars(&mut kv, envs[k].1.as_str());
        push_arg(args, crate::text::string_from_chars(&kv), Ghost(target));
        k = k + 1;
    }
}

/// The host-mode invocation of the TypeScript backend: the interpreter
/// binary runs the materialized entrypoint under the fixed permission
/// allowlist, with the cache, the service endpoint, the run's identity
/// and the caller's environment in the child's environment, and the
/// storage root as working directory.
pub fn plan_deno_host(
    deno_binary_path: &String,
    storage: &DenoExecutionStorage,
    ctx: &ExecutionContext,
    location: &ShinkaiNodeLocation,
    envs: &Vec<(String, String)>,
) -> (r: CommandPlan)
    ensures
        r.program@ == deno_binary_path@,
        arg_views(r.args@) == deno_host_args(storage.home@, storage.code_entrypoint@),
        env_views(r.envs@) == seq![("DENO_DIR"@, storage.deno_cache@)] + host_env_pairs(
            storage.home@,
            *ctx,
            *location,
        ) + env_views(envs@),
        r.env_clear == false,
        r.cwd matches Option::Some(c) && c@ == storage.root@,
{
    let ghost target = deno_host_args(storage.home@, storage.code_entrypoint@);
    let mut args: Vec<String> = Vec::new();
    push_arg(&mut args, String::from_str("run"), Ghost(target));
    push_arg(&mut args, String::from_str("--ext"), Ghost(target));
    push_arg(&mut args, String::from_str("ts"), Ghost(target));
    push_arg(&mut args, String::from_str("--allow-env"), Ghost(target));
    push_arg(&mut args, String::from_str("--allow-run"), Ghost(target));
    push_arg(&mut args, String::from_str("--allow-net"), Ghost(target));
    push_arg(&mut args, String::from_str("--allow-sys"), Ghost(target));
    push_arg(&mut args, String::from_str("--allow-scripts"), Ghost(target));
    push_arg(&mut args, String::from_str("--allow-ffi"), Ghost(target));
    push_arg(&mut args, String::from_str("--allow-import"), Ghost(target));
    push_arg(&mut args, String::from_str("--allow-read=."), Ghost(target));
    push_arg(&mut args, String::from_str("--allow-write=/var/folders"), Ghost(target));
    push_arg(&mut args, String::from_str("--allow-read=/var/folders"), Ghost(target));
    push_arg(
        &mut args,
        String::from_str("--allow-read=/Applications/Google Chrome.app/Contents/MacOS/Google Chrome"),
        Ghost(target),
    );
    push_arg(
        &mut args,
        String::from_str(
            "--allow-read=/Applications/Google Chrome Canary.app/Contents/MacOS/Google Chrome Canary",
        ),
        Ghost(target),
    );
    push_arg(
        &mut args,
        String::from_str("--allow-read=/Applications/Chromium.app/Contents/MacOS/Chromium"),
        Ghost(target),
    );
    push_arg(
        &mut args,
        String::from_str("--allow-read=C:\\Program Files (x86)\\Google\\Chrome\\Application\\chrome.exe"),
        Ghost(target),
    );
    push_arg(
        &mut args,
        String::from_str(
            "--allow-read=C:\\Program Files (x86)\\Google\\Chrome SxS\\Application\\chrome.exe",
        ),
        Ghost(target),
    );
    push_arg(
        &mut args,
        String::from_str("--allow-read=C:\\Program Files (x86)\\Chromium\\Application\\chrome.exe"),
        Ghost(target),
    );
    let mut aw: Vec<char> = Vec::new();
    crate::text::push_str_chars(&mut aw, "--allow-write=");
    crate::text::push_str_chars(&mut aw, storage.home.as_str());
    push_arg(&mut args, crate::text::string_from_chars(&aw), Ghost(target));
    push_arg(&mut args, storage.code_entrypoint.clone(), Ghost(target));
    proof {
        assert(arg_views(args@) =~= target);
    }
    let ghost etarget = seq![("DENO_DIR"@, storage.deno_cache@)] + host_env_pairs(
        storage.home@,
        *ctx,
        *location,
    ) + env_views(envs@);
    let mut fixed: Vec<(String, String)> = Vec::new();
    push_env(&mut fixed, String::from_str("DENO_DIR"), storage.deno_cache.clone(), Ghost(etarget));
    let mut url: Vec<char> = Vec::new();
    crate::text::push_str_chars(&mut url, location.protocol.as_str());
    crate::text::push_str_chars(&mut url, "://");
    crate::text::push_str_chars(&mut url, location.host.as_str());
    crate::text::push_str_chars(&mut url, ":");
    crate::text::push_dec(&mut url, location.port as u64);
    push_env(
        &mut fixed,
        String::from_str("SHINKAI_NODE_LOCATION"),
        crate::text::string_from_chars(&url),
        Ghost(etarget),
    );
    push_env(&mut fixed, String::from_str("SHINKAI_HOME"), storage.home.clone(), Ghost(etarget));
    let assets_joined = crate::text::join_strings(&ctx.assets_files, ',');
    proof {
        assert(ctx.assets_files.deep_view() =~= arg_views(ctx.assets_files@));
    }
    push_env(&mut fixed, String::from_str("SHINKAI_ASSETS"), assets_joined, Ghost(etarget));
    let mounts_joined = crate::text::join_strings(&ctx.mount_files, ',');
    proof {
        assert(ctx.mount_files.deep_view() =~= arg_views(ctx.mount_files@));
    }
    push_env(&mut fixed, String::from_str("SHINKAI_MOUNT"), mounts_joined, Ghost(etarget));
    push_env(
        &mut fixed,
        String::from_str("SHINKAI_CONTEXT_ID"),
        ctx.context_id.clone(),
        Ghost(etarget),
    );
    push_env(
        &mut fixed,
        String::from_str("SHINKAI_EXECUTION_ID"),
        ctx.execution_id.clone(),
        Ghost(etarget),
    );
    let env_list = with_env_overlay(fixed, envs, Ghost(etarget));
    CommandPlan {
        program: deno_binary_path.clone(),
        args,
        envs: env_list,
        env_clear: false,
        cwd: Option::Some(storage.root.clone()),
    }
}

/// The container-mode invocation of the TypeScript backend.
pub fn plan_deno_container(
    image_name: &String,
    storage: &DenoExecutionStorage,
    ctx: &ExecutionContext,
    location: &ShinkaiNodeLocation,
    envs: &Vec<(String, String)>,
) -> (r: CommandPlan)
    requires
        crate::deno_execution_storage::deno_storage_wf(*storage),
    ensures
        r.program@ == "docker"@,
        arg_views(r.args@) == deno_container_args(
            *ctx,
            *location,
            image_name@,
            storage.root@,
            storage.id@,
            env_views(envs@),
        ),
        r.envs@.len() == 0,
        r.env_clear == false,
        r.cwd is None,
{
    let ghost target = deno_container_args(
        *ctx,
        *location,
        image_name@,
        storage.root@,
        storage.id@,
        env_views(envs@),
    );
    let mut args: Vec<String> = Vec::new();
    push_arg(&mut args, String::from_str("run"), Ghost(target));
    push_arg(&mut args, String::from_str("--rm"), Ghost(target));
    let code_src = normalize_for_docker_path(&storage.code);
    let home_src = normalize_for_docker_path(&storage.home);
    let mut ct: Vec<char> = Vec::new();
    crate::text::push_str_chars(&mut ct, "/app/");
    crate::text::push_str_chars(&mut ct, "code");
    ct.push('/');
    crate::text::push_str_chars(&mut ct, storage.id.as_str());
    let code_target = crate::text::string_from_chars(&ct);
    proof {
        reveal_strlit("code");
        assert(code_target@ =~= "/app/"@ + joined("code"@, storage.id@));
    }
    push_arg(&mut args, String::from_str("--mount"), Ghost(target));
    push_arg(&mut args, bind_flag_str(&code_src, code_target.as_str()), Ghost(target));
    push_arg(&mut args, String::from_str("--mount"), Ghost(target));
    push_arg(&mut args, bind_flag_str(&home_src, "/app/home"), Ghost(target));
    // writable mounts, each at its own normalized path
    let ghost mbase = args@.len() as int;
    let ghost mfa = mount_file_args(arg_views(ctx.mount_files@));
    let mut k: usize = 0;
    while k < ctx.mount_files.len()
        invariant
            target == deno_container_args(
                *ctx,
                *location,
                image_name@,
                storage.root@,
                storage.id@,
                env_views(envs@),
            ),
            mbase == 6,
            mfa == mount_file_args(arg_views(ctx.mount_files@)),
            k <= ctx.mount_files@.len(),
            args@.len() == mbase + 2 * k,
            forall|i: int| 0 <= i < args@.len() ==> (#[trigger] args@[i])@ == target[i],
        decreases ctx.mount_files@.len() - k,
    {
        let src = normalize_for_docker_path(&ctx.mount_files[k]);
        proof {
            assert(mfa[2 * k] == "--mount"@);
            assert(mfa[2 * k + 1] == bind_flag(
                slashes_of(arg_views(ctx.mount_files@)[k as int]),
                slashes_of(arg_views(ctx.mount_files@)[k as int]),
            ));
            assert(target[mbase + 2 * k] == mfa[2 * k]);
            assert(target[mbase + 2 * k + 1] == mfa[2 * k + 1]);
        }
        push_arg(&mut args, String::from_str("--mount"), Ghost(target));
        let flag = bind_flag_str(&src, src.as_str());
        push_arg(&mut args, flag, Ghost(target));
        k = k + 1;
    }
    // assets, read-only under /app/assets
    let ghost abase = args@.len() as int;
    let ghost ama = asset_mount_args(arg_views(ctx.assets_files@));
    let mut a: usize = 0;
    while a < ctx.assets_files.len()
        invariant
            target == deno_container_args(
                *ctx,
                *location,
                image_name@,
                storage.root@,
                storage.id@,
                env_views(envs@),
            ),
            abase == 6 + 2 * ctx.mount_files@.len(),
            ama == asset_mount_args(arg_views(ctx.assets_files@)),
            a <= ctx.assets_files@.len(),
            args@.len() == abase + 2 * a,
            forall|i: int| 0 <= i < args@.len() ==> (#[trigger] args@[i])@ == target[i],
        decreases ctx.assets_files@.len() - a,
    {
        let src = normalize_for_docker_path(&ctx.assets_files[a]);
        let fname = file_name(&ctx.assets_files[a]);
        let mut tg: Vec<char> = Vec::new();
        crate::text::push_str_chars(&mut tg, "/app/assets/");
        crate::text::push_str_chars(&mut tg, fname.as_str());
        let tg_str = crate::text::string_from_chars(&tg);
        proof {
            assert(ama[2 * a] == "--mount"@);
            assert(ama[2 * a + 1] == ro_bind_flag(
                slashes_of(arg_views(ctx.assets_files@)[a as int]),
                asset_target(arg_views(ctx.assets_files@)[a as int]),
            ));
            assert(target[abase + 2 * a] == ama[2 * a]);
            assert(target[abase + 2 * a + 1] == ama[2 * a + 1]);
        }
        push_arg(&mut args, String::from_str("--mount"), Ghost(target));
        let flag = ro_bind_flag_str(&src, tg_str.as_str());
        push_arg(&mut args, flag, Ghost(target));
        a = a + 1;
    }
    // environment, as -e flags
    let ghost etarget = seq![("DENO_DIR"@, "deno-cache"@)] + container_env_pairs(*ctx, *location)
        + env_views(envs@);
    let mut fixed: Vec<(String, String)> = Vec::new();
    push_env(
        &mut fixed,
        String::from_str("DENO_DIR"),
        String::from_str("deno-cache"),
        Ghost(etarget),
    );
    let mut url: Vec<char> = Vec::new();
    crate::text::push_str_chars(&mut url, location.protocol.as_str());
    crate::text::push_str_chars(&mut url, "://host.docker.internal:");
    crate::text::push_dec(&mut url, location.port as u64);
    push_env(
        &mut fixed,
        String::from_str("SHINKAI_NODE_LOCATION"),
        crate::text::string_from_chars(&url),
        Ghost(etarget),
    );
    push_env(
        &mut fixed,
        String::from_str("SHINKAI_HOME"),
        String::from_str("/app/home"),
        Ghost(etarget),
    );
    let mut asset_targets: Vec<String> = Vec::new();
    let mut t: usize = 0;
    while t < ctx.assets_files.len()
        invariant
            t <= ctx.assets_files@.len(),
            asset_targets@.len() == t,
            forall|i: int|
                0 <= i < t ==> (#[trigger] asset_targets@[i])@ == asset_target(
                    ctx.assets_files@[i]@,
                ),
        decreases ctx.assets_files@.len() - t,
    {
        let fname = file_name(&ctx.assets_files[t]);
        let mut tg: Vec<char> = Vec::new();
        crate::text::push_str_chars(&mut tg, "/app/assets/");
        crate::text::push_str_chars(&mut tg, fname.as_str());
        asset_targets.push(crate::text::string_from_chars(&tg));
        t = t + 1;
    }
    let assets_env = crate::text::join_with_trailing(&asset_targets, ',');
    proof {
        assert(asset_targets.deep_view() =~= asset_targets_of(arg_views(ctx.assets_files@)));
    }
    push_env(
        &mut fixed,
        String::from_str("SHINKAI_ASSETS"),
        crate::text::string_from_chars(&assets_env),
        Ghost(etarget),
    );
    let mut mount_sources: Vec<String> = Vec::new();
    let mut m: usize = 0;
    while m < ctx.mount_files.len()
        invariant
            m <= ctx.mount_files@.len(),
            mount_sources@.len() == m,
            forall|i: int|
                0 <= i < m ==> (#[trigger] mount_sources@[i])@ == slashes_of(
                    ctx.mount_files@[i]@,
                ),
        decreases ctx.mount_files@.len() - m,
    {
        mount_sources.push(normalize_for_docker_path(&ctx.mount_files[m]));
        m = m + 1;
    }
    let mounts_env = crate::text::join_with_trailing(&mount_sources, ',');
    proof {
        assert(mount_sources.deep_view() =~= mount_sources_of(arg_views(ctx.mount_files@)));
    }
    push_env(
        &mut fixed,
        String::from_str("SHINKAI_MOUNT"),
        crate::text::string_from_chars(&mounts_env),
        Ghost(etarget),
    );
    push_env(
        &mut fixed,
        String::from_str("SHINKAI_CONTEXT_ID"),
        ctx.context_id.clone(),
        Ghost(etarget),
    );
    push_env(
        &mut fixed,
        String::from_str("SHINKAI_EXECUTION_ID"),
        ctx.execution_id.clone(),
        Ghost(etarget),
    );
    let env_list = with_env_overlay(fixed, envs, Ghost(etarget));
    let ghost ebase = args@.len() as int;
    proof {
        let flags = env_flag_args(etarget);
        assert(ebase == 6 + 2 * ctx.mount_files@.len() + 2 * ctx.assets_files@.len());
        assert forall|j: int| 0 <= j < 2 * env_list@.len() implies target[ebase + j]
            == env_flag_args(env_views(env_list@))[j] by {
            assert(env_views(env_list@) == etarget);
            assert(target[ebase + j] == flags[j]);
        }
    }
    push_env_flags(&mut args, &env_list, Ghost(target), Ghost(ebase));
    // workdir, image, and the in-container run
    push_arg(&mut args, String::from_str("--workdir"), Ghost(target));
    push_arg(&mut args, String::from_str("/app"), Ghost(target));
    push_arg(&mut args, image_name.clone(), Ghost(target));
    push_arg(&mut args, String::from_str("run"), Ghost(target));
    push_arg(&mut args, String::from_str("--ext"), Ghost(target));
    push_arg(&mut args, String::from_str("ts"), Ghost(target));
    push_arg(&mut args, String::from_str("--allow-all"), Ghost(target));
    let rel_entrypoint = storage.get_relative_code_entrypoint();
    push_arg(&mut args, rel_entrypoint, Ghost(target));
    proof {
        assert(arg_views(args@) =~= target);
    }
    CommandPlan {
        program: String::from_str("docker"),
        args,
        envs: Vec::new(),
        env_clear: false,
        cwd: Option::None,
    }
}

/// The probe invocation: the container CLI's `info` subcommand, whose
/// exit status alone is read.
pub fn plan_docker_probe() -> (r: CommandPlan)
    ensures
        r.program@ == "docker"@,
        arg_views(r.args@) == seq!["info"@],
        r.envs@.len() == 0,
        r.env_clear == false,
        r.cwd is None,
{
    let ghost target: Seq<Seq<char>> = seq!["info"@];
    let mut args: Vec<String> = Vec::new();
    push_arg(&mut args, String::from_str("info"), Ghost(target));
    proof {
        assert(arg_views(args@) =~= target);
    }
    CommandPlan {
        program: String::from_str("docker"),
        args,
        envs: Vec::new(),
        env_clear: false,
        cwd: Option::None,
    }
}

/// The URL of the external service endpoint, as the child sees it.
pub open spec fn node_location_url(protocol: Seq<char>, host: Seq<char>, port: int) -> Seq<char> {
    protocol + "://"@ + host + ":"@ + dec_digits(port)
}

/// A read-write bind mount flag.
pub open spec fn bind_flag(source: Seq<char>, target: Seq<char>) -> Seq<char> {
    "type=bind,source="@ + source + ",target="@ + target
}

/// A read-only bind mount flag.
pub open spec fn ro_bind_flag(source: Seq<char>, target: Seq<char>) -> Seq<char> {
    "type=bind,readonly=true,source="@ + source + ",target="@ + target
}

/// Each caller-declared writable file is bound at its own (normalized)
/// path, so code runs the same on the host and in the container.
pub open spec fn mount_file_args(files: Seq<Seq<char>>) -> Seq<Seq<char>> {
    Seq::new(
        2 * files.len(),
        |i: int|
            if i % 2 == 0 {
                "--mount"@
            } else {
                bind_flag(slashes_of(files[i / 2]), slashes_of(files[i / 2]))
            },
    )
}

/// Where an asset file lands inside the container.
pub open spec fn asset_target(f: Seq<char>) -> Seq<char> {
    "/app/assets/"@ + file_name_of(f)
}

/// Each asset file is bound read-only under `/app/assets`.
pub open spec fn asset_mount_args(files: Seq<Seq<char>>) -> Seq<Seq<char>> {
    Seq::new(
        2 * files.len(),
        |i: int|
            if i % 2 == 0 {
                "--mount"@
            } else {
                ro_bind_flag(slashes_of(files[i / 2]), asset_target(files[i / 2]))
            },
    )
}

/// The container-side paths of the assets, in order.
pub open spec fn asset_targets_of(files: Seq<Seq<char>>) -> Seq<Seq<char>> {
    Seq::new(files.len(), |i: int| asset_target(files[i]))
}

/// The normalized host paths of the writable mounts, in order.
pub open spec fn mount_sources_of(files: Seq<Seq<char>>) -> Seq<Seq<char>> {
    Seq::new(files.len(), |i: int| slashes_of(files[i]))
}

/// The environment a host-mode run hands the child, before the caller's
/// overlay: the service endpoint, the given home directory, the asset and
/// mount lists, and the run's identifiers.
pub open spec fn host_env_pairs(
    home: Seq<char>,
    ctx: ExecutionContext,
    location: ShinkaiNodeLocation,
) -> Seq<(Seq<char>, Seq<char>)> {
    seq![
        (
            "SHINKAI_NODE_LOCATION"@,
            node_location_url(location.protocol@, location.host@, location.port as int),
        ),
        ("SHINKAI_HOME"@, home),
        ("SHINKAI_ASSETS"@, join_sep(arg_views(ctx.assets_files@), ',')),
        ("SHINKAI_MOUNT"@, join_sep(arg_views(ctx.mount_files@), ',')),
        ("SHINKAI_CONTEXT_ID"@, ctx.context_id@),
        ("SHINKAI_EXECUTION_ID"@, ctx.execution_id@),
    ]
}

/// The host-mode environment of a Python run.
pub open spec fn python_host_env_pairs(ctx: ExecutionContext, location: ShinkaiNodeLocation) -> Seq<
    (Seq<char>, Seq<char>),
> {
    host_env_pairs(spec_home_folder(ctx), ctx, location)
}

/// The environment a container-mode run hands the child: the
/// service endpoint is reached through the container gateway alias, home
/// and assets are the container-side paths, and the mount and asset lists
/// carry one trailing comma each, as the flags are assembled pairwise.
pub open spec fn container_env_pairs(
    ctx: ExecutionContext,
    location: ShinkaiNodeLocation,
) -> Seq<(Seq<char>, Seq<char>)> {
    seq![
        (
            "SHINKAI_NODE_LOCATION"@,
            location.protocol@ + "://host.docker.internal:"@ + dec_digits(location.port as int),
        ),
        ("SHINKAI_HOME"@, "/app/home"@),
        ("SHINKAI_ASSETS"@, join_trailing(asset_targets_of(arg_views(ctx.assets_files@)), ',')),
        ("SHINKAI_MOUNT"@, join_trailing(mount_sources_of(arg_views(ctx.mount_files@)), ',')),
        ("SHINKAI_CONTEXT_ID"@, ctx.context_id@),
        ("SHINKAI_EXECUTION_ID"@, ctx.execution_id@),
    ]
}

/// The argument list of a host-mode Python run: the package manager runs
/// the materialized entrypoint against the synthesized project manifest.
pub open spec fn python_host_args(ctx: ExecutionContext, entrypoint: Seq<char>) -> Seq<Seq<char>> {
    seq![
        "run"@,
        "--project"@,
        joined(spec_code_folder(ctx), "pyproject.toml"@),
        joined(spec_code_folder(ctx), entrypoint),
    ]
}

/// The in-container command line of a container-mode Python run.
pub open spec fn python_container_script(entrypoint: Seq<char>) -> Seq<char> {
    "uv run --project code/pyproject.toml "@ + joined("code"@, entrypoint)
}

/// The argument list of a container-mode Python run: bind the run's
/// `code` and `home` at `/app`, bind every writable mount at its own
/// path and every asset read-only under `/app/assets`, hand in the
/// environment as flags, and run the package manager through the image's
/// shell on the relative paths.
pub open spec fn python_container_args(
    ctx: ExecutionContext,
    location: ShinkaiNodeLocation,
    image: Seq<char>,
    entrypoint: Seq<char>,
    envs: Seq<(Seq<char>, Seq<char>)>,
) -> Seq<Seq<char>> {
    seq![
        "run"@,
        "--rm"@,
        "--mount"@,
        bind_flag(slashes_of(spec_code_folder(ctx)), "/app/code"@),
        "--mount"@,
        bind_flag(slashes_of(spec_home_folder(ctx)), "/app/home"@),
    ] + mount_file_args(arg_views(ctx.mount_files@)) + asset_mount_args(
        arg_views(ctx.assets_files@),
    ) + env_flag_args(container_env_pairs(ctx, location) + envs) + seq![
        "--workdir"@,
        "/app"@,
        image,
        "/bin/bash"@,
        "-c"@,
        python_container_script(entrypoint),
    ]
}

/// Append one environment entry, keeping the elementwise correspondence
/// with `target`.
fn push_env(
    envs: &mut Vec<(String, String)>,
    k: String,
    v: String,
    Ghost(target): Ghost<Seq<(Seq<char>, Seq<char>)>>,
)
    requires
        old(envs)@.len() < target.len(),
        target[old(envs)@.len() as int] == (k@, v@),
        forall|i: int|
            0 <= i < old(envs)@.len() ==> ((#[trigger] old(envs)@[i]).0@, old(envs)@[i].1@)
                == target[i],
    ensures
        final(envs)@.len() == old(envs)@.len() + 1,
        forall|i: int|
            0 <= i < final(envs)@.len() ==> ((#[trigger] final(envs)@[i]).0@, final(envs)@[i].1@)
                == target[i],
{
    envs.push((k, v));
}

/// The fixed environment entries of a run, then the caller's overlay.
fn with_env_overlay(
    fixed: Vec<(String, String)>,
    envs: &Vec<(String, String)>,
    Ghost(target): Ghost<Seq<(Seq<char>, Seq<char>)>>,
) -> (r: Vec<(String, String)>)
    requires
        target.len() == fixed@.len() + envs@.len(),
        forall|i: int|
            0 <= i < fixed@.len() ==> ((#[trigger] fixed@[i]).0@, fixed@[i].1@) == target[i],
        forall|i: int|
            0 <= i < envs@.len() ==> target[fixed@.len() + i] == ((#[trigger] envs@[i]).0@, envs@[i].1@),
    ensures
        env_views(r@) == target,
{
    let mut r = fixed;
    let ghost base = r@.len() as int;
    let mut k: usize = 0;
    while k < envs.len()
        invariant
            r@.len() == base + k,
            k <= envs@.len(),
            target.len() == base + envs@.len(),
            forall|i: int| 0 <= i < r@.len() ==> ((#[trigger] r@[i]).0@, r@[i].1@) == target[i],
            forall|i: int|
                0 <= i < envs@.len() ==> target[base + i] == ((#[trigger] envs@[i]).0@, envs@[i].1@),
        decreases envs@.len() - k,
    {
        push_env(&mut r, envs[k].0.clone(), envs[k].1.clone(), Ghost(target));
        k = k + 1;
    }
    proof {
        assert(env_views(r@) =~= target);
    }
    r
}

/// A string assembled from string slices and strings, in order.
fn concat3(a: &str, b: &str, c: &str) -> (r: String)
    ensures
        r@ == a@ + b@ + c@,
{
    let mut out: Vec<char> = Vec::new();
    crate::text::push_str_chars(&mut out, a);
    crate::text::push_str_chars(&mut out, b);
    crate::text::push_str_chars(&mut out, c);
    crate::text::string_from_chars(&out)
}

/// The host-mode invocation of the Python backend.
pub fn plan_python_host(
    uv_binary_path: &String,
    storage: &ExecutionStorage,
    location: &ShinkaiNodeLocation,
    envs: &Vec<(String, String)>,
) -> (r: CommandPlan)
    ensures
        r.program@ == uv_binary_path@,
        arg_views(r.args@) == python_host_args(storage.context, storage.code.entrypoint@),
        env_views(r.envs@) == python_host_env_pairs(storage.context, *location) + env_views(
            envs@,
        ),
        r.env_clear == false,
        r.cwd matches Option::Some(c) && c@ == spec_run_root(storage.context),
{
    let ghost target = python_host_args(storage.context, storage.code.entrypoint@);
    let code_folder = storage.code_folder_path();
    let mut args: Vec<String> = Vec::new();
    push_arg(&mut args, String::from_str("run"), Ghost(target));
    push_arg(&mut args, String::from_str("--project"), Ghost(target));
    push_arg(&mut args, crate::path_utils::path_join(&code_folder, "pyproject.toml"), Ghost(target));
    push_arg(
        &mut args,
        crate::path_utils::path_join(&code_folder, storage.code.entrypoint.as_str()),
        Ghost(target),
    );
    proof {
        assert(arg_views(args@) =~= target);
    }
    let ghost etarget = python_host_env_pairs(storage.context, *location) + env_views(envs@);
    let mut url: Vec<char> = Vec::new();
    crate::text::push_str_chars(&mut url, location.protocol.as_str());
    crate::text::push_str_chars(&mut url, "://");
    crate::text::push_str_chars(&mut url, location.host.as_str());
    crate::text::push_str_chars(&mut url, ":");
    crate::text::push_dec(&mut url, location.port as u64);
    let mut fixed: Vec<(String, String)> = Vec::new();
    push_env(
        &mut fixed,
        String::from_str("SHINKAI_NODE_LOCATION"),
        crate::text::string_from_chars(&url),
        Ghost(etarget),
    );
    push_env(&mut fixed, String::from_str("SHINKAI_HOME"), storage.home_folder_path(), Ghost(etarget));
    let assets_joined = crate::text::join_strings(&storage.context.assets_files, ',');
    proof {
        assert(storage.context.assets_files.deep_view() =~= arg_views(
            storage.context.assets_files@,
        ));
    }
    push_env(&mut fixed, String::from_str("SHINKAI_ASSETS"), assets_joined, Ghost(etarget));
    let mounts_joined = crate::text::join_strings(&storage.context.mount_files, ',');
    proof {
        assert(storage.context.mount_files.deep_view() =~= arg_views(
            storage.context.mount_files@,
        ));
    }
    push_env(&mut fixed, String::from_str("SHINKAI_MOUNT"), mounts_joined, Ghost(etarget));
    push_env(
        &mut fixed,
        String::from_str("SHINKAI_CONTEXT_ID"),
        storage.context.context_id.clone(),
        Ghost(etarget),
    );
    push_env(
        &mut fixed,
        String::from_str("SHINKAI_EXECUTION_ID"),
        storage.context.execution_id.clone(),
        Ghost(etarget),
    );
    let env_list = with_env_overlay(fixed, envs, Ghost(etarget));
    CommandPlan {
        program: uv_binary_path.clone(),
        args,
        envs: env_list,
        env_clear: false,
        cwd: Option::Some(storage.root_folder_path()),
    }
}

/// A read-write bind mount flag, as text.
fn bind_flag_str(source: &String, target: &str) -> (r: String)
    ensures
        r@ == bind_flag(source@, target@),
{
    let mut out: Vec<char> = Vec::new();
    crate::text::push_str_chars(&mut out, "type=bind,source=");
    crate::text::push_str_chars(&mut out, source.as_str());
    crate::text::push_str_chars(&mut out, ",target=");
    crate::text::push_str_chars(&mut out, target);
    crate::text::string_from_chars(&out)
}

/// A read-only bind mount flag, as text.
fn ro_bind_flag_str(source: &String, target: &str) -> (r: String)
    ensures
        r@ == ro_bind_flag(source@, target@),
{
    let mut out: Vec<char> = Vec::new();
    crate::text::push_str_chars(&mut out, "type=bind,readonly=true,source=");
    crate::text::push_str_chars(&mut out, source.as_str());
    crate::text::push_str_chars(&mut out, ",target=");
    crate::text::push_str_chars(&mut out, target);
    crate::text::string_from_chars(&out)
}

/// The container-mode invocation of the Python backend.
pub fn plan_python_container(
    image_name: &String,
    storage: &ExecutionStorage,
    location: &ShinkaiNodeLocation,
    envs: &Vec<(String, String)>,
) -> (r: CommandPlan)
    ensures
        r.program@ == "docker"@,
        arg_views(r.args@) == python_container_args(
            storage.context,
            *location,
            image_name@,
            storage.code.entrypoint@,
            env_views(envs@),
        ),
        r.envs@.len() == 0,
        r.env_clear == false,
        r.cwd is None,
{
    let ghost ctx = storage.context;
    let ghost target = python_container_args(
        ctx,
        *location,
        image_name@,
        storage.code.entrypoint@,
        env_views(envs@),
    );
    let mut args: Vec<String> = Vec::new();
    push_arg(&mut args, String::from_str("run"), Ghost(target));
    push_arg(&mut args, String::from_str("--rm"), Ghost(target));
    let code_src = normalize_for_docker_path(&storage.code_folder_path());
    let home_src = normalize_for_docker_path(&storage.home_folder_path());
    push_arg(&mut args, String::from_str("--mount"), Ghost(target));
    push_arg(&mut args, bind_flag_str(&code_src, "/app/code"), Ghost(target));
    push_arg(&mut args, String::from_str("--mount"), Ghost(target));
    push_arg(&mut args, bind_flag_str(&home_src, "/app/home"), Ghost(target));
    // writable mounts, each at its own normalized path
    let ghost mbase = args@.len() as int;
    let ghost mfa = mount_file_args(arg_views(ctx.mount_files@));
    let mut mount_sources: Vec<String> = Vec::new();
    let mut k: usize = 0;
    while k < storage.context.mount_files.len()
        invariant
            ctx == storage.context,
            target == python_container_args(
                ctx,
                *location,
                image_name@,
                storage.code.entrypoint@,
                env_views(envs@),
            ),
            mbase == 6,
            mfa == mount_file_args(arg_views(ctx.mount_files@)),
            k <= ctx.mount_files@.len(),
            args@.len() == mbase + 2 * k,
            forall|i: int| 0 <= i < args@.len() ==> (#[trigger] args@[i])@ == target[i],
            mount_sources@.len() == k,
            forall|i: int|
                0 <= i < k ==> (#[trigger] mount_sources@[i])@ == slashes_of(
                    ctx.mount_files@[i]@,
                ),
        decreases ctx.mount_files@.len() - k,
    {
        let src = normalize_for_docker_path(&storage.context.mount_files[k]);
        proof {
            assert(mfa[2 * k] == "--mount"@);
            assert(mfa[2 * k + 1] == bind_flag(
                slashes_of(arg_views(ctx.mount_files@)[k as int]),
                slashes_of(arg_views(ctx.mount_files@)[k as int]),
            ));
            assert(target[mbase + 2 * k] == mfa[2 * k]);
            assert(target[mbase + 2 * k + 1] == mfa[2 * k + 1]);
        }
        push_arg(&mut args, String::from_str("--mount"), Ghost(target));
        let flag = bind_flag_str(&src, src.as_str());
        push_arg(&mut args, flag, Ghost(target));
        mount_sources.push(src);
        k = k + 1;
    }
    // assets, read-only under /app/assets
    let ghost abase = args@.len() as int;
    let ghost ama = asset_mount_args(arg_views(ctx.assets_files@));
    let mut asset_targets: Vec<String> = Vec::new();
    let mut a: usize = 0;
    while a < storage.context.assets_files.len()
        invariant
            ctx == storage.context,
            target == python_container_args(
                ctx,
                *location,
                image_name@,
                storage.code.entrypoint@,
                env_views(envs@),
            ),
            abase == 6 + 2 * ctx.mount_files@.len(),
            ama == asset_mount_args(arg_views(ctx.assets_files@)),
            a <= ctx.assets_files@.len(),
            args@.len() == abase + 2 * a,
            forall|i: int| 0 <= i < args@.len() ==> (#[trigger] args@[i])@ == target[i],
            asset_targets@.len() == a,
            forall|i: int|
                0 <= i < a ==> (#[trigger] asset_targets@[i])@ == asset_target(
                    ctx.assets_files@[i]@,
                ),
            mount_sources@.len() == ctx.mount_files@.len(),
            forall|i: int|
                0 <= i < mount_sources@.len() ==> (#[trigger] mount_sources@[i])@ == slashes_of(
                    ctx.mount_files@[i]@,
                ),
        decreases ctx.assets_files@.len() - a,
    {
        let src = normalize_for_docker_path(&storage.context.assets_files[a]);
        let fname = file_name(&storage.context.assets_files[a]);
        let mut tg: Vec<char> = Vec::new();
        crate::text::push_str_chars(&mut tg, "/app/assets/");
        crate::text::push_str_chars(&mut tg, fname.as_str());
        let tg_str = crate::text::string_from_chars(&tg);
        proof {
            assert(ama[2 * a] == "--mount"@);
            assert(ama[2 * a + 1] == ro_bind_flag(
                slashes_of(arg_views(ctx.assets_files@)[a as int]),
                asset_target(arg_views(ctx.assets_files@)[a as int]),
            ));
            assert(target[abase + 2 * a] == ama[2 * a]);
            assert(target[abase + 2 * a + 1] == ama[2 * a + 1]);
        }
        push_arg(&mut args, String::from_str("--mount"), Ghost(target));
        let flag = ro_bind_flag_str(&src, tg_str.as_str());
        push_arg(&mut args, flag, Ghost(target));
        asset_targets.push(tg_str);
        a = a + 1;
    }
    // environment, as -e flags
    let ghost etarget = container_env_pairs(ctx, *location) + env_views(envs@);
    let mut url: Vec<char> = Vec::new();
    crate::text::push_str_chars(&mut url, location.protocol.as_str());
    crate::text::push_str_chars(&mut url, "://host.docker.internal:");
    crate::text::push_dec(&mut url, location.port as u64);
    let mut fixed: Vec<(String, String)> = Vec::new();
    push_env(
        &mut fixed,
        String::from_str("SHINKAI_NODE_LOCATION"),
        crate::text::string_from_chars(&url),
        Ghost(etarget),
    );
    push_env(
        &mut fixed,
        String::from_str("SHINKAI_HOME"),
        String::from_str("/app/home"),
        Ghost(etarget),
    );
    let assets_env = crate::text::join_with_trailing(&asset_targets, ',');
    proof {
        assert(asset_targets.deep_view() =~= asset_targets_of(arg_views(ctx.assets_files@)));
    }
    push_env(
        &mut fixed,
        String::from_str("SHINKAI_ASSETS"),
        crate::text::string_from_chars(&assets_env),
        Ghost(etarget),
    );
    let mounts_env = crate::text::join_with_trailing(&mount_sources, ',');
    proof {
        assert(mount_sources.deep_view() =~= mount_sources_of(arg_views(ctx.mount_files@)));
    }
    push_env(
        &mut fixed,
        String::from_str("SHINKAI_MOUNT"),
        crate::text::string_from_chars(&mounts_env),
        Ghost(etarget),
    );
    push_env(
        &mut fixed,
        String::from_str("SHINKAI_CONTEXT_ID"),
        storage.context.context_id.clone(),
        Ghost(etarget),
    );
    push_env(
        &mut fixed,
        String::from_str("SHINKAI_EXECUTION_ID"),
        storage.context.execution_id.clone(),
        Ghost(etarget),
    );
    let env_list = with_env_overlay(fixed, envs, Ghost(etarget));
    let ghost ebase = args@.len() as int;
    proof {
        let flags = env_flag_args(etarget);
        assert(ebase == 6 + 2 * ctx.mount_files@.len() + 2 * ctx.assets_files@.len());
        assert forall|j: int| 0 <= j < 2 * env_list@.len() implies target[ebase + j]
            == env_flag_args(env_views(env_list@))[j] by {
            assert(env_views(env_list@) == etarget);
            assert(target[ebase + j] == flags[j]);
        }
    }
    push_env_flags(&mut args, &env_list, Ghost(target), Ghost(ebase));
    // workdir, image, and the in-container command
    push_arg(&mut args, String::from_str("--workdir"), Ghost(target));
    push_arg(&mut args, String::from_str("/app"), Ghost(target));
    push_arg(&mut args, image_name.clone(), Ghost(target));
    push_arg(&mut args, String::from_str("/bin/bash"), Ghost(target));
    push_arg(&mut args, String::from_str("-c"), Ghost(target));
    let mut script: Vec<char> = Vec::new();
    crate::text::push_str_chars(&mut script, "uv run --project code/pyproject.toml ");
    crate::text::push_str_chars(&mut script, "code");
    script.push('/');
    crate::text::push_str_chars(&mut script, storage.code.entrypoint.as_str());
    proof {
        reveal_strlit("code");
        assert(script@ =~= python_container_script(storage.code.entrypoint@));
    }
    push_arg(&mut args, crate::text::string_from_chars(&script), Ghost(target));
    proof {
        assert(arg_views(args@) =~= target);
    }
    CommandPlan {
        program: String::from_str("docker"),
        args,
        envs: Vec::new(),
        env_clear: false,
        cwd: Option::None,
    }
}

/// The invocation that creates the throwaway check environment:
/// `uv venv <check venv>`, with a cleared environment.
pub fn plan_uv_venv(uv_binary_path: &String, storage: &ExecutionStorage) -> (r: CommandPlan)
    ensures
        r.program@ == uv_binary_path@,
        arg_views(r.args@) == seq!["venv"@, spec_python_check_venv_folder(storage.context)],
        r.envs@.len() == 0,
        r.env_clear == true,
        r.cwd is None,
{
    let ghost target: Seq<Seq<char>> = seq![
        "venv"@,
        spec_python_check_venv_folder(storage.context),
    ];
    let mut args: Vec<String> = Vec::new();
    push_arg(&mut args, String::from_str("venv"), Ghost(target));
    push_arg(&mut args, storage.python_check_venv_folder_path(), Ghost(target));
    proof {
        assert(arg_views(args@) =~= target);
    }
    CommandPlan {
        program: uv_binary_path.clone(),
        args,
        envs: Vec::new(),
        env_clear: true,
        cwd: Option::None,
    }
}

/// The idempotent installation of the style linter: `uv tool install ruff`.
pub fn plan_install_ruff(uv_binary_path: &String) -> (r: CommandPlan)
    ensures
        r.program@ == uv_binary_path@,
        arg_views(r.args@) == seq!["tool"@, "install"@, "ruff"@],
        r.envs@.len() == 0,
        r.env_clear == false,
        r.cwd is None,
{
    let ghost target: Seq<Seq<char>> = seq!["tool"@, "install"@, "ruff"@];
    let mut args: Vec<String> = Vec::new();
    push_arg(&mut args, String::from_str("tool"), Ghost(target));
    push_arg(&mut args, String::from_str("install"), Ghost(target));
    push_arg(&mut args, String::from_str("ruff"), Ghost(target));
    proof {
        assert(arg_views(args@) =~= target);
    }
    CommandPlan {
        program: uv_binary_path.clone(),
        args,
        envs: Vec::new(),
        env_clear: false,
        cwd: Option::None,
    }
}

/// The idempotent installation of the type checker into the check
/// environment: `uv pip install pyright` with `VIRTUAL_ENV` set to it.
pub fn plan_install_pyright(uv_binary_path: &String, storage: &ExecutionStorage) -> (r:
    CommandPlan)
    ensures
        r.program@ == uv_binary_path@,
        arg_views(r.args@) == seq!["pip"@, "install"@, "pyright"@],
        env_views(r.envs@) == seq![
            ("VIRTUAL_ENV"@, spec_python_check_venv_folder(storage.context)),
        ],
        r.env_clear == false,
        r.cwd is None,
{
    let ghost target: Seq<Seq<char>> = seq!["pip"@, "install"@, "pyright"@];
    let mut args: Vec<String> = Vec::new();
    push_arg(&mut args, String::from_str("pip"), Ghost(target));
    push_arg(&mut args, String::from_str("install"), Ghost(target));
    push_arg(&mut args, String::from_str("pyright"), Ghost(target));
    proof {
        assert(arg_views(args@) =~= target);
    }
    let mut envs: Vec<(String, String)> = Vec::new();
    envs.push((String::from_str("VIRTUAL_ENV"), storage.python_check_venv_folder_path()));
    proof {
        assert(env_views(envs@) =~= seq![
            ("VIRTUAL_ENV"@, spec_python_check_venv_folder(storage.context)),
        ]);
    }
    CommandPlan {
        program: uv_binary_path.clone(),
        args,
        envs,
        env_clear: false,
        cwd: Option::None,
    }
}

/// The style lint of the materialized code: `ruff check`, run from the
/// `code/` directory.
pub fn plan_ruff_check(storage: &ExecutionStorage) -> (r: CommandPlan)
    ensures
        r.program@ == "ruff"@,
        arg_views(r.args@) == seq!["check"@],
        r.envs@.len() == 0,
        r.env_clear == false,
        r.cwd matches Option::Some(c) && c@ == spec_code_folder(storage.context),
{
    let ghost target: Seq<Seq<char>> = seq!["check"@];
    let mut args: Vec<String> = Vec::new();
    push_arg(&mut args, String::from_str("check"), Ghost(target));
    proof {
        assert(arg_views(args@) =~= target);
    }
    CommandPlan {
        program: String::from_str("ruff"),
        args,
        envs: Vec::new(),
        env_clear: false,
        cwd: Option::Some(storage.code_folder_path()),
    }
}

/// The type check of the entrypoint: `uv run -m pyright --level=error`
/// against the materialized entrypoint, inside the prepared check
/// environment, from the `code/` directory.
pub fn plan_pyright(storage: &ExecutionStorage) -> (r: CommandPlan)
    ensures
        r.program@ == "uv"@,
        arg_views(r.args@) == seq![
            "run"@,
            "-m"@,
            "pyright"@,
            "--level=error"@,
            joined(spec_code_folder(storage.context), storage.code.entrypoint@),
        ],
        env_views(r.envs@) == seq![
            ("VIRTUAL_ENV"@, spec_python_check_venv_folder(storage.context)),
        ],
        r.env_clear == false,
        r.cwd matches Option::Some(c) && c@ == spec_code_folder(storage.context),
{
    let ghost target: Seq<Seq<char>> = seq![
        "run"@,
        "-m"@,
        "pyright"@,
        "--level=error"@,
        joined(spec_code_folder(storage.context), storage.code.entrypoint@),
    ];
    let mut args: Vec<String> = Vec::new();
    push_arg(&mut args, String::from_str("run"), Ghost(target));
    push_arg(&mut args, String::from_str("-m"), Ghost(target));
    push_arg(&mut args, String::from_str("pyright"), Ghost(target));
    push_arg(&mut args, String::from_str("--level=error"), Ghost(target));
    push_arg(&mut args, storage.code_entrypoint_file_path(), Ghost(target));
    proof {
        assert(arg_views(args@) =~= target);
    }
    let mut envs: Vec<(String, String)> = Vec::new();
    envs.push((String::from_str("VIRTUAL_ENV"), storage.python_check_venv_folder_path()));
    proof {
        assert(env_views(envs@) =~= seq![
            ("VIRTUAL_ENV"@, spec_python_check_venv_folder(storage.context)),
        ]);
    }
    CommandPlan {
        program: String::from_str("uv"),
        args,
        envs,
        env_clear: false,
        cwd: Option::Some(storage.code_folder_path()),
    }
}

/// The helper-backend invocation: the interpreter binary runs a code file
/// with every permission, with the caller's environment on top.
pub fn plan_backend_run(
    binary_path: &String,
    code_path: &String,
    envs: &Vec<(String, String)>,
) -> (r: CommandPlan)
    ensures
        r.program@ == binary_path@,
        arg_views(r.args@) == seq!["run"@, "--ext"@, "ts"@, "--allow-all"@, code_path@],
        env_views(r.envs@) == env_views(envs@),
        r.env_clear == false,
        r.cwd is None,
{
    let ghost target: Seq<Seq<char>> = seq!["run"@, "--ext"@, "ts"@, "--allow-all"@, code_path@];
    let mut args: Vec<String> = Vec::new();
    push_arg(&mut args, String::from_str("run"), Ghost(target));
    push_arg(&mut args, String::from_str("--ext"), Ghost(target));
    push_arg(&mut args, String::from_str("ts"), Ghost(target));
    push_arg(&mut args, String::from_str("--allow-all"), Ghost(target));
    push_arg(&mut args, code_path.clone(), Ghost(target));
    proof {
        assert(arg_views(args@) =~= target);
    }
    let fixed: Vec<(String, String)> = Vec::new();
    let env_list = with_env_overlay(fixed, envs, Ghost(env_views(envs@)));
    CommandPlan {
        program: binary_path.clone(),
        args,
        envs: env_list,
        env_clear: false,
        cwd: Option::None,
    }
}

} // verus!
