//! The command line with which the container engine runs a job.

use vstd::prelude::*;
use crate::execution_context::HostFile;
use crate::execution_storage::ExecutionStorage;
use crate::file_name_utils::{normalize_for_docker_path, spec_normalize_for_docker_path};
use crate::python_runner_options::PythonRunnerOptions;
use crate::text::chars::{from_chars, views};
use crate::text::decimal::{decimal, decimal_chars};
use crate::text::lines::{join_texts, joined};

verus! {

/// The program that runs containers.
pub const DOCKER_PROGRAM: &'static str = "docker";

/// The folder of the container under which the folders of a run appear.
pub const CONTAINER_ROOT: &'static str = "/app";

/// The home folder of a job inside the container.
pub const CONTAINER_HOME: &'static str = "/app/home";

/// The name under which a container reaches the host.
pub const CONTAINER_HOST_NAME: &'static str = "host.docker.internal";

/// The path inside the container of what lies at `relative` under the root
/// folder of the run.
pub open spec fn spec_container_path(relative: Seq<char>) -> Seq<char> {
    CONTAINER_ROOT@ + seq!['/'] + relative
}

/// The path inside the container of the file `file_name` in the folder at
/// `folder_relative`.
pub open spec fn spec_container_file(folder_relative: Seq<char>, file_name: Seq<char>) -> Seq<
    char,
> {
    spec_container_path(folder_relative) + seq!['/'] + file_name
}

/// The value of a `--mount` option that binds the host path `source` to
/// `target` in the container, for reading only if `readonly`.
pub open spec fn spec_bind_mount(source: Seq<char>, target: Seq<char>, readonly: bool) -> Seq<
    char,
> {
    (if readonly {
        "type=bind,readonly=true,source="@
    } else {
        "type=bind,source="@
    }) + spec_normalize_for_docker_path(source) + ",target="@ + target
}

/// The paths inside the container of `files`, bound into the folder at
/// `folder_relative`.
pub open spec fn spec_file_targets(files: Seq<HostFile>, folder_relative: Seq<char>) -> Seq<
    Seq<char>,
> {
    Seq::new(files.len(), |i: int| spec_container_file(folder_relative, files[i].file_name@))
}

/// The `--mount` options that bind `files` into the folder at
/// `folder_relative`: two arguments for each file, in the order of the
/// files.
pub open spec fn spec_file_mounts(
    files: Seq<HostFile>,
    folder_relative: Seq<char>,
    readonly: bool,
) -> Seq<Seq<char>>
    decreases files.len(),
{
    if files.len() == 0 {
        Seq::empty()
    } else {
        spec_file_mounts(files.drop_last(), folder_relative, readonly) + seq![
            "--mount"@,
            spec_bind_mount(
                files.last().absolute_path@,
                spec_container_file(folder_relative, files.last().file_name@),
                readonly,
            ),
        ]
    }
}

/// The `-e` option that sets the variable `name` to `value`.
pub open spec fn spec_env_option(name: Seq<char>, value: Seq<char>) -> Seq<Seq<char>> {
    seq!["-e"@, name + seq!['='] + value]
}

/// The `-e` options for the variables `envs`, in their order.
pub open spec fn spec_env_options(envs: Seq<(String, String)>) -> Seq<Seq<char>>
    decreases envs.len(),
{
    if envs.len() == 0 {
        Seq::empty()
    } else {
        spec_env_options(envs.drop_last()) + spec_env_option(envs.last().0@, envs.last().1@)
    }
}

/// Where a job in a container finds the service that it may call back.
pub open spec fn spec_container_node_location(options: PythonRunnerOptions) -> Seq<char> {
    options.shinkai_node_location.protocol@ + "://"@ + CONTAINER_HOST_NAME@ + seq![':']
        + decimal(options.shinkai_node_location.port as nat)
}

/// The command that starts the interpreter inside the container.
pub open spec fn spec_start_script(storage: ExecutionStorage) -> Seq<char> {
    "uv run --project "@ + storage.manifest_relative@ + seq![' ']
        + storage.code_entrypoint_relative@
}

/// The variables that the engine sets for every job it runs in a
/// container.
pub open spec fn spec_container_envs(
    options: PythonRunnerOptions,
    storage: ExecutionStorage,
) -> Seq<Seq<char>> {
    spec_env_option("SHINKAI_NODE_LOCATION"@, spec_container_node_location(options))
        + spec_env_option("SHINKAI_HOME"@, CONTAINER_HOME@) + spec_env_option(
        "SHINKAI_ASSETS"@,
        joined(
            spec_file_targets(options.context.assets_files@, storage.assets_folder_relative@),
            seq![','],
        ),
    ) + spec_env_option(
        "SHINKAI_MOUNT"@,
        joined(
            spec_file_targets(options.context.mount_files@, storage.mount_folder_relative@),
            seq![','],
        ),
    ) + spec_env_option("SHINKAI_CONTEXT_ID"@, options.context.context_id@) + spec_env_option(
        "SHINKAI_EXECUTION_ID"@,
        options.context.execution_id@,
    )
}

/// The arguments of the container engine for one job: `run --rm`; a bind
/// mount for the code folder, the home folder, each mount file and,
/// for reading only, each asset file; the variables of the engine and then
/// those of the caller; the working folder, the image and the command that
/// starts the interpreter.
pub open spec fn spec_docker_run_args(
    options: PythonRunnerOptions,
    storage: ExecutionStorage,
    envs: Seq<(String, String)>,
) -> Seq<Seq<char>> {
    seq!["run"@, "--rm"@] + seq![
        "--mount"@,
        spec_bind_mount(
            storage.code_folder_path@,
            spec_container_path(storage.code_folder_relative@),
            false,
        ),
    ] + seq![
        "--mount"@,
        spec_bind_mount(
            storage.home_folder_path@,
            spec_container_path(storage.home_folder_relative@),
            false,
        ),
    ] + spec_file_mounts(options.context.mount_files@, storage.mount_folder_relative@, false)
        + spec_file_mounts(options.context.assets_files@, storage.assets_folder_relative@, true)
        + spec_container_envs(options, storage) + spec_env_options(envs) + seq![
        "--workdir"@,
        CONTAINER_ROOT@,
        options.code_runner_docker_image_name@,
        "/bin/bash"@,
        "-c"@,
        spec_start_script(storage),
    ]
}

/// Adding a string to a vector adds its view to the views.
pub proof fn lemma_views_push(v: Seq<String>, s: String)
    ensures
        views(v.push(s)) == views(v).push(s@),
{
    assert(views(v.push(s)) =~= views(v).push(s@));
}

/// The path inside the container of what lies at `relative` under the root
/// folder of the run.
pub fn container_path(relative: &str) -> (r: String)
    ensures
        r@ == spec_container_path(relative@),
{
    let mut out = String::from_str(CONTAINER_ROOT);
    out.push('/');
    out.append(relative);
    out
}

/// The path inside the container of the file `file_name` in the folder at
/// `folder_relative`.
pub fn container_file(folder_relative: &str, file_name: &str) -> (r: String)
    ensures
        r@ == spec_container_file(folder_relative@, file_name@),
{
    let mut out = container_path(folder_relative);
    out.push('/');
    out.append(file_name);
    out
}

/// The value of a `--mount` option that binds `source` to `target`.
pub fn bind_mount(source: &str, target: &str, readonly: bool) -> (r: String)
    ensures
        r@ == spec_bind_mount(source@, target@, readonly),
{
    let mut out = if readonly {
        String::from_str("type=bind,readonly=true,source=")
    } else {
        String::from_str("type=bind,source=")
    };
    let source_in_docker_form = normalize_for_docker_path(source);
    out.append(source_in_docker_form.as_str());
    out.append(",target=");
    out.append(target);
    out
}

/// The paths inside the container of `files`, bound into the folder at
/// `folder_relative`.
pub fn file_targets(files: &Vec<HostFile>, folder_relative: &str) -> (r: Vec<String>)
    ensures
        views(r@) == spec_file_targets(files@, folder_relative@),
{
    let mut out: Vec<String> = Vec::new();
    let mut i: usize = 0;
    while i < files.len()
        invariant
            i <= files.len(),
            out.len() == i,
            forall|k: int|
                0 <= k < i ==> out@[k]@ == spec_container_file(
                    folder_relative@,
                    files@[k].file_name@,
                ),
        decreases files.len() - i,
    {
        out.push(container_file(folder_relative, files[i].file_name.as_str()));
        i += 1;
    }
    assert(views(out@) =~= spec_file_targets(files@, folder_relative@));
    out
}

/// Appends to `args` the `--mount` option that binds `source` to `target`.
fn push_mount(args: &mut Vec<String>, source: &str, target: &str, readonly: bool)
    ensures
        views(final(args)@) == views(old(args)@) + seq![
            "--mount"@,
            spec_bind_mount(source@, target@, readonly),
        ],
{
    let flag = String::from_str("--mount");
    let value = bind_mount(source, target, readonly);
    proof {
        lemma_views_push(args@, flag);
        lemma_views_push(args@.push(flag), value);
    }
    args.push(flag);
    args.push(value);
    assert(views(args@) =~= views(old(args)@) + seq![
        "--mount"@,
        spec_bind_mount(source@, target@, readonly),
    ]);
}

/// Appends to `args` the `--mount` options that bind `files` into the
/// folder at `folder_relative`.
fn push_file_mounts(
    args: &mut Vec<String>,
    files: &Vec<HostFile>,
    folder_relative: &str,
    readonly: bool,
)
    ensures
        views(final(args)@) == views(old(args)@) + spec_file_mounts(
            files@,
            folder_relative@,
            readonly,
        ),
{
    let mut i: usize = 0;
    assert(files@.take(0) == Seq::<HostFile>::empty());
    assert(views(args@) =~= views(old(args)@) + Seq::<Seq<char>>::empty());
    while i < files.len()
        invariant
            i <= files.len(),
            views(args@) == views(old(args)@) + spec_file_mounts(
                files@.take(i as int),
                folder_relative@,
                readonly,
            ),
        decreases files.len() - i,
    {
        let ghost before = views(args@);
        let ghost done = spec_file_mounts(files@.take(i as int), folder_relative@, readonly);
        let target = container_file(folder_relative, files[i].file_name.as_str());
        push_mount(args, files[i].absolute_path.as_str(), target.as_str(), readonly);
        proof {
            assert(files@.take(i + 1).drop_last() == files@.take(i as int));
            assert(files@.take(i + 1).last() == files@[i as int]);
            let pair = seq![
                "--mount"@,
                spec_bind_mount(files@[i as int].absolute_path@, target@, readonly),
            ];
            assert(views(args@) == before + pair);
            assert(before + pair =~= views(old(args)@) + (done + pair));
        }
        i += 1;
    }
    assert(files@.take(files@.len() as int) == files@);
}

/// Appends to `args` the `-e` option that sets `name` to `value`.
fn push_env(args: &mut Vec<String>, name: &str, value: &str)
    ensures
        views(final(args)@) == views(old(args)@) + spec_env_option(name@, value@),
{
    let flag = String::from_str("-e");
    let mut setting = String::from_str(name);
    setting.push('=');
    setting.append(value);
    assert(setting@ =~= name@ + seq!['='] + value@);
    proof {
        lemma_views_push(args@, flag);
        lemma_views_push(args@.push(flag), setting);
    }
    args.push(flag);
    args.push(setting);
    assert(views(args@) =~= views(old(args)@) + spec_env_option(name@, value@));
}

/// Appends to `args` the `-e` options for the variables `envs`.
fn push_envs(args: &mut Vec<String>, envs: &Vec<(String, String)>)
    ensures
        views(final(args)@) == views(old(args)@) + spec_env_options(envs@),
{
    let mut i: usize = 0;
    assert(envs@.take(0) == Seq::<(String, String)>::empty());
    assert(views(args@) =~= views(old(args)@) + Seq::<Seq<char>>::empty());
    while i < envs.len()
        invariant
            i <= envs.len(),
            views(args@) == views(old(args)@) + spec_env_options(envs@.take(i as int)),
        decreases envs.len() - i,
    {
        let ghost before = views(args@);
        let ghost done = spec_env_options(envs@.take(i as int));
        push_env(args, envs[i].0.as_str(), envs[i].1.as_str());
        proof {
            assert(envs@.take(i + 1).drop_last() == envs@.take(i as int));
            assert(envs@.take(i + 1).last() == envs@[i as int]);
            let pair = spec_env_option(envs@[i as int].0@, envs@[i as int].1@);
            assert(before + pair =~= views(old(args)@) + (done + pair));
        }
        i += 1;
    }
    assert(envs@.take(envs@.len() as int) == envs@);
}

/// Where a job in a container finds the service that it may call back.
pub fn container_node_location(options: &PythonRunnerOptions) -> (r: String)
    ensures
        r@ == spec_container_node_location(*options),
{
    let mut out = options.shinkai_node_location.protocol.clone();
    out.append("://");
    out.append(CONTAINER_HOST_NAME);
    out.push(':');
    let port = from_chars(&decimal_chars(options.shinkai_node_location.port as u64));
    out.append(port.as_str());
    out
}

/// The command that starts the interpreter inside the container.
pub fn start_script(storage: &ExecutionStorage) -> (r: String)
    ensures
        r@ == spec_start_script(*storage),
{
    let mut out = String::from_str("uv run --project ");
    out.append(storage.manifest_relative.as_str());
    out.push(' ');
    out.append(storage.code_entrypoint_relative.as_str());
    out
}

/// Appends to `args` the variables that the engine sets for every job it
/// runs in a container.
fn push_container_envs(
    args: &mut Vec<String>,
    options: &PythonRunnerOptions,
    storage: &ExecutionStorage,
)
    ensures
        views(final(args)@) == views(old(args)@) + spec_container_envs(*options, *storage),
{
    let location = container_node_location(options);
    let assets = file_targets(&options.context.assets_files, storage.assets_folder_relative.as_str());
    let mounts = file_targets(&options.context.mount_files, storage.mount_folder_relative.as_str());
    let mut comma = String::new();
    comma.push(',');
    assert(comma@ == seq![',']);
    let assets_value = join_texts(&assets, comma.as_str());
    let mounts_value = join_texts(&mounts, comma.as_str());
    push_env(args, "SHINKAI_NODE_LOCATION", location.as_str());
    push_env(args, "SHINKAI_HOME", CONTAINER_HOME);
    push_env(args, "SHINKAI_ASSETS", assets_value.as_str());
    push_env(args, "SHINKAI_MOUNT", mounts_value.as_str());
    push_env(args, "SHINKAI_CONTEXT_ID", options.context.context_id.as_str());
    push_env(args, "SHINKAI_EXECUTION_ID", options.context.execution_id.as_str());
    assert(views(args@) =~= views(old(args)@) + spec_container_envs(*options, *storage));
}

/// The arguments with which the container engine runs one job.
pub fn docker_run_args(
    options: &PythonRunnerOptions,
    storage: &ExecutionStorage,
    envs: &Vec<(String, String)>,
) -> (r: Vec<String>)
    ensures
        views(r@) == spec_docker_run_args(*options, *storage, envs@),
{
    let mut args: Vec<String> = Vec::new();
    args.push(String::from_str("run"));
    args.push(String::from_str("--rm"));
    assert(views(args@) =~= seq!["run"@, "--rm"@]);
    let code_target = container_path(storage.code_folder_relative.as_str());
    push_mount(&mut args, storage.code_folder_path.as_str(), code_target.as_str(), false);
    let home_target = container_path(storage.home_folder_relative.as_str());
    push_mount(&mut args, storage.home_folder_path.as_str(), home_target.as_str(), false);
    push_file_mounts(
        &mut args,
        &options.context.mount_files,
        storage.mount_folder_relative.as_str(),
        false,
    );
    push_file_mounts(
        &mut args,
        &options.context.assets_files,
        storage.assets_folder_relative.as_str(),
        true,
    );
    push_container_envs(&mut args, options, storage);
    push_envs(&mut args, envs);
    let ghost before = views(args@);
    let script = start_script(storage);
    args.push(String::from_str("--workdir"));
    args.push(String::from_str(CONTAINER_ROOT));
    args.push(options.code_runner_docker_image_name.clone());
    args.push(String::from_str("/bin/bash"));
    args.push(String::from_str("-c"));
    args.push(script);
    assert(views(args@) =~= before + seq![
        "--workdir"@,
        CONTAINER_ROOT@,
        options.code_runner_docker_image_name@,
        "/bin/bash"@,
        "-c"@,
        spec_start_script(*storage),
    ]);
    args
}

} // verus!
