//! The commands that run a job, prepare its interpreter and check its code
//! on the host.

use vstd::prelude::*;
use crate::docker_command::{docker_run_args, spec_docker_run_args, DOCKER_PROGRAM};
use crate::execution_context::HostFile;
use crate::execution_error::{ErrorKind, ExecutionError};
use crate::execution_storage::ExecutionStorage;
use crate::file_name_utils::is_drive_letter;
use crate::python_runner_options::PythonRunnerOptions;
use crate::text::chars::{from_chars, to_chars, views};
use crate::text::decimal::{decimal, decimal_chars};
use crate::text::lines::{join_texts, joined, lines, lines_of};

verus! {

/// The version of the interpreter that a job runs on.
pub const PYTHON_VERSION: &'static str = "3.13";

/// A process to start: the program, its arguments, the variables to set
/// for it in their order, and the folder to start it in, if it is not the
/// current one.
#[derive(Clone, Debug)]
pub struct CommandPlan {
    pub program: String,
    pub args: Vec<String>,
    pub envs: Vec<(String, String)>,
    pub current_dir: Option<String>,
}

/// The variables `envs` as pairs of a name and a value.
pub open spec fn env_views(envs: Seq<(String, String)>) -> Seq<(Seq<char>, Seq<char>)> {
    Seq::new(envs.len(), |i: int| (envs[i].0@, envs[i].1@))
}

/// The absolute paths of `files`.
pub open spec fn spec_host_paths(files: Seq<HostFile>) -> Seq<Seq<char>> {
    Seq::new(files.len(), |i: int| files[i].absolute_path@)
}

/// Where a job on the host finds the service that it may call back.
pub open spec fn spec_host_node_location(options: PythonRunnerOptions) -> Seq<char> {
    options.shinkai_node_location.protocol@ + "://"@ + options.shinkai_node_location.host@
        + seq![':'] + decimal(options.shinkai_node_location.port as nat)
}

/// The variables that the engine sets for every job it runs on the host.
pub open spec fn spec_host_envs(options: PythonRunnerOptions, storage: ExecutionStorage) -> Seq<
    (Seq<char>, Seq<char>),
> {
    seq![
        ("SHINKAI_NODE_LOCATION"@, spec_host_node_location(options)),
        ("SHINKAI_HOME"@, storage.home_folder_path@),
        (
            "SHINKAI_ASSETS"@,
            joined(spec_host_paths(options.context.assets_files@), seq![',']),
        ),
        ("SHINKAI_MOUNT"@, joined(spec_host_paths(options.context.mount_files@), seq![','])),
        ("SHINKAI_CONTEXT_ID"@, options.context.context_id@),
        ("SHINKAI_EXECUTION_ID"@, options.context.execution_id@),
    ]
}

/// The arguments with which the tool at `uv_binary` runs a job.
pub open spec fn spec_host_run_args(storage: ExecutionStorage) -> Seq<Seq<char>> {
    seq!["run"@, "--project"@, storage.manifest_file_path@, storage.code_entrypoint_file_path@]
}

/// The arguments with which the tool makes an environment at `venv_path`.
pub open spec fn spec_venv_args(venv_path: Seq<char>) -> Seq<Seq<char>> {
    seq!["venv"@, "--seed"@, venv_path, "--python"@, PYTHON_VERSION@]
}

/// The arguments with which the interpreter compiles the entry file.
pub open spec fn spec_check_args(storage: ExecutionStorage) -> Seq<Seq<char>> {
    seq!["-m"@, "py_compile"@, storage.code_entrypoint_file_path@]
}

/// Whether `c` parts the components of a path: the slash, and on Windows
/// the backslash too.
pub open spec fn is_separator(c: char, windows: bool) -> bool {
    c == '/' || (windows && c == '\\')
}

/// The character that is put between two components of a path.
pub open spec fn spec_main_separator(windows: bool) -> char {
    if windows {
        '\\'
    } else {
        '/'
    }
}

/// Whether `base` is a drive and nothing more: a drive letter and a colon.
pub open spec fn is_bare_drive(base: Seq<char>) -> bool {
    base.len() == 2 && is_drive_letter(base[0]) && base[1] == ':'
}

/// Whether `name` goes right behind `base` when it is put below it: where
/// `base` is empty or ends with a separator, and on Windows also where it
/// is a bare drive, below which a path stays relative to the current
/// folder of that drive.
pub open spec fn joins_directly(base: Seq<char>, windows: bool) -> bool {
    ||| base.len() == 0
    ||| is_separator(base.last(), windows)
    ||| (windows && is_bare_drive(base))
}

/// `base` with `name` below it, where `name` is one plain component: the
/// two with a separator between them, unless `name` goes right behind
/// `base`.
pub open spec fn spec_path_join(base: Seq<char>, name: Seq<char>, windows: bool) -> Seq<char> {
    if joins_directly(base, windows) {
        base + name
    } else {
        base + seq![spec_main_separator(windows)] + name
    }
}

/// The path of the interpreter in the environment at `venv_path`:
/// `Scripts\python.exe` below it on Windows, `bin/python` elsewhere.
pub open spec fn spec_python_in_venv(venv_path: Seq<char>, windows: bool) -> Seq<char> {
    if windows {
        spec_path_join(spec_path_join(venv_path, "Scripts"@, true), "python.exe"@, true)
    } else {
        spec_path_join(spec_path_join(venv_path, "bin"@, false), "python"@, false)
    }
}

/// How the making of an environment at `venv_path` ends: with the path of
/// the interpreter in it where the tool succeeded, else with all that the
/// tool wrote to its error stream, as it wrote it.
pub open spec fn spec_venv_outcome(
    success: bool,
    stderr: Seq<char>,
    venv_path: Seq<char>,
    windows: bool,
) -> Result<Seq<char>, (ErrorKind, Seq<char>)> {
    if success {
        Ok(spec_python_in_venv(venv_path, windows))
    } else {
        Err((ErrorKind::Provisioning, stderr))
    }
}

/// The problems that a check reports: none where the compiler succeeded,
/// else the lines that it wrote to its error stream.
pub open spec fn spec_check_outcome(success: bool, stderr: Seq<char>) -> Seq<Seq<char>> {
    if success {
        Seq::empty()
    } else {
        lines(stderr)
    }
}

/// The absolute paths of `files`.
pub fn host_paths(files: &Vec<HostFile>) -> (r: Vec<String>)
    ensures
        views(r@) == spec_host_paths(files@),
{
    let mut out: Vec<String> = Vec::new();
    let mut i: usize = 0;
    while i < files.len()
        invariant
            i <= files.len(),
            out.len() == i,
            forall|k: int| 0 <= k < i ==> out@[k]@ == files@[k].absolute_path@,
        decreases files.len() - i,
    {
        out.push(files[i].absolute_path.clone());
        i += 1;
    }
    assert(views(out@) =~= spec_host_paths(files@));
    out
}

/// Where a job on the host finds the service that it may call back.
pub fn host_node_location(options: &PythonRunnerOptions) -> (r: String)
    ensures
        r@ == spec_host_node_location(*options),
{
    let mut out = options.shinkai_node_location.protocol.clone();
    out.append("://");
    out.append(options.shinkai_node_location.host.as_str());
    out.push(':');
    let port = from_chars(&decimal_chars(options.shinkai_node_location.port as u64));
    out.append(port.as_str());
    out
}

/// The variables that the engine sets for every job it runs on the host.
pub fn host_envs(options: &PythonRunnerOptions, storage: &ExecutionStorage) -> (r: Vec<
    (String, String),
>)
    ensures
        env_views(r@) == spec_host_envs(*options, *storage),
{
    let mut comma = String::new();
    comma.push(',');
    assert(comma@ == seq![',']);
    let assets = join_texts(&host_paths(&options.context.assets_files), comma.as_str());
    let mounts = join_texts(&host_paths(&options.context.mount_files), comma.as_str());
    let mut out: Vec<(String, String)> = Vec::new();
    out.push((String::from_str("SHINKAI_NODE_LOCATION"), host_node_location(options)));
    out.push((String::from_str("SHINKAI_HOME"), storage.home_folder_path.clone()));
    out.push((String::from_str("SHINKAI_ASSETS"), assets));
    out.push((String::from_str("SHINKAI_MOUNT"), mounts));
    out.push((String::from_str("SHINKAI_CONTEXT_ID"), options.context.context_id.clone()));
    out.push((String::from_str("SHINKAI_EXECUTION_ID"), options.context.execution_id.clone()));
    assert(env_views(out@) =~= spec_host_envs(*options, *storage));
    out
}

/// A copy of the variables `envs`.
pub fn copy_envs(envs: &Vec<(String, String)>) -> (r: Vec<(String, String)>)
    ensures
        env_views(r@) == env_views(envs@),
{
    let mut out: Vec<(String, String)> = Vec::new();
    let mut i: usize = 0;
    while i < envs.len()
        invariant
            i <= envs.len(),
            out.len() == i,
            forall|k: int|
                0 <= k < i ==> out@[k].0@ == envs@[k].0@ && out@[k].1@ == envs@[k].1@,
        decreases envs.len() - i,
    {
        out.push((envs[i].0.clone(), envs[i].1.clone()));
        i += 1;
    }
    assert(env_views(out@) =~= env_views(envs@));
    out
}

/// The process that runs a job on the host: the tool at `uv_binary`, an
/// absolute path, started in the root folder of the run, with the
/// variables of the engine and then those of the caller, so that a caller's
/// value for a name comes last.
pub fn host_run_command(
    options: &PythonRunnerOptions,
    storage: &ExecutionStorage,
    uv_binary: &str,
    envs: &Vec<(String, String)>,
) -> (r: CommandPlan)
    ensures
        r.program@ == uv_binary@,
        views(r.args@) == spec_host_run_args(*storage),
        env_views(r.envs@) == spec_host_envs(*options, *storage) + env_views(envs@),
        r.current_dir matches Some(dir) && dir@ == storage.root_folder_path@,
{
    let mut args: Vec<String> = Vec::new();
    args.push(String::from_str("run"));
    args.push(String::from_str("--project"));
    args.push(storage.manifest_file_path.clone());
    args.push(storage.code_entrypoint_file_path.clone());
    assert(views(args@) =~= spec_host_run_args(*storage));
    let mut all_envs = host_envs(options, storage);
    let ghost own = all_envs@;
    let mut extra = copy_envs(envs);
    let ghost copied = extra@;
    all_envs.append(&mut extra);
    assert(env_views(all_envs@) =~= env_views(own) + env_views(copied));
    CommandPlan {
        program: String::from_str(uv_binary),
        args,
        envs: all_envs,
        current_dir: Some(storage.root_folder_path.clone()),
    }
}

/// The process that runs a job in a container.
pub fn docker_run_command(
    options: &PythonRunnerOptions,
    storage: &ExecutionStorage,
    envs: &Vec<(String, String)>,
) -> (r: CommandPlan)
    ensures
        r.program@ == DOCKER_PROGRAM@,
        views(r.args@) == spec_docker_run_args(*options, *storage, envs@),
        r.envs@.len() == 0,
        r.current_dir is None,
{
    CommandPlan {
        program: String::from_str(DOCKER_PROGRAM),
        args: docker_run_args(options, storage, envs),
        envs: Vec::new(),
        current_dir: None,
    }
}

/// The process that makes the environment of the interpreter at
/// `venv_path`, or `None` where there is one already.
pub fn venv_command(uv_binary: &str, venv_path: &str, exists: bool) -> (r: Option<CommandPlan>)
    ensures
        r is None == exists,
        r matches Some(plan) ==> {
            &&& plan.program@ == uv_binary@
            &&& views(plan.args@) == spec_venv_args(venv_path@)
            &&& plan.envs@.len() == 0
            &&& plan.current_dir is None
        },
{
    if exists {
        return None;
    }
    let mut args: Vec<String> = Vec::new();
    args.push(String::from_str("venv"));
    args.push(String::from_str("--seed"));
    args.push(String::from_str(venv_path));
    args.push(String::from_str("--python"));
    args.push(String::from_str(PYTHON_VERSION));
    assert(views(args@) =~= spec_venv_args(venv_path@));
    Some(
        CommandPlan {
            program: String::from_str(uv_binary),
            args,
            envs: Vec::new(),
            current_dir: None,
        },
    )
}

/// Whether `name` goes right behind `base` when it is put below it.
pub fn goes_right_behind(base: &Vec<char>, windows: bool) -> (r: bool)
    ensures
        r == joins_directly(base@, windows),
{
    if base.len() == 0 {
        return true;
    }
    let last = base[base.len() - 1];
    if last == '/' || (windows && last == '\\') {
        return true;
    }
    if windows && base.len() == 2 {
        let letter = base[0];
        let is_letter = ('A' <= letter && letter <= 'Z') || ('a' <= letter && letter <= 'z');
        is_letter && base[1] == ':'
    } else {
        false
    }
}

/// `base` with `name`, one plain component, below it, on Windows or
/// elsewhere.
pub fn path_join(base: &str, name: &str, windows: bool) -> (r: String)
    ensures
        r@ == spec_path_join(base@, name@, windows),
{
    let chars = to_chars(base);
    let mut out = String::from_str(base);
    if !goes_right_behind(&chars, windows) {
        out.push(if windows {
            '\\'
        } else {
            '/'
        });
    }
    out.append(name);
    out
}

/// The path of the interpreter in the environment at `venv_path`.
pub fn python_in_venv(venv_path: &str, windows: bool) -> (r: String)
    ensures
        r@ == spec_python_in_venv(venv_path@, windows),
{
    if windows {
        let folder = path_join(venv_path, "Scripts", true);
        path_join(folder.as_str(), "python.exe", true)
    } else {
        let folder = path_join(venv_path, "bin", false);
        path_join(folder.as_str(), "python", false)
    }
}

/// How the making of an environment at `venv_path` ends, from how the tool
/// ended and what it wrote to its error stream.
pub fn venv_outcome(success: bool, stderr: String, venv_path: &str, windows: bool) -> (r: Result<
    String,
    ExecutionError,
>)
    ensures
        match r {
            Ok(python) => spec_venv_outcome(success, stderr@, venv_path@, windows) == Ok::<
                Seq<char>,
                (ErrorKind, Seq<char>),
            >(python@),
            Err(error) => spec_venv_outcome(success, stderr@, venv_path@, windows) == Err::<
                Seq<char>,
                (ErrorKind, Seq<char>),
            >((error.kind, error.message@)) && error.code is None,
        },
{
    if success {
        Ok(python_in_venv(venv_path, windows))
    } else {
        Err(ExecutionError::new(ErrorKind::Provisioning, stderr, None))
    }
}

/// The process that compiles the entry file with the interpreter at
/// `python_binary`, started in the code folder.
pub fn check_command(storage: &ExecutionStorage, python_binary: &str) -> (r: CommandPlan)
    ensures
        r.program@ == python_binary@,
        views(r.args@) == spec_check_args(*storage),
        r.envs@.len() == 0,
        r.current_dir matches Some(dir) && dir@ == storage.code_folder_path@,
{
    let mut args: Vec<String> = Vec::new();
    args.push(String::from_str("-m"));
    args.push(String::from_str("py_compile"));
    args.push(storage.code_entrypoint_file_path.clone());
    assert(views(args@) =~= spec_check_args(*storage));
    CommandPlan {
        program: String::from_str(python_binary),
        args,
        envs: Vec::new(),
        current_dir: Some(storage.code_folder_path.clone()),
    }
}

/// The problems that a check reports, from how the compiler ended and what
/// it wrote to its error stream.
pub fn check_outcome(success: bool, stderr: &str) -> (r: Vec<String>)
    ensures
        views(r@) == spec_check_outcome(success, stderr@),
{
    if success {
        let out: Vec<String> = Vec::new();
        assert(views(out@) =~= Seq::<Seq<char>>::empty());
        out
    } else {
        lines_of(stderr)
    }
}

} // verus!
