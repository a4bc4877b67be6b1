use shinkai_tools_runner::docker_command::{
    bind_mount, container_file, container_path, docker_run_args,
};
use shinkai_tools_runner::execution_context::{ExecutionContext, HostFile};
use shinkai_tools_runner::execution_storage::ExecutionStorage;
use shinkai_tools_runner::host_command::{
    check_command, check_outcome, docker_run_command, host_run_command, path_join,
    python_in_venv, venv_command,
};
use shinkai_tools_runner::python_runner_options::{PythonRunnerOptions, ShinkaiNodeLocation};
use shinkai_tools_runner::runner_type::{
    docker_status, needs_probe, select_runner, DockerStatus, RunnerType,
};

fn storage() -> ExecutionStorage {
    ExecutionStorage {
        root_folder_path: "/jobs/ctx".to_string(),
        code_folder_path: "/jobs/ctx/code/run1".to_string(),
        code_entrypoint_file_path: "/jobs/ctx/code/run1/main.py".to_string(),
        manifest_file_path: "/jobs/ctx/code/run1/pyproject.toml".to_string(),
        home_folder_path: "/jobs/ctx/home".to_string(),
        python_cache_folder_path: "/jobs/ctx/cache/python-venv".to_string(),
        code_folder_relative: "code/run1".to_string(),
        code_entrypoint_relative: "code/run1/main.py".to_string(),
        manifest_relative: "code/run1/pyproject.toml".to_string(),
        home_folder_relative: "home".to_string(),
        mount_folder_relative: "mount".to_string(),
        assets_folder_relative: "assets".to_string(),
    }
}

fn options() -> PythonRunnerOptions {
    PythonRunnerOptions {
        context: ExecutionContext {
            context_id: "ctx".to_string(),
            execution_id: "run1".to_string(),
            mount_files: vec![
                HostFile::new("/data/in.csv".to_string(), "in.csv".to_string()),
                HostFile::new("C:\\data\\out.csv".to_string(), "out.csv".to_string()),
            ],
            assets_files: vec![HostFile::new("/assets/logo.png".to_string(), "logo.png".to_string())],
        },
        uv_binary_path: "/usr/bin/uv".to_string(),
        code_runner_docker_image_name: "runner:1".to_string(),
        force_runner_type: None,
        shinkai_node_location: ShinkaiNodeLocation {
            protocol: "https".to_string(),
            host: "node.local".to_string(),
            port: 9550,
        },
    }
}

fn strings(items: &[&str]) -> Vec<String> {
    items.iter().map(|s| s.to_string()).collect()
}

#[test]
fn docker_arguments_are_in_order() {
    let envs = vec![
        ("API_KEY".to_string(), "k=1".to_string()),
        ("EMPTY".to_string(), "".to_string()),
    ];
    let expected = strings(&[
        "run",
        "--rm",
        "--mount",
        "type=bind,source=/jobs/ctx/code/run1,target=/app/code/run1",
        "--mount",
        "type=bind,source=/jobs/ctx/home,target=/app/home",
        "--mount",
        "type=bind,source=/data/in.csv,target=/app/mount/in.csv",
        "--mount",
        "type=bind,source=//c/data/out.csv,target=/app/mount/out.csv",
        "--mount",
        "type=bind,readonly=true,source=/assets/logo.png,target=/app/assets/logo.png",
        "-e",
        "SHINKAI_NODE_LOCATION=https://host.docker.internal:9550",
        "-e",
        "SHINKAI_HOME=/app/home",
        "-e",
        "SHINKAI_ASSETS=/app/assets/logo.png",
        "-e",
        "SHINKAI_MOUNT=/app/mount/in.csv,/app/mount/out.csv",
        "-e",
        "SHINKAI_CONTEXT_ID=ctx",
        "-e",
        "SHINKAI_EXECUTION_ID=run1",
        "-e",
        "API_KEY=k=1",
        "-e",
        "EMPTY=",
        "--workdir",
        "/app",
        "runner:1",
        "/bin/bash",
        "-c",
        "uv run --project code/run1/pyproject.toml code/run1/main.py",
    ]);
    assert_eq!(docker_run_args(&options(), &storage(), &envs), expected);
    let plan = docker_run_command(&options(), &storage(), &envs);
    assert_eq!(plan.program, "docker");
    assert_eq!(plan.args, expected);
    assert!(plan.envs.is_empty());
    assert_eq!(plan.current_dir, None);
}

#[test]
fn docker_arguments_without_files_or_variables() {
    let mut options = options();
    options.context.mount_files.clear();
    options.context.assets_files.clear();
    let args = docker_run_args(&options, &storage(), &Vec::new());
    assert_eq!(
        args,
        strings(&[
            "run",
            "--rm",
            "--mount",
            "type=bind,source=/jobs/ctx/code/run1,target=/app/code/run1",
            "--mount",
            "type=bind,source=/jobs/ctx/home,target=/app/home",
            "-e",
            "SHINKAI_NODE_LOCATION=https://host.docker.internal:9550",
            "-e",
            "SHINKAI_HOME=/app/home",
            "-e",
            "SHINKAI_ASSETS=",
            "-e",
            "SHINKAI_MOUNT=",
            "-e",
            "SHINKAI_CONTEXT_ID=ctx",
            "-e",
            "SHINKAI_EXECUTION_ID=run1",
            "--workdir",
            "/app",
            "runner:1",
            "/bin/bash",
            "-c",
            "uv run --project code/run1/pyproject.toml code/run1/main.py",
        ])
    );
}

#[test]
fn bind_mounts_name_source_and_target() {
    assert_eq!(bind_mount("/a", "/app/a", false), "type=bind,source=/a,target=/app/a");
    assert_eq!(
        bind_mount("D:\\x\\y", "/app/y", true),
        "type=bind,readonly=true,source=//d/x/y,target=/app/y"
    );
    assert_eq!(container_path("code"), "/app/code");
    assert_eq!(container_file("mount", "f.txt"), "/app/mount/f.txt");
}

#[test]
fn host_command_runs_the_tool_in_the_root_folder() {
    let envs = vec![("SHINKAI_HOME".to_string(), "/override".to_string())];
    let plan = host_run_command(&options(), &storage(), "/usr/bin/uv", &envs);
    assert_eq!(plan.program, "/usr/bin/uv");
    assert_eq!(
        plan.args,
        strings(&["run", "--project", "/jobs/ctx/code/run1/pyproject.toml", "/jobs/ctx/code/run1/main.py"])
    );
    assert_eq!(plan.current_dir, Some("/jobs/ctx".to_string()));
    let expected: Vec<(String, String)> = [
        ("SHINKAI_NODE_LOCATION", "https://node.local:9550"),
        ("SHINKAI_HOME", "/jobs/ctx/home"),
        ("SHINKAI_ASSETS", "/assets/logo.png"),
        ("SHINKAI_MOUNT", "/data/in.csv,C:\\data\\out.csv"),
        ("SHINKAI_CONTEXT_ID", "ctx"),
        ("SHINKAI_EXECUTION_ID", "run1"),
        ("SHINKAI_HOME", "/override"),
    ]
    .iter()
    .map(|(k, v)| (k.to_string(), v.to_string()))
    .collect();
    assert_eq!(plan.envs, expected);
}

#[test]
fn venv_command_is_needed_only_once() {
    assert!(venv_command("/usr/bin/uv", "/cache/venv", true).is_none());
    let plan = venv_command("/usr/bin/uv", "/cache/venv", false).unwrap();
    assert_eq!(plan.program, "/usr/bin/uv");
    assert_eq!(plan.args, strings(&["venv", "--seed", "/cache/venv", "--python", "3.13"]));
    assert!(plan.envs.is_empty());
    assert_eq!(plan.current_dir, None);
}

#[test]
fn interpreter_lies_in_the_environment() {
    assert_eq!(python_in_venv("/cache/venv", false), "/cache/venv/bin/python");
    assert_eq!(python_in_venv("/cache/venv/", false), "/cache/venv/bin/python");
    assert_eq!(python_in_venv("C:\\cache\\venv", true), "C:\\cache\\venv\\Scripts\\python.exe");
    assert_eq!(path_join("", "bin", false), "bin");
    assert_eq!(path_join("a", "b", false), "a/b");
}

#[test]
fn check_compiles_the_entry_file_in_the_code_folder() {
    let plan = check_command(&storage(), "/cache/venv/bin/python");
    assert_eq!(plan.program, "/cache/venv/bin/python");
    assert_eq!(plan.args, strings(&["-m", "py_compile", "/jobs/ctx/code/run1/main.py"]));
    assert_eq!(plan.current_dir, Some("/jobs/ctx/code/run1".to_string()));
    assert!(plan.envs.is_empty());
}

#[test]
fn check_reports_the_lines_of_the_error_stream() {
    assert_eq!(check_outcome(true, "ignored\n"), Vec::<String>::new());
    assert_eq!(
        check_outcome(false, "  File \"main.py\", line 1\r\nSyntaxError: invalid syntax\n"),
        strings(&["  File \"main.py\", line 1", "SyntaxError: invalid syntax"])
    );
    assert_eq!(check_outcome(false, ""), Vec::<String>::new());
}

#[test]
fn forced_runner_is_used_whatever_the_probe_finds() {
    for docker in [DockerStatus::NotInstalled, DockerStatus::NotRunning, DockerStatus::Running] {
        assert_eq!(select_runner(Some(RunnerType::Host), docker), RunnerType::Host);
        assert_eq!(select_runner(Some(RunnerType::Docker), docker), RunnerType::Docker);
    }
    assert!(!needs_probe(Some(RunnerType::Host)));
    assert!(needs_probe(None));
}

#[test]
fn runner_follows_the_probe_where_none_is_forced() {
    assert_eq!(select_runner(None, DockerStatus::Running), RunnerType::Docker);
    assert_eq!(select_runner(None, DockerStatus::NotRunning), RunnerType::Host);
    assert_eq!(select_runner(None, DockerStatus::NotInstalled), RunnerType::Host);
}

#[test]
fn probe_tells_whether_the_engine_is_running() {
    assert_eq!(docker_status(false, None), DockerStatus::NotInstalled);
    assert_eq!(docker_status(false, Some(true)), DockerStatus::NotInstalled);
    assert_eq!(docker_status(true, Some(true)), DockerStatus::Running);
    assert_eq!(docker_status(true, Some(false)), DockerStatus::NotRunning);
    assert_eq!(docker_status(true, None), DockerStatus::NotRunning);
}

#[test]
fn path_join_knows_the_separators_of_windows() {
    assert_eq!(path_join("C:\\cache\\venv\\", "Scripts", true), "C:\\cache\\venv\\Scripts");
    assert_eq!(path_join("C:/cache/venv/", "Scripts", true), "C:/cache/venv/Scripts");
    assert_eq!(path_join("C:/cache/venv", "Scripts", true), "C:/cache/venv\\Scripts");
    assert_eq!(path_join("C:", "Scripts", true), "C:Scripts");
    assert_eq!(path_join("c:", "Scripts", true), "c:Scripts");
    assert_eq!(path_join("C:\\", "Scripts", true), "C:\\Scripts");
    assert_eq!(path_join("", "Scripts", true), "Scripts");
    assert_eq!(path_join("1:", "Scripts", true), "1:\\Scripts");
    assert_eq!(python_in_venv("C:", true), "C:Scripts\\python.exe");
    assert_eq!(python_in_venv("C:/venv/", true), "C:/venv/Scripts\\python.exe");
}

#[test]
fn path_join_knows_one_separator_elsewhere() {
    assert_eq!(path_join("a\\", "b", false), "a\\/b");
    assert_eq!(path_join("C:", "b", false), "C:/b");
    assert_eq!(path_join("/", "b", false), "/b");
}

#[test]
fn path_join_agrees_with_the_standard_library_here() {
    let separator = std::path::MAIN_SEPARATOR;
    let windows = separator == '\\';
    for base in ["", "a", "a/", "/", "/cache/venv", "/cache/venv/", "rel/x"] {
        let expected = std::path::Path::new(base).join("bin").join("python");
        assert_eq!(python_in_venv(base, windows).replace("Scripts", "bin").replace("python.exe", "python"),
            expected.to_string_lossy());
    }
}
