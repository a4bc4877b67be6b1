//! The runner of a job: its files, its configuration and its options, and
//! what is decided before its process starts and after it has ended.

use vstd::prelude::*;
use crate::code_files::{CodeBundle, CodeFiles};
use crate::execution_error::{ErrorKind, ExecutionError};
use crate::instrumentation::{instrument, spec_instrument};
use crate::json_value::json_text;
use crate::manifest::{
    extend_with_pyproject_toml, extension_view, spec_extend_with_pyproject_toml,
    spec_failure_message, spec_inline_metadata, spec_listed_dependencies,
    spec_manifest_dependencies, ManifestError, PYPROJECT_TOML_FILE_NAME,
};
use crate::python_runner_options::PythonRunnerOptions;
use crate::result_protocol::{extract_result, extraction_view, spec_extract_result};
use crate::run_result::RunResult;
use crate::runner_type::{select_runner, spec_select_runner, DockerStatus, RunnerType};
use crate::text::chars::views;

verus! {

/// The time in milliseconds that the engine allows its own short tasks,
/// such as the probe for the container engine.
pub const MAX_EXECUTION_TIME_MS_INTERNAL_OPS: u64 = 1000;

/// What the message of a job without its entry file starts with.
pub const NO_ENTRYPOINT_PREFIX: &'static str = "no entrypoint found ";

/// What the message of a job without a manifest starts with.
pub const NO_MANIFEST_PREFIX: &'static str = "failed to create pyproject.toml: ";

/// The runner of one job.
#[derive(Debug)]
pub struct PythonRunner {
    code: CodeFiles,
    configurations: serde_json::Value,
    options: PythonRunnerOptions,
}

/// The files that the process of a job runs on, for the files `bundle` of
/// the caller, a configuration with the compact text `configurations` and
/// parameters with the compact text `parameters`: the files with their
/// manifest, and the entry file wrapped into the program of the job. It
/// fails, with the kind of failure and its message, where the entry file
/// is not among the files or no manifest can be made.
pub open spec fn spec_prepare(
    bundle: CodeBundle,
    configurations: Seq<char>,
    parameters: Seq<char>,
) -> Result<CodeBundle, (ErrorKind, Seq<char>)> {
    if !bundle.files.contains_key(bundle.entrypoint) {
        Err((ErrorKind::Precondition, NO_ENTRYPOINT_PREFIX@ + bundle.entrypoint))
    } else {
        match spec_extend_with_pyproject_toml(bundle) {
            Err(failure) => Err(
                (ErrorKind::Precondition, NO_MANIFEST_PREFIX@ + spec_failure_message(failure)),
            ),
            Ok(extended) => Ok(
                CodeBundle {
                    files: extended.files.insert(
                        bundle.entrypoint,
                        spec_instrument(
                            extended.files[bundle.entrypoint],
                            configurations,
                            parameters,
                        ),
                    ),
                    entrypoint: bundle.entrypoint,
                },
            ),
        }
    }
}

/// What a preparation ends with, without the strings that carry it.
pub open spec fn preparation_view(r: Result<CodeFiles, ExecutionError>) -> Result<
    CodeBundle,
    (ErrorKind, Seq<char>),
> {
    match r {
        Ok(files) => Ok(files@),
        Err(error) => Err((error.kind, error.message@)),
    }
}

/// How a run ends, given how its process concluded: a process that failed
/// fails the run with its own message; the output of one that completed
/// yields the result, or the message of the failure to read it.
pub open spec fn spec_finish(
    conclusion: Result<Seq<Seq<char>>, Seq<char>>,
) -> Result<Seq<char>, Seq<char>> {
    match conclusion {
        Ok(stdout) => spec_extract_result(stdout),
        Err(message) => Err(message),
    }
}

impl PythonRunner {
    /// The files of the caller.
    pub closed spec fn code(&self) -> CodeBundle {
        self.code@
    }

    /// The compact text of the configuration.
    pub closed spec fn configurations(&self) -> Seq<char> {
        json_text(self.configurations)
    }

    /// The options.
    pub closed spec fn spec_options(&self) -> PythonRunnerOptions {
        self.options
    }

    /// A runner for the files `code_files` with the configuration
    /// `configurations` and the `options`, or the default ones where none
    /// are given.
    pub fn new(
        code_files: CodeFiles,
        configurations: serde_json::Value,
        options: Option<PythonRunnerOptions>,
    ) -> (r: Self)
        ensures
            r.code() == code_files@,
            r.configurations() == json_text(configurations),
            match options {
                Some(given) => r.spec_options() == given,
                None => r.spec_options().is_default(),
            },
    {
        let options = match options {
            Some(given) => given,
            None => PythonRunnerOptions::default(),
        };
        PythonRunner { code: code_files, configurations, options }
    }

    /// The options of the runner.
    pub fn options(&self) -> (r: &PythonRunnerOptions)
        ensures
            *r == self.spec_options(),
    {
        &self.options
    }

    /// The files of the caller.
    pub fn code_files(&self) -> (r: &CodeFiles)
        ensures
            r@ == self.code(),
    {
        &self.code
    }

    /// Takes the block of inline metadata out of the entry file of
    /// `code_files` and adds the manifest for it to the files.
    pub fn extend_with_pyproject_toml(code_files: CodeFiles) -> (r: Result<
        CodeFiles,
        ManifestError,
    >)
        ensures
            extension_view(r) == spec_extend_with_pyproject_toml(code_files@),
            r matches Ok(files) ==> spec_listed_dependencies(
                files@.files[PYPROJECT_TOML_FILE_NAME@],
            ) == spec_manifest_dependencies(
                spec_inline_metadata(code_files@.files[code_files@.entrypoint]),
            ),
    {
        extend_with_pyproject_toml(code_files)
    }

    /// The runner on which the job runs, given what the probe for the
    /// container engine found.
    pub fn runner_type(&self, docker: DockerStatus) -> (r: RunnerType)
        ensures
            r == spec_select_runner(self.spec_options().force_runner_type, docker),
    {
        select_runner(self.options.force_runner_type, docker)
    }

    /// The files that the process of the job runs on, for the
    /// `parameters` of one call.
    pub fn prepare(&self, parameters: &serde_json::Value) -> (r: Result<
        CodeFiles,
        ExecutionError,
    >)
        ensures
            preparation_view(r) == spec_prepare(
                self.code(),
                self.configurations(),
                json_text(*parameters),
            ),
            r matches Err(error) ==> error.code is None,
    {
        let entrypoint = self.code.entrypoint().clone();
        if !self.code.contains(entrypoint.as_str()) {
            let mut message = String::from_str(NO_ENTRYPOINT_PREFIX);
            message.append(entrypoint.as_str());
            return Err(ExecutionError::new(ErrorKind::Precondition, message, None));
        }
        let extended = match extend_with_pyproject_toml(self.code.copy()) {
            Ok(files) => files,
            Err(error) => {
                let mut message = String::from_str(NO_MANIFEST_PREFIX);
                message.append(error.message().as_str());
                return Err(ExecutionError::new(ErrorKind::Precondition, message, None));
            },
        };
        let program = match extended.get(entrypoint.as_str()) {
            Some(entry) => instrument(entry.as_str(), &self.configurations, parameters),
            None => {
                assert(false);
                String::new()
            },
        };
        Ok(extended.with_file(entrypoint, program))
    }

    /// How the run ends, given how its process concluded.
    pub fn finish(conclusion: Result<Vec<String>, ExecutionError>) -> (r: Result<
        RunResult,
        ExecutionError,
    >)
        ensures
            extraction_view(r) == spec_finish(
                match conclusion {
                    Ok(stdout) => Ok(views(stdout@)),
                    Err(error) => Err(error.message@),
                },
            ),
            conclusion matches Err(error) ==> r matches Err(same) && same == error,
            conclusion is Ok ==> (r matches Err(error) ==> error.kind == ErrorKind::ResultFormat
                && error.code is None),
    {
        match conclusion {
            Ok(stdout) => extract_result(&stdout),
            Err(error) => Err(error),
        }
    }
}

} // verus!
