//! The engine that runs caller-supplied Python code as a short job: what is
//! decided before the process of a job starts, while it runs and after it
//! has ended, with every decision stated as a contract and proved.
//!
//! The library starts no process and touches no disk. It makes the program
//! that a job runs and its manifest, chooses between the container and the
//! host, writes the command for either, follows the process through its
//! states, and reads the result from what the process wrote.

pub mod check_utils;
pub mod code_files;
pub mod docker_command;
pub mod execution_context;
pub mod execution_error;
pub mod execution_storage;
pub mod file_name_utils;
pub mod host_command;
pub mod instrumentation;
pub mod json_value;
pub mod manifest;
pub mod process;
pub mod python_runner;
pub mod python_runner_options;
pub mod result_protocol;
pub mod run_result;
pub mod runner_type;
pub mod text;
pub mod toml_document;
