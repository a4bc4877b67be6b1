//! The options of a runner.

use vstd::prelude::*;
use crate::execution_context::ExecutionContext;
use crate::runner_type::RunnerType;

verus! {

/// Where the service is that a job may call back.
#[derive(Clone, Debug)]
pub struct ShinkaiNodeLocation {
    pub protocol: String,
    pub host: String,
    pub port: u16,
}

/// The options of a runner. They do not change while the runner lives.
#[derive(Clone, Debug)]
pub struct PythonRunnerOptions {
    pub context: ExecutionContext,
    /// The path of the tool that provides and runs the interpreter.
    pub uv_binary_path: String,
    /// The image in which a container runs a job.
    pub code_runner_docker_image_name: String,
    /// The runner to use whatever the host offers, if any.
    pub force_runner_type: Option<RunnerType>,
    pub shinkai_node_location: ShinkaiNodeLocation,
}

pub const DEFAULT_UV_BINARY_PATH: &'static str = "./shinkai-tools-runner-resources/uv";

pub const DEFAULT_DOCKER_IMAGE_NAME: &'static str = "dcspark/shinkai-code-runner:0.9.4";

pub const DEFAULT_NODE_PROTOCOL: &'static str = "http";

pub const DEFAULT_NODE_HOST: &'static str = "127.0.0.1";

pub const DEFAULT_NODE_PORT: u16 = 9550;

impl Default for ShinkaiNodeLocation {
    fn default() -> (r: Self)
        ensures
            r.protocol@ == DEFAULT_NODE_PROTOCOL@,
            r.host@ == DEFAULT_NODE_HOST@,
            r.port == DEFAULT_NODE_PORT,
    {
        ShinkaiNodeLocation {
            protocol: String::from_str(DEFAULT_NODE_PROTOCOL),
            host: String::from_str(DEFAULT_NODE_HOST),
            port: DEFAULT_NODE_PORT,
        }
    }
}

impl PythonRunnerOptions {
    /// Whether these are the options that a runner has where none are
    /// given: empty identifiers, no files, no forced runner, and the
    /// default tool, image and service location.
    pub open spec fn is_default(&self) -> bool {
        &&& self.context.context_id@.len() == 0
        &&& self.context.execution_id@.len() == 0
        &&& self.context.mount_files@.len() == 0
        &&& self.context.assets_files@.len() == 0
        &&& self.uv_binary_path@ == DEFAULT_UV_BINARY_PATH@
        &&& self.code_runner_docker_image_name@ == DEFAULT_DOCKER_IMAGE_NAME@
        &&& self.force_runner_type is None
        &&& self.shinkai_node_location.protocol@ == DEFAULT_NODE_PROTOCOL@
        &&& self.shinkai_node_location.host@ == DEFAULT_NODE_HOST@
        &&& self.shinkai_node_location.port == DEFAULT_NODE_PORT
    }
}

impl Default for PythonRunnerOptions {
    fn default() -> (r: Self)
        ensures
            r.is_default(),
    {
        PythonRunnerOptions {
            context: ExecutionContext::new(String::new(), String::new()),
            uv_binary_path: String::from_str(DEFAULT_UV_BINARY_PATH),
            code_runner_docker_image_name: String::from_str(DEFAULT_DOCKER_IMAGE_NAME),
            force_runner_type: None,
            shinkai_node_location: ShinkaiNodeLocation::default(),
        }
    }
}

} // verus!
