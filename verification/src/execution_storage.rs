//! The places on disk that the storage layer has set aside for one run.

use vstd::prelude::*;

verus! {

/// The paths of one run, as the storage layer gives them. The `relative`
/// ones are taken from the root folder of the run and written with
/// forward slashes.
#[derive(Clone, Debug)]
pub struct ExecutionStorage {
    pub root_folder_path: String,
    pub code_folder_path: String,
    pub code_entrypoint_file_path: String,
    /// The path of the manifest, which lies in the code folder.
    pub manifest_file_path: String,
    pub home_folder_path: String,
    pub python_cache_folder_path: String,
    pub code_folder_relative: String,
    pub code_entrypoint_relative: String,
    pub manifest_relative: String,
    pub home_folder_relative: String,
    pub mount_folder_relative: String,
    pub assets_folder_relative: String,
}

} // verus!
