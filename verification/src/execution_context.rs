//! What a caller says about one run: who asks, and which files of the host
//! the job may see.

use vstd::prelude::*;

verus! {

/// A file of the host that is bound into the job.
#[derive(Clone, Debug)]
pub struct HostFile {
    /// The absolute path of the file on the host.
    pub absolute_path: String,
    /// The last component of that path: the name under which the job
    /// finds the file.
    pub file_name: String,
}

/// The identifiers of a run and the files bound into it.
#[derive(Clone, Debug)]
pub struct ExecutionContext {
    pub context_id: String,
    pub execution_id: String,
    /// Files that the job may read and write.
    pub mount_files: Vec<HostFile>,
    /// Files that the job may only read.
    pub assets_files: Vec<HostFile>,
}

impl HostFile {
    pub fn new(absolute_path: String, file_name: String) -> (r: Self)
        ensures
            r.absolute_path == absolute_path,
            r.file_name == file_name,
    {
        HostFile { absolute_path, file_name }
    }
}

impl ExecutionContext {
    /// A context with the given identifiers and no files.
    pub fn new(context_id: String, execution_id: String) -> (r: Self)
        ensures
            r.context_id == context_id,
            r.execution_id == execution_id,
            r.mount_files@.len() == 0,
            r.assets_files@.len() == 0,
    {
        ExecutionContext {
            context_id,
            execution_id,
            mount_files: Vec::new(),
            assets_files: Vec::new(),
        }
    }
}

} // verus!
