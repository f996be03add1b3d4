use vstd::prelude::*;
use std::collections::HashMap;

verus! {

/// Counts that describe a workspace.
#[derive(Debug, Clone)]
pub struct WorkspaceStats {
    pub total_projects: usize,
    pub total_repos: usize,
    pub total_files: usize,
    pub total_size_bytes: u64,
    /// Number of files per extension.
    pub file_types: HashMap<String, usize>,
    pub ctf_count: usize,
    pub ctf_solved: usize,
}

impl Default for WorkspaceStats {
    /// All counts zero, no file types.
    fn default() -> (r: Self)
        ensures
            r.total_projects == 0,
            r.total_repos == 0,
            r.total_files == 0,
            r.total_size_bytes == 0,
            r.file_types@ == Map::<String, usize>::empty(),
            r.ctf_count == 0,
            r.ctf_solved == 0,
    {
        WorkspaceStats {
            total_projects: 0,
            total_repos: 0,
            total_files: 0,
            total_size_bytes: 0,
            file_types: HashMap::new(),
            ctf_count: 0,
            ctf_solved: 0,
        }
    }
}

} // verus!
