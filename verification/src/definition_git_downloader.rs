use vstd::prelude::*;

verus! {

/// The elder form of the source-sync capability's identity, configured
/// field by field rather than from a `GitConfig`. As with `GitDownloader`,
/// the downloads and updates themselves are I/O performed by the embedding
/// program.
pub struct DefinitionGitDownloader {
    pub repository_url: String,
    pub repository_local_dir: String,
    pub remote_name: String,
    pub remote_branch: String,
}

impl DefinitionGitDownloader {
    pub fn new(
        repository_url: String,
        repository_local_dir: String,
        remote_name: String,
        remote_branch: String,
    ) -> (r: DefinitionGitDownloader)
        ensures
            r.repository_url == repository_url,
            r.repository_local_dir == repository_local_dir,
            r.remote_name == remote_name,
            r.remote_branch == remote_branch,
    {
        DefinitionGitDownloader { repository_url, repository_local_dir, remote_name, remote_branch }
    }
}

} // verus!
