use vstd::prelude::*;

use crate::config::git_config::GitConfig;

verus! {

/// The source-sync capability's identity: which remote repository the sync
/// stage downloads, where the checkout lives, and which remote and branch
/// updates are pulled from. The downloads and updates themselves are I/O
/// performed by the embedding program; the sync stage only ever sees their
/// outcomes.
pub struct GitDownloader {
    pub repository_url: String,
    pub repository_local_dir: String,
    pub remote_name: String,
    pub remote_branch: String,
}

impl GitDownloader {
    pub fn new(git_config: GitConfig) -> (r: GitDownloader)
        ensures
            r.repository_url == git_config.repository_url,
            r.repository_local_dir == git_config.repository_local_dir,
            r.remote_name == git_config.remote_name,
            r.remote_branch == git_config.remote_branch,
    {
        GitDownloader {
            repository_url: git_config.repository_url,
            repository_local_dir: git_config.repository_local_dir,
            remote_name: git_config.remote_name,
            remote_branch: git_config.remote_branch,
        }
    }
}

} // verus!
