use vstd::prelude::*;

verus! {

/// Where the definition repository lives and where its checkout is kept.
#[derive(Debug, Clone)]
pub struct GitConfig {
    pub repository_url: String,
    pub repository_local_dir: String,
    pub remote_name: String,
    pub remote_branch: String,
}

} // verus!
