use vstd::prelude::*;

verus! {

/// Where the version of the current checkout is read from. The read itself
/// opens the repository on disk and is I/O performed by the embedding
/// program; the pipeline only ever sees the version it yields.
pub struct GitVersionDetector {
    pub repository_local_dir: String,
}

impl GitVersionDetector {
    pub fn new(repository_local_dir: String) -> (r: GitVersionDetector)
        ensures
            r.repository_local_dir == repository_local_dir,
    {
        GitVersionDetector { repository_local_dir }
    }
}

} // verus!
