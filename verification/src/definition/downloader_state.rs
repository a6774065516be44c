use vstd::prelude::*;

verus! {

/// The sync stage's broadcast in its compact form: whether a fully
/// downloaded, not currently mid-update checkout is available.
#[derive(Debug, Clone, Copy, PartialEq, Eq, Structural)]
pub struct DownloaderState {
    pub available: bool,
}

impl DownloaderState {
    pub fn new(available: bool) -> (r: DownloaderState)
        ensures
            r.available == available,
    {
        DownloaderState { available }
    }
}

} // verus!
