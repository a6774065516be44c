use vstd::prelude::*;

verus! {

/// The sync stage's broadcast in its oldest form: the bare availability
/// flag.
#[derive(Debug, Clone, Copy, PartialEq, Eq, Structural)]
pub struct DefinitionDownloaderState {
    pub available: bool,
}

impl DefinitionDownloaderState {
    pub fn new(available: bool) -> (r: DefinitionDownloaderState)
        ensures
            r.available == available,
    {
        DefinitionDownloaderState { available }
    }
}

} // verus!
