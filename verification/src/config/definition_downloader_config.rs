use vstd::prelude::*;

verus! {

/// Configuration of the sync stage: how often to look for updates, and the
/// retry bound and delay of the initial download and of each periodic
/// update. A negative retry bound means unlimited retries.
#[derive(Debug, Clone)]
pub struct DefinitionDownloaderConfig {
    pub update_interval_seconds: u64,
    pub download_retry_count: i32,
    pub download_retry_interval_seconds: u64,
    pub update_retry_count: i32,
    pub update_retry_interval_seconds: u64,
}

} // verus!
