use vstd::prelude::*;

verus! {

/// Configuration of the publish stage: the queue to publish to, and the
/// retry bound and delay of the initial connection and of each publish
/// attempt. A negative retry bound means unlimited retries.
#[derive(Debug, Clone)]
pub struct OutputConfig {
    pub amqp_channel_name: String,
    pub connection_retry_count: i32,
    pub connection_retry_interval_seconds: u64,
    pub set_retry_count: i32,
    pub set_retry_interval_seconds: u64,
}

} // verus!
