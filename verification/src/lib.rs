//! Keeps a downstream message queue in sync with a version-controlled
//! definition repository, through a three-stage pipeline: a sync stage that
//! downloads and updates the local checkout, an ingest stage that validates
//! the definition files into an aggregate, and a publish stage that sends the
//! aggregate to the queue. Each stage broadcasts an availability flag that
//! gates the next stage, and retries its own failures under a per-operation
//! retry policy.

pub mod config;
pub mod definition;
pub mod definition_downloader;
pub mod definition_downloader_state;
pub mod definition_git_downloader;
pub mod error;
pub mod retry;
pub mod stage_state;
