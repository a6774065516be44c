pub mod definition_repository;
pub mod definition_set;
pub mod downloader_state;
pub mod git_downloader;
pub mod git_version_detector;
pub mod ingest_stage;
pub mod publish_stage;
pub mod source_data;
pub mod sync_stage;
