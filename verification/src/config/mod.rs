pub mod definition_downloader_config;
pub mod git_config;
pub mod output_config;
