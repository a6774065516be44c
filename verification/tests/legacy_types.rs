use definition_downloader::config::git_config::GitConfig;
use definition_downloader::definition::git_downloader::GitDownloader;
use definition_downloader::definition::git_version_detector::GitVersionDetector;
use definition_downloader::definition_git_downloader::DefinitionGitDownloader;

#[test]
fn git_downloader_takes_its_identity_from_the_config() {
    let downloader = GitDownloader::new(GitConfig {
        repository_url: String::from("https://example.test/definitions.git"),
        repository_local_dir: String::from("./definitions"),
        remote_name: String::from("origin"),
        remote_branch: String::from("main"),
    });
    assert_eq!(downloader.repository_url, "https://example.test/definitions.git");
    assert_eq!(downloader.repository_local_dir, "./definitions");
    assert_eq!(downloader.remote_name, "origin");
    assert_eq!(downloader.remote_branch, "main");
}

#[test]
fn definition_git_downloader_keeps_its_fields() {
    let downloader = DefinitionGitDownloader::new(
        String::from("https://example.test/definitions.git"),
        String::from("./definitions"),
        String::from("origin"),
        String::from("main"),
    );
    assert_eq!(downloader.repository_url, "https://example.test/definitions.git");
    assert_eq!(downloader.repository_local_dir, "./definitions");
    assert_eq!(downloader.remote_name, "origin");
    assert_eq!(downloader.remote_branch, "main");
}

#[test]
fn version_detector_keeps_its_directory() {
    let detector = GitVersionDetector::new(String::from("./definitions"));
    assert_eq!(detector.repository_local_dir, "./definitions");
}
