use definition_downloader::config::definition_downloader_config::DefinitionDownloaderConfig;
use definition_downloader::definition::sync_stage::{SyncPhase, SyncStage};
use definition_downloader::error::{Error, ErrorKind};
use definition_downloader::retry::AttemptDecision;

fn config(download_bound: i32, update_bound: i32) -> DefinitionDownloaderConfig {
    DefinitionDownloaderConfig {
        update_interval_seconds: 1,
        download_retry_count: download_bound,
        download_retry_interval_seconds: 1,
        update_retry_count: update_bound,
        update_retry_interval_seconds: 1,
    }
}

fn transport_error() -> Error {
    Error::new(ErrorKind::FailedToCloneRepository, "remote unreachable")
}

#[test]
fn download_succeeds_on_third_attempt_within_bound_two() {
    let mut stage = SyncStage::new(config(2, 2));
    assert!(!stage.state.available);

    let d1 = stage.on_outcome(Err(transport_error()));
    assert_eq!(d1, AttemptDecision::RetryAfter { delay_seconds: 1 });
    assert!(!stage.state.available);

    let d2 = stage.on_outcome(Err(transport_error()));
    assert_eq!(d2, AttemptDecision::RetryAfter { delay_seconds: 1 });
    assert!(!stage.state.available);

    let d3 = stage.on_outcome(Ok(String::from("rev-3")));
    assert_eq!(d3, AttemptDecision::Succeeded);
    assert!(stage.state.available);
    assert_eq!(stage.state.value.as_deref(), Some("rev-3"));
    assert_eq!(stage.phase, SyncPhase::Available);
    assert_eq!(stage.download_failures, 0);
}

#[test]
fn download_exhaustion_is_fatal() {
    let mut stage = SyncStage::new(config(2, 2));
    assert_eq!(
        stage.on_outcome(Err(transport_error())),
        AttemptDecision::RetryAfter { delay_seconds: 1 }
    );
    assert_eq!(
        stage.on_outcome(Err(transport_error())),
        AttemptDecision::RetryAfter { delay_seconds: 1 }
    );
    let d = stage.on_outcome(Err(transport_error()));
    assert_eq!(d, AttemptDecision::FatalGiveUp);
    assert!(!stage.state.available);
}

#[test]
fn tick_withdraws_broadcast_before_update_runs() {
    let mut stage = SyncStage::new(config(0, 0));
    stage.on_outcome(Ok(String::from("rev-1")));
    assert!(stage.state.available);

    stage.on_update_tick();
    assert_eq!(stage.phase, SyncPhase::Updating);
    assert!(!stage.state.available);
    assert!(stage.state.value.is_none());
}

#[test]
fn update_success_broadcasts_new_version() {
    let mut stage = SyncStage::new(config(0, 0));
    stage.on_outcome(Ok(String::from("rev-1")));
    stage.on_update_tick();
    let d = stage.on_outcome(Ok(String::from("rev-2")));
    assert_eq!(d, AttemptDecision::Succeeded);
    assert!(stage.state.available);
    assert_eq!(stage.state.value.as_deref(), Some("rev-2"));
}

#[test]
fn update_exhaustion_is_soft_and_leaves_stage_unavailable() {
    let mut stage = SyncStage::new(config(0, 1));
    stage.on_outcome(Ok(String::from("rev-1")));
    stage.on_update_tick();

    let d1 = stage.on_outcome(Err(transport_error()));
    assert_eq!(d1, AttemptDecision::RetryAfter { delay_seconds: 1 });
    let d2 = stage.on_outcome(Err(transport_error()));
    assert_eq!(d2, AttemptDecision::SoftGiveUp);

    assert!(!stage.state.available);
    assert_eq!(stage.phase, SyncPhase::Available);
    assert_eq!(stage.update_failures, 2);

    // the next tick may try again; the counter only resets on success
    stage.on_update_tick();
    let d3 = stage.on_outcome(Err(transport_error()));
    assert_eq!(d3, AttemptDecision::SoftGiveUp);
    let d4 = stage.on_outcome(Ok(String::from("rev-2")));
    assert_eq!(d4, AttemptDecision::Succeeded);
    assert_eq!(stage.update_failures, 0);
    assert!(stage.state.available);
}

#[test]
fn unlimited_download_retries_with_negative_bound() {
    let mut stage = SyncStage::new(config(-1, -1));
    for _ in 0..50 {
        let d = stage.on_outcome(Err(transport_error()));
        assert_eq!(d, AttemptDecision::RetryAfter { delay_seconds: 1 });
    }
    let d = stage.on_outcome(Ok(String::from("rev-1")));
    assert_eq!(d, AttemptDecision::Succeeded);
    assert!(stage.state.available);
}
