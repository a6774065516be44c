use cooplan_definitions_lib::validated_source_attribute::ValidatedSourceAttribute;
use cooplan_definitions_lib::validated_source_category::ValidatedSourceCategory;
use definition_downloader::config::output_config::OutputConfig;
use definition_downloader::definition::definition_set::DefinitionSet;
use definition_downloader::definition::publish_stage::PublishStage;
use definition_downloader::error::{Error, ErrorKind};
use definition_downloader::retry::AttemptDecision;

fn config(connect_bound: i32, publish_bound: i32) -> OutputConfig {
    OutputConfig {
        amqp_channel_name: String::from("definitions"),
        connection_retry_count: connect_bound,
        connection_retry_interval_seconds: 1,
        set_retry_count: publish_bound,
        set_retry_interval_seconds: 1,
    }
}

fn sink_error() -> Error {
    Error::new(ErrorKind::DataWritingFailure, "sink unreachable")
}

fn sample_set(version: &str) -> DefinitionSet {
    DefinitionSet {
        version: String::from(version),
        categories: vec![ValidatedSourceCategory {
            id: String::from("c1"),
            parent: None,
            parent_name: None,
            name: String::from("fruit"),
            selectable_as_last: true,
            attributes: vec![ValidatedSourceAttribute {
                id: String::from("a1"),
                name: String::from("weight"),
                data_type: String::from("number"),
                unit: Some(String::from("kg")),
                optional: false,
            }],
        }],
    }
}

#[test]
fn publish_succeeds_once_after_two_failed_attempts_within_bound_three() {
    let mut stage = PublishStage::new(config(3, 3));
    assert_eq!(stage.on_connect_outcome(Ok(())), AttemptDecision::Succeeded);

    let mut successes = 0;
    let mut delays = 0;
    let mut attempt = 0;
    loop {
        // the sink is unreachable for the first two attempts, then answers
        let outcome = if attempt < 2 { Err(sink_error()) } else { Ok(()) };
        attempt += 1;
        match stage.on_publish_outcome(outcome) {
            AttemptDecision::Succeeded => {
                successes += 1;
                break;
            }
            AttemptDecision::RetryAfter { delay_seconds } => {
                assert_eq!(delay_seconds, 1);
                delays += 1;
            }
            other => panic!("unexpected decision: {:?}", other),
        }
    }
    assert_eq!(successes, 1);
    assert_eq!(delays, 2);
    assert_eq!(stage.publish_failures, 0);
}

#[test]
fn publish_exhaustion_is_fatal_for_this_deployment() {
    let mut stage = PublishStage::new(config(3, 1));
    stage.on_connect_outcome(Ok(()));
    assert_eq!(
        stage.on_publish_outcome(Err(sink_error())),
        AttemptDecision::RetryAfter { delay_seconds: 1 }
    );
    assert_eq!(
        stage.on_publish_outcome(Err(sink_error())),
        AttemptDecision::FatalGiveUp
    );
}

#[test]
fn connect_retries_then_gives_up_fatally() {
    let mut stage = PublishStage::new(config(1, 3));
    assert_eq!(
        stage.on_connect_outcome(Err(Error::new(ErrorKind::ConnectionFailure, "refused"))),
        AttemptDecision::RetryAfter { delay_seconds: 1 }
    );
    assert!(!stage.is_connected());
    assert_eq!(
        stage.on_connect_outcome(Err(Error::new(ErrorKind::ConnectionFailure, "refused"))),
        AttemptDecision::FatalGiveUp
    );
    assert!(!stage.is_connected());
    assert_eq!(stage.on_connect_outcome(Ok(())), AttemptDecision::Succeeded);
    assert!(stage.is_connected());
}

#[test]
fn no_publish_payload_before_the_connection_stands() {
    let stage = PublishStage::new(config(3, 3));
    let r = stage.prepare_publish(&sample_set("rev-1"));
    assert_eq!(r.unwrap_err().kind(), ErrorKind::ChannelNotAvailable);
}

#[test]
fn payload_is_the_json_rendering_of_the_aggregate() {
    let mut stage = PublishStage::new(config(3, 3));
    stage.on_connect_outcome(Ok(()));
    let set = sample_set("rev-4");
    let expected = serde_json::to_string(&cooplan_definitions_lib::definition::Definition::new(
        set.version.clone(),
        set.categories.clone(),
    ))
    .unwrap();
    let payload = stage.prepare_publish(&set).unwrap();
    assert_eq!(payload, expected);
}

#[test]
fn payload_carries_version_and_categories() {
    let mut stage = PublishStage::new(config(3, 3));
    stage.on_connect_outcome(Ok(()));
    let payload = stage.prepare_publish(&sample_set("rev-9")).unwrap();
    assert!(payload.contains("rev-9"));
    assert!(payload.contains("fruit"));
    assert!(payload.contains("\"optional\":false"));
}

#[test]
fn publishing_the_same_aggregate_twice_is_a_harmless_duplicate() {
    let mut stage = PublishStage::new(config(3, 3));
    stage.on_connect_outcome(Ok(()));

    // a retry after an ambiguous failure re-sends the very same message body
    let mut sink: Vec<String> = Vec::new();
    let first = stage.prepare_publish(&sample_set("rev-1")).unwrap();
    sink.push(first);
    assert_eq!(stage.on_publish_outcome(Ok(())), AttemptDecision::Succeeded);
    let second = stage.prepare_publish(&sample_set("rev-1")).unwrap();
    sink.push(second);
    assert_eq!(stage.on_publish_outcome(Ok(())), AttemptDecision::Succeeded);

    assert_eq!(sink.len(), 2);
    assert_eq!(sink[0], sink[1]);
}
