use gpt_webai_lifecycle::contracts::envelope::{validate_event_header, EventHeader};
use gpt_webai_lifecycle::contracts::events::{Aggregate, AggregateKind, EventError, EventType, Writer, EVENT_SCHEMA};

fn hex(c: char, n: usize) -> String {
    std::iter::repeat(c).take(n).collect()
}

fn evt(c: char) -> String {
    format!("evt_{}", hex(c, 64))
}

fn accepted() -> EventHeader {
    EventHeader {
        aggregate: Aggregate { id: "req_1".to_string(), kind: AggregateKind::Request },
        created_at_ms: 1_000,
        event_id: evt('a'),
        event_type: EventType::RequestAccepted,
        operation_id: "op-1".to_string(),
        predecessor_event_id: None,
        request_id: Some("req_1".to_string()),
        run_id: Some("run_1".to_string()),
        schema_version: EVENT_SCHEMA.to_string(),
        source_event_ids: vec![],
        writer: Writer {
            host_id: format!("host_{}", hex('a', 32)),
            process_id: 9,
            process_start_ms: 5,
            writer_id: format!("writer_{}", hex('b', 64)),
        },
        payload_keys: Some(
            [
                "acceptedAtMs",
                "artifactExpectation",
                "attachmentCount",
                "kind",
                "promptSha256",
                "promptSizeBytes",
                "requestId",
            ]
            .iter()
            .map(|s| s.to_string())
            .collect(),
        ),
        payload_texts: vec![("requestId".to_string(), "req_1".to_string())],
    }
}

fn invalid(field: &'static str) -> Result<(), EventError> {
    Err(EventError::Invalid(field))
}

#[test]
fn a_well_formed_envelope_passes() {
    assert_eq!(validate_event_header(&accepted()), Ok(()));
}

#[test]
fn envelope_fields_are_checked_in_order() {
    let mut h = accepted();
    h.schema_version = "other".to_string();
    h.event_id = "evt_x".to_string();
    assert_eq!(validate_event_header(&h), invalid("schemaVersion"));
    let mut h = accepted();
    h.request_id = None;
    assert_eq!(validate_event_header(&h), invalid("runId without requestId"));
    let mut h = accepted();
    h.source_event_ids = vec![evt('b'), evt('b')];
    assert_eq!(validate_event_header(&h), invalid("sourceEventIds"));
    let mut h = accepted();
    h.predecessor_event_id = Some(evt('a'));
    assert_eq!(validate_event_header(&h), invalid("self dependency"));
    let mut h = accepted();
    h.source_event_ids = vec![evt('c'), "bad".to_string()];
    assert_eq!(validate_event_header(&h), invalid("event dependency id"));
    let mut h = accepted();
    h.writer.process_id = 0;
    assert_eq!(validate_event_header(&h), invalid("writer.processId"));
}

#[test]
fn payload_names_and_aggregate_are_checked() {
    let mut h = accepted();
    h.payload_keys = None;
    assert_eq!(validate_event_header(&h), invalid("payload"));
    let mut h = accepted();
    h.payload_keys.as_mut().unwrap().pop();
    assert_eq!(validate_event_header(&h), invalid("payload fields"));
    let mut h = accepted();
    h.aggregate.id = "req_2".to_string();
    assert_eq!(validate_event_header(&h), invalid("aggregate.id"));
    let mut h = accepted();
    h.aggregate.kind = AggregateKind::Qa;
    h.aggregate.id = "qa".to_string();
    assert_eq!(validate_event_header(&h), invalid("aggregate.kind"));
}

use gpt_webai_lifecycle::journal::order::{replay_events, ReplayError};

#[test]
fn replay_checks_every_envelope_first() {
    assert_eq!(replay_events(vec![accepted()]), Ok(vec![0]));
    let mut bad = accepted();
    bad.created_at_ms = 0;
    assert_eq!(
        replay_events(vec![accepted(), bad]),
        Err(ReplayError::Invalid("invalid event field: createdAtMs".to_string()))
    );
}
