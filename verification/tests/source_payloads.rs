use gpt_webai_lifecycle::contracts::envelope::EventHeader;
use gpt_webai_lifecycle::contracts::events::{Aggregate, AggregateKind, EventType, Writer, EVENT_SCHEMA};
use gpt_webai_lifecycle::contracts::semantics::JsonValue;
use gpt_webai_lifecycle::journal::sources::{source_payloads_valid, sources_valid};

fn header(event_type: EventType, aggregate: &str, event_id: &str) -> EventHeader {
    EventHeader {
        aggregate: Aggregate { id: aggregate.to_string(), kind: AggregateKind::Request },
        created_at_ms: 1,
        event_id: event_id.to_string(),
        event_type,
        operation_id: "op-1".to_string(),
        predecessor_event_id: None,
        request_id: Some("req_1".to_string()),
        run_id: None,
        schema_version: EVENT_SCHEMA.to_string(),
        source_event_ids: vec![],
        writer: Writer {
            host_id: "host".to_string(),
            process_id: 1,
            process_start_ms: 1,
            writer_id: "w".to_string(),
        },
        payload_keys: None,
        payload_texts: vec![],
    }
}

fn object(fields: Vec<(&str, JsonValue)>) -> JsonValue {
    JsonValue::Object(fields.into_iter().map(|(k, v)| (k.to_string(), v)).collect())
}

fn text(s: &str) -> JsonValue {
    JsonValue::Text(s.to_string())
}

#[test]
fn a_claim_names_the_request_of_its_source() {
    let event = header(EventType::RequestClaimGranted, "claim_1", "e2");
    let payload = object(vec![("requestId", text("req_1"))]);
    let good = vec![(header(EventType::RequestAccepted, "req_1", "e1"), object(vec![("requestId", text("req_1"))]))];
    let other = vec![(header(EventType::RequestAccepted, "req_2", "e1"), object(vec![("requestId", text("req_2"))]))];
    assert!(source_payloads_valid(&event, &payload, &good));
    assert!(!source_payloads_valid(&event, &payload, &other));
    assert!(!source_payloads_valid(&event, &payload, &vec![]));
}

#[test]
fn exhaustion_follows_ten_skips_in_scan_order() {
    let event = header(EventType::AllocationExhausted, "allocator", "e11");
    let payload = object(vec![("requestId", text("req_1"))]);
    let scan = |i: u64, decision: &str| {
        (
            header(EventType::AllocationCandidateObserved, "allocator", "e"),
            object(vec![
                ("requestId", text("req_1")),
                ("scanOrdinal", JsonValue::Unsigned(i)),
                ("decision", text(decision)),
            ]),
        )
    };
    let skips: Vec<_> = (0..10).map(|i| scan(i, "skip")).collect();
    assert!(source_payloads_valid(&event, &payload, &skips));
    let mut out_of_order: Vec<_> = (0..10).map(|i| scan(i, "skip")).collect();
    out_of_order.swap(0, 1);
    assert!(!source_payloads_valid(&event, &payload, &out_of_order));
    let nine: Vec<_> = (0..9).map(|i| scan(i, "skip")).collect();
    assert!(!source_payloads_valid(&event, &payload, &nine));
}

#[test]
fn an_explicit_release_gives_up_resources_in_rank_order() {
    let event = header(EventType::ReleaseStarted, "release_1", "e9");
    let payload = object(vec![("reason", text("release.explicit"))]);
    let held = |t: EventType| (header(t, "x", "e"), object(vec![]));
    let ordered = vec![held(EventType::RequestClaimGranted), held(EventType::SlotLeaseGranted), held(EventType::RuntimeOwnershipGranted)];
    assert!(source_payloads_valid(&event, &payload, &ordered));
    let reversed = vec![held(EventType::SlotLeaseGranted), held(EventType::RequestClaimGranted)];
    assert!(!source_payloads_valid(&event, &payload, &reversed));
    let published = object(vec![("reason", text("release.output_published"))]);
    assert!(source_payloads_valid(&event, &published, &vec![held(EventType::OutputPublished)]));
    assert!(!source_payloads_valid(&event, &published, &vec![held(EventType::PollFailed)]));
}

#[test]
fn a_finalized_release_without_a_slot_says_so() {
    let event = header(EventType::ReleaseFinalized, "release_1", "e9");
    let none = object(vec![("finalStatus", text("resources_released_no_slot"))]);
    assert!(source_payloads_valid(&event, &none, &vec![]));
    let allocatable = object(vec![("finalStatus", text("allocatable")), ("releaseId", text("r1"))]);
    assert!(!source_payloads_valid(&event, &allocatable, &vec![]));
    let standby = (header(EventType::SlotStandbyWritten, "slot-01", "e7"), object(vec![("releaseId", text("r1")), ("slotId", text("slot-01"))]));
    let cleared = (header(EventType::CooldownCleared, "slot-01", "e8"), object(vec![("slotId", text("slot-01"))]));
    assert!(source_payloads_valid(&event, &allocatable, &vec![standby, cleared]));
}

#[test]
fn sources_are_held_to_their_kinds_then_their_payloads() {
    let event = header(EventType::RequestClaimGranted, "claim_1", "e2");
    let payload = object(vec![("requestId", text("req_1"))]);
    let accepted = |req: &str| (header(EventType::RequestAccepted, req, "e1"), object(vec![("requestId", text(req))]));
    assert!(sources_valid(&event, &payload, &vec![accepted("req_1")]));
    assert!(!sources_valid(&event, &payload, &vec![accepted("req_2")]));
    let wrong_kind = vec![(header(EventType::SlotLeaseGranted, "req_1", "e1"), object(vec![("requestId", text("req_1"))]))];
    assert!(!sources_valid(&event, &payload, &wrong_kind));
    assert!(!sources_valid(&event, &payload, &vec![accepted("req_1"), accepted("req_1")]));
}
