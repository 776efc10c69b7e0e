use gpt_webai_lifecycle::contracts::events::{AggregateKind, EventType};
use gpt_webai_lifecycle::journal::order::{dependency_order, topological, ReplayError, ReplayNode};
use gpt_webai_lifecycle::journal::replay::{
    exact_source_types, predecessor_allowed, release_sources_valid, source_types_valid,
};
use gpt_webai_lifecycle::journal::streams::{check_stream, validate_streams};

fn node(
    id: &str,
    event_type: EventType,
    kind: AggregateKind,
    aggregate: &str,
    created: u64,
    pred: Option<&str>,
    sources: &[&str],
) -> ReplayNode {
    ReplayNode {
        event_id: id.to_string(),
        event_type,
        aggregate_kind: kind,
        aggregate_id: aggregate.to_string(),
        created_at_ms: created,
        predecessor_event_id: pred.map(|p| p.to_string()),
        source_event_ids: sources.iter().map(|s| s.to_string()).collect(),
    }
}

fn request_flow() -> Vec<ReplayNode> {
    vec![
        node(
            "evt_staged",
            EventType::HostAttachmentsStaged,
            AggregateKind::Request,
            "req_1",
            150,
            Some("evt_accepted"),
            &["evt_claim"],
        ),
        node("evt_claim", EventType::RequestClaimGranted, AggregateKind::Claim, "claim_1", 200, None, &["evt_accepted"]),
        node("evt_accepted", EventType::RequestAccepted, AggregateKind::Request, "req_1", 100, None, &[]),
    ]
}

fn qa(id: &str, aggregate: &str, created: u64, sources: &[&str]) -> ReplayNode {
    node(id, EventType::QaMatrixRecorded, AggregateKind::Qa, aggregate, created, None, sources)
}

#[test]
fn replay_follows_dependencies_not_input_order() {
    let nodes = request_flow();
    assert_eq!(topological(&nodes), Ok(vec![2, 1, 0]));
    assert_eq!(dependency_order(&nodes), Ok(vec![2, 1, 0]));
}

#[test]
fn replay_breaks_ties_by_time_then_id() {
    let nodes = vec![qa("evt_b", "qa_1", 10, &[]), qa("evt_a", "qa_2", 10, &[]), qa("evt_c", "qa_3", 5, &[])];
    assert_eq!(topological(&nodes), Ok(vec![2, 1, 0]));
}

#[test]
fn replay_rejects_duplicate_ids() {
    let nodes = vec![qa("evt_a", "qa_1", 1, &[]), qa("evt_a", "qa_2", 2, &[])];
    assert_eq!(topological(&nodes), Err(ReplayError::Duplicate("eventId".to_string())));
}

#[test]
fn replay_reports_least_missing_source() {
    let nodes = vec![node(
        "evt_claim",
        EventType::RequestClaimGranted,
        AggregateKind::Claim,
        "claim_1",
        1,
        None,
        &["evt_z", "evt_m"],
    )];
    assert_eq!(topological(&nodes), Err(ReplayError::Missing("evt_m".to_string())));
}

#[test]
fn replay_reports_cycles() {
    let nodes = vec![qa("evt_a", "qa_1", 1, &["evt_b"]), qa("evt_b", "qa_2", 2, &["evt_a"])];
    assert_eq!(topological(&nodes), Err(ReplayError::Cycle));
}

#[test]
fn replay_checks_source_kinds() {
    let nodes = vec![
        qa("evt_qa", "qa_1", 1, &[]),
        node("evt_claim", EventType::RequestClaimGranted, AggregateKind::Claim, "claim_1", 2, None, &["evt_qa"]),
    ];
    assert_eq!(topological(&nodes), Err(ReplayError::Source("evt_claim".to_string())));
}

#[test]
fn streams_need_exactly_one_root() {
    let nodes = vec![
        node("evt_one", EventType::RequestAccepted, AggregateKind::Request, "req_1", 1, None, &[]),
        node("evt_two", EventType::RequestAccepted, AggregateKind::Request, "req_1", 2, None, &[]),
    ];
    assert_eq!(validate_streams(&nodes), Err(ReplayError::Predecessor("evt_one".to_string())));
    assert_eq!(topological(&nodes), Err(ReplayError::Predecessor("evt_one".to_string())));
}

#[test]
fn streams_check_transitions() {
    let nodes = vec![
        node("evt_accepted", EventType::RequestAccepted, AggregateKind::Request, "req_1", 1, None, &[]),
        node(
            "evt_capture",
            EventType::RootCaptureStarted,
            AggregateKind::Request,
            "req_1",
            2,
            Some("evt_accepted"),
            &[],
        ),
    ];
    assert_eq!(check_stream(&nodes, 0), Err(ReplayError::Transition("evt_capture".to_string())));
    let renewal_first = vec![node(
        "evt_renew",
        EventType::RequestClaimRenewed,
        AggregateKind::Claim,
        "claim_1",
        1,
        None,
        &[],
    )];
    assert_eq!(validate_streams(&renewal_first), Err(ReplayError::Transition("evt_renew".to_string())));
}

#[test]
fn streams_report_missing_and_forked_predecessors() {
    let missing = vec![
        node("evt_accepted", EventType::RequestAccepted, AggregateKind::Request, "req_1", 1, None, &[]),
        node(
            "evt_staged",
            EventType::HostAttachmentsStaged,
            AggregateKind::Request,
            "req_1",
            2,
            Some("evt_gone"),
            &[],
        ),
    ];
    assert_eq!(validate_streams(&missing), Err(ReplayError::Missing("evt_gone".to_string())));
    let forked = vec![
        node("evt_accepted", EventType::RequestAccepted, AggregateKind::Request, "req_1", 1, None, &[]),
        node(
            "evt_staged_a",
            EventType::HostAttachmentsStaged,
            AggregateKind::Request,
            "req_1",
            2,
            Some("evt_accepted"),
            &[],
        ),
        node(
            "evt_staged_b",
            EventType::HostAttachmentsStaged,
            AggregateKind::Request,
            "req_1",
            3,
            Some("evt_accepted"),
            &[],
        ),
    ];
    assert_eq!(validate_streams(&forked), Err(ReplayError::Predecessor("evt_staged_b".to_string())));
    assert!(validate_streams(&request_flow()).is_ok());
}

#[test]
fn stream_transitions_follow_the_lifecycle() {
    assert!(predecessor_allowed(EventType::RequestAccepted, None));
    assert!(!predecessor_allowed(EventType::RequestAccepted, Some(EventType::RequestAccepted)));
    assert!(predecessor_allowed(EventType::HostAttachmentsStaged, Some(EventType::RequestAccepted)));
    assert!(predecessor_allowed(EventType::ReleaseFinalized, Some(EventType::ReleaseCooldownBlocked)));
    assert!(!predecessor_allowed(EventType::ReleaseFinalized, Some(EventType::ReleaseStarted)));
    assert!(predecessor_allowed(EventType::SlotStandbyWritten, None));
}

#[test]
fn source_kinds_follow_the_contract() {
    assert_eq!(exact_source_types(EventType::RequestClaimGranted), Some(vec![EventType::RequestAccepted]));
    assert_eq!(exact_source_types(EventType::RequestAccepted), Some(vec![]));
    assert!(source_types_valid(EventType::RequestClaimGranted, &[EventType::RequestAccepted]));
    assert!(!source_types_valid(EventType::RequestClaimGranted, &[]));
    assert!(!release_sources_valid(&[]));
    assert!(release_sources_valid(&[EventType::OutputPublished, EventType::SlotLeaseGranted]));
}
