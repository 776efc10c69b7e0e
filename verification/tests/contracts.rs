use gpt_webai_lifecycle::allocator::{cohort_of, slots_of};
use gpt_webai_lifecycle::contracts::events::{
    aggregate_kind, docker_status, validate_writer, AggregateKind, EventError, EventType, Writer,
};
use gpt_webai_lifecycle::contracts::health::HealthStatus;
use gpt_webai_lifecycle::contracts::payload_keys::{payload_keys, validate_payload_keys};
use gpt_webai_lifecycle::contracts::provider::{
    exact_keys, is_session_failure, request_keys, response_keys, validate_receipt_paths,
    validate_response_status, ClearedChip, ProviderAttachmentRecord, ProviderAttachmentSet,
    ProviderContractError, ProviderEvidencePaths, ProviderIdentity, ProviderOperation,
    ReceiptRelPaths,
};

fn hex(c: char, n: usize) -> String {
    std::iter::repeat(c).take(n).collect()
}

fn keys(items: &[&str]) -> Vec<String> {
    items.iter().map(|s| s.to_string()).collect()
}

#[test]
fn payload_fields_are_exact() {
    let expected = payload_keys(EventType::AllocationExhausted);
    assert_eq!(expected, vec!["requestId", "scanOrdinalCount", "observedAtMs"]);
    assert!(validate_payload_keys(
        EventType::AllocationExhausted,
        &keys(&["observedAtMs", "requestId", "scanOrdinalCount"])
    )
    .is_ok());
    assert_eq!(
        validate_payload_keys(EventType::AllocationExhausted, &keys(&["requestId", "observedAtMs"])),
        Err(EventError::Invalid("payload fields"))
    );
    assert_eq!(
        validate_payload_keys(
            EventType::AllocationExhausted,
            &keys(&["requestId", "scanOrdinalCount", "observedAtMs", "extra"])
        ),
        Err(EventError::Invalid("payload fields"))
    );
    assert_eq!(payload_keys(EventType::RequestClaimReleased), payload_keys(EventType::SessionOperationClaimReleased));
}

#[test]
fn event_names_and_aggregates() {
    assert_eq!(EventType::SlotLeaseGranted.as_str(), "SlotLeaseGranted");
    assert_eq!(aggregate_kind(EventType::SlotLeaseGranted), AggregateKind::Lease);
    assert_eq!(aggregate_kind(EventType::QaCountersReset), AggregateKind::Qa);
    assert!(docker_status("running"));
    assert!(!docker_status("paused"));
}

#[test]
fn writers_are_checked_field_by_field() {
    let mut w = Writer {
        host_id: format!("host_{}", hex('a', 32)),
        process_id: 9,
        process_start_ms: 5,
        writer_id: format!("writer_{}", hex('b', 64)),
    };
    assert!(validate_writer(&w).is_ok());
    w.process_id = 0;
    assert_eq!(validate_writer(&w), Err(EventError::Invalid("writer.processId")));
    w.process_id = 9;
    w.host_id = "host_x".to_string();
    assert_eq!(validate_writer(&w), Err(EventError::Invalid("writer.hostId")));
}

#[test]
fn cohorts_partition_the_slots() {
    assert_eq!(slots_of("cohort-b").unwrap(), vec!["slot-04", "slot-05", "slot-06", "slot-07"]);
    assert_eq!(cohort_of("slot-07"), Some("cohort-b"));
    assert_eq!(cohort_of("slot-10"), Some("cohort-c"));
    assert_eq!(cohort_of("slot-11"), None);
    for cohort in ["cohort-a", "cohort-b", "cohort-c"] {
        for slot in slots_of(cohort).unwrap() {
            assert_eq!(cohort_of(slot), Some(cohort));
        }
    }
}

#[test]
fn health_names_round_trip() {
    for s in [HealthStatus::Ready, HealthStatus::ProviderLimit, HealthStatus::Unknown] {
        assert_eq!(HealthStatus::parse(s.as_str()), Some(s));
    }
    assert_eq!(HealthStatus::parse("fine"), None);
}

#[test]
fn provider_operation_fields() {
    assert_eq!(ProviderOperation::CaptureRoot.as_str(), "capture.root");
    assert_eq!(request_keys(ProviderOperation::Status), vec!["expectedSlotId", "probeAttempt"]);
    assert_eq!(response_keys(ProviderOperation::ClearUpload, true).len(), 3);
    assert_eq!(response_keys(ProviderOperation::ClearUpload, false).len(), 5);
    let expected = request_keys(ProviderOperation::Status);
    assert!(exact_keys(&keys(&["probeAttempt", "expectedSlotId"]), &expected).is_ok());
    assert_eq!(
        exact_keys(&keys(&["probeAttempt"]), &expected),
        Err(ProviderContractError::Invalid("operationData fields"))
    );
}

#[test]
fn provider_identity_and_paths() {
    let identity = ProviderIdentity {
        cohort: Some("cohort-a".to_string()),
        operation_id: "op-1".to_string(),
        request_id: None,
        run_id: None,
        session_id: None,
        slot_id: "slot-01".to_string(),
    };
    assert!(identity.validate().is_ok());
    let mut bad = identity.clone();
    bad.cohort = Some("cohort-z".to_string());
    assert_eq!(bad.validate(), Err(ProviderContractError::Invalid("identity.cohort")));
    let paths = ProviderEvidencePaths {
        cdp_rel_path: "cdp.sanitized.json".to_string(),
        dom_rel_path: "dom.sanitized.json".to_string(),
        receipt_rel_paths: ReceiptRelPaths {
            primary: "provider-receipt.json".to_string(),
            pre_click: Some("send.pre-click.receipt.json".to_string()),
            post_click: Some("send.post-click.receipt.json".to_string()),
            reconcile: None,
        },
        screenshot_rel_path: "screenshot.privacy-crop.png".to_string(),
    };
    assert!(paths.validate(ProviderOperation::SendClick).is_ok());
    assert_eq!(
        paths.validate(ProviderOperation::Poll),
        Err(ProviderContractError::Invalid("evidence.receiptRelPaths.preClick"))
    );
    assert!(validate_receipt_paths(ProviderOperation::SendClick, &paths.receipt_rel_paths).is_ok());
    assert_eq!(
        validate_receipt_paths(ProviderOperation::Status, &paths.receipt_rel_paths),
        Err(ProviderContractError::Invalid("receiptRelPaths"))
    );
}

#[test]
fn attachment_sets_and_chips() {
    let record = ProviderAttachmentRecord {
        ordinal: 0,
        container_rel_path: "uploads/a.txt".to_string(),
        source_sha256: format!("sha256:{}", hex('a', 64)),
        size_bytes: 3,
        media_type: "text/plain".to_string(),
    };
    let mut set = ProviderAttachmentSet {
        count: 1,
        records: vec![record.clone()],
        set_sha256: format!("sha256:{}", hex('b', 64)),
    };
    assert!(set.validate().is_ok());
    set.records.push(record);
    set.count = 2;
    assert_eq!(set.validate(), Err(ProviderContractError::Invalid("attachmentSet.ordinal")));
    set.count = 1;
    assert_eq!(set.validate(), Err(ProviderContractError::Invalid("attachmentSet.count")));
    let chip = ClearedChip {
        chip_stable_key: format!("sha256:{}", hex('c', 64)),
        digest: None,
        cleared: false,
    };
    assert_eq!(chip.validate(), Err(ProviderContractError::Invalid("clearedChip.cleared")));
}

#[test]
fn response_status_matches_ok_and_reason() {
    assert!(validate_response_status(true, "running", None).is_ok());
    assert_eq!(
        validate_response_status(true, "failed", None),
        Err(ProviderContractError::Invalid("response status"))
    );
    assert_eq!(
        validate_response_status(false, "failed", None),
        Err(ProviderContractError::Invalid("providerReason"))
    );
    assert!(validate_response_status(false, "blocked", Some("provider.limit")).is_ok());
    assert!(validate_response_status(false, "failed", Some("poll.timeout")).is_ok());
    assert!(is_session_failure(Some("session.missing")));
    assert!(!is_session_failure(None));
}
