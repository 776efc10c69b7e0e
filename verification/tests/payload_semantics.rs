use gpt_webai_lifecycle::contracts::decode::model_selection_verdicts;
use gpt_webai_lifecycle::contracts::envelope::EventHeader;
use gpt_webai_lifecycle::contracts::events::{Aggregate, AggregateKind, EventError, EventType, Writer, EVENT_SCHEMA};
use gpt_webai_lifecycle::contracts::semantics::{validate_payload_semantics, JsonValue};

fn hex(c: char, n: usize) -> String {
    std::iter::repeat(c).take(n).collect()
}

fn h256(c: char) -> String {
    format!("sha256:{}", hex(c, 64))
}

fn from_json(v: &serde_json::Value) -> JsonValue {
    match v {
        serde_json::Value::Null => JsonValue::Null,
        serde_json::Value::Bool(b) => JsonValue::Bool(*b),
        serde_json::Value::Number(n) => match n.as_u64() {
            Some(u) => JsonValue::Unsigned(u),
            None => JsonValue::OtherNumber,
        },
        serde_json::Value::String(s) => JsonValue::Text(s.clone()),
        serde_json::Value::Array(vs) => JsonValue::Array(vs.iter().map(from_json).collect()),
        serde_json::Value::Object(m) => {
            JsonValue::Object(m.iter().map(|(k, v)| (k.clone(), from_json(v))).collect())
        }
    }
}

fn payload(text: &str) -> JsonValue {
    from_json(&serde_json::from_str::<serde_json::Value>(text).unwrap())
}

fn event(event_type: EventType, request_id: Option<&str>, run_id: Option<&str>) -> EventHeader {
    EventHeader {
        aggregate: Aggregate { id: "req_1".to_string(), kind: AggregateKind::Request },
        created_at_ms: 1_000,
        event_id: format!("evt_{}", hex('a', 64)),
        event_type,
        operation_id: "op-1".to_string(),
        predecessor_event_id: None,
        request_id: request_id.map(|s| s.to_string()),
        run_id: run_id.map(|s| s.to_string()),
        schema_version: EVENT_SCHEMA.to_string(),
        source_event_ids: vec![],
        writer: Writer {
            host_id: format!("host_{}", hex('a', 32)),
            process_id: 9,
            process_start_ms: 5,
            writer_id: format!("writer_{}", hex('b', 64)),
        },
        payload_keys: None,
        payload_texts: vec![],
    }
}

fn check(event_type: EventType, text: &str, verdicts: &[(&str, bool)]) -> Result<(), EventError> {
    let verdicts = verdicts.iter().map(|(k, b)| (k.to_string(), *b)).collect();
    validate_payload_semantics(&event(event_type, Some("req_1"), None), &payload(text), &verdicts)
}

fn invalid(message: &'static str) -> Result<(), EventError> {
    Err(EventError::Invalid(message))
}

fn accepted(kind: &str, count: u64) -> String {
    format!(
        r#"{{"requestId":"req_1","kind":"{kind}","promptSha256":"{}","promptSizeBytes":12,
            "attachmentCount":{count},"artifactExpectation":"optional","acceptedAtMs":1000}}"#,
        h256('a')
    )
}

#[test]
fn a_request_acceptance_within_its_rules_passes() {
    assert_eq!(check(EventType::RequestAccepted, &accepted("pro", 0), &[]), Ok(()));
}

#[test]
fn the_first_field_that_breaks_a_rule_is_named() {
    assert_eq!(check(EventType::RequestAccepted, &accepted("mini", 0), &[]), invalid("kind"));
    assert_eq!(check(EventType::RequestAccepted, &accepted("mini", 65), &[]), invalid("kind"));
    assert_eq!(check(EventType::RequestAccepted, &accepted("xhigh", 65), &[]), invalid("attachmentCount"));
}

#[test]
fn a_payload_that_is_not_an_object_is_refused() {
    assert_eq!(check(EventType::RequestAccepted, "[1,2]", &[]), invalid("payload"));
}

#[test]
fn negative_and_fractional_numbers_are_not_integers() {
    let text = accepted("pro", 0).replace("\"promptSizeBytes\":12", "\"promptSizeBytes\":-1");
    assert_eq!(check(EventType::RequestAccepted, &text, &[]), invalid("promptSizeBytes"));
    let text = accepted("pro", 0).replace("\"acceptedAtMs\":1000", "\"acceptedAtMs\":1.5");
    assert_eq!(check(EventType::RequestAccepted, &text, &[]), invalid("acceptedAtMs"));
}

fn candidate(slot: &str, decision: &str, skip: &str) -> String {
    format!(
        r#"{{"requestId":"req_1","scanOrdinal":3,"cohort":"cohort-a","slotId":"{slot}",
            "cohortCursorBefore":0,"withinCursorBefore":1,"decision":"{decision}",
            "skipReason":{skip},"observedAtMs":77}}"#
    )
}

#[test]
fn allocation_candidates_tie_slot_cohort_and_skip_reason() {
    let t = EventType::AllocationCandidateObserved;
    assert_eq!(check(t, &candidate("slot-02", "grantable", "null"), &[]), Ok(()));
    assert_eq!(check(t, &candidate("slot-02", "skip", "\"cooldown\""), &[]), Ok(()));
    assert_eq!(
        check(t, &candidate("slot-05", "grantable", "null"), &[]),
        invalid("allocation cohort/slot")
    );
    assert_eq!(check(t, &candidate("slot-02", "skip", "null"), &[]), invalid("skipReason"));
    assert_eq!(check(t, &candidate("slot-02", "grantable", "\"leased\""), &[]), invalid("skipReason"));
}

fn claim_granted(granted: u64, renew: u64, expires: u64) -> String {
    format!(
        r#"{{"claimId":"claim_{}","requestId":"req_1","claimGeneration":1,"ttlMs":300000,
            "grantedAtMs":{granted},"renewAtMs":{renew},"expiresAtMs":{expires},
            "fencingTokenSha256":"{}"}}"#,
        hex('c', 64),
        h256('d')
    )
}

#[test]
fn claim_times_are_spaced_by_the_renewal_and_expiry_windows() {
    let t = EventType::RequestClaimGranted;
    assert_eq!(check(t, &claim_granted(1_000, 101_000, 301_000), &[]), Ok(()));
    assert_eq!(check(t, &claim_granted(1_000, 101_001, 301_000), &[]), invalid("CAS times"));
    assert_eq!(check(t, &claim_granted(1_000, 0, 301_000), &[]), invalid("renewAtMs"));
}

fn health_observed() -> String {
    format!(
        r#"{{"slotId":"slot-01","probeId":"probe-1","healthStatus":"ready","dockerStatus":"running",
            "cooldownMs":0,"allocatable":true,"evidenceRefs":[],"observedAtMs":5}}"#
    )
}

#[test]
fn typed_sub_objects_take_the_callers_verdict() {
    let t = EventType::SlotHealthObserved;
    assert_eq!(check(t, &health_observed(), &[("evidenceRefs", true)]), Ok(()));
    assert_eq!(check(t, &health_observed(), &[("evidenceRefs", false)]), invalid("evidenceRefs"));
    assert_eq!(check(t, &health_observed(), &[]), invalid("evidenceRefs"));
    let text = health_observed().replace("\"ready\"", "\"fine\"");
    assert_eq!(check(t, &text, &[("evidenceRefs", true)]), invalid("healthStatus"));
}

fn materialized(files: &str) -> String {
    format!(
        r#"{{"requestId":"req_1","slotId":"slot-03","attachmentSetSha256":"{}",
            "containerMountRoot":"mnt/in","materializedFiles":{files},"materializedAtMs":9}}"#,
        h256('e')
    )
}

#[test]
fn materialized_files_are_closed_objects() {
    let t = EventType::SlotAttachmentsMaterialized;
    let good = format!(r#"[{{"containerRelPath":"a.txt","sha256":"{}","sizeBytes":3}}]"#, h256('f'));
    assert_eq!(check(t, &materialized(&good), &[]), Ok(()));
    assert_eq!(check(t, &materialized("[]"), &[]), Ok(()));
    let extra = format!(
        r#"[{{"containerRelPath":"a.txt","sha256":"{}","sizeBytes":3,"x":1}}]"#,
        h256('f')
    );
    assert_eq!(check(t, &materialized(&extra), &[]), invalid("nested object fields"));
    assert_eq!(check(t, &materialized("[7]"), &[]), invalid("nested object"));
    let unsafe_path = format!(r#"[{{"containerRelPath":"../a","sha256":"{}","sizeBytes":3}}]"#, h256('f'));
    assert_eq!(check(t, &materialized(&unsafe_path), &[]), invalid("containerRelPath"));
    assert_eq!(check(t, &materialized("{}"), &[]), invalid("materializedFiles"));
}

fn persisted(ids: &str) -> String {
    format!(
        r#"{{"requestId":"req_1","answerTerminalEventId":"evt_{}","artifactClaimEventIds":{ids},
            "outputPath":"out/answer.md","persistedAtMs":11}}"#,
        hex('1', 64)
    )
}

#[test]
fn terminal_persistence_lists_distinct_event_ids() {
    let t = EventType::TerminalPersisted;
    let a = format!("\"evt_{}\"", hex('2', 64));
    let b = format!("\"evt_{}\"", hex('3', 64));
    assert_eq!(check(t, &persisted(&format!("[{a},{b}]")), &[]), Ok(()));
    assert_eq!(check(t, &persisted(&format!("[{a},{a}]")), &[]), invalid("artifactClaimEventIds"));
    assert_eq!(check(t, &persisted("[\"evt_1\"]"), &[]), invalid("artifactClaimEventIds"));
}

fn session_claim(request: &str, run: &str) -> String {
    format!(
        r#"{{"claimId":"claim_{}","sessionId":"sess-1","operationKind":"show","expectedSlotId":"slot-09",
            "expectedCohort":"cohort-c","expectedRuntimeOwnerGeneration":null,"requestId":{request},
            "runId":{run},"ttlMs":300000,"grantedAtMs":10,"renewAtMs":100010,"expiresAtMs":300010,
            "fencingTokenSha256":"{}"}}"#,
        hex('c', 64),
        h256('d')
    )
}

#[test]
fn a_session_claim_names_the_envelopes_request_and_run() {
    let t = EventType::SessionOperationClaimGranted;
    let verdicts: Vec<(String, bool)> = vec![];
    let run = |r: Option<&str>, u: Option<&str>, text: &str| {
        validate_payload_semantics(&event(t, r, u), &payload(text), &verdicts)
    };
    assert_eq!(run(Some("req_1"), Some("run_1"), &session_claim("\"req_1\"", "\"run_1\"")), Ok(()));
    assert_eq!(run(None, None, &session_claim("null", "null")), Ok(()));
    assert_eq!(
        run(Some("req_2"), None, &session_claim("\"req_1\"", "null")),
        invalid("session claim request binding")
    );
    assert_eq!(
        run(None, Some("run_1"), &session_claim("null", "\"run_1\"")),
        invalid("session claim request binding")
    );
}

#[test]
fn release_finalization_and_qa_resets_tie_their_fields() {
    let fin = |status: &str, allocatable: bool| {
        format!(
            r#"{{"releaseId":"release_{}","finalStatus":"{status}","allocatable":{allocatable},"finalizedAtMs":3}}"#,
            hex('9', 64)
        )
    };
    assert_eq!(check(EventType::ReleaseFinalized, &fin("allocatable", true), &[]), Ok(()));
    assert_eq!(check(EventType::ReleaseFinalized, &fin("cleanup_failed", false), &[]), Ok(()));
    assert_eq!(
        check(EventType::ReleaseFinalized, &fin("cleanup_failed", true), &[]),
        invalid("ReleaseFinalized allocatable")
    );
    let reset = |scope: &str, case: &str| {
        format!(
            r#"{{"qaRunId":"qa-1","reason":"drift","sourceFingerprint":"{}","scope":"{scope}","caseId":{case},"resetAtMs":4}}"#,
            h256('7')
        )
    };
    assert_eq!(check(EventType::QaCountersReset, &reset("all", "null"), &[]), Ok(()));
    assert_eq!(check(EventType::QaCountersReset, &reset("case", "\"c-1\""), &[]), Ok(()));
    assert_eq!(check(EventType::QaCountersReset, &reset("all", "\"c-1\""), &[]), invalid("caseId"));
    assert_eq!(check(EventType::QaCountersReset, &reset("case", "null"), &[]), invalid("caseId"));
}

#[test]
fn cooldowns_end_after_they_are_blocked() {
    let blocked = |until: u64, at: u64| {
        format!(
            r#"{{"releaseId":"release_{}","slotId":"slot-04","cooldownUntilMs":{until},"blockedAtMs":{at}}}"#,
            hex('9', 64)
        )
    };
    assert_eq!(check(EventType::ReleaseCooldownBlocked, &blocked(20, 10), &[]), Ok(()));
    assert_eq!(check(EventType::ReleaseCooldownBlocked, &blocked(10, 10), &[]), invalid("cooldown interval"));
}

#[test]
fn model_selection_payloads_are_judged_with_computed_verdicts() {
    let judge = |text: &str| {
        let p = payload(text);
        let verdicts = model_selection_verdicts(EventType::ModelSelectionStarted, &p);
        validate_payload_semantics(&event(EventType::ModelSelectionStarted, Some("req_1"), None), &p, &verdicts)
    };
    let base = r#""requestId":"req_1","modelOperationId":"op-2","startedAtMs":1700000000000"#;
    assert_eq!(
        judge(&format!(r#"{{{base},"requestedModel":"pro","requestedEffort":"standard"}}"#)),
        Ok(())
    );
    assert_eq!(
        judge(&format!(r#"{{{base},"requestedModel":"xhigh","requestedEffort":"standard"}}"#)),
        Err(EventError::Invalid("model tuple"))
    );
    assert_eq!(
        judge(&format!(r#"{{{base},"requestedModel":"fast","requestedEffort":"standard"}}"#)),
        Err(EventError::Invalid("requestedModel"))
    );
    assert_eq!(
        judge(&format!(r#"{{{base},"requestedModel":"pro","requestedEffort":{{"high":null}}}}"#)),
        Err(EventError::Invalid("model tuple"))
    );
}
