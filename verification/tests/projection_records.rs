use gpt_webai_lifecycle::contracts::events::Writer;
use gpt_webai_lifecycle::contracts::projection::{
    projection_kind, validate_allocator, validate_artifact_claim, validate_cas, validate_owner,
    validate_projection_digest, validate_qa, validate_release, validate_request, validate_session,
    validate_slot, AllocatorRecord, ArtifactClaimRecord, CasRecord, ProjectionContractError,
    ProjectionState, QaCounterRecord, ReleaseRecord, RequestRecord, RuntimeOwnerRecord,
    SessionRecord, SlotRecord, WithinCursors, PROJECTION_SCHEMA,
};

fn hex(c: char, n: usize) -> String {
    std::iter::repeat(c).take(n).collect()
}

fn id(prefix: &str, c: char) -> String {
    format!("{prefix}{}", hex(c, 64))
}

fn invalid(what: &str) -> Result<(), ProjectionContractError> {
    Err(ProjectionContractError::Invalid(what.to_string()))
}

fn cas(prefix: &str, kind: &str) -> CasRecord {
    CasRecord {
        id: id(prefix, 'a'),
        kind: kind.to_string(),
        subject_id: "slot-01".to_string(),
        owner: Writer {
            host_id: format!("host_{}", hex('a', 32)),
            process_id: 9,
            process_start_ms: 5,
            writer_id: format!("writer_{}", hex('b', 64)),
        },
        generation: 1,
        renewal_revision: 1,
        fencing_token_sha256: Some(id("sha256:", 'c')),
        granted_at_ms: 1_000,
        renew_at_ms: 2_000,
        expires_at_ms: 202_000,
        status: "active".to_string(),
        released_at_ms: None,
        release_event_id: None,
        last_event_id: id("evt_", 'd'),
    }
}

fn empty_state() -> ProjectionState {
    ProjectionState {
        allocator: vec![],
        artifact_claims: vec![],
        claims: vec![],
        last_event_created_at_ms: 0,
        last_event_id: None,
        leases: vec![],
        projection_digest: id("sha256:", 'e'),
        qa_counters: vec![],
        releases: vec![],
        requests: vec![],
        runtime_owners: vec![],
        schema_version: PROJECTION_SCHEMA.to_string(),
        sessions: vec![],
        slots: vec![],
    }
}

#[test]
fn request_records_live_under_their_id() {
    let record = RequestRecord {
        request_id: "req_1".to_string(),
        kind: "pro".to_string(),
        state: "polling".to_string(),
        session_id: Some("sess-1".to_string()),
        last_event_id: id("evt_", 'a'),
    };
    assert_eq!(validate_request("req_1", &record), Ok(()));
    assert_eq!(validate_request("req_2", &record), invalid("RequestRecord"));
    let mut bad_state = record.clone();
    bad_state.state = "paused".to_string();
    assert_eq!(validate_request("req_1", &bad_state), invalid("RequestRecord"));
}

#[test]
fn session_records_need_their_conversation_url() {
    let record = SessionRecord {
        session_id: "abc".to_string(),
        session_binding_id: None,
        conversation_url: Some("https://chatgpt.com/c/abc".to_string()),
        slot_id: "slot-02".to_string(),
        cohort: "cohort-a".to_string(),
        page_binding_generation: 1,
        last_operation_kind: None,
        terminal_answer_sha256: None,
        last_event_id: id("evt_", 'a'),
    };
    assert_eq!(validate_session("abc", &record), Ok(()));
    let mut no_url = record.clone();
    no_url.conversation_url = None;
    assert_eq!(validate_session("abc", &no_url), invalid("SessionRecord"));
}

#[test]
fn slot_records_sit_in_their_cohort() {
    let record = SlotRecord {
        slot_id: "slot-05".to_string(),
        cohort: "cohort-b".to_string(),
        health_status: "ready".to_string(),
        docker_status: "running".to_string(),
        allocatable: true,
        cooldown_until_ms: None,
        standby: false,
        last_event_id: id("evt_", 'a'),
    };
    assert_eq!(validate_slot("slot-05", &record), Ok(()));
    let mut other_cohort = record.clone();
    other_cohort.cohort = "cohort-a".to_string();
    assert_eq!(validate_slot("slot-05", &other_cohort), invalid("SlotRecord"));
}

#[test]
fn allocator_cursors_stay_within_cohorts() {
    let record = AllocatorRecord {
        cohort_cursor: 2,
        within_cursors: WithinCursors { cohort_a: 2, cohort_b: 3, cohort_c: 2 },
        last_scan_ordinal: Some(9),
        last_event_id: id("evt_", 'a'),
    };
    assert_eq!(validate_allocator("allocator", &record), Ok(()));
    let mut past = record.clone();
    past.within_cursors.cohort_b = 4;
    assert_eq!(validate_allocator("allocator", &past), invalid("AllocatorRecord"));
    assert_eq!(validate_allocator("alloc", &record), invalid("AllocatorRecord"));
}

#[test]
fn cas_records_renew_two_hundred_seconds_before_expiry() {
    let claim = cas("claim_", "claim");
    let key = id("claim_", 'a');
    assert_eq!(validate_cas("claims", &key, &claim), Ok(()));
    let mut late = claim.clone();
    late.expires_at_ms = 202_001;
    assert_eq!(validate_cas("claims", &key, &late), invalid("CasRecord"));
    let mut no_token = claim.clone();
    no_token.fencing_token_sha256 = None;
    assert_eq!(validate_cas("claims", &key, &no_token), invalid("CasRecord"));
    let mut released = claim.clone();
    released.status = "released".to_string();
    assert_eq!(validate_cas("claims", &key, &released), invalid("CasRecord"));
    released.released_at_ms = Some(3_000);
    released.release_event_id = Some(id("evt_", 'f'));
    assert_eq!(validate_cas("claims", &key, &released), Ok(()));
    assert_eq!(validate_cas("queues", &key, &claim), invalid("CAS projection"));
    assert_eq!(projection_kind("leases"), "lease");
    assert_eq!(projection_kind("queues"), "invalid");
}

#[test]
fn owner_records_check_cas_then_runtime() {
    let mut base = cas("owner_", "runtime_owner");
    base.fencing_token_sha256 = None;
    let record = RuntimeOwnerRecord {
        cas: base,
        runtime_incarnation_id: id("runtime_", 'b'),
        docker_status: "running".to_string(),
    };
    let key = id("owner_", 'a');
    assert_eq!(validate_owner(&key, &record), Ok(()));
    let mut bad_docker = record.clone();
    bad_docker.docker_status = "paused".to_string();
    assert_eq!(validate_owner(&key, &bad_docker), invalid("RuntimeOwnerRecord"));
    let mut bad_kind = record.clone();
    bad_kind.cas.kind = "lease".to_string();
    assert_eq!(validate_owner(&key, &bad_kind), invalid("CasRecord"));
}

#[test]
fn artifact_claim_results_need_completion() {
    let record = ArtifactClaimRecord {
        artifact_claim_id: id("artifact_claim_", 'a'),
        session_id: "sess-1".to_string(),
        request_id: None,
        expectation: "required".to_string(),
        control_count: Some(2),
        attempts_consumed: 1,
        completed: false,
        result: None,
        last_event_id: id("evt_", 'a'),
    };
    let key = id("artifact_claim_", 'a');
    assert_eq!(validate_artifact_claim(&key, &record), Ok(()));
    let mut early = record.clone();
    early.result = Some("downloaded".to_string());
    assert_eq!(validate_artifact_claim(&key, &early), invalid("ArtifactClaimRecord"));
    early.completed = true;
    assert_eq!(validate_artifact_claim(&key, &early), Ok(()));
}

#[test]
fn release_records_pair_final_status_and_time() {
    let record = ReleaseRecord {
        release_id: id("release_", 'a'),
        subject_kind: "slot".to_string(),
        subject_id: "slot-01".to_string(),
        reason: "operator".to_string(),
        started_at_ms: 1_000,
        evidence_preserved_event_id: None,
        runtime_outcome: "pending".to_string(),
        request_claim_release: "not_applicable".to_string(),
        session_claim_release: "pending".to_string(),
        slot_lease_release: "released".to_string(),
        runtime_owner_release: "pending".to_string(),
        standby_written: false,
        final_status: None,
        finalized_at_ms: None,
        last_event_id: id("evt_", 'a'),
    };
    let key = id("release_", 'a');
    assert_eq!(validate_release(&key, &record), Ok(()));
    let mut half = record.clone();
    half.final_status = Some("allocatable".to_string());
    assert_eq!(validate_release(&key, &half), invalid("ReleaseRecord"));
    half.finalized_at_ms = Some(2_000);
    assert_eq!(validate_release(&key, &half), Ok(()));
}

#[test]
fn qa_repeat_counts_are_bounded() {
    let record = QaCounterRecord {
        matrix_iterations_passed: 3,
        repeat_counts: vec![("case-a".to_string(), 10)],
        source_fingerprint: None,
        last_reset_event_id: None,
        last_event_id: id("evt_", 'a'),
    };
    assert_eq!(validate_qa("qa", &record), Ok(()));
    let mut over = record.clone();
    over.repeat_counts.push(("case-b".to_string(), 11));
    assert_eq!(validate_qa("qa", &over), invalid("QaCounterRecord"));
}

#[test]
fn projection_digests_are_sha256() {
    assert_eq!(validate_projection_digest(&id("sha256:", '0')), Ok(()));
    assert_eq!(
        validate_projection_digest("sha256:zz"),
        Err(ProjectionContractError::Invalid("invalid H256: sha256:zz".to_string()))
    );
}

#[test]
fn projection_state_checks_metadata_then_records() {
    assert_eq!(empty_state().validate(), Ok(()));
    let mut wrong_schema = empty_state();
    wrong_schema.schema_version = "other".to_string();
    assert_eq!(wrong_schema.validate(), invalid("ProjectionState metadata"));
    let mut orphan_time = empty_state();
    orphan_time.last_event_created_at_ms = 5;
    assert_eq!(orphan_time.validate(), invalid("ProjectionState metadata"));
    let mut bad_lease = empty_state();
    bad_lease.leases.push((id("lease_", 'a'), cas("claim_", "claim")));
    assert_eq!(bad_lease.validate(), invalid("CasRecord"));
    let mut good_lease = empty_state();
    good_lease.leases.push((id("lease_", 'a'), cas("lease_", "lease")));
    assert_eq!(good_lease.validate(), Ok(()));
}

#[test]
fn projection_keys_must_rise_strictly() {
    let record = |id_: &str| RequestRecord {
        request_id: id_.to_string(),
        kind: "pro".to_string(),
        state: "polling".to_string(),
        session_id: None,
        last_event_id: id("evt_", 'a'),
    };
    let mut state = empty_state();
    assert!(state.keys_in_order());
    state.requests.push(("req_a".to_string(), record("req_a")));
    state.requests.push(("req_b".to_string(), record("req_b")));
    assert!(state.keys_in_order());
    let mut twice = state.clone();
    twice.requests.push(("req_b".to_string(), record("req_b")));
    assert!(!twice.keys_in_order());
    let mut backwards = empty_state();
    backwards.requests.push(("req_b".to_string(), record("req_b")));
    backwards.requests.push(("req_a".to_string(), record("req_a")));
    assert!(!backwards.keys_in_order());
    let mut prefix = empty_state();
    prefix.requests.push(("req".to_string(), record("req")));
    prefix.requests.push(("req_a".to_string(), record("req_a")));
    assert!(prefix.keys_in_order());
}
