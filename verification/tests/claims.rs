use gpt_webai_lifecycle::claims::renewal::{release, renew, verify_active};
use gpt_webai_lifecycle::claims::{fencing_hash, grant, CasError, CasKind, GrantInput};
use gpt_webai_lifecycle::contracts::events::Writer;
use gpt_webai_lifecycle::locks::{fencing_matches, lease_is_active, lease_is_stale, sha256_hex, LeaseRecord};

fn hex64(c: char) -> String {
    std::iter::repeat(c).take(64).collect()
}

fn writer() -> Writer {
    Writer {
        host_id: format!("host_{}", "a".repeat(32)),
        process_id: 7,
        process_start_ms: 1_000,
        writer_id: format!("writer_{}", hex64('b')),
    }
}

fn input(now: u64) -> GrantInput {
    GrantInput {
        id: format!("claim_{}", hex64('c')),
        kind: CasKind::RequestClaim,
        subject_id: "req-1".to_string(),
        owner: writer(),
        generation: 1,
        fencing_token_sha256: None,
        now_ms: now,
        event_id: format!("evt_{}", hex64('d')),
    }
}

#[test]
fn grant_creates_an_active_record_with_cas_times() {
    let record = grant(input(1_000_000)).unwrap();
    assert_eq!(record.status, "active");
    assert_eq!(record.renewal_revision, 1);
    assert_eq!(record.renew_at_ms, 1_100_000);
    assert_eq!(record.expires_at_ms, 1_300_000);
    assert_eq!(record.kind, "claim");
}

#[test]
fn grant_refuses_a_bad_identity() {
    let mut bad = input(1_000_000);
    bad.id = "claim_x".to_string();
    assert_eq!(grant(bad).unwrap_err(), CasError::Invalid("grant identity/time"));
    let mut bad_token = input(1_000_000);
    bad_token.fencing_token_sha256 = Some("nope".to_string());
    assert_eq!(grant(bad_token).unwrap_err(), CasError::Invalid("fencingTokenSha256"));
}

#[test]
fn renew_then_release() {
    let mut with_token = input(1_000_000);
    with_token.fencing_token_sha256 = Some(fencing_hash("secret"));
    let record = grant(with_token).unwrap();
    let token = Some("secret");
    assert!(verify_active(&record, 1, token, 1_050_000).is_ok());
    assert_eq!(verify_active(&record, 1, None, 1_050_000).unwrap_err(), CasError::FencingMismatch);
    assert_eq!(verify_active(&record, 2, token, 1_050_000).unwrap_err(), CasError::GenerationMismatch);
    assert_eq!(verify_active(&record, 1, token, 1_300_000).unwrap_err(), CasError::Expired);
    let renewed = renew(&record, 1, token, 1_050_000, format!("evt_{}", hex64('e'))).unwrap();
    assert_eq!(renewed.renewal_revision, 2);
    assert_eq!(renewed.expires_at_ms, 1_350_000);
    let released = release(&renewed, 1, token, 1_060_000, format!("evt_{}", hex64('f'))).unwrap();
    assert_eq!(released.status, "released");
    assert_eq!(verify_active(&released, 1, token, 1_060_001).unwrap_err(), CasError::Inactive);
}

#[test]
fn leases_are_stale_once_expired_or_orphaned() {
    let record = LeaseRecord {
        schema: "gpt-webai.lease.v2".to_string(),
        slot_id: "slot-01".to_string(),
        request_id: "r".to_string(),
        run_id: "u".to_string(),
        fencing_token_sha256: sha256_hex("token"),
        owner_pid: 1,
        acquired_at_ms: 10,
        heartbeat_at_ms: 10,
        expires_at_ms: 100,
    };
    assert!(!lease_is_stale(&record, 50, true));
    assert!(lease_is_stale(&record, 100, true));
    assert!(lease_is_stale(&record, 50, false));
    assert!(lease_is_active(&record, 50, true));
    assert!(fencing_matches(&record, "token"));
    assert!(!fencing_matches(&record, "other"));
    assert_eq!(
        sha256_hex("abc"),
        "ba7816bf8f01cfea414140de5dae2223b00361a396177a9cb410ff61f20015ad"
    );
}

#[test]
fn a_request_claim_is_named_by_a_claim_id_and_holds_its_subject() {
    use_grant_request_claim();
}

fn use_grant_request_claim() {
    let event = format!("evt_{}", hex64('d'));
    let record = gpt_webai_lifecycle::claims::request::grant_request_claim(
        &vec![],
        "req-1",
        "op-1",
        "token",
        writer(),
        1_000_000,
        event.clone(),
    )
    .unwrap();
    assert!(record.id.starts_with("claim_"));
    assert_eq!(record.id.len(), 70);
    assert!(record.id[6..].chars().all(|c| c.is_ascii_hexdigit() && !c.is_ascii_uppercase()));
    assert_eq!(record.subject_id, "req-1");
    assert_eq!(record.generation, 1);
    let again = gpt_webai_lifecycle::claims::request::grant_request_claim(
        &vec![record.clone()],
        "req-1",
        "op-2",
        "token",
        writer(),
        1_000_001,
        event,
    );
    assert_eq!(again, Err(CasError::SubjectConflict("req-1".to_string())));
}
