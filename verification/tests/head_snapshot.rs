use gpt_webai_lifecycle::contracts::projection::{ProjectionState, PROJECTION_SCHEMA};
use gpt_webai_lifecycle::journal::head::Head;
use gpt_webai_lifecycle::journal::snapshot::{
    head_snapshot, inspect_head_snapshot, Snapshot, SnapshotError, SnapshotInspection,
};
use sha2::{Digest, Sha256};

fn hex(c: char, n: usize) -> String {
    std::iter::repeat(c).take(n).collect()
}

fn evt(c: char) -> String {
    format!("evt_{}", hex(c, 64))
}

fn state(last: char) -> ProjectionState {
    ProjectionState {
        allocator: vec![],
        artifact_claims: vec![],
        claims: vec![],
        last_event_created_at_ms: 1_000,
        last_event_id: Some(evt(last)),
        leases: vec![],
        projection_digest: format!("sha256:{}", hex('e', 64)),
        qa_counters: vec![],
        releases: vec![],
        requests: vec![],
        runtime_owners: vec![],
        schema_version: PROJECTION_SCHEMA.to_string(),
        sessions: vec![],
        slots: vec![],
    }
}

fn snapshot(last: char) -> Snapshot {
    Snapshot::new(state(last), None, 2_000).unwrap()
}

fn digest(bytes: &[u8]) -> String {
    format!("sha256:{:x}", Sha256::digest(bytes))
}

fn head(event: Option<String>, sha: Option<String>) -> Head {
    Head {
        head_generation: 1,
        last_event_id: Some(evt('a')),
        projection_digest: format!("sha256:{}", hex('e', 64)),
        schema_version: "pr72.head.r13.v1".to_string(),
        snapshot_event_id: event,
        snapshot_sha256: sha,
        updated_at_ms: 1_000,
    }
}

#[test]
fn a_head_without_a_snapshot_names_none() {
    let h = head(None, None);
    assert_eq!(head_snapshot(&h, vec![(b"one".to_vec(), snapshot('a'))]).map(|s| s.is_some()), Ok(false));
    assert_eq!(inspect_head_snapshot(&h, Err(SnapshotError::Invalid("x"))), SnapshotInspection::Absent);
}

#[test]
fn the_snapshot_is_found_by_the_digest_of_its_bytes() {
    let h = head(Some(evt('b')), Some(digest(b"two")));
    let found = head_snapshot(&h, vec![(b"one".to_vec(), snapshot('a')), (b"two".to_vec(), snapshot('b'))])
        .unwrap()
        .unwrap();
    assert_eq!(found.last_event_id, evt('b'));
}

#[test]
fn a_snapshot_is_refused_for_a_missing_digest_or_another_event() {
    let h = head(Some(evt('b')), Some(digest(b"three")));
    assert_eq!(
        head_snapshot(&h, vec![(b"one".to_vec(), snapshot('a'))]).map(|s| s.is_some()),
        Err(SnapshotError::Invalid("snapshotSha256"))
    );
    let h = head(Some(evt('b')), Some(digest(b"one")));
    assert_eq!(
        head_snapshot(&h, vec![(b"one".to_vec(), snapshot('a'))]).map(|s| s.is_some()),
        Err(SnapshotError::Invalid("snapshotEventId"))
    );
    let mut bad = snapshot('a');
    bad.snapshot_created_at_ms = 10;
    let h = head(Some(evt('a')), Some(digest(b"one")));
    assert_eq!(
        head_snapshot(&h, vec![(b"one".to_vec(), bad)]).map(|s| s.is_some()),
        Err(SnapshotError::Invalid("fields"))
    );
}

#[test]
fn inspection_reports_what_the_check_found() {
    let h = head(Some(evt('a')), None);
    assert_eq!(inspect_head_snapshot(&h, Ok(Some(snapshot('a')))), SnapshotInspection::Trusted);
    assert_eq!(inspect_head_snapshot(&h, Ok(None)), SnapshotInspection::Absent);
    assert_eq!(
        inspect_head_snapshot(&h, Err(SnapshotError::Invalid("snapshotSha256"))),
        SnapshotInspection::Ignored("snapshot invalid: snapshotSha256".to_string())
    );
}
