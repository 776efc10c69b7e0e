use gpt_webai_lifecycle::artifact_claims::baseline::{ArtifactBaseline, ArtifactBaselineEntry};
use gpt_webai_lifecycle::artifact_claims::completion::mime_from_path;
use gpt_webai_lifecycle::artifact_claims::recovery::{ArtifactClaim, ClaimOutcome};
use gpt_webai_lifecycle::artifact_claims::{
    ArtifactClaimError, ArtifactControl, ArtifactExpectation, BottomProof, ZeroControlProof,
};
use gpt_webai_lifecycle::contracts::browser::{EvidenceMediaType, EvidenceRef};

fn hex(c: char) -> String {
    std::iter::repeat(c).take(64).collect()
}

fn h256(c: char) -> String {
    format!("sha256:{}", hex(c))
}

fn claim_id() -> String {
    format!("artifact_claim_{}", hex('a'))
}

fn turn_id() -> String {
    format!("turn_{}", hex('b'))
}

fn evidence(path: &str) -> EvidenceRef {
    EvidenceRef {
        path: path.to_string(),
        sha256: h256('e'),
        size_bytes: 10,
        media_type: EvidenceMediaType::Json,
    }
}

fn bottom() -> BottomProof {
    BottomProof {
        at_bottom: true,
        method: "scrollbar".to_string(),
        captured_at_ms: 1_000,
        evidence_refs: vec![evidence("bottom.json")],
    }
}

fn control(c: char) -> ArtifactControl {
    ArtifactControl {
        control_id: format!("control_{}", hex(c)),
        role: "button".to_string(),
        visible_text_hash: h256('1'),
        dom_path_hash: h256('2'),
        bounding_box_hash: h256('3'),
        current_turn_id: turn_id(),
        visible: true,
        disabled: false,
    }
}

fn baseline() -> ArtifactBaseline {
    ArtifactBaseline {
        directory: "downloads".to_string(),
        entries: vec![ArtifactBaselineEntry {
            rel_path: "a.txt".to_string(),
            size_bytes: 1,
            sha256: h256('4'),
        }],
        captured_at_ms: 1_000,
        baseline_sha256: h256('5'),
    }
}

fn claim(expectation: ArtifactExpectation) -> ArtifactClaim {
    ArtifactClaim::establish(claim_id(), "sess-1".to_string(), turn_id(), expectation).unwrap()
}

fn zero_proof() -> ZeroControlProof {
    ZeroControlProof {
        artifact_claim_id: claim_id(),
        terminal_assistant_turn_id: turn_id(),
        bottom_proof: bottom(),
        control_count: 0,
        evidence_refs: vec![evidence("zero.json")],
        captured_at_ms: 1_000,
    }
}

#[test]
fn establish_checks_identifiers_in_order() {
    assert!(matches!(
        ArtifactClaim::establish("x".to_string(), "s".to_string(), "t".to_string(), ArtifactExpectation::Optional),
        Err(ArtifactClaimError::Invalid("artifactClaimId"))
    ));
    assert!(matches!(
        ArtifactClaim::establish(claim_id(), "bad id!".to_string(), "t".to_string(), ArtifactExpectation::Optional),
        Err(ArtifactClaimError::Invalid("sessionId"))
    ));
    let c = claim(ArtifactExpectation::Optional);
    assert_eq!(c.outcome(), &ClaimOutcome::Pending);
    assert!(c.consumed().is_none());
}

#[test]
fn zero_controls_succeed_only_where_no_artifact_is_owed() {
    let mut optional = claim(ArtifactExpectation::Optional);
    optional.discover_zero(&zero_proof()).unwrap();
    assert_eq!(optional.outcome(), &ClaimOutcome::ZeroControlsOptionalSuccess);
    let mut required = claim(ArtifactExpectation::Required);
    required.discover_zero(&zero_proof()).unwrap();
    assert_eq!(required.outcome(), &ClaimOutcome::Failed("artifact.required_zero"));
    assert_eq!(required.fail("late"), Err(ArtifactClaimError::IllegalTransition));
    assert_eq!(
        required.discover_controls(vec![control('c')], &bottom()),
        Err(ArtifactClaimError::IllegalTransition)
    );
}

#[test]
fn controls_are_validated_and_unique() {
    let mut c = claim(ArtifactExpectation::Claimed);
    assert_eq!(c.discover_controls(vec![], &bottom()), Err(ArtifactClaimError::IllegalTransition));
    let mut wrong_turn = control('c');
    wrong_turn.current_turn_id = format!("turn_{}", hex('f'));
    assert_eq!(
        c.discover_controls(vec![wrong_turn], &bottom()),
        Err(ArtifactClaimError::Invalid("control scope/state"))
    );
    assert_eq!(
        c.discover_controls(vec![control('c'), control('c')], &bottom()),
        Err(ArtifactClaimError::Invalid("duplicate controls"))
    );
    c.discover_controls(vec![control('c'), control('d')], &bottom()).unwrap();
    assert_eq!(
        c.discover_controls(vec![control('e')], &bottom()),
        Err(ArtifactClaimError::IllegalTransition)
    );
    assert_eq!(c.discover_zero(&zero_proof()), Err(ArtifactClaimError::IllegalTransition));
}

#[test]
fn consumption_takes_the_next_control_once() {
    let mut c = claim(ArtifactExpectation::Claimed);
    c.discover_controls(vec![control('c'), control('d')], &bottom()).unwrap();
    assert_eq!(
        c.consume_next("bad id!".to_string(), baseline()).unwrap_err(),
        ArtifactClaimError::Invalid("attemptId")
    );
    let attempt = c.consume_next("attempt-1".to_string(), baseline()).unwrap();
    assert_eq!(attempt.control_index, 0);
    assert_eq!(attempt.control, control('c'));
    assert_eq!(
        c.consume_next("attempt-2".to_string(), baseline()).unwrap_err(),
        ArtifactClaimError::IllegalTransition
    );
    assert!(c.observe_recovery_candidate("downloads/a.txt", &h256('9'), 2).is_ok());
    assert_eq!(
        c.observe_recovery_candidate("downloads/a.txt", &h256('9'), 1),
        Err(ArtifactClaimError::IllegalTransition)
    );
    assert_eq!(
        c.observe_recovery_candidate("../a.txt", &h256('9'), 2),
        Err(ArtifactClaimError::Invalid("candidateRelPath"))
    );
    c.fail("artifact.download_failed").unwrap();
    assert_eq!(c.outcome(), &ClaimOutcome::Failed("artifact.download_failed"));
}

#[test]
fn baseline_entries_must_be_sorted() {
    let mut b = baseline();
    assert!(b.validate().is_ok());
    b.entries.push(ArtifactBaselineEntry { rel_path: "a.txt".to_string(), size_bytes: 1, sha256: h256('4') });
    assert_eq!(b.validate(), Err(ArtifactClaimError::Invalid("baseline ordering")));
}

#[test]
fn media_types_follow_the_extension() {
    assert_eq!(mime_from_path("a/b/report.md"), "text/markdown");
    assert_eq!(mime_from_path("x.jpeg"), "image/jpeg");
    assert_eq!(mime_from_path("archive.tar.gz"), "application/gzip");
    assert_eq!(mime_from_path("noext"), "application/octet-stream");
}
