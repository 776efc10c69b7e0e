use gpt_webai_lifecycle::contracts::browser::{EvidenceMediaType, Model};
use gpt_webai_lifecycle::contracts::decode::{
    artifact_verdicts, decode_evidence_ref, decode_model, decode_model_proof,
    find_controls_problem, model_selection_verdicts, ControlsProblem,
};
use gpt_webai_lifecycle::contracts::events::EventType;
use gpt_webai_lifecycle::contracts::semantics::JsonValue;

fn object(fields: Vec<(&str, JsonValue)>) -> JsonValue {
    JsonValue::Object(fields.into_iter().map(|(k, v)| (k.to_string(), v)).collect())
}

fn text(s: &str) -> JsonValue {
    JsonValue::Text(s.to_string())
}

fn hex(prefix: &str, c: char) -> String {
    format!("{prefix}{}", std::iter::repeat(c).take(64).collect::<String>())
}

fn evidence(path: &str) -> JsonValue {
    object(vec![
        ("path", text(path)),
        ("sha256", text(&hex("sha256:", 'a'))),
        ("sizeBytes", JsonValue::Unsigned(10)),
        ("mediaType", text("application/json")),
    ])
}

fn control() -> JsonValue {
    object(vec![
        ("boundingBoxHash", text(&hex("sha256:", 'b'))),
        ("controlId", text(&hex("control_", 'c'))),
        ("disabled", JsonValue::Bool(false)),
        ("domPathHash", text(&hex("sha256:", 'd'))),
        ("labelHash", text(&hex("sha256:", 'e'))),
        ("role", text("button")),
        ("testIdHash", JsonValue::Null),
        ("visible", JsonValue::Bool(true)),
    ])
}

fn selection_proof(requested: &str, observed: &str) -> JsonValue {
    object(vec![
        ("requested", text(requested)),
        ("observed", text(observed)),
        ("verified", JsonValue::Bool(true)),
        ("control", control()),
        ("selectedBy", text("picker")),
        ("evidenceRefs", JsonValue::Array(vec![evidence("evidence/model.json")])),
        ("verifiedAtMs", JsonValue::Unsigned(1_700_000_000_000)),
    ])
}

fn failure_proof(reason: &str) -> JsonValue {
    object(vec![
        ("reason", text(reason)),
        ("pickerOpened", JsonValue::Bool(true)),
        ("requestedModelVisible", JsonValue::Bool(false)),
        ("requestedEffortVisible", JsonValue::Bool(true)),
        ("controlIdentityStable", JsonValue::Bool(true)),
        ("evidenceRefs", JsonValue::Array(vec![evidence("evidence/picker.png")])),
        ("failedAtMs", JsonValue::Unsigned(1_700_000_000_000)),
    ])
}

fn verdicts(t: EventType, p: &JsonValue) -> Vec<(String, bool)> {
    model_selection_verdicts(t, p)
}

fn pairs(v: &[(&str, bool)]) -> Vec<(String, bool)> {
    v.iter().map(|(k, b)| (k.to_string(), *b)).collect()
}

#[test]
fn models_read_by_name_or_as_a_one_field_object() {
    assert_eq!(decode_model(Some(&text("pro"))), Some(Model::Pro));
    assert_eq!(decode_model(Some(&object(vec![("xhigh", JsonValue::Null)]))), Some(Model::Xhigh));
    assert_eq!(decode_model(Some(&text("Pro"))), None);
    assert_eq!(decode_model(Some(&object(vec![("pro", JsonValue::Bool(true))]))), None);
    assert_eq!(decode_model(None), None);
}

#[test]
fn evidence_references_deny_unknown_and_repeated_fields() {
    let read = decode_evidence_ref(&evidence("evidence/a.json")).unwrap();
    assert_eq!(read.path, "evidence/a.json");
    assert_eq!(read.size_bytes, 10);
    assert_eq!(read.media_type, EvidenceMediaType::Json);
    let as_array = JsonValue::Array(vec![
        text("evidence/a.json"),
        text(&hex("sha256:", 'a')),
        JsonValue::Unsigned(10),
        text("application/json"),
    ]);
    assert_eq!(decode_evidence_ref(&as_array), Some(read.clone()));
    let JsonValue::Object(mut extra) = evidence("evidence/a.json") else { unreachable!() };
    extra.push(("extra".to_string(), JsonValue::Null));
    assert_eq!(decode_evidence_ref(&JsonValue::Object(extra)), None);
    let JsonValue::Object(mut repeated) = evidence("evidence/a.json") else { unreachable!() };
    repeated.push(("path".to_string(), text("evidence/b.json")));
    assert_eq!(decode_evidence_ref(&JsonValue::Object(repeated)), None);
    let float_size = object(vec![
        ("path", text("evidence/a.json")),
        ("sha256", text(&hex("sha256:", 'a'))),
        ("sizeBytes", JsonValue::OtherNumber),
        ("mediaType", text("application/json")),
    ]);
    assert_eq!(decode_evidence_ref(&float_size), None);
}

#[test]
fn started_selections_name_a_supported_tuple() {
    let ok = object(vec![("requestedModel", text("pro")), ("requestedEffort", text("standard"))]);
    assert_eq!(
        verdicts(EventType::ModelSelectionStarted, &ok),
        pairs(&[("requestedModel", true), ("requestedEffort", true), ("model tuple", true)])
    );
    let mixed = object(vec![("requestedModel", text("xhigh")), ("requestedEffort", text("standard"))]);
    assert_eq!(
        verdicts(EventType::ModelSelectionStarted, &mixed),
        pairs(&[("requestedModel", true), ("requestedEffort", true), ("model tuple", false)])
    );
    let unknown = object(vec![("requestedModel", text("turbo")), ("requestedEffort", text("high"))]);
    assert_eq!(
        verdicts(EventType::ModelSelectionStarted, &unknown),
        pairs(&[("requestedModel", false), ("requestedEffort", true), ("model tuple", false)])
    );
    assert_eq!(verdicts(EventType::RequestAccepted, &ok), Vec::new());
}

#[test]
fn verified_selections_carry_valid_matching_proofs() {
    let ok = object(vec![("modelProof", selection_proof("pro", "pro")), ("effortProof", selection_proof("standard", "standard"))]);
    assert!(decode_model_proof(Some(&selection_proof("pro", "pro"))).is_some());
    assert_eq!(
        verdicts(EventType::ModelSelectionVerified, &ok),
        pairs(&[
            ("modelProof parsed", true),
            ("effortProof parsed", true),
            ("modelProof", true),
            ("effortProof", true),
            ("model proof tuple", true),
        ])
    );
    let drifted =
        object(vec![("modelProof", selection_proof("pro", "xhigh")), ("effortProof", selection_proof("high", "high"))]);
    assert_eq!(
        verdicts(EventType::ModelSelectionVerified, &drifted),
        pairs(&[
            ("modelProof parsed", true),
            ("effortProof parsed", true),
            ("modelProof", false),
            ("effortProof", true),
            ("model proof tuple", false),
        ])
    );
    let wrong_kind = object(vec![("modelProof", selection_proof("standard", "standard"))]);
    assert_eq!(
        verdicts(EventType::ModelSelectionVerified, &wrong_kind),
        pairs(&[
            ("modelProof parsed", false),
            ("effortProof parsed", false),
            ("modelProof", false),
            ("effortProof", false),
            ("model proof tuple", false),
        ])
    );
}

#[test]
fn failed_selections_carry_the_proof_their_reason_needs() {
    let picker = object(vec![
        ("reason", text("picker.model_absent")),
        ("failureProof", failure_proof("picker.model_absent")),
        ("providerReceipt", JsonValue::Null),
    ]);
    assert_eq!(
        verdicts(EventType::ModelSelectionFailed, &picker),
        pairs(&[
            ("failureProof parsed", true),
            ("providerReceipt", true),
            ("ModelSelectionFailed proof", true),
            ("failureProof", true),
        ])
    );
    let other_reason = object(vec![
        ("reason", text("picker.model_absent")),
        ("failureProof", failure_proof("picker.effort_absent")),
        ("providerReceipt", evidence("evidence/receipt.json")),
    ]);
    assert_eq!(
        verdicts(EventType::ModelSelectionFailed, &other_reason),
        pairs(&[
            ("failureProof parsed", true),
            ("providerReceipt", true),
            ("ModelSelectionFailed proof", false),
            ("failureProof", true),
        ])
    );
    let envelope = object(vec![
        ("reason", text("binding.mismatch")),
        ("failureProof", JsonValue::Null),
        ("providerReceipt", evidence("../escape.json")),
    ]);
    assert_eq!(
        verdicts(EventType::ModelSelectionFailed, &envelope),
        pairs(&[
            ("failureProof parsed", true),
            ("providerReceipt", false),
            ("ModelSelectionFailed proof", true),
            ("failureProof", true),
        ])
    );
    let missing = object(vec![("reason", text("binding.mismatch"))]);
    assert_eq!(
        verdicts(EventType::ModelSelectionFailed, &missing),
        pairs(&[
            ("failureProof parsed", false),
            ("providerReceipt", false),
            ("ModelSelectionFailed proof", true),
            ("failureProof", true),
        ])
    );
}

fn artifact_control(c: char) -> JsonValue {
    object(vec![
        ("controlId", text(&hex("control_", c))),
        ("role", text("button")),
        ("visibleTextHash", text(&hex("sha256:", 'a'))),
        ("domPathHash", text(&hex("sha256:", 'b'))),
        ("boundingBoxHash", text(&hex("sha256:", 'c'))),
        ("currentTurnId", text(&hex("turn_", 'd'))),
        ("visible", JsonValue::Bool(true)),
        ("disabled", JsonValue::Bool(false)),
    ])
}

fn bottom_proof(method: &str) -> JsonValue {
    object(vec![
        ("atBottom", JsonValue::Bool(true)),
        ("method", text(method)),
        ("capturedAtMs", JsonValue::Unsigned(1_700_000_000_000)),
        ("evidenceRefs", JsonValue::Array(vec![evidence("evidence/bottom.png")])),
    ])
}

fn discovered(controls: Vec<JsonValue>, method: &str) -> JsonValue {
    object(vec![
        ("controls", JsonValue::Array(controls)),
        ("bottomProof", bottom_proof(method)),
        ("providerReceipt", evidence("evidence/receipt.json")),
    ])
}

#[test]
fn discovered_controls_are_valid_and_distinct_in_order() {
    let ok = discovered(vec![artifact_control('1'), artifact_control('2')], "scrollbar");
    assert_eq!(
        artifact_verdicts(EventType::ArtifactControlsDiscovered, &ok),
        pairs(&[
            ("ArtifactControl", true),
            ("duplicate ArtifactControl", true),
            ("bottomProof", true),
            ("providerReceipt", true),
        ])
    );
    let repeated = discovered(vec![artifact_control('1'), artifact_control('1')], "sideways");
    assert_eq!(
        artifact_verdicts(EventType::ArtifactControlsDiscovered, &repeated),
        pairs(&[
            ("ArtifactControl", true),
            ("duplicate ArtifactControl", false),
            ("bottomProof", false),
            ("providerReceipt", true),
        ])
    );
    // A repeat before an invalid control is reported as the repeat.
    let both = discovered(
        vec![artifact_control('1'), artifact_control('1'), text("not a control")],
        "scrollbar",
    );
    assert_eq!(find_controls_problem_of(&both), Some(ControlsProblem::Duplicate));
    let invalid_first = discovered(
        vec![artifact_control('1'), text("not a control"), artifact_control('1')],
        "scrollbar",
    );
    assert_eq!(find_controls_problem_of(&invalid_first), Some(ControlsProblem::Invalid));
}

fn find_controls_problem_of(p: &JsonValue) -> Option<ControlsProblem> {
    let JsonValue::Object(fields) = p else { unreachable!() };
    let JsonValue::Array(controls) = &fields[0].1 else { unreachable!() };
    find_controls_problem(controls)
}

#[test]
fn health_evidence_and_download_baselines_are_checked() {
    let two = object(vec![(
        "evidenceRefs",
        JsonValue::Array(vec![evidence("evidence/a.json"), evidence("evidence/b.json")]),
    )]);
    assert_eq!(artifact_verdicts(EventType::SlotHealthObserved, &two), pairs(&[("evidenceRefs", true)]));
    let none = object(vec![("evidenceRefs", JsonValue::Array(vec![]))]);
    assert_eq!(artifact_verdicts(EventType::SlotHealthObserved, &none), pairs(&[("evidenceRefs", true)]));
    let same = object(vec![(
        "evidenceRefs",
        JsonValue::Array(vec![evidence("evidence/a.json"), evidence("evidence/a.json")]),
    )]);
    assert_eq!(artifact_verdicts(EventType::SlotHealthObserved, &same), pairs(&[("evidenceRefs", false)]));

    let baseline = |paths: Vec<&str>| {
        object(vec![(
            "artifactBaseline",
            object(vec![
                ("directory", text("downloads")),
                (
                    "entries",
                    JsonValue::Array(
                        paths
                            .iter()
                            .map(|p| {
                                object(vec![
                                    ("relPath", text(p)),
                                    ("sizeBytes", JsonValue::Unsigned(1)),
                                    ("sha256", text(&hex("sha256:", 'f'))),
                                ])
                            })
                            .collect(),
                    ),
                ),
                ("capturedAtMs", JsonValue::Unsigned(1_700_000_000_000)),
                ("baselineSha256", text(&hex("sha256:", 'e'))),
            ]),
        )])
    };
    assert_eq!(
        artifact_verdicts(EventType::ArtifactDownloadAttemptConsumed, &baseline(vec!["a.txt", "b.txt"])),
        pairs(&[("artifactBaseline", true)])
    );
    assert_eq!(
        artifact_verdicts(EventType::ArtifactDownloadAttemptConsumed, &baseline(vec!["b.txt", "a.txt"])),
        pairs(&[("artifactBaseline", false)])
    );
    assert_eq!(artifact_verdicts(EventType::RequestAccepted, &two), Vec::new());
}

#[test]
fn absent_controls_carry_a_zero_control_proof_for_the_claim() {
    let claim = hex("artifact_claim_", '5');
    let payload = |count: u64, claim_in_proof: &str| {
        object(vec![
            ("artifactClaimId", text(&claim)),
            (
                "zeroControlProof",
                object(vec![
                    ("artifactClaimId", text(claim_in_proof)),
                    ("terminalAssistantTurnId", text(&hex("turn_", 'd'))),
                    ("bottomProof", bottom_proof("dom_terminal_anchor")),
                    ("controlCount", JsonValue::Unsigned(count)),
                    ("evidenceRefs", JsonValue::Array(vec![evidence("evidence/none.png")])),
                    ("capturedAtMs", JsonValue::Unsigned(1_700_000_000_000)),
                ]),
            ),
            ("providerReceipt", evidence("evidence/receipt.json")),
        ])
    };
    assert_eq!(
        artifact_verdicts(EventType::ArtifactControlsAbsent, &payload(0, &claim)),
        pairs(&[("zeroControlProof", true), ("providerReceipt", true)])
    );
    assert_eq!(
        artifact_verdicts(EventType::ArtifactControlsAbsent, &payload(1, &claim)),
        pairs(&[("zeroControlProof", false), ("providerReceipt", true)])
    );
    assert_eq!(
        artifact_verdicts(EventType::ArtifactControlsAbsent, &payload(300, &claim)),
        pairs(&[("zeroControlProof", false), ("providerReceipt", true)])
    );
    assert_eq!(
        artifact_verdicts(EventType::ArtifactControlsAbsent, &payload(0, &hex("artifact_claim_", '6'))),
        pairs(&[("zeroControlProof", false), ("providerReceipt", true)])
    );
}
