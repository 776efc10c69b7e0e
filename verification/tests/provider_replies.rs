use gpt_webai_lifecycle::contracts::decode::{artifact_verdicts, capture_verdicts, decode_download_receipt};
use gpt_webai_lifecycle::contracts::events::EventType;
use gpt_webai_lifecycle::artifact_claims::completion::PlaywrightDownloadReceipt;
use gpt_webai_lifecycle::artifact_claims::{ArtifactControl, BottomProof};
use gpt_webai_lifecycle::contracts::browser::{
    ControlIdentity, Effort, EffortProof, EvidenceMediaType, EvidenceRef, Model, ModelProof,
    PageBindingEcho, SessionEcho, SessionRebindExpectation,
};
use gpt_webai_lifecycle::contracts::ids::{
    derive_artifact_id, derive_page_binding_id, derive_session_binding_id,
};
use gpt_webai_lifecycle::contracts::provider::ProviderContractError;
use gpt_webai_lifecycle::contracts::replies::{
    validate_rebind_response,
    validate_capture_response, validate_discover_response, validate_download_response,
    validate_model_response, validate_poll_response, validate_status_response, Parsed,
    ReplyStatus,
};
use gpt_webai_lifecycle::contracts::semantics::JsonValue;

fn hex(c: char, n: usize) -> String {
    std::iter::repeat(c).take(n).collect()
}

fn h256(c: char) -> String {
    format!("sha256:{}", hex(c, 64))
}

fn id(prefix: &str, c: char) -> String {
    format!("{prefix}_{}", hex(c, 64))
}

fn reply(ok: bool, status: &str, reason: Option<&str>) -> ReplyStatus {
    ReplyStatus { ok, status: status.to_string(), provider_reason: reason.map(|s| s.to_string()) }
}

fn invalid(m: &'static str) -> Result<(), ProviderContractError> {
    Err(ProviderContractError::Invalid(m))
}

fn text(s: &str) -> JsonValue {
    JsonValue::Text(s.to_string())
}

fn data(fields: Vec<(&str, JsonValue)>) -> Vec<(String, JsonValue)> {
    fields.into_iter().map(|(k, v)| (k.to_string(), v)).collect()
}

fn binding() -> PageBindingEcho {
    let page = id("page", '1');
    let root = h256('2');
    PageBindingEcho {
        binding_id: derive_page_binding_id(&page, &root).unwrap(),
        binding_generation: 1,
        slot_id: "slot-01".to_string(),
        cohort: "cohort-a".to_string(),
        lease_id: id("lease", '3'),
        lease_generation: 1,
        runtime_owner_id: id("owner", '4'),
        runtime_owner_generation: 1,
        runtime_incarnation_id: id("runtime", '5'),
        browser_context_id: id("ctx", '6'),
        target_id: id("target", '7'),
        page_incarnation_id: page,
        root_binding_hash: root,
        dom_mutation_generation: 0,
    }
}

fn echo() -> SessionEcho {
    SessionEcho {
        page_binding: binding(),
        session_id: "sess-1".to_string(),
        conversation_url: "https://chatgpt.com/c/sess-1".to_string(),
        request_id: Some("req_1".to_string()),
        run_id: None,
        session_binding_id: derive_session_binding_id("sess-1", "slot-01", "cohort-a").unwrap(),
        page_binding_generation: 1,
        visible_user_turn_id: None,
        visible_assistant_turn_id: Some(id("turn", '8')),
        active_turn: false,
        terminal_answer_sha256: Some(h256('9')),
    }
}

fn evidence() -> Vec<EvidenceRef> {
    vec![EvidenceRef {
        path: "evidence/a.json".to_string(),
        sha256: h256('a'),
        size_bytes: 10,
        media_type: EvidenceMediaType::Json,
    }]
}

fn control_identity() -> ControlIdentity {
    ControlIdentity {
        bounding_box_hash: h256('b'),
        control_id: id("control", 'c'),
        disabled: false,
        dom_path_hash: h256('d'),
        label_hash: h256('e'),
        role: "button".to_string(),
        test_id_hash: None,
        visible: true,
    }
}

fn model_proof(model: Model) -> ModelProof {
    ModelProof {
        requested: model,
        observed: model,
        verified: true,
        control: control_identity(),
        selected_by: "picker".to_string(),
        evidence_refs: evidence(),
        verified_at_ms: 5,
    }
}

fn effort_proof(effort: Effort) -> EffortProof {
    EffortProof {
        requested: effort,
        observed: effort,
        verified: true,
        control: control_identity(),
        selected_by: "already_exact".to_string(),
        evidence_refs: evidence(),
        verified_at_ms: 5,
    }
}

#[test]
fn a_status_reply_names_known_states() {
    let good = data(vec![
        ("healthStatus", text("ready")),
        ("dockerStatus", text("running")),
        ("modelLabel", text("pro")),
        ("retryAfterMs", JsonValue::Null),
        ("composerReady", JsonValue::Bool(true)),
    ]);
    assert_eq!(validate_status_response(&reply(true, "done", None), &good), Ok(()));
    assert_eq!(validate_status_response(&reply(false, "failed", Some("probe.timeout")), &good), Ok(()));
    assert_eq!(
        validate_status_response(&reply(true, "running", None), &good),
        invalid("status response status")
    );
    assert_eq!(
        validate_status_response(&reply(false, "failed", Some("provider.limit")), &good),
        invalid("status providerReason")
    );
    let mut bad_health = good.clone_fields();
    bad_health[0].1 = text("fine");
    assert_eq!(validate_status_response(&reply(true, "done", None), &bad_health), invalid("status observation"));
    let mut late = good.clone_fields();
    late[3].1 = JsonValue::Unsigned(12_000_001);
    assert_eq!(validate_status_response(&reply(true, "done", None), &late), invalid("retryAfterMs"));
    let short = data(vec![("healthStatus", text("ready")), ("dockerStatus", text("running"))]);
    assert_eq!(validate_status_response(&reply(true, "done", None), &short), invalid("modelLabel"));
}

trait CloneFields {
    fn clone_fields(&self) -> Vec<(String, JsonValue)>;
}

fn clone_value(v: &JsonValue) -> JsonValue {
    match v {
        JsonValue::Null => JsonValue::Null,
        JsonValue::Bool(b) => JsonValue::Bool(*b),
        JsonValue::Unsigned(n) => JsonValue::Unsigned(*n),
        JsonValue::OtherNumber => JsonValue::OtherNumber,
        JsonValue::Negative(n) => JsonValue::Negative(*n),
        JsonValue::Text(s) => JsonValue::Text(s.clone()),
        JsonValue::Array(vs) => JsonValue::Array(vs.iter().map(clone_value).collect()),
        JsonValue::Object(es) => {
            JsonValue::Object(es.iter().map(|(k, v)| (k.clone(), clone_value(v))).collect())
        }
    }
}

impl CloneFields for Vec<(String, JsonValue)> {
    fn clone_fields(&self) -> Vec<(String, JsonValue)> {
        self.iter().map(|(k, v)| (k.clone(), clone_value(v))).collect()
    }
}

#[test]
fn an_ensure_model_reply_proves_the_requested_model() {
    let expected = binding();
    let observed = Parsed::Value(binding());
    let ok = validate_model_response(
        &reply(true, "done", None),
        &expected,
        Model::Pro,
        Effort::Standard,
        &observed,
        &Parsed::Value(model_proof(Model::Pro)),
        &Parsed::Value(effort_proof(Effort::Standard)),
        &Parsed::Null,
    );
    assert_eq!(ok, Ok(()));
    let wrong = validate_model_response(
        &reply(true, "done", None),
        &expected,
        Model::Xhigh,
        Effort::High,
        &observed,
        &Parsed::Value(model_proof(Model::Pro)),
        &Parsed::Value(effort_proof(Effort::Standard)),
        &Parsed::Null,
    );
    assert_eq!(wrong, invalid("ensure-model success"));
    let missing = validate_model_response(
        &reply(true, "done", None),
        &expected,
        Model::Pro,
        Effort::Standard,
        &observed,
        &Parsed::Missing,
        &Parsed::Value(effort_proof(Effort::Standard)),
        &Parsed::Null,
    );
    assert_eq!(missing, invalid("modelProof"));
}

#[test]
fn an_ensure_model_reply_echoes_the_binding_unless_it_reports_a_mismatch() {
    let expected = binding();
    let mut other = binding();
    other.dom_mutation_generation = 3;
    let none = |obs: Parsed<PageBindingEcho>, reason: Option<&str>| {
        validate_model_response(
            &reply(false, "failed", reason),
            &expected,
            Model::Pro,
            Effort::Standard,
            &obs,
            &Parsed::Null,
            &Parsed::Null,
            &Parsed::Null,
        )
    };
    assert_eq!(none(Parsed::Value(binding()), Some("provider.schema_drift")), Ok(()));
    assert_eq!(
        none(Parsed::Value(binding()), Some("binding.mismatch")),
        invalid("ensure-model binding mismatch echo")
    );
    assert_eq!(none(Parsed::Value(other.clone()), Some("binding.mismatch")), Ok(()));
    assert_eq!(
        none(Parsed::Value(other), Some("provider.schema_drift")),
        Err(ProviderContractError::BindingMismatch)
    );
    assert_eq!(none(Parsed::Null, Some("other.reason")), invalid("ensure-model providerReason"));
    assert_eq!(none(Parsed::Malformed, Some("provider.schema_drift")), invalid("observedPageBinding"));
}

fn poll_data(state: &str, answer: Option<(&str, &str)>) -> Vec<(String, JsonValue)> {
    let (sha, turn) = match answer {
        Some((s, t)) => (text(s), text(t)),
        None => (JsonValue::Null, JsonValue::Null),
    };
    let size = if answer.is_some() { JsonValue::Unsigned(10) } else { JsonValue::Null };
    let path = if answer.is_some() { text("answers/a.md") } else { JsonValue::Null };
    data(vec![
        ("pollState", text(state)),
        ("answerSha256", sha),
        ("answerSizeBytes", size),
        ("answerRelPath", path),
        ("terminalAssistantTurnId", turn),
    ])
}

#[test]
fn a_poll_reply_binds_its_answer_to_the_observed_echo() {
    let requested = echo();
    let sha = h256('9');
    let turn = id("turn", '8');
    let run = |r: ReplyStatus, observed: Parsed<SessionEcho>, d: &Vec<(String, JsonValue)>| {
        validate_poll_response(&r, &requested, &Parsed::Value(echo()), &observed, d, &Parsed::Null)
    };
    assert_eq!(run(reply(true, "running", None), Parsed::Value(echo()), &poll_data("running", None)), Ok(()));
    assert_eq!(
        run(reply(true, "done", None), Parsed::Value(echo()), &poll_data("terminal", Some((&sha, &turn)))),
        Ok(())
    );
    let other_sha = h256('0');
    assert_eq!(
        run(reply(true, "done", None), Parsed::Value(echo()), &poll_data("terminal", Some((&other_sha, &turn)))),
        invalid("poll answer binding")
    );
    assert_eq!(
        run(reply(true, "done", None), Parsed::Null, &poll_data("terminal", Some((&sha, &turn)))),
        invalid("observedEcho")
    );
    assert_eq!(
        run(reply(false, "failed", Some("session.url_rejected_root")), Parsed::Value(echo()), &poll_data("failed", None)),
        invalid("root observedEcho")
    );
    assert_eq!(
        run(reply(false, "failed", Some("session.url_rejected_root")), Parsed::Null, &poll_data("failed", None)),
        Ok(())
    );
    let mut moved = echo();
    moved.session_id = "sess-2".to_string();
    assert_eq!(
        validate_poll_response(
            &reply(true, "running", None),
            &requested,
            &Parsed::Value(moved),
            &Parsed::Value(echo()),
            &poll_data("running", None),
            &Parsed::Null
        ),
        invalid("expected echo")
    );
}

#[test]
fn a_capture_reply_carries_a_candidate_or_a_reason() {
    let timeout = validate_capture_response(
        &reply(false, "failed", Some("capture.timeout")),
        "op-1",
        &Parsed::Null,
        &Parsed::Null,
    );
    assert_eq!(timeout, Ok(()));
    let missing = validate_capture_response(&reply(true, "done", None), "op-1", &Parsed::Missing, &Parsed::Null);
    assert_eq!(missing, invalid("rootBindingCandidate"));
    let stray = validate_capture_response(
        &reply(false, "failed", Some("capture.timeout")),
        "op-1",
        &Parsed::Malformed,
        &Parsed::Null,
    );
    assert_eq!(stray, invalid("capture failure"));
    let unproven = validate_capture_response(
        &reply(false, "failed", Some("capture.ambiguous")),
        "op-1",
        &Parsed::Null,
        &Parsed::Null,
    );
    assert_eq!(unproven, invalid("failureProof"));
}

fn bottom() -> BottomProof {
    BottomProof {
        at_bottom: true,
        method: "scrollbar".to_string(),
        captured_at_ms: 9,
        evidence_refs: evidence(),
    }
}

#[test]
fn a_discovery_reply_accounts_for_its_controls() {
    let expected = echo();
    let claim = id("artifact_claim", 'a');
    let turn = id("turn", '8');
    let failure = data(vec![("failureReason", text("artifact.bottom_unverified"))]);
    let failed = validate_discover_response(
        &reply(false, "failed", Some("artifact.bottom_unverified")),
        &expected,
        &claim,
        &turn,
        &Parsed::Value(echo()),
        &Parsed::Value(vec![]),
        &Parsed::Null,
        &Parsed::Null,
        &failure,
    );
    assert_eq!(failed, Ok(()));
    let other_reason = data(vec![("failureReason", text("artifact.controls_ambiguous"))]);
    let mismatched = validate_discover_response(
        &reply(false, "failed", Some("artifact.bottom_unverified")),
        &expected,
        &claim,
        &turn,
        &Parsed::Value(echo()),
        &Parsed::Value(vec![]),
        &Parsed::Null,
        &Parsed::Null,
        &other_reason,
    );
    assert_eq!(mismatched, invalid("artifact-discover failure"));
    let no_reason = data(vec![("failureReason", JsonValue::Null)]);
    let zero_missing = validate_discover_response(
        &reply(true, "done", None),
        &expected,
        &claim,
        &turn,
        &Parsed::Value(echo()),
        &Parsed::Value(vec![]),
        &Parsed::Value(bottom()),
        &Parsed::Null,
        &no_reason,
    );
    assert_eq!(zero_missing, invalid("zeroControlProof"));
    let control = ArtifactControl {
        control_id: id("control", 'c'),
        role: "button".to_string(),
        visible_text_hash: h256('1'),
        dom_path_hash: h256('2'),
        bounding_box_hash: h256('3'),
        current_turn_id: turn.clone(),
        visible: true,
        disabled: false,
    };
    let found = validate_discover_response(
        &reply(true, "done", None),
        &expected,
        &claim,
        &turn,
        &Parsed::Value(echo()),
        &Parsed::Value(vec![control.clone()]),
        &Parsed::Value(bottom()),
        &Parsed::Null,
        &no_reason,
    );
    assert_eq!(found, Ok(()));
    let doubled = validate_discover_response(
        &reply(true, "done", None),
        &expected,
        &claim,
        &turn,
        &Parsed::Value(echo()),
        &Parsed::Value(vec![control.clone(), control]),
        &Parsed::Value(bottom()),
        &Parsed::Null,
        &no_reason,
    );
    assert_eq!(doubled, invalid("duplicate controls"));
}

fn download_control(turn: &str) -> ArtifactControl {
    ArtifactControl {
        control_id: id("control", 'c'),
        role: "button".to_string(),
        visible_text_hash: h256('1'),
        dom_path_hash: h256('2'),
        bounding_box_hash: h256('3'),
        current_turn_id: turn.to_string(),
        visible: true,
        disabled: false,
    }
}

#[test]
fn a_saved_download_lands_in_the_requested_directory() {
    let expected = echo();
    let claim = id("artifact_claim", 'a');
    let turn = id("turn", '8');
    let control = download_control(&turn);
    let download = id("download", 'f');
    let artifact = derive_artifact_id(&claim, &control.control_id, &download).unwrap();
    let directory = format!("artifacts/r-req_1/{claim}");
    let page = binding();
    let receipt = PlaywrightDownloadReceipt {
        artifact_claim_id: claim.clone(),
        artifact_id: artifact.clone(),
        browser_context_id: page.browser_context_id.clone(),
        clicked_at_ms: 20,
        control: control.clone(),
        conversation_url: expected.conversation_url.clone(),
        download_event_id: download,
        host_saved_rel_path: format!("{directory}/{artifact}.download"),
        listener_armed_at_ms: 10,
        media_type: "application/octet-stream".to_string(),
        page_incarnation_id: page.page_incarnation_id.clone(),
        received_at_ms: 30,
        session_id: expected.session_id.clone(),
        sha256: h256('4'),
        size_bytes: 100,
        slot_id: page.slot_id.clone(),
        target_id: page.target_id.clone(),
        terminal_assistant_turn_id: turn.clone(),
    };
    let no_reason = data(vec![("failureReason", JsonValue::Null)]);
    let saved = validate_download_response(
        &reply(true, "done", None),
        &expected,
        &claim,
        &turn,
        &control,
        &directory,
        &Parsed::Value(echo()),
        &Parsed::Value(receipt.clone()),
        &no_reason,
    );
    assert_eq!(saved, Ok(()));
    let elsewhere = validate_download_response(
        &reply(true, "done", None),
        &expected,
        &claim,
        &turn,
        &control,
        "artifacts/r-req_1",
        &Parsed::Value(echo()),
        &Parsed::Value(receipt),
        &no_reason,
    );
    assert_eq!(elsewhere, invalid("artifact-click-save success"));
    let timed_out = data(vec![("failureReason", text("artifact.download_timeout"))]);
    let failed = validate_download_response(
        &reply(false, "failed", Some("artifact.download_timeout")),
        &expected,
        &claim,
        &turn,
        &control,
        &directory,
        &Parsed::Value(echo()),
        &Parsed::Null,
        &timed_out,
    );
    assert_eq!(failed, Ok(()));
    let wrong_reason = validate_download_response(
        &reply(false, "failed", Some("artifact.path_unsafe")),
        &expected,
        &claim,
        &turn,
        &control,
        &directory,
        &Parsed::Value(echo()),
        &Parsed::Null,
        &timed_out,
    );
    assert_eq!(wrong_reason, invalid("artifact-click-save failure"));
}

fn receipt_json(r: &PlaywrightDownloadReceipt) -> JsonValue {
    let t = |s: &str| JsonValue::Text(s.to_string());
    let c = &r.control;
    let control = JsonValue::Object(vec![
        ("controlId".to_string(), t(&c.control_id)),
        ("role".to_string(), t(&c.role)),
        ("visibleTextHash".to_string(), t(&c.visible_text_hash)),
        ("domPathHash".to_string(), t(&c.dom_path_hash)),
        ("boundingBoxHash".to_string(), t(&c.bounding_box_hash)),
        ("currentTurnId".to_string(), t(&c.current_turn_id)),
        ("visible".to_string(), JsonValue::Bool(c.visible)),
        ("disabled".to_string(), JsonValue::Bool(c.disabled)),
    ]);
    JsonValue::Object(vec![
        ("artifactClaimId".to_string(), t(&r.artifact_claim_id)),
        ("artifactId".to_string(), t(&r.artifact_id)),
        ("browserContextId".to_string(), t(&r.browser_context_id)),
        ("clickedAtMs".to_string(), JsonValue::Unsigned(r.clicked_at_ms)),
        ("control".to_string(), control),
        ("conversationUrl".to_string(), t(&r.conversation_url)),
        ("downloadEventId".to_string(), t(&r.download_event_id)),
        ("hostSavedRelPath".to_string(), t(&r.host_saved_rel_path)),
        ("listenerArmedAtMs".to_string(), JsonValue::Unsigned(r.listener_armed_at_ms)),
        ("mediaType".to_string(), t(&r.media_type)),
        ("pageIncarnationId".to_string(), t(&r.page_incarnation_id)),
        ("receivedAtMs".to_string(), JsonValue::Unsigned(r.received_at_ms)),
        ("sessionId".to_string(), t(&r.session_id)),
        ("sha256".to_string(), t(&r.sha256)),
        ("sizeBytes".to_string(), JsonValue::Unsigned(r.size_bytes)),
        ("slotId".to_string(), t(&r.slot_id)),
        ("targetId".to_string(), t(&r.target_id)),
        ("terminalAssistantTurnId".to_string(), t(&r.terminal_assistant_turn_id)),
    ])
}

#[test]
fn a_completed_download_names_its_claim_and_artifact_in_the_receipt() {
    let expected = echo();
    let claim = id("artifact_claim", 'a');
    let turn = id("turn", '8');
    let control = download_control(&turn);
    let download = id("download", 'f');
    let artifact = derive_artifact_id(&claim, &control.control_id, &download).unwrap();
    let directory = format!("artifacts/r-req_1/{claim}");
    let page = binding();
    let receipt = PlaywrightDownloadReceipt {
        artifact_claim_id: claim.clone(),
        artifact_id: artifact.clone(),
        browser_context_id: page.browser_context_id.clone(),
        clicked_at_ms: 20,
        control: control.clone(),
        conversation_url: expected.conversation_url.clone(),
        download_event_id: download,
        host_saved_rel_path: format!("{directory}/{artifact}.download"),
        listener_armed_at_ms: 10,
        media_type: "application/octet-stream".to_string(),
        page_incarnation_id: page.page_incarnation_id.clone(),
        received_at_ms: 30,
        session_id: expected.session_id.clone(),
        sha256: h256('4'),
        size_bytes: 100,
        slot_id: page.slot_id.clone(),
        target_id: page.target_id.clone(),
        terminal_assistant_turn_id: turn.clone(),
    };
    assert_eq!(decode_download_receipt(Some(&receipt_json(&receipt))), Some(receipt.clone()));
    assert!(receipt.validate_shape().is_ok());
    let payload = |claim_id: &str| {
        JsonValue::Object(vec![
            ("artifactClaimId".to_string(), JsonValue::Text(claim_id.to_string())),
            ("artifactId".to_string(), JsonValue::Text(artifact.clone())),
            ("downloadReceipt".to_string(), receipt_json(&receipt)),
        ])
    };
    let verdicts = |p: &JsonValue| -> Vec<(String, bool)> {
        artifact_verdicts(EventType::ArtifactDownloadCompleted, p)
    };
    assert_eq!(
        verdicts(&payload(&claim)),
        vec![("downloadReceipt".to_string(), true), ("download receipt identity".to_string(), true)]
    );
    assert_eq!(
        verdicts(&payload(&id("artifact_claim", 'b'))),
        vec![("downloadReceipt".to_string(), true), ("download receipt identity".to_string(), false)]
    );
    let mut late = receipt.clone();
    late.listener_armed_at_ms = 25;
    let p = JsonValue::Object(vec![
        ("artifactClaimId".to_string(), JsonValue::Text(claim.clone())),
        ("artifactId".to_string(), JsonValue::Text(artifact.clone())),
        ("downloadReceipt".to_string(), receipt_json(&late)),
    ]);
    assert_eq!(
        verdicts(&p),
        vec![("downloadReceipt".to_string(), false), ("download receipt identity".to_string(), true)]
    );
}

fn control_json(c: &ControlIdentity) -> JsonValue {
    let t = |s: &str| JsonValue::Text(s.to_string());
    JsonValue::Object(vec![
        ("boundingBoxHash".to_string(), t(&c.bounding_box_hash)),
        ("controlId".to_string(), t(&c.control_id)),
        ("disabled".to_string(), JsonValue::Bool(c.disabled)),
        ("domPathHash".to_string(), t(&c.dom_path_hash)),
        ("labelHash".to_string(), t(&c.label_hash)),
        ("role".to_string(), t(&c.role)),
        ("testIdHash".to_string(), match &c.test_id_hash { Some(h) => t(h), None => JsonValue::Null }),
        ("visible".to_string(), JsonValue::Bool(c.visible)),
    ])
}

fn page_json(b: &PageBindingEcho) -> JsonValue {
    let t = |s: &str| JsonValue::Text(s.to_string());
    let n = |v: u16| JsonValue::Unsigned(v as u64);
    JsonValue::Object(vec![
        ("bindingId".to_string(), t(&b.binding_id)),
        ("bindingGeneration".to_string(), n(b.binding_generation)),
        ("slotId".to_string(), t(&b.slot_id)),
        ("cohort".to_string(), t(&b.cohort)),
        ("leaseId".to_string(), t(&b.lease_id)),
        ("leaseGeneration".to_string(), n(b.lease_generation)),
        ("runtimeOwnerId".to_string(), t(&b.runtime_owner_id)),
        ("runtimeOwnerGeneration".to_string(), n(b.runtime_owner_generation)),
        ("runtimeIncarnationId".to_string(), t(&b.runtime_incarnation_id)),
        ("browserContextId".to_string(), t(&b.browser_context_id)),
        ("targetId".to_string(), t(&b.target_id)),
        ("pageIncarnationId".to_string(), t(&b.page_incarnation_id)),
        ("rootBindingHash".to_string(), t(&b.root_binding_hash)),
        ("domMutationGeneration".to_string(), n(b.dom_mutation_generation)),
    ])
}

fn candidate_json(url: &str, margin: u64) -> JsonValue {
    let t = |s: &str| JsonValue::Text(s.to_string());
    let e = &evidence()[0];
    JsonValue::Object(vec![
        ("browserContextId".to_string(), t(&id("ctx", '6'))),
        ("capturedAtMs".to_string(), JsonValue::Unsigned(5)),
        ("composerRootId".to_string(), t(&id("root", '1'))),
        ("conversationRootId".to_string(), t(&id("root", '2'))),
        ("domMutationGeneration".to_string(), JsonValue::Unsigned(0)),
        ("effortControl".to_string(), control_json(&control_identity())),
        (
            "evidenceRefs".to_string(),
            JsonValue::Array(vec![JsonValue::Object(vec![
                ("path".to_string(), t(&e.path)),
                ("sha256".to_string(), t(&e.sha256)),
                ("sizeBytes".to_string(), JsonValue::Unsigned(e.size_bytes)),
                ("mediaType".to_string(), t("application/json")),
            ])]),
        ),
        ("modelControl".to_string(), control_json(&control_identity())),
        ("normalizedUrl".to_string(), t(url)),
        ("operationId".to_string(), t("op-1")),
        ("pageIncarnationId".to_string(), t(&id("page", '1'))),
        ("selectorMargin".to_string(), JsonValue::Unsigned(margin)),
        ("targetId".to_string(), t(&id("target", '7'))),
    ])
}

#[test]
fn a_root_capture_ties_its_page_binding_to_its_binding_id() {
    let page = binding();
    let observed = |url: &str, margin: u64, binding_id: &str| {
        JsonValue::Object(vec![
            ("rootBindingCandidate".to_string(), candidate_json(url, margin)),
            ("bindingId".to_string(), JsonValue::Text(binding_id.to_string())),
            ("pageBinding".to_string(), page_json(&page)),
        ])
    };
    let pairs = |v: &[(&str, bool)]| -> Vec<(String, bool)> {
        v.iter().map(|(k, b)| (k.to_string(), *b)).collect()
    };
    assert_eq!(
        capture_verdicts(EventType::RootCaptureObserved, &observed("https://chatgpt.com/c/sess-1", 80, &page.binding_id)),
        pairs(&[("rootBindingCandidate", true), ("pageBinding", true), ("root page binding", true)])
    );
    assert_eq!(
        capture_verdicts(EventType::RootCaptureObserved, &observed("https://example.com/", 80, &id("binding", '0'))),
        pairs(&[("rootBindingCandidate", false), ("pageBinding", true), ("root page binding", false)])
    );
    assert_eq!(
        capture_verdicts(EventType::RootCaptureObserved, &observed("https://chatgpt.com/", 10, &page.binding_id)),
        pairs(&[("rootBindingCandidate", false), ("pageBinding", true), ("root page binding", true)])
    );
    let failed = JsonValue::Object(vec![("providerReceipt".to_string(), JsonValue::Null)]);
    assert_eq!(capture_verdicts(EventType::RootCaptureFailed, &failed), pairs(&[("providerReceipt", true)]));
}

fn expectation(generation: u16) -> SessionRebindExpectation {
    SessionRebindExpectation {
        session_id: "sess-1".to_string(),
        conversation_url: "https://chatgpt.com/c/sess-1".to_string(),
        slot_id: "slot-01".to_string(),
        cohort: "cohort-a".to_string(),
        session_operation_claim_id: None,
        lease_id: id("lease", '3'),
        lease_generation: 1,
        runtime_owner_id: id("owner", '4'),
        runtime_owner_generation: 1,
        runtime_incarnation_id: id("runtime", '5'),
        request_id: Some("req_1".to_string()),
        run_id: None,
        last_known_page_binding_generation: generation,
    }
}

#[test]
fn a_rebind_reply_echoes_its_expectation_before_its_proof_is_read() {
    let rest = Err(ProviderContractError::Invalid("session-rebind proof"));
    let success = data(vec![("pageBindingGeneration", JsonValue::Unsigned(2)), ("failureReason", JsonValue::Null)]);
    let check = |ok: bool, status: &str, reason: Option<&str>, echoed: Parsed<SessionRebindExpectation>, observed: Parsed<SessionEcho>, d: &Vec<(String, JsonValue)>| {
        validate_rebind_response(&reply(ok, status, reason), &expectation(1), &echoed, &observed, d, rest.clone())
    };
    assert_eq!(check(true, "done", None, Parsed::Value(expectation(1)), Parsed::Value(echo()), &success), rest);
    assert_eq!(
        check(true, "done", None, Parsed::Value(expectation(2)), Parsed::Value(echo()), &success),
        invalid("expectation echo")
    );
    assert_eq!(check(true, "done", None, Parsed::Null, Parsed::Value(echo()), &success), invalid("expectation"));
    assert_eq!(
        check(true, "done", None, Parsed::Value(expectation(1)), Parsed::Null, &success),
        invalid("observedEcho")
    );
    let no_generation = data(vec![("pageBindingGeneration", JsonValue::Null), ("failureReason", JsonValue::Null)]);
    assert_eq!(
        check(true, "done", None, Parsed::Value(expectation(1)), Parsed::Value(echo()), &no_generation),
        invalid("pageBindingGeneration")
    );
    let failed = data(vec![("pageBindingGeneration", JsonValue::Null), ("failureReason", text("session.missing"))]);
    assert_eq!(
        check(false, "failed", Some("session.missing"), Parsed::Value(expectation(1)), Parsed::Null, &failed),
        rest
    );
    assert_eq!(
        check(false, "failed", Some("session.claim_conflict"), Parsed::Value(expectation(1)), Parsed::Null, &failed),
        invalid("session-rebind failure")
    );
    assert_eq!(
        check(false, "failed", Some("poll.timeout"), Parsed::Value(expectation(1)), Parsed::Null, &data(vec![
            ("pageBindingGeneration", JsonValue::Null),
            ("failureReason", text("poll.timeout")),
        ])),
        invalid("session-rebind failure")
    );
    assert_eq!(
        check(false, "failed", Some("session.missing"), Parsed::Value(expectation(1)), Parsed::Null, &data(vec![
            ("pageBindingGeneration", JsonValue::Null),
            ("failureReason", text("")),
        ])),
        invalid("failureReason")
    );
    assert_eq!(
        check(false, "failed", Some("session.missing"), Parsed::Value(expectation(1)), Parsed::Null, &data(vec![
            ("pageBindingGeneration", JsonValue::Unsigned(2)),
            ("failureReason", text("session.missing")),
        ])),
        invalid("session-rebind failure")
    );
}
