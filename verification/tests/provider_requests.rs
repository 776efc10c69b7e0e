use gpt_webai_lifecycle::contracts::browser::{
    EvidenceMediaType, EvidenceRef, PageBindingEcho, SessionEcho,
};
use gpt_webai_lifecycle::contracts::ids::{derive_page_binding_id, derive_session_binding_id};
use gpt_webai_lifecycle::contracts::provider::{
    ProviderContractError, ProviderEvidencePaths, ProviderIdentity, ProviderOperation,
    ReceiptRelPaths, REQUEST_SCHEMA, RESPONSE_SCHEMA,
};
use gpt_webai_lifecycle::contracts::replies::Parsed;
use gpt_webai_lifecycle::contracts::requests::{
    validate_request_data, PromptInput, ProviderRequest, RequestTyped,
};
use gpt_webai_lifecycle::contracts::responses::{ProviderResponse, ReplyTyped};
use gpt_webai_lifecycle::contracts::semantics::JsonValue;

fn hex(c: char, n: usize) -> String {
    std::iter::repeat(c).take(n).collect()
}

fn id(prefix: &str, c: char) -> String {
    format!("{prefix}_{}", hex(c, 64))
}

fn h256(c: char) -> String {
    format!("sha256:{}", hex(c, 64))
}

fn invalid(m: &'static str) -> Result<(), ProviderContractError> {
    Err(ProviderContractError::Invalid(m))
}

fn text(s: &str) -> JsonValue {
    JsonValue::Text(s.to_string())
}

fn object(fields: Vec<(&str, JsonValue)>) -> JsonValue {
    JsonValue::Object(fields.into_iter().map(|(k, v)| (k.to_string(), v)).collect())
}

fn identity() -> ProviderIdentity {
    ProviderIdentity {
        cohort: Some("cohort-a".to_string()),
        operation_id: "op-1".to_string(),
        request_id: Some("req_1".to_string()),
        run_id: Some("run_1".to_string()),
        session_id: Some("sess-1".to_string()),
        slot_id: "slot-01".to_string(),
    }
}

fn evidence(pre: Option<&str>, post: Option<&str>) -> ProviderEvidencePaths {
    ProviderEvidencePaths {
        cdp_rel_path: "cdp.sanitized.json".to_string(),
        dom_rel_path: "dom.sanitized.json".to_string(),
        receipt_rel_paths: ReceiptRelPaths {
            primary: "provider-receipt.json".to_string(),
            pre_click: pre.map(|s| s.to_string()),
            post_click: post.map(|s| s.to_string()),
            reconcile: None,
        },
        screenshot_rel_path: "screenshot.privacy-crop.png".to_string(),
    }
}

fn typed() -> RequestTyped {
    RequestTyped {
        page_binding: Parsed::Missing,
        requested_model: Parsed::Missing,
        requested_effort: Parsed::Missing,
        attachment_set: Parsed::Missing,
        prompt_input: Parsed::Missing,
        expectation: Parsed::Missing,
        expected: Parsed::Missing,
        artifact_expectation: Parsed::Missing,
        control: Parsed::Missing,
        baseline: Parsed::Missing,
        verdicts: vec![],
    }
}

fn status_request(slot: &str, attempt: u64) -> ProviderRequest {
    ProviderRequest {
        deadline_ms: 15_000,
        evidence: evidence(None, None),
        identity: identity(),
        operation: ProviderOperation::Status,
        operation_data: object(vec![
            ("expectedSlotId", text(slot)),
            ("probeAttempt", JsonValue::Unsigned(attempt)),
        ]),
        schema: REQUEST_SCHEMA.to_string(),
    }
}

fn binding() -> PageBindingEcho {
    let page = id("page", '1');
    let root = h256('2');
    PageBindingEcho {
        binding_id: derive_page_binding_id(&page, &root).unwrap(),
        binding_generation: 1,
        slot_id: "slot-01".to_string(),
        cohort: "cohort-a".to_string(),
        lease_id: id("lease", '3'),
        lease_generation: 1,
        runtime_owner_id: id("owner", '4'),
        runtime_owner_generation: 1,
        runtime_incarnation_id: id("runtime", '5'),
        browser_context_id: id("ctx", '6'),
        target_id: id("target", '7'),
        page_incarnation_id: page,
        root_binding_hash: root,
        dom_mutation_generation: 0,
    }
}

fn echo(session: &str) -> SessionEcho {
    SessionEcho {
        page_binding: binding(),
        session_id: session.to_string(),
        conversation_url: format!("https://chatgpt.com/c/{session}"),
        request_id: Some("req_1".to_string()),
        run_id: Some("run_1".to_string()),
        session_binding_id: derive_session_binding_id(session, "slot-01", "cohort-a").unwrap(),
        page_binding_generation: 1,
        visible_user_turn_id: None,
        visible_assistant_turn_id: None,
        active_turn: true,
        terminal_answer_sha256: None,
    }
}

#[test]
fn a_status_request_names_its_own_slot() {
    assert_eq!(status_request("slot-01", 1).validate(&typed()), Ok(()));
    assert_eq!(status_request("slot-02", 1).validate(&typed()), invalid("status request"));
    assert_eq!(status_request("slot-01", 2).validate(&typed()), invalid("status request"));
    let mut old = status_request("slot-01", 0);
    old.schema = "other".to_string();
    assert_eq!(old.validate(&typed()), invalid("schema/deadlineMs"));
    let mut extra = status_request("slot-01", 0);
    extra.operation_data = object(vec![
        ("expectedSlotId", text("slot-01")),
        ("probeAttempt", JsonValue::Unsigned(0)),
        ("more", JsonValue::Null),
    ]);
    assert_eq!(extra.validate(&typed()), invalid("operationData fields"));
    let mut listed = status_request("slot-01", 0);
    listed.operation_data = JsonValue::Array(vec![]);
    assert_eq!(listed.validate(&typed()), invalid("operationData"));
    let mut send = status_request("slot-01", 0);
    send.evidence = evidence(Some("send.pre-click.receipt.json"), None);
    assert_eq!(send.validate(&typed()), invalid("evidence.receiptRelPaths.preClick"));
}

#[test]
fn a_poll_request_expects_the_identitys_session() {
    let data = vec![
        ("expected".to_string(), JsonValue::Null),
        ("pollAttemptId".to_string(), text("poll-1")),
        ("pollTimeoutSeconds".to_string(), JsonValue::Unsigned(600)),
        ("artifactExpectation".to_string(), text("optional")),
    ];
    let mut t = typed();
    t.expected = Parsed::Value(echo("sess-1"));
    t.artifact_expectation = Parsed::Value(gpt_webai_lifecycle::artifact_claims::ArtifactExpectation::Optional);
    assert_eq!(validate_request_data(ProviderOperation::Poll, &identity(), &data, &t), Ok(()));
    t.expected = Parsed::Value(echo("sess-2"));
    assert_eq!(
        validate_request_data(ProviderOperation::Poll, &identity(), &data, &t),
        Err(ProviderContractError::BindingMismatch)
    );
    t.expected = Parsed::Malformed;
    assert_eq!(validate_request_data(ProviderOperation::Poll, &identity(), &data, &t), invalid("expected"));
    let mut slow = data.clone_data();
    slow[2].1 = JsonValue::Unsigned(10_801);
    t.expected = Parsed::Value(echo("sess-1"));
    assert_eq!(
        validate_request_data(ProviderOperation::Poll, &identity(), &slow, &t),
        invalid("pollTimeoutSeconds")
    );
}

trait CloneData {
    fn clone_data(&self) -> Vec<(String, JsonValue)>;
}

impl CloneData for Vec<(String, JsonValue)> {
    fn clone_data(&self) -> Vec<(String, JsonValue)> {
        self.iter()
            .map(|(k, v)| {
                let v = match v {
                    JsonValue::Null => JsonValue::Null,
                    JsonValue::Bool(b) => JsonValue::Bool(*b),
                    JsonValue::Unsigned(n) => JsonValue::Unsigned(*n),
                    JsonValue::Text(s) => JsonValue::Text(s.clone()),
                    _ => JsonValue::OtherNumber,
                };
                (k.clone(), v)
            })
            .collect()
    }
}

#[test]
fn a_send_click_prompt_lives_in_the_runs_directory() {
    let data = vec![
        ("sendAttemptId".to_string(), text("send-1")),
        ("clickBudget".to_string(), JsonValue::Unsigned(1)),
    ];
    let mut t = typed();
    t.page_binding = Parsed::Value(binding());
    t.verdicts = vec![
        ("uploadProof".to_string(), true),
        ("staleChips within bound".to_string(), true),
    ];
    let prompt = |path: &str| PromptInput {
        container_rel_path: path.to_string(),
        sha256: h256('9'),
        size_bytes: 20,
    };
    t.prompt_input = Parsed::Value(prompt("run_1/prompt.txt"));
    assert_eq!(validate_request_data(ProviderOperation::SendClick, &identity(), &data, &t), Ok(()));
    t.prompt_input = Parsed::Value(prompt("run_2/prompt.txt"));
    assert_eq!(
        validate_request_data(ProviderOperation::SendClick, &identity(), &data, &t),
        invalid("promptInput.containerRelPath")
    );
    t.prompt_input = Parsed::Value(prompt("run_1/prompt.txt"));
    t.verdicts = vec![("uploadProof".to_string(), true)];
    assert_eq!(
        validate_request_data(ProviderOperation::SendClick, &identity(), &data, &t),
        invalid("send-click request")
    );
    t.verdicts = vec![];
    assert_eq!(
        validate_request_data(ProviderOperation::SendClick, &identity(), &data, &t),
        invalid("uploadProof")
    );
    let mut foreign = binding();
    foreign.slot_id = "slot-02".to_string();
    t.page_binding = Parsed::Value(foreign);
    assert_eq!(
        validate_request_data(ProviderOperation::SendClick, &identity(), &data, &t),
        Err(ProviderContractError::BindingMismatch)
    );
    t.page_binding = Parsed::Null;
    assert_eq!(
        validate_request_data(ProviderOperation::SendClick, &identity(), &data, &t),
        invalid("pageBinding")
    );
}

fn receipt(path: &str) -> EvidenceRef {
    EvidenceRef {
        path: path.to_string(),
        sha256: h256('a'),
        size_bytes: 3,
        media_type: EvidenceMediaType::Json,
    }
}

fn reply_typed() -> ReplyTyped {
    ReplyTyped {
        observed_binding: Parsed::Missing,
        model_proof: Parsed::Missing,
        effort_proof: Parsed::Missing,
        failure_proof: Parsed::Missing,
        root_candidate: Parsed::Missing,
        echoed: Parsed::Missing,
        observed_echo: Parsed::Missing,
        expectation: Parsed::Missing,
        controls: Parsed::Missing,
        bottom: Parsed::Missing,
        zero: Parsed::Missing,
        receipt: Parsed::Missing,
    }
}

fn status_response(ok: bool, status: &str, reason: Option<&str>, path: &str) -> ProviderResponse {
    ProviderResponse {
        identity: identity(),
        ok,
        operation: ProviderOperation::Status,
        operation_data: object(vec![
            ("healthStatus", text("ready")),
            ("dockerStatus", text("running")),
            ("retryAfterMs", JsonValue::Null),
            ("modelLabel", text("pro")),
            ("composerReady", JsonValue::Bool(true)),
        ]),
        provider_reason: reason.map(|s| s.to_string()),
        receipt: receipt(path),
        schema: RESPONSE_SCHEMA.to_string(),
        status: status.to_string(),
    }
}

#[test]
fn a_response_answers_its_request() {
    let request = status_request("slot-01", 0);
    let check = |r: ProviderResponse| r.validate_for(&request, &typed(), &reply_typed(), Ok(()));
    assert_eq!(check(status_response(true, "done", None, "provider-receipt.json")), Ok(()));
    assert_eq!(
        check(status_response(false, "failed", Some("probe.timeout"), "provider-receipt.json")),
        Ok(())
    );
    assert_eq!(
        check(status_response(true, "done", Some("probe.timeout"), "provider-receipt.json")),
        invalid("response envelope")
    );
    assert_eq!(
        check(status_response(false, "done", Some("probe.timeout"), "provider-receipt.json")),
        invalid("response status")
    );
    assert_eq!(
        check(status_response(true, "done", None, "elsewhere.json")),
        invalid("receipt")
    );
    let mut foreign = status_response(true, "done", None, "provider-receipt.json");
    foreign.identity.slot_id = "slot-02".to_string();
    assert_eq!(check(foreign), invalid("response envelope"));
    let bad_request = status_request("slot-03", 0);
    assert_eq!(
        status_response(true, "done", None, "provider-receipt.json").validate_for(
            &bad_request,
            &typed(),
            &reply_typed(),
            Ok(())
        ),
        invalid("status request")
    );
}
