use vstd::prelude::*;

use super::ids::{
    conversation_url_of, derive_page_binding_id, derive_session_binding_id, derived_id_of,
    is_cohort, is_general_id, is_h256, is_prefixed_hex, is_safe_rel_path, is_session_id, is_slot_id,
    is_timestamp_ms, validate_binding_id, validate_browser_context_id, validate_byte_count,
    validate_claim_id, validate_cohort, validate_control_id, validate_conversation_url,
    validate_generation, validate_h256, validate_lease_id, validate_operation_id,
    validate_owner_id, validate_page_incarnation_id, validate_request_id, validate_root_id,
    validate_run_id, validate_runtime_incarnation_id, validate_safe_rel_path, validate_session_id,
    validate_slot_id, validate_target_id, validate_timestamp_ms, validate_turn_id, MAX_BYTE_COUNT,
};
use crate::journal::canonical::ScalarView;
use crate::text::{is_prefix, str_eq, strip_prefix, starts_with};

verus! {

#[derive(Clone, Debug, PartialEq, Eq)]
pub enum BrowserContractError {
    Invalid(&'static str),
}

#[derive(Clone, Copy, Debug, PartialEq, Eq, Structural)]
pub enum Model {
    Pro,
    Xhigh,
}

#[derive(Clone, Copy, Debug, PartialEq, Eq, Structural)]
pub enum Effort {
    Standard,
    High,
}

#[derive(Clone, Copy, Debug, PartialEq, Eq, Structural)]
pub enum EvidenceMediaType {
    Json,
    Png,
    Binary,
    Markdown,
}

#[derive(Clone, Debug, PartialEq, Eq)]
pub struct EvidenceRef {
    pub path: String,
    pub sha256: String,
    pub size_bytes: u64,
    pub media_type: EvidenceMediaType,
}

#[derive(Clone, Debug, PartialEq, Eq)]
pub struct ControlIdentity {
    pub bounding_box_hash: String,
    pub control_id: String,
    pub disabled: bool,
    pub dom_path_hash: String,
    pub label_hash: String,
    pub role: String,
    pub test_id_hash: Option<String>,
    pub visible: bool,
}

#[derive(Clone, Debug, PartialEq, Eq)]
pub struct RootBindingCandidate {
    pub browser_context_id: String,
    pub captured_at_ms: u64,
    pub composer_root_id: String,
    pub conversation_root_id: String,
    pub dom_mutation_generation: u16,
    pub effort_control: ControlIdentity,
    pub evidence_refs: Vec<EvidenceRef>,
    pub model_control: ControlIdentity,
    pub normalized_url: String,
    pub operation_id: String,
    pub page_incarnation_id: String,
    pub selector_margin: u32,
    pub target_id: String,
}

#[derive(Clone, Debug, PartialEq, Eq)]
pub struct PageBindingEcho {
    pub binding_id: String,
    pub binding_generation: u16,
    pub slot_id: String,
    pub cohort: String,
    pub lease_id: String,
    pub lease_generation: u16,
    pub runtime_owner_id: String,
    pub runtime_owner_generation: u16,
    pub runtime_incarnation_id: String,
    pub browser_context_id: String,
    pub target_id: String,
    pub page_incarnation_id: String,
    pub root_binding_hash: String,
    pub dom_mutation_generation: u16,
}

#[derive(Clone, Debug, PartialEq, Eq)]
pub struct SessionRebindExpectation {
    pub session_id: String,
    pub conversation_url: String,
    pub slot_id: String,
    pub cohort: String,
    pub session_operation_claim_id: Option<String>,
    pub lease_id: String,
    pub lease_generation: u16,
    pub runtime_owner_id: String,
    pub runtime_owner_generation: u16,
    pub runtime_incarnation_id: String,
    pub request_id: Option<String>,
    pub run_id: Option<String>,
    pub last_known_page_binding_generation: u16,
}

#[derive(Clone, Debug, PartialEq, Eq)]
pub struct SessionEcho {
    pub page_binding: PageBindingEcho,
    pub session_id: String,
    pub conversation_url: String,
    pub request_id: Option<String>,
    pub run_id: Option<String>,
    pub session_binding_id: String,
    pub page_binding_generation: u16,
    pub visible_user_turn_id: Option<String>,
    pub visible_assistant_turn_id: Option<String>,
    pub active_turn: bool,
    pub terminal_answer_sha256: Option<String>,
}

#[derive(Clone, Debug, PartialEq, Eq)]
pub struct ModelProof {
    pub requested: Model,
    pub observed: Model,
    pub verified: bool,
    pub control: ControlIdentity,
    pub selected_by: String,
    pub evidence_refs: Vec<EvidenceRef>,
    pub verified_at_ms: u64,
}

#[derive(Clone, Debug, PartialEq, Eq)]
pub struct EffortProof {
    pub requested: Effort,
    pub observed: Effort,
    pub verified: bool,
    pub control: ControlIdentity,
    pub selected_by: String,
    pub evidence_refs: Vec<EvidenceRef>,
    pub verified_at_ms: u64,
}

#[derive(Clone, Debug, PartialEq, Eq)]
pub struct FailureProof {
    pub reason: String,
    pub picker_opened: bool,
    pub requested_model_visible: bool,
    pub requested_effort_visible: bool,
    pub control_identity_stable: bool,
    pub evidence_refs: Vec<EvidenceRef>,
    pub failed_at_ms: u64,
}

/// The result that names the first failing field, if any.
pub open spec fn outcome(e: Option<&'static str>) -> Result<(), BrowserContractError> {
    match e {
        Some(m) => Err(BrowserContractError::Invalid(m)),
        None => Ok(()),
    }
}

pub open spec fn opt_ok(o: Option<String>, p: spec_fn(Seq<char>) -> bool) -> bool {
    match o {
        Some(v) => p(v@),
        None => true,
    }
}

pub open spec fn hex_id(prefix: Seq<char>) -> spec_fn(Seq<char>) -> bool {
    |s: Seq<char>| is_prefixed_hex(s, prefix, 64)
}

pub open spec fn evidence_ref_error(e: EvidenceRef) -> Option<&'static str> {
    if !is_safe_rel_path(e.path@) {
        Some("evidence.path")
    } else if !is_h256(e.sha256@) {
        Some("evidence.sha256")
    } else if e.size_bytes > MAX_BYTE_COUNT {
        Some("evidence.sizeBytes")
    } else {
        None
    }
}

/// The error of the first invalid evidence reference.
pub open spec fn first_evidence_error(values: Seq<EvidenceRef>) -> Option<&'static str>
    decreases values.len(),
{
    if values.len() == 0 {
        None
    } else {
        match evidence_ref_error(values[0]) {
            Some(e) => Some(e),
            None => first_evidence_error(values.skip(1)),
        }
    }
}

pub open spec fn evidence_error(values: Seq<EvidenceRef>, min: nat, max: nat) -> Option<&'static str> {
    if !(min <= values.len() <= max) {
        Some("evidenceRefs")
    } else {
        first_evidence_error(values)
    }
}

pub open spec fn is_control_role(s: Seq<char>) -> bool {
    s == "button"@ || s == "combobox"@ || s == "menuitem"@ || s == "option"@
}

pub open spec fn control_error(c: ControlIdentity) -> Option<&'static str> {
    if !is_h256(c.bounding_box_hash@) {
        Some("boundingBoxHash")
    } else if !is_prefixed_hex(c.control_id@, "control_"@, 64) {
        Some("controlId")
    } else if !is_h256(c.dom_path_hash@) {
        Some("domPathHash")
    } else if !is_h256(c.label_hash@) {
        Some("labelHash")
    } else if c.test_id_hash matches Some(v) && !is_h256(v@) {
        Some("testIdHash")
    } else if c.disabled || !c.visible || !is_control_role(c.role@) {
        Some("control state/role")
    } else {
        None
    }
}

pub open spec fn url_error(url: Seq<char>, margin: u32) -> Option<&'static str> {
    if !(50 <= margin <= 100_000) || (url != "https://chatgpt.com/"@ && !is_prefix(
        "https://chatgpt.com/c/"@,
        url,
    )) {
        Some("selectorMargin/normalizedUrl")
    } else if is_prefix("https://chatgpt.com/c/"@, url) && !is_session_id(
        url.skip("https://chatgpt.com/c/"@.len() as int),
    ) {
        Some("normalizedUrl")
    } else {
        None
    }
}

pub open spec fn root_binding_error(c: RootBindingCandidate) -> Option<&'static str> {
    if !is_prefixed_hex(c.browser_context_id@, "ctx_"@, 64) {
        Some("browserContextId")
    } else if !is_timestamp_ms(c.captured_at_ms) {
        Some("capturedAtMs")
    } else if !is_prefixed_hex(c.composer_root_id@, "root_"@, 64) {
        Some("composerRootId")
    } else if !is_prefixed_hex(c.conversation_root_id@, "root_"@, 64) {
        Some("conversationRootId")
    } else if control_error(c.effort_control) is Some {
        control_error(c.effort_control)
    } else if control_error(c.model_control) is Some {
        control_error(c.model_control)
    } else if evidence_error(c.evidence_refs@, 1, 4) is Some {
        evidence_error(c.evidence_refs@, 1, 4)
    } else if !is_general_id(c.operation_id@) {
        Some("operationId")
    } else if !is_prefixed_hex(c.page_incarnation_id@, "page_"@, 64) {
        Some("pageIncarnationId")
    } else if !is_prefixed_hex(c.target_id@, "target_"@, 64) {
        Some("targetId")
    } else {
        url_error(c.normalized_url@, c.selector_margin)
    }
}

/// The binding identifier that an echo's page and root binding hash derive.
pub open spec fn page_binding_id_of(page: Seq<char>, root: Seq<char>) -> Seq<char> {
    derived_id_of(
        "binding"@,
        seq![
            ScalarView::Text("pr72.page-binding.r13.v1"@),
            ScalarView::Text(page),
            ScalarView::Text(root),
        ],
    )
}

pub open spec fn page_binding_error(p: PageBindingEcho) -> Option<&'static str> {
    if !is_prefixed_hex(p.binding_id@, "binding_"@, 64) {
        Some("bindingId")
    } else if p.binding_generation == 0 {
        Some("bindingGeneration")
    } else if !is_slot_id(p.slot_id@) {
        Some("slotId")
    } else if !is_cohort(p.cohort@) {
        Some("cohort")
    } else if !is_prefixed_hex(p.lease_id@, "lease_"@, 64) {
        Some("leaseId")
    } else if p.lease_generation == 0 {
        Some("leaseGeneration")
    } else if !is_prefixed_hex(p.runtime_owner_id@, "owner_"@, 64) {
        Some("runtimeOwnerId")
    } else if p.runtime_owner_generation == 0 {
        Some("runtimeOwnerGeneration")
    } else if !is_prefixed_hex(p.runtime_incarnation_id@, "runtime_"@, 64) {
        Some("runtimeIncarnationId")
    } else if !is_prefixed_hex(p.browser_context_id@, "ctx_"@, 64) {
        Some("browserContextId")
    } else if !is_prefixed_hex(p.target_id@, "target_"@, 64) {
        Some("targetId")
    } else if !is_prefixed_hex(p.page_incarnation_id@, "page_"@, 64) {
        Some("pageIncarnationId")
    } else if !is_h256(p.root_binding_hash@) {
        Some("rootBindingHash")
    } else if p.binding_id@ != page_binding_id_of(p.page_incarnation_id@, p.root_binding_hash@) {
        Some("bindingId")
    } else {
        None
    }
}

pub open spec fn rebind_error(e: SessionRebindExpectation) -> Option<&'static str> {
    if !is_session_id(e.session_id@) {
        Some("sessionId")
    } else if e.conversation_url@ != conversation_url_of(e.session_id@) {
        Some("conversationUrl")
    } else if !is_slot_id(e.slot_id@) {
        Some("slotId")
    } else if !is_cohort(e.cohort@) {
        Some("cohort")
    } else if !opt_ok(e.session_operation_claim_id, hex_id("claim_"@)) {
        Some("sessionOperationClaimId")
    } else if !is_prefixed_hex(e.lease_id@, "lease_"@, 64) {
        Some("leaseId")
    } else if e.lease_generation == 0 {
        Some("leaseGeneration")
    } else if !is_prefixed_hex(e.runtime_owner_id@, "owner_"@, 64) {
        Some("runtimeOwnerId")
    } else if e.runtime_owner_generation == 0 {
        Some("runtimeOwnerGeneration")
    } else if !is_prefixed_hex(e.runtime_incarnation_id@, "runtime_"@, 64) {
        Some("runtimeIncarnationId")
    } else if !opt_ok(e.request_id, |s: Seq<char>| is_general_id(s)) {
        Some("requestId")
    } else if !opt_ok(e.run_id, |s: Seq<char>| is_general_id(s)) {
        Some("runId")
    } else {
        None
    }
}

/// The session binding identifier of a session on a slot of a cohort.
pub open spec fn session_binding_id_of(session: Seq<char>, slot: Seq<char>, cohort: Seq<char>) -> Seq<
    char,
> {
    derived_id_of(
        "binding"@,
        seq![
            ScalarView::Text("pr72.session-binding.r13.v1"@),
            ScalarView::Text(session),
            ScalarView::Text(slot),
            ScalarView::Text(cohort),
        ],
    )
}

pub open spec fn session_echo_error(e: SessionEcho) -> Option<&'static str> {
    if page_binding_error(e.page_binding) is Some {
        page_binding_error(e.page_binding)
    } else if !is_session_id(e.session_id@) {
        Some("sessionId")
    } else if e.conversation_url@ != conversation_url_of(e.session_id@) {
        Some("conversationUrl")
    } else if !opt_ok(e.request_id, |s: Seq<char>| is_general_id(s)) {
        Some("requestId")
    } else if !opt_ok(e.run_id, |s: Seq<char>| is_general_id(s)) {
        Some("runId")
    } else if !is_prefixed_hex(e.session_binding_id@, "binding_"@, 64) {
        Some("sessionBindingId")
    } else if e.session_binding_id@ != session_binding_id_of(
        e.session_id@,
        e.page_binding.slot_id@,
        e.page_binding.cohort@,
    ) {
        Some("sessionBindingId")
    } else if e.page_binding_generation == 0 {
        Some("pageBindingGeneration")
    } else if !opt_ok(e.visible_user_turn_id, hex_id("turn_"@)) {
        Some("visibleUserTurnId")
    } else if !opt_ok(e.visible_assistant_turn_id, hex_id("turn_"@)) {
        Some("visibleAssistantTurnId")
    } else if !opt_ok(e.terminal_answer_sha256, |s: Seq<char>| is_h256(s)) {
        Some("terminalAnswerSha256")
    } else {
        None
    }
}

pub open spec fn is_selected_by(s: Seq<char>) -> bool {
    s == "already_exact"@ || s == "picker"@
}

pub open spec fn proof_error(
    control: ControlIdentity,
    evidence: Seq<EvidenceRef>,
    verified_at_ms: u64,
    verified: bool,
    observed_matches: bool,
    selected_by: Seq<char>,
    name: &'static str,
) -> Option<&'static str> {
    if control_error(control) is Some {
        control_error(control)
    } else if evidence_error(evidence, 1, 4) is Some {
        evidence_error(evidence, 1, 4)
    } else if !is_timestamp_ms(verified_at_ms) {
        Some("verifiedAtMs")
    } else if !verified || !observed_matches || !is_selected_by(selected_by) {
        Some(name)
    } else {
        None
    }
}

pub open spec fn is_failure_reason(s: Seq<char>) -> bool {
    s == "picker.model_absent"@ || s == "picker.effort_absent"@ || s == "picker.control_drift"@
        || s == "picker.selection_timeout"@ || s == "picker.reverify_mismatch"@ || s
        == "capture.ambiguous"@
}

pub open spec fn failure_proof_error(p: FailureProof) -> Option<&'static str> {
    if evidence_error(p.evidence_refs@, 1, 4) is Some {
        evidence_error(p.evidence_refs@, 1, 4)
    } else if !is_timestamp_ms(p.failed_at_ms) {
        Some("failedAtMs")
    } else if !is_failure_reason(p.reason@) {
        Some("FailureProof.reason")
    } else {
        None
    }
}

fn valid<T, E>(result: Result<T, E>, field: &'static str) -> (r: Result<(), BrowserContractError>)
    ensures
        r == outcome(if result is Ok {
            None
        } else {
            Some(field)
        }),
{
    match result {
        Ok(_) => Ok(()),
        Err(_) => Err(BrowserContractError::Invalid(field)),
    }
}

fn check(ok: bool, field: &'static str) -> (r: Result<(), BrowserContractError>)
    ensures
        r == outcome(if ok {
            None
        } else {
            Some(field)
        }),
{
    if ok {
        Ok(())
    } else {
        Err(BrowserContractError::Invalid(field))
    }
}

impl EvidenceRef {
    pub fn validate(&self) -> (r: Result<(), BrowserContractError>)
        ensures
            r == outcome(evidence_ref_error(*self)),
    {
        valid(validate_safe_rel_path(self.path.as_str()), "evidence.path")?;
        valid(validate_h256(self.sha256.as_str()), "evidence.sha256")?;
        valid(validate_byte_count(self.size_bytes), "evidence.sizeBytes")
    }
}

proof fn first_evidence_step(values: Seq<EvidenceRef>, i: int)
    requires
        0 <= i < values.len(),
        evidence_ref_error(values[i]) is None,
    ensures
        first_evidence_error(values.skip(i)) == first_evidence_error(values.skip(i + 1)),
{
    assert(values.skip(i).skip(1) =~= values.skip(i + 1));
    assert(values.skip(i)[0] == values[i]);
}

/// Checks the count of `values` against `min..=max`, then each reference in
/// order.
pub fn evidence(values: &Vec<EvidenceRef>, min: usize, max: usize) -> (r: Result<
    (),
    BrowserContractError,
>)
    ensures
        r == outcome(evidence_error(values@, min as nat, max as nat)),
{
    if values.len() < min || values.len() > max {
        return Err(BrowserContractError::Invalid("evidenceRefs"));
    }
    let mut i: usize = 0;
    assert(values@.skip(0) =~= values@);
    while i < values.len()
        invariant
            i <= values@.len(),
            min <= values@.len() <= max,
            first_evidence_error(values@) == first_evidence_error(values@.skip(i as int)),
        decreases values.len() - i,
    {
        let r = values[i].validate();
        if r.is_err() {
            proof {
                let rest = values@.skip(i as int);
                assert(rest.len() > 0);
                assert(rest[0] == values@[i as int]);
                assert(evidence_ref_error(rest[0]) is Some);
                assert(first_evidence_error(rest) == evidence_ref_error(rest[0]));
            }
            return r;
        }
        proof {
            first_evidence_step(values@, i as int);
        }
        i += 1;
    }
    assert(values@.skip(i as int).len() == 0);
    Ok(())
}

fn opt_hex(value: &Option<String>, prefix: &str, field: &'static str) -> (r: Result<
    (),
    BrowserContractError,
>)
    ensures
        r == outcome(if opt_ok(*value, hex_id(prefix@)) {
            None
        } else {
            Some(field)
        }),
{
    match value {
        Some(v) => valid(
            super::ids::validate_prefixed_hex("id", v.as_str(), prefix, 64),
            field,
        ),
        None => Ok(()),
    }
}

fn opt_general(value: &Option<String>, field: &'static str) -> (r: Result<
    (),
    BrowserContractError,
>)
    ensures
        r == outcome(if opt_ok(*value, |s: Seq<char>| is_general_id(s)) {
            None
        } else {
            Some(field)
        }),
{
    match value {
        Some(v) => valid(validate_request_id(v.as_str()), field),
        None => Ok(()),
    }
}

fn opt_h256(value: &Option<String>, field: &'static str) -> (r: Result<(), BrowserContractError>)
    ensures
        r == outcome(if opt_ok(*value, |s: Seq<char>| is_h256(s)) {
            None
        } else {
            Some(field)
        }),
{
    match value {
        Some(v) => valid(validate_h256(v.as_str()), field),
        None => Ok(()),
    }
}

impl ControlIdentity {
    pub fn validate(&self) -> (r: Result<(), BrowserContractError>)
        ensures
            r == outcome(control_error(*self)),
    {
        valid(validate_h256(self.bounding_box_hash.as_str()), "boundingBoxHash")?;
        valid(validate_control_id(self.control_id.as_str()), "controlId")?;
        valid(validate_h256(self.dom_path_hash.as_str()), "domPathHash")?;
        valid(validate_h256(self.label_hash.as_str()), "labelHash")?;
        opt_h256(&self.test_id_hash, "testIdHash")?;
        let role = self.role.as_str();
        let role_ok = str_eq(role, "button") || str_eq(role, "combobox") || str_eq(role, "menuitem")
            || str_eq(role, "option");
        check(!self.disabled && self.visible && role_ok, "control state/role")
    }
}

impl RootBindingCandidate {
    pub fn validate(&self) -> (r: Result<(), BrowserContractError>)
        ensures
            r == outcome(root_binding_error(*self)),
    {
        valid(validate_browser_context_id(self.browser_context_id.as_str()), "browserContextId")?;
        valid(validate_timestamp_ms(self.captured_at_ms), "capturedAtMs")?;
        valid(validate_root_id(self.composer_root_id.as_str()), "composerRootId")?;
        valid(validate_root_id(self.conversation_root_id.as_str()), "conversationRootId")?;
        self.effort_control.validate()?;
        self.model_control.validate()?;
        evidence(&self.evidence_refs, 1, 4)?;
        valid(validate_operation_id(self.operation_id.as_str()), "operationId")?;
        valid(validate_page_incarnation_id(self.page_incarnation_id.as_str()), "pageIncarnationId")?;
        valid(validate_target_id(self.target_id.as_str()), "targetId")?;
        let url = self.normalized_url.as_str();
        proof {
            reveal_strlit("https://chatgpt.com/c/");
        }
        let margin_ok = 50 <= self.selector_margin && self.selector_margin <= 100_000;
        let url_ok = str_eq(url, "https://chatgpt.com/") || starts_with(url, "https://chatgpt.com/c/");
        check(margin_ok && url_ok, "selectorMargin/normalizedUrl")?;
        match strip_prefix(url, "https://chatgpt.com/c/") {
            Some(session_id) => {
                let r = validate_conversation_url(url, session_id.as_str());
                proof {
                    assert(url@ =~= conversation_url_of(session_id@));
                }
                valid(r, "normalizedUrl")
            },
            None => Ok(()),
        }
    }
}

impl PageBindingEcho {
    pub fn validate(&self) -> (r: Result<(), BrowserContractError>)
        ensures
            r == outcome(page_binding_error(*self)),
    {
        valid(validate_binding_id(self.binding_id.as_str()), "bindingId")?;
        valid(validate_generation(self.binding_generation), "bindingGeneration")?;
        valid(validate_slot_id(self.slot_id.as_str()), "slotId")?;
        valid(validate_cohort(self.cohort.as_str()), "cohort")?;
        valid(validate_lease_id(self.lease_id.as_str()), "leaseId")?;
        valid(validate_generation(self.lease_generation), "leaseGeneration")?;
        valid(validate_owner_id(self.runtime_owner_id.as_str()), "runtimeOwnerId")?;
        valid(validate_generation(self.runtime_owner_generation), "runtimeOwnerGeneration")?;
        valid(
            validate_runtime_incarnation_id(self.runtime_incarnation_id.as_str()),
            "runtimeIncarnationId",
        )?;
        valid(validate_browser_context_id(self.browser_context_id.as_str()), "browserContextId")?;
        valid(validate_target_id(self.target_id.as_str()), "targetId")?;
        valid(validate_page_incarnation_id(self.page_incarnation_id.as_str()), "pageIncarnationId")?;
        valid(validate_h256(self.root_binding_hash.as_str()), "rootBindingHash")?;
        let expected = match derive_page_binding_id(
            self.page_incarnation_id.as_str(),
            self.root_binding_hash.as_str(),
        ) {
            Ok(v) => v,
            Err(_) => {
                return Err(BrowserContractError::Invalid("bindingId"));
            },
        };
        check(str_eq(self.binding_id.as_str(), expected.as_str()), "bindingId")
    }
}

impl SessionRebindExpectation {
    pub fn validate(&self) -> (r: Result<(), BrowserContractError>)
        ensures
            r == outcome(rebind_error(*self)),
    {
        valid(validate_session_id(self.session_id.as_str()), "sessionId")?;
        valid(
            validate_conversation_url(self.conversation_url.as_str(), self.session_id.as_str()),
            "conversationUrl",
        )?;
        valid(validate_slot_id(self.slot_id.as_str()), "slotId")?;
        valid(validate_cohort(self.cohort.as_str()), "cohort")?;
        opt_hex(&self.session_operation_claim_id, "claim_", "sessionOperationClaimId")?;
        valid(validate_lease_id(self.lease_id.as_str()), "leaseId")?;
        valid(validate_generation(self.lease_generation), "leaseGeneration")?;
        valid(validate_owner_id(self.runtime_owner_id.as_str()), "runtimeOwnerId")?;
        valid(validate_generation(self.runtime_owner_generation), "runtimeOwnerGeneration")?;
        valid(
            validate_runtime_incarnation_id(self.runtime_incarnation_id.as_str()),
            "runtimeIncarnationId",
        )?;
        opt_general(&self.request_id, "requestId")?;
        opt_general(&self.run_id, "runId")
    }
}

impl SessionEcho {
    pub fn validate(&self) -> (r: Result<(), BrowserContractError>)
        ensures
            r == outcome(session_echo_error(*self)),
    {
        self.page_binding.validate()?;
        valid(validate_session_id(self.session_id.as_str()), "sessionId")?;
        valid(
            validate_conversation_url(self.conversation_url.as_str(), self.session_id.as_str()),
            "conversationUrl",
        )?;
        opt_general(&self.request_id, "requestId")?;
        opt_general(&self.run_id, "runId")?;
        valid(validate_binding_id(self.session_binding_id.as_str()), "sessionBindingId")?;
        let expected = match derive_session_binding_id(
            self.session_id.as_str(),
            self.page_binding.slot_id.as_str(),
            self.page_binding.cohort.as_str(),
        ) {
            Ok(v) => v,
            Err(_) => {
                return Err(BrowserContractError::Invalid("sessionBindingId"));
            },
        };
        check(str_eq(self.session_binding_id.as_str(), expected.as_str()), "sessionBindingId")?;
        valid(validate_generation(self.page_binding_generation), "pageBindingGeneration")?;
        opt_hex(&self.visible_user_turn_id, "turn_", "visibleUserTurnId")?;
        opt_hex(&self.visible_assistant_turn_id, "turn_", "visibleAssistantTurnId")?;
        opt_h256(&self.terminal_answer_sha256, "terminalAnswerSha256")
    }
}

fn selected_by_ok(s: &str) -> (r: bool)
    ensures
        r == is_selected_by(s@),
{
    str_eq(s, "already_exact") || str_eq(s, "picker")
}

impl ModelProof {
    pub fn validate(&self) -> (r: Result<(), BrowserContractError>)
        ensures
            r == outcome(
                proof_error(
                    self.control,
                    self.evidence_refs@,
                    self.verified_at_ms,
                    self.verified,
                    self.observed == self.requested,
                    self.selected_by@,
                    "ModelProof",
                ),
            ),
    {
        self.control.validate()?;
        evidence(&self.evidence_refs, 1, 4)?;
        valid(validate_timestamp_ms(self.verified_at_ms), "verifiedAtMs")?;
        check(
            self.verified && self.observed == self.requested && selected_by_ok(
                self.selected_by.as_str(),
            ),
            "ModelProof",
        )
    }
}

impl EffortProof {
    pub fn validate(&self) -> (r: Result<(), BrowserContractError>)
        ensures
            r == outcome(
                proof_error(
                    self.control,
                    self.evidence_refs@,
                    self.verified_at_ms,
                    self.verified,
                    self.observed == self.requested,
                    self.selected_by@,
                    "EffortProof",
                ),
            ),
    {
        self.control.validate()?;
        evidence(&self.evidence_refs, 1, 4)?;
        valid(validate_timestamp_ms(self.verified_at_ms), "verifiedAtMs")?;
        check(
            self.verified && self.observed == self.requested && selected_by_ok(
                self.selected_by.as_str(),
            ),
            "EffortProof",
        )
    }
}

impl FailureProof {
    pub fn validate(&self) -> (r: Result<(), BrowserContractError>)
        ensures
            r == outcome(failure_proof_error(*self)),
    {
        evidence(&self.evidence_refs, 1, 4)?;
        valid(validate_timestamp_ms(self.failed_at_ms), "failedAtMs")?;
        let reason = self.reason.as_str();
        let ok = str_eq(reason, "picker.model_absent") || str_eq(reason, "picker.effort_absent")
            || str_eq(reason, "picker.control_drift") || str_eq(reason, "picker.selection_timeout")
            || str_eq(reason, "picker.reverify_mismatch") || str_eq(reason, "capture.ambiguous");
        check(ok, "FailureProof.reason")
    }
}

/// The paths of `values` are pairwise distinct.
pub open spec fn distinct_paths(values: Seq<EvidenceRef>) -> bool {
    forall|i: int, j: int|
        0 <= i < j < values.len() ==> (#[trigger] values[i]).path@ != (#[trigger] values[j]).path@
}

/// The problem of an evidence set: 1..=4 valid references with distinct
/// paths.
pub open spec fn evidence_set_error(values: Seq<EvidenceRef>) -> Option<&'static str> {
    if !(1 <= values.len() <= 4) || first_evidence_error(values) is Some {
        Some("evidenceRefs")
    } else if !distinct_paths(values) {
        Some("duplicate evidenceRefs")
    } else {
        None
    }
}

pub fn evidence_set_problem(values: &Vec<EvidenceRef>) -> (r: Option<&'static str>)
    ensures
        r == evidence_set_error(values@),
{
    if evidence(values, 1, 4).is_err() {
        return Some("evidenceRefs");
    }
    let n = values.len();
    let mut i: usize = 0;
    while i < n
        invariant
            n == values@.len(),
            i <= n,
            1 <= n <= 4,
            first_evidence_error(values@) is None,
            forall|a: int, b: int|
                0 <= a < b < n && a < i ==> (#[trigger] values@[a]).path@ != (
                #[trigger] values@[b]).path@,
        decreases n - i,
    {
        let mut j: usize = i + 1;
        while j < n
            invariant
                n == values@.len(),
                i < n,
                1 <= n <= 4,
                first_evidence_error(values@) is None,
                i + 1 <= j <= n,
                forall|a: int, b: int|
                    0 <= a < b < n && a < i ==> (#[trigger] values@[a]).path@ != (
                    #[trigger] values@[b]).path@,
                forall|b: int| i < b < j ==> values@[i as int].path@ != (#[trigger] values@[b]).path@,
            decreases n - j,
        {
            if str_eq(values[i].path.as_str(), values[j].path.as_str()) {
                assert(values@[i as int].path@ == values@[j as int].path@);
                return Some("duplicate evidenceRefs");
            }
            j += 1;
        }
        i += 1;
    }
    None
}

/// The supported model/effort pairs: pro with standard, xhigh with high.
pub open spec fn model_tuple_ok(model: Model, effort: Effort) -> bool {
    (model == Model::Pro && effort == Effort::Standard) || (model == Model::Xhigh && effort
        == Effort::High)
}

pub fn validate_model_tuple(model: &Model, effort: &Effort) -> (r: Result<(), BrowserContractError>)
    ensures
        r == outcome(if model_tuple_ok(*model, *effort) {
            None
        } else {
            Some("model/effort tuple")
        }),
{
    let ok = match (model, effort) {
        (Model::Pro, Effort::Standard) | (Model::Xhigh, Effort::High) => true,
        _ => false,
    };
    check(ok, "model/effort tuple")
}

} // verus!
