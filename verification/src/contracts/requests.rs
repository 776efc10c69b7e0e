use vstd::prelude::*;

use crate::artifact_claims::baseline::{baseline_error, ArtifactBaseline};
use crate::artifact_claims::{control_for_turn_error, ArtifactControl, ArtifactExpectation};
use crate::contracts::browser::{
    model_tuple_ok, page_binding_error, rebind_error, session_echo_error, Effort, Model,
    PageBindingEcho, SessionEcho, SessionRebindExpectation,
};
use crate::contracts::ids::{
    is_h256, is_safe_rel_path, validate_byte_count, validate_h256, validate_safe_rel_path,
    MAX_BYTE_COUNT, MAX_DURATION_MS,
};
use crate::contracts::projection::{get_entry, lookup};
use crate::contracts::provider::{
    attachment_set_error, evidence_paths_error, identity_error, invalid, receipt_paths_ok,
    exact_keys, request_keys, request_keys_of, validate_receipt_paths, ProviderAttachmentSet,
    ProviderContractError, ProviderEvidencePaths, ProviderIdentity, ProviderOperation,
    MAX_ATTACHMENTS, REQUEST_SCHEMA,
};
use crate::contracts::payload_keys::{same_keys, views};
use crate::contracts::replies::{bad, opt_seq, Parsed};
use crate::contracts::semantics::{
    field_text, field_unsigned, id_at, id_field, text_of, unsigned_of, IdKind, JsonValue,
};
use crate::text::{concat2, str_eq};

verus! {

/// The prompt file that a send-click request hands the provider.
pub struct PromptInput {
    pub container_rel_path: String,
    pub sha256: String,
    pub size_bytes: u64,
}

/// The typed fields of a request's operation data as the caller decoded
/// them, and the caller's verdicts on the records whose rules live outside
/// this library (chip proofs, upload proofs, send receipts).
pub struct RequestTyped {
    pub page_binding: Parsed<PageBindingEcho>,
    pub requested_model: Parsed<Model>,
    pub requested_effort: Parsed<Effort>,
    pub attachment_set: Parsed<ProviderAttachmentSet>,
    pub prompt_input: Parsed<PromptInput>,
    pub expectation: Parsed<SessionRebindExpectation>,
    pub expected: Parsed<SessionEcho>,
    pub artifact_expectation: Parsed<ArtifactExpectation>,
    pub control: Parsed<ArtifactControl>,
    pub baseline: Parsed<ArtifactBaseline>,
    pub verdicts: Vec<(String, bool)>,
}

/// A call to the browser provider.
pub struct ProviderRequest {
    pub deadline_ms: u64,
    pub evidence: ProviderEvidencePaths,
    pub identity: ProviderIdentity,
    pub operation: ProviderOperation,
    pub operation_data: JsonValue,
    pub schema: String,
}

// ---------------------------------------------------------------- identity echoes

/// An optional identity field binds nothing when unset, and otherwise must
/// equal the value.
pub open spec fn binds(identity: Option<String>, value: Seq<char>) -> bool {
    match identity {
        Some(v) => v@ == value,
        None => true,
    }
}

/// An optional identity field binds nothing when unset, and otherwise must
/// equal the optional value.
pub open spec fn binds_opt(identity: Option<String>, value: Option<String>) -> bool {
    match identity {
        Some(v) => opt_seq(value) == Some(v@),
        None => true,
    }
}

/// A page binding belongs to the identity's slot and (if set) cohort.
pub open spec fn page_identity_ok(b: PageBindingEcho, i: ProviderIdentity) -> bool {
    b.slot_id@ == i.slot_id@ && binds(i.cohort, b.cohort@)
}

/// A session echo belongs to the identity's page, session, request and run.
pub open spec fn session_identity_ok(e: SessionEcho, i: ProviderIdentity) -> bool {
    &&& page_identity_ok(e.page_binding, i)
    &&& binds(i.session_id, e.session_id@)
    &&& binds_opt(i.request_id, e.request_id)
    &&& binds_opt(i.run_id, e.run_id)
}

/// A rebind expectation belongs to the identity's slot, cohort, session,
/// request and run.
pub open spec fn expectation_identity_ok(e: SessionRebindExpectation, i: ProviderIdentity) -> bool {
    &&& e.slot_id@ == i.slot_id@
    &&& binds(i.cohort, e.cohort@)
    &&& binds(i.session_id, e.session_id@)
    &&& binds_opt(i.request_id, e.request_id)
    &&& binds_opt(i.run_id, e.run_id)
}

fn bind(identity: &Option<String>, value: &str) -> (r: bool)
    ensures
        r == binds(*identity, value@),
{
    match identity {
        Some(v) => str_eq(v.as_str(), value),
        None => true,
    }
}

fn bind_opt(identity: &Option<String>, value: &Option<String>) -> (r: bool)
    ensures
        r == binds_opt(*identity, *value),
{
    match (identity, value) {
        (Some(v), Some(x)) => str_eq(x.as_str(), v.as_str()),
        (Some(_), None) => false,
        (None, _) => true,
    }
}

pub fn validate_page_identity(b: &PageBindingEcho, i: &ProviderIdentity) -> (r: Result<
    (),
    ProviderContractError,
>)
    ensures
        r == (if page_identity_ok(*b, *i) {
            Ok(())
        } else {
            Err::<(), ProviderContractError>(ProviderContractError::BindingMismatch)
        }),
{
    if str_eq(b.slot_id.as_str(), i.slot_id.as_str()) && bind(&i.cohort, b.cohort.as_str()) {
        Ok(())
    } else {
        Err(ProviderContractError::BindingMismatch)
    }
}

pub fn validate_session_identity(e: &SessionEcho, i: &ProviderIdentity) -> (r: Result<
    (),
    ProviderContractError,
>)
    ensures
        r == (if session_identity_ok(*e, *i) {
            Ok(())
        } else {
            Err::<(), ProviderContractError>(ProviderContractError::BindingMismatch)
        }),
{
    validate_page_identity(&e.page_binding, i)?;
    if bind(&i.session_id, e.session_id.as_str()) && bind_opt(&i.request_id, &e.request_id)
        && bind_opt(&i.run_id, &e.run_id) {
        Ok(())
    } else {
        Err(ProviderContractError::BindingMismatch)
    }
}

pub fn validate_expectation_identity(e: &SessionRebindExpectation, i: &ProviderIdentity) -> (r:
    Result<(), ProviderContractError>)
    ensures
        r == (if expectation_identity_ok(*e, *i) {
            Ok(())
        } else {
            Err::<(), ProviderContractError>(ProviderContractError::BindingMismatch)
        }),
{
    if str_eq(e.slot_id.as_str(), i.slot_id.as_str()) && bind(&i.cohort, e.cohort.as_str()) && bind(
        &i.session_id,
        e.session_id.as_str(),
    ) && bind_opt(&i.request_id, &e.request_id) && bind_opt(&i.run_id, &e.run_id) {
        Ok(())
    } else {
        Err(ProviderContractError::BindingMismatch)
    }
}


// ---------------------------------------------------------------- request data

pub open spec fn fault(m: &'static str) -> Option<ProviderContractError> {
    Some(ProviderContractError::Invalid(m))
}

pub open spec fn verdict(t: RequestTyped, label: Seq<char>) -> bool {
    lookup(t.verdicts@, label) == Some(true)
}

/// The page binding a request names: decoded, valid, and of the
/// identity's slot and cohort.
pub open spec fn page_problem(pb: Parsed<PageBindingEcho>, i: ProviderIdentity) -> Option<
    ProviderContractError,
> {
    match pb {
        Parsed::Value(b) => if page_binding_error(b) is Some {
            fault("pageBinding")
        } else if !page_identity_ok(b, i) {
            Some(ProviderContractError::BindingMismatch)
        } else {
            None
        },
        _ => fault("pageBinding"),
    }
}

/// The session echo a request expects: decoded, valid, and of the
/// identity's page, session, request and run.
pub open spec fn echo_problem(pe: Parsed<SessionEcho>, i: ProviderIdentity) -> Option<
    ProviderContractError,
> {
    match pe {
        Parsed::Value(e) => if session_echo_error(e) is Some {
            fault("expected")
        } else if !session_identity_ok(e, i) {
            Some(ProviderContractError::BindingMismatch)
        } else {
            None
        },
        _ => fault("expected"),
    }
}

pub open spec fn model_problem(m: Parsed<Model>, e: Parsed<Effort>) -> Option<ProviderContractError> {
    match (m, e) {
        (Parsed::Value(mv), Parsed::Value(ev)) => if model_tuple_ok(mv, ev) {
            None
        } else {
            fault("model/effort tuple")
        },
        (Parsed::Value(_), _) => fault("requestedEffort"),
        _ => fault("requestedModel"),
    }
}

pub open spec fn id_problem(data: Seq<(String, JsonValue)>, key: Seq<char>, kind: IdKind) -> Option<
    ProviderContractError,
> {
    if id_at(data, key, kind) {
        None
    } else {
        fault("identifier")
    }
}

pub open spec fn prompt_path_of(run_id: Seq<char>) -> Seq<char> {
    run_id + "/prompt.txt"@
}

pub open spec fn prompt_problem(p: PromptInput, run_id: Option<String>) -> Option<
    ProviderContractError,
> {
    if !is_safe_rel_path(p.container_rel_path@) {
        fault("promptInput.containerRelPath")
    } else if !is_h256(p.sha256@) {
        fault("promptInput.sha256")
    } else if p.size_bytes > MAX_BYTE_COUNT {
        fault("promptInput.sizeBytes")
    } else if run_id matches Some(r) && p.container_rel_path@ != prompt_path_of(r@) {
        fault("promptInput.containerRelPath")
    } else {
        None
    }
}

/// The first problem of two, in order.
pub open spec fn or_else(
    first: Option<ProviderContractError>,
    then: Option<ProviderContractError>,
) -> Option<ProviderContractError> {
    if first is Some {
        first
    } else {
        then
    }
}

/// A bounded integer field: its own name when it is not an unsigned
/// integer, `message` when it is out of range.
pub open spec fn bounded(
    data: Seq<(String, JsonValue)>,
    key: &'static str,
    lo: u64,
    hi: u64,
    message: &'static str,
) -> Option<ProviderContractError> {
    match unsigned_of(lookup(data, key@)) {
        None => fault(key),
        Some(n) => if lo <= n <= hi {
            None
        } else {
            fault(message)
        },
    }
}

pub open spec fn verdict_problem(t: RequestTyped, label: Seq<char>, message: &'static str) -> Option<
    ProviderContractError,
> {
    if verdict(t, label) {
        None
    } else {
        fault(message)
    }
}

pub open spec fn attachment_problem(t: RequestTyped) -> Option<ProviderContractError> {
    match t.attachment_set {
        Parsed::Value(a) => match attachment_set_error(a) {
            Some(m) => fault(m),
            None => None,
        },
        _ => fault("attachmentSet"),
    }
}

pub open spec fn prompt_input_problem(t: RequestTyped, i: ProviderIdentity) -> Option<
    ProviderContractError,
> {
    match t.prompt_input {
        Parsed::Value(p) => prompt_problem(p, i.run_id),
        _ => fault("promptInput"),
    }
}

pub open spec fn expectation_problem(t: RequestTyped, i: ProviderIdentity) -> Option<
    ProviderContractError,
> {
    match t.expectation {
        Parsed::Value(e) => if rebind_error(e) is Some {
            fault("expectation")
        } else if !expectation_identity_ok(e, i) {
            Some(ProviderContractError::BindingMismatch)
        } else {
            None
        },
        _ => fault("expectation"),
    }
}

pub open spec fn artifact_expectation_problem(t: RequestTyped) -> Option<ProviderContractError> {
    if t.artifact_expectation is Value {
        None
    } else {
        fault("artifactExpectation")
    }
}

pub open spec fn control_problem(t: RequestTyped, turn_id: Seq<char>) -> Option<
    ProviderContractError,
> {
    match t.control {
        Parsed::Value(c) => if control_for_turn_error(c, turn_id) is Some {
            fault("control")
        } else {
            None
        },
        _ => fault("control"),
    }
}

pub open spec fn baseline_problem(t: RequestTyped) -> Option<ProviderContractError> {
    match t.baseline {
        Parsed::Value(b) => if baseline_error(b) is Some {
            fault("baseline")
        } else {
            None
        },
        _ => fault("baseline"),
    }
}

pub open spec fn status_problem(i: ProviderIdentity, data: Seq<(String, JsonValue)>) -> Option<
    ProviderContractError,
> {
    match text_of(lookup(data, "expectedSlotId"@)) {
        None => fault("expectedSlotId"),
        Some(s) => if s != i.slot_id@ {
            fault("status request")
        } else {
            bounded(data, "probeAttempt", 0, 1, "status request")
        },
    }
}

pub open spec fn rebind_request_problem(
    i: ProviderIdentity,
    data: Seq<(String, JsonValue)>,
    t: RequestTyped,
) -> Option<ProviderContractError> {
    match text_of(lookup(data, "operationKind"@)) {
        None => fault("operationKind"),
        Some(k) => if !(k == "poll"@ || k == "show"@ || k == "resume"@ || k == "download"@) {
            fault("session-rebind request")
        } else {
            or_else(
                bounded(data, "navigationAttemptLimit", 2, 2, "session-rebind request"),
                or_else(
                    bounded(data, "hydrationDeadlineMs", 90_000, 90_000, "session-rebind request"),
                    expectation_problem(t, i),
                ),
            )
        },
    }
}

/// The problem with a request's operation data, in the order the rules of
/// its operation check it; `None` where there is none.
pub open spec fn request_data_problem(
    op: ProviderOperation,
    i: ProviderIdentity,
    data: Seq<(String, JsonValue)>,
    t: RequestTyped,
) -> Option<ProviderContractError> {
    let turn = text_of(lookup(data, "terminalAssistantTurnId"@)).unwrap();
    match op {
        ProviderOperation::Status => status_problem(i, data),
        ProviderOperation::CaptureRoot => or_else(
            model_problem(t.requested_model, t.requested_effort),
            bounded(data, "rediscoveryAttempt", 0, 2, "rediscoveryAttempt"),
        ),
        ProviderOperation::EnsureModel => or_else(
            page_problem(t.page_binding, i),
            or_else(
                model_problem(t.requested_model, t.requested_effort),
                or_else(
                    bounded(data, "pickerOpenBudget", 1, 1, "ensure-model literals"),
                    bounded(data, "stabilizationMs", 500, 500, "ensure-model literals"),
                ),
            ),
        ),
        ProviderOperation::UploadOnly => or_else(
            page_problem(t.page_binding, i),
            or_else(
                attachment_problem(t),
                or_else(
                    id_problem(data, "uploadAttemptId"@, IdKind::Operation),
                    bounded(data, "retryIndex", 0, 1, "retryIndex"),
                ),
            ),
        ),
        ProviderOperation::ClearUpload => or_else(
            page_problem(t.page_binding, i),
            or_else(
                id_problem(data, "uploadAttemptId"@, IdKind::Operation),
                or_else(
                    id_problem(data, "clearAttemptId"@, IdKind::Operation),
                    verdict_problem(t, "staleChips"@, "staleChips"),
                ),
            ),
        ),
        ProviderOperation::SendClick => or_else(
            page_problem(t.page_binding, i),
            or_else(
                id_problem(data, "sendAttemptId"@, IdKind::Operation),
                or_else(
                    verdict_problem(t, "uploadProof"@, "uploadProof"),
                    or_else(
                        prompt_input_problem(t, i),
                        or_else(
                            bounded(data, "clickBudget", 1, 1, "send-click request"),
                            verdict_problem(t, "staleChips within bound"@, "send-click request"),
                        ),
                    ),
                ),
            ),
        ),
        ProviderOperation::SendReconcile => or_else(
            page_problem(t.page_binding, i),
            or_else(
                id_problem(data, "sendAttemptId"@, IdKind::Operation),
                or_else(
                    verdict_problem(t, "preClickReceipt"@, "preClickReceipt"),
                    verdict_problem(t, "preClickReceipt binding"@, "preClickReceipt binding"),
                ),
            ),
        ),
        ProviderOperation::SessionRebind => rebind_request_problem(i, data, t),
        ProviderOperation::Poll => or_else(
            echo_problem(t.expected, i),
            or_else(
                id_problem(data, "pollAttemptId"@, IdKind::Operation),
                or_else(
                    bounded(data, "pollTimeoutSeconds", 1, 10_800, "pollTimeoutSeconds"),
                    artifact_expectation_problem(t),
                ),
            ),
        ),
        ProviderOperation::ArtifactDiscover => or_else(
            echo_problem(t.expected, i),
            or_else(
                id_problem(data, "artifactClaimId"@, IdKind::ArtifactClaim),
                or_else(
                    id_problem(data, "terminalAssistantTurnId"@, IdKind::Turn),
                    artifact_expectation_problem(t),
                ),
            ),
        ),
        ProviderOperation::ArtifactClickSave => or_else(
            echo_problem(t.expected, i),
            or_else(
                id_problem(data, "artifactClaimId"@, IdKind::ArtifactClaim),
                or_else(
                    id_problem(data, "terminalAssistantTurnId"@, IdKind::Turn),
                    or_else(
                        control_problem(t, turn),
                        or_else(
                            baseline_problem(t),
                            or_else(
                                bounded(data, "controlIndex", 0, 63, "controlIndex"),
                                id_problem(data, "hostSaveDirectory"@, IdKind::SafeRelPath),
                            ),
                        ),
                    ),
                ),
            ),
        ),
    }
}

fn either(
    first: Option<ProviderContractError>,
    then: Option<ProviderContractError>,
) -> (r: Option<ProviderContractError>)
    ensures
        r == or_else(first, then),
{
    if first.is_some() {
        first
    } else {
        then
    }
}

fn invalid_field(m: &'static str) -> (r: Option<ProviderContractError>)
    ensures
        r == fault(m),
{
    Some(ProviderContractError::Invalid(m))
}

fn page_check(pb: &Parsed<PageBindingEcho>, i: &ProviderIdentity) -> (r: Option<
    ProviderContractError,
>)
    ensures
        r == page_problem(*pb, *i),
{
    match pb {
        Parsed::Value(b) => if b.validate().is_err() {
            invalid_field("pageBinding")
        } else if validate_page_identity(b, i).is_err() {
            Some(ProviderContractError::BindingMismatch)
        } else {
            None
        },
        _ => invalid_field("pageBinding"),
    }
}

fn echo_check(pe: &Parsed<SessionEcho>, i: &ProviderIdentity) -> (r: Option<ProviderContractError>)
    ensures
        r == echo_problem(*pe, *i),
{
    match pe {
        Parsed::Value(e) => if e.validate().is_err() {
            invalid_field("expected")
        } else if validate_session_identity(e, i).is_err() {
            Some(ProviderContractError::BindingMismatch)
        } else {
            None
        },
        _ => invalid_field("expected"),
    }
}

fn model_check(m: &Parsed<Model>, e: &Parsed<Effort>) -> (r: Option<ProviderContractError>)
    ensures
        r == model_problem(*m, *e),
{
    match (m, e) {
        (Parsed::Value(mv), Parsed::Value(ev)) => if crate::contracts::browser::validate_model_tuple(
            mv,
            ev,
        ).is_ok() {
            None
        } else {
            invalid_field("model/effort tuple")
        },
        (Parsed::Value(_), _) => invalid_field("requestedEffort"),
        _ => invalid_field("requestedModel"),
    }
}

fn id_check(data: &Vec<(String, JsonValue)>, key: &str, kind: IdKind) -> (r: Option<
    ProviderContractError,
>)
    ensures
        r == id_problem(data@, key@, kind),
{
    if id_field(data, key, kind) {
        None
    } else {
        invalid_field("identifier")
    }
}

fn bounded_check(
    data: &Vec<(String, JsonValue)>,
    key: &'static str,
    lo: u64,
    hi: u64,
    message: &'static str,
) -> (r: Option<ProviderContractError>)
    ensures
        r == bounded(data@, key, lo, hi, message),
{
    match field_unsigned(data, key) {
        None => invalid_field(key),
        Some(n) => if lo <= n && n <= hi {
            None
        } else {
            invalid_field(message)
        },
    }
}

fn verdict_check(t: &RequestTyped, label: &str, message: &'static str) -> (r: Option<
    ProviderContractError,
>)
    ensures
        r == verdict_problem(*t, label@, message),
{
    let ok = match get_entry(&t.verdicts, label) {
        Some(b) => *b,
        None => false,
    };
    if ok {
        None
    } else {
        invalid_field(message)
    }
}

fn prompt_check(t: &RequestTyped, i: &ProviderIdentity) -> (r: Option<ProviderContractError>)
    ensures
        r == prompt_input_problem(*t, *i),
{
    let p = match &t.prompt_input {
        Parsed::Value(p) => p,
        _ => return invalid_field("promptInput"),
    };
    if validate_safe_rel_path(p.container_rel_path.as_str()).is_err() {
        return invalid_field("promptInput.containerRelPath");
    }
    if validate_h256(p.sha256.as_str()).is_err() {
        return invalid_field("promptInput.sha256");
    }
    if validate_byte_count(p.size_bytes).is_err() {
        return invalid_field("promptInput.sizeBytes");
    }
    match &i.run_id {
        Some(run) => {
            let expected = concat2(run.as_str(), "/prompt.txt");
            if !str_eq(p.container_rel_path.as_str(), expected.as_str()) {
                return invalid_field("promptInput.containerRelPath");
            }
        },
        None => {},
    }
    None
}

fn attachment_check(t: &RequestTyped) -> (r: Option<ProviderContractError>)
    ensures
        r == attachment_problem(*t),
{
    match &t.attachment_set {
        Parsed::Value(a) => match a.validate() {
            Ok(()) => None,
            Err(e) => Some(e),
        },
        _ => invalid_field("attachmentSet"),
    }
}

fn expectation_check(t: &RequestTyped, i: &ProviderIdentity) -> (r: Option<ProviderContractError>)
    ensures
        r == expectation_problem(*t, *i),
{
    match &t.expectation {
        Parsed::Value(e) => if e.validate().is_err() {
            invalid_field("expectation")
        } else if validate_expectation_identity(e, i).is_err() {
            Some(ProviderContractError::BindingMismatch)
        } else {
            None
        },
        _ => invalid_field("expectation"),
    }
}

fn artifact_expectation_check(t: &RequestTyped) -> (r: Option<ProviderContractError>)
    ensures
        r == artifact_expectation_problem(*t),
{
    match &t.artifact_expectation {
        Parsed::Value(_) => None,
        _ => invalid_field("artifactExpectation"),
    }
}

fn control_check(t: &RequestTyped, turn_id: &str) -> (r: Option<ProviderContractError>)
    ensures
        r == control_problem(*t, turn_id@),
{
    match &t.control {
        Parsed::Value(c) => if c.validate_for_turn(turn_id).is_err() {
            invalid_field("control")
        } else {
            None
        },
        _ => invalid_field("control"),
    }
}

fn baseline_check(t: &RequestTyped) -> (r: Option<ProviderContractError>)
    ensures
        r == baseline_problem(*t),
{
    match &t.baseline {
        Parsed::Value(b) => if b.validate().is_err() {
            invalid_field("baseline")
        } else {
            None
        },
        _ => invalid_field("baseline"),
    }
}

fn status_check(i: &ProviderIdentity, data: &Vec<(String, JsonValue)>) -> (r: Option<
    ProviderContractError,
>)
    ensures
        r == status_problem(*i, data@),
{
    match field_text(data, "expectedSlotId") {
        None => invalid_field("expectedSlotId"),
        Some(s) => if !str_eq(s, i.slot_id.as_str()) {
            invalid_field("status request")
        } else {
            bounded_check(data, "probeAttempt", 0, 1, "status request")
        },
    }
}

fn rebind_request_check(
    i: &ProviderIdentity,
    data: &Vec<(String, JsonValue)>,
    t: &RequestTyped,
) -> (r: Option<ProviderContractError>)
    ensures
        r == rebind_request_problem(*i, data@, *t),
{
    match field_text(data, "operationKind") {
        None => invalid_field("operationKind"),
        Some(k) => if !(str_eq(k, "poll") || str_eq(k, "show") || str_eq(k, "resume") || str_eq(
            k,
            "download",
        )) {
            invalid_field("session-rebind request")
        } else {
            either(
                bounded_check(data, "navigationAttemptLimit", 2, 2, "session-rebind request"),
                either(
                    bounded_check(
                        data,
                        "hydrationDeadlineMs",
                        90_000,
                        90_000,
                        "session-rebind request",
                    ),
                    expectation_check(t, i),
                ),
            )
        },
    }
}

fn request_data_check(
    op: ProviderOperation,
    i: &ProviderIdentity,
    data: &Vec<(String, JsonValue)>,
    t: &RequestTyped,
) -> (r: Option<ProviderContractError>)
    ensures
        r == request_data_problem(op, *i, data@, *t),
{
    match op {
        ProviderOperation::Status => status_check(i, data),
        ProviderOperation::CaptureRoot => either(
            model_check(&t.requested_model, &t.requested_effort),
            bounded_check(data, "rediscoveryAttempt", 0, 2, "rediscoveryAttempt"),
        ),
        ProviderOperation::EnsureModel => either(
            page_check(&t.page_binding, i),
            either(
                model_check(&t.requested_model, &t.requested_effort),
                either(
                    bounded_check(data, "pickerOpenBudget", 1, 1, "ensure-model literals"),
                    bounded_check(data, "stabilizationMs", 500, 500, "ensure-model literals"),
                ),
            ),
        ),
        ProviderOperation::UploadOnly => either(
            page_check(&t.page_binding, i),
            either(
                attachment_check(t),
                either(
                    id_check(data, "uploadAttemptId", IdKind::Operation),
                    bounded_check(data, "retryIndex", 0, 1, "retryIndex"),
                ),
            ),
        ),
        ProviderOperation::ClearUpload => either(
            page_check(&t.page_binding, i),
            either(
                id_check(data, "uploadAttemptId", IdKind::Operation),
                either(
                    id_check(data, "clearAttemptId", IdKind::Operation),
                    verdict_check(t, "staleChips", "staleChips"),
                ),
            ),
        ),
        ProviderOperation::SendClick => either(
            page_check(&t.page_binding, i),
            either(
                id_check(data, "sendAttemptId", IdKind::Operation),
                either(
                    verdict_check(t, "uploadProof", "uploadProof"),
                    either(
                        prompt_check(t, i),
                        either(
                            bounded_check(data, "clickBudget", 1, 1, "send-click request"),
                            verdict_check(t, "staleChips within bound", "send-click request"),
                        ),
                    ),
                ),
            ),
        ),
        ProviderOperation::SendReconcile => either(
            page_check(&t.page_binding, i),
            either(
                id_check(data, "sendAttemptId", IdKind::Operation),
                either(
                    verdict_check(t, "preClickReceipt", "preClickReceipt"),
                    verdict_check(t, "preClickReceipt binding", "preClickReceipt binding"),
                ),
            ),
        ),
        ProviderOperation::SessionRebind => rebind_request_check(i, data, t),
        ProviderOperation::Poll => either(
            echo_check(&t.expected, i),
            either(
                id_check(data, "pollAttemptId", IdKind::Operation),
                either(
                    bounded_check(data, "pollTimeoutSeconds", 1, 10_800, "pollTimeoutSeconds"),
                    artifact_expectation_check(t),
                ),
            ),
        ),
        ProviderOperation::ArtifactDiscover => either(
            echo_check(&t.expected, i),
            either(
                id_check(data, "artifactClaimId", IdKind::ArtifactClaim),
                either(
                    id_check(data, "terminalAssistantTurnId", IdKind::Turn),
                    artifact_expectation_check(t),
                ),
            ),
        ),
        ProviderOperation::ArtifactClickSave => {
            let control = match field_text(data, "terminalAssistantTurnId") {
                Some(turn) => control_check(t, turn),
                None => invalid_field("control"),
            };
            either(
                echo_check(&t.expected, i),
                either(
                    id_check(data, "artifactClaimId", IdKind::ArtifactClaim),
                    either(
                        id_check(data, "terminalAssistantTurnId", IdKind::Turn),
                        either(
                            control,
                            either(
                                baseline_check(t),
                                either(
                                    bounded_check(data, "controlIndex", 0, 63, "controlIndex"),
                                    id_check(data, "hostSaveDirectory", IdKind::SafeRelPath),
                                ),
                            ),
                        ),
                    ),
                ),
            )
        },
    }
}

/// Checks a request's operation data by the rules of its operation: the
/// scalar fields in `data`, the typed fields as decoded in `typed`.
pub fn validate_request_data(
    operation: ProviderOperation,
    identity: &ProviderIdentity,
    data: &Vec<(String, JsonValue)>,
    typed: &RequestTyped,
) -> (r: Result<(), ProviderContractError>)
    ensures
        r == match request_data_problem(operation, *identity, data@, *typed) {
            None => Ok(()),
            Some(e) => Err(e),
        },
{
    match request_data_check(operation, identity, data, typed) {
        None => Ok(()),
        Some(e) => Err(e),
    }
}

// ---------------------------------------------------------------- the whole request

/// The field names of an object, in order.
pub open spec fn keys_of(es: Seq<(String, JsonValue)>) -> Seq<String> {
    es.map_values(|e: (String, JsonValue)| e.0)
}

pub(crate) fn object_keys(es: &Vec<(String, JsonValue)>) -> (ks: Vec<String>)
    ensures
        ks@ == keys_of(es@),
{
    let mut ks: Vec<String> = Vec::new();
    let mut i: usize = 0;
    while i < es.len()
        invariant
            i <= es@.len(),
            ks@ == keys_of(es@.take(i as int)),
        decreases es.len() - i,
    {
        let k = es[i].0.clone();
        ks.push(k);
        proof {
            assert(es@.take(i as int + 1) =~= es@.take(i as int).push(es@[i as int]));
            assert(keys_of(es@.take(i as int + 1)) =~= keys_of(es@.take(i as int)).push(
                es@[i as int].0,
            ));
        }
        i += 1;
    }
    assert(es@.take(es@.len() as int) =~= es@);
    ks
}

/// The first problem with a provider request, in the order it is checked:
/// schema and deadline, identity, evidence paths, receipt paths, an object
/// of operation data with exactly the operation's fields, and then the
/// operation's own rules.
pub open spec fn request_problem(r: ProviderRequest, t: RequestTyped) -> Option<
    ProviderContractError,
> {
    if r.schema@ != REQUEST_SCHEMA@ || r.deadline_ms == 0 || r.deadline_ms > MAX_DURATION_MS {
        fault("schema/deadlineMs")
    } else if identity_error(r.identity) is Some {
        fault(identity_error(r.identity).unwrap())
    } else if evidence_paths_error(r.evidence, r.operation) is Some {
        fault(evidence_paths_error(r.evidence, r.operation).unwrap())
    } else if !receipt_paths_ok(r.operation, r.evidence.receipt_rel_paths) {
        fault("receiptRelPaths")
    } else {
        match r.operation_data {
            JsonValue::Object(es) => if !same_keys(keys_of(es@), request_keys_of(r.operation)) {
                fault("operationData fields")
            } else {
                request_data_problem(r.operation, r.identity, es@, t)
            },
            _ => fault("operationData"),
        }
    }
}

impl ProviderRequest {
    /// Checks a provider request before it is sent; the typed fields of its
    /// operation data come decoded in `typed`.
    pub fn validate(&self, typed: &RequestTyped) -> (r: Result<(), ProviderContractError>)
        ensures
            r == match request_problem(*self, *typed) {
                None => Ok(()),
                Some(e) => Err(e),
            },
    {
        if !str_eq(self.schema.as_str(), REQUEST_SCHEMA) || self.deadline_ms == 0
            || self.deadline_ms > MAX_DURATION_MS {
            return Err(ProviderContractError::Invalid("schema/deadlineMs"));
        }
        self.identity.validate()?;
        self.evidence.validate(self.operation)?;
        validate_receipt_paths(self.operation, &self.evidence.receipt_rel_paths)?;
        let data = match &self.operation_data {
            JsonValue::Object(es) => es,
            _ => return Err(ProviderContractError::Invalid("operationData")),
        };
        let keys = object_keys(data);
        exact_keys(keys.as_slice(), &request_keys(self.operation))?;
        validate_request_data(self.operation, &self.identity, data, typed)
    }
}

} // verus!
