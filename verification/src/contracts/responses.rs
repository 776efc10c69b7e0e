use vstd::prelude::*;

use crate::artifact_claims::completion::PlaywrightDownloadReceipt;
use crate::artifact_claims::{ArtifactControl, BottomProof, ZeroControlProof};
use crate::contracts::browser::{
    evidence_ref_error, EffortProof, EvidenceMediaType, EvidenceRef, FailureProof, ModelProof,
    PageBindingEcho, RootBindingCandidate, SessionEcho, SessionRebindExpectation,
};
use crate::contracts::payload_keys::same_keys;
use crate::contracts::projection::lookup;
use crate::contracts::provider::{
    exact_keys, invalid, response_keys, response_keys_of, response_status_error,
    validate_response_status, ProviderContractError, ProviderIdentity, ProviderOperation,
    RESPONSE_SCHEMA,
};
use crate::contracts::replies::{
    bad, capture_reply_result, discover_reply_result, download_reply_result, model_reply_result,
    opt_seq, poll_reply_result, rebind_reply_result, status_reply_result, validate_capture_response,
    validate_discover_response, validate_download_response, validate_model_response,
    validate_poll_response, validate_rebind_response, validate_status_response, Parsed,
    ReplyStatus,
};
use crate::contracts::requests::{
    keys_of, object_keys, request_problem, ProviderRequest, RequestTyped,
};
use crate::contracts::semantics::{field_text, text_of, JsonValue};
use crate::text::{copy_opt_string, opt_view, str_eq};

verus! {

/// A provider's answer to a request.
pub struct ProviderResponse {
    pub identity: ProviderIdentity,
    pub ok: bool,
    pub operation: ProviderOperation,
    pub operation_data: JsonValue,
    pub provider_reason: Option<String>,
    pub receipt: EvidenceRef,
    pub schema: String,
    pub status: String,
}

/// The typed fields of a response's operation data as the caller decoded
/// them.
pub struct ReplyTyped {
    pub observed_binding: Parsed<PageBindingEcho>,
    pub model_proof: Parsed<ModelProof>,
    pub effort_proof: Parsed<EffortProof>,
    pub failure_proof: Parsed<FailureProof>,
    pub root_candidate: Parsed<RootBindingCandidate>,
    pub echoed: Parsed<SessionEcho>,
    pub observed_echo: Parsed<SessionEcho>,
    pub expectation: Parsed<SessionRebindExpectation>,
    pub controls: Parsed<Vec<ArtifactControl>>,
    pub bottom: Parsed<BottomProof>,
    pub zero: Parsed<ZeroControlProof>,
    pub receipt: Parsed<PlaywrightDownloadReceipt>,
}

pub open spec fn same_identity(a: ProviderIdentity, b: ProviderIdentity) -> bool {
    &&& opt_seq(a.cohort) == opt_seq(b.cohort)
    &&& a.operation_id@ == b.operation_id@
    &&& opt_seq(a.request_id) == opt_seq(b.request_id)
    &&& opt_seq(a.run_id) == opt_seq(b.run_id)
    &&& opt_seq(a.session_id) == opt_seq(b.session_id)
    &&& a.slot_id@ == b.slot_id@
}

fn opt_same(a: &Option<String>, b: &Option<String>) -> (r: bool)
    ensures
        r == (opt_seq(*a) == opt_seq(*b)),
{
    match (a, b) {
        (Some(x), Some(y)) => str_eq(x.as_str(), y.as_str()),
        (None, None) => true,
        _ => false,
    }
}

fn identities_equal(a: &ProviderIdentity, b: &ProviderIdentity) -> (r: bool)
    ensures
        r == same_identity(*a, *b),
{
    opt_same(&a.cohort, &b.cohort) && str_eq(a.operation_id.as_str(), b.operation_id.as_str())
        && opt_same(&a.request_id, &b.request_id) && opt_same(&a.run_id, &b.run_id) && opt_same(
        &a.session_id,
        &b.session_id,
    ) && str_eq(a.slot_id.as_str(), b.slot_id.as_str())
}

pub open spec fn reply_of(r: ProviderResponse) -> ReplyStatus {
    ReplyStatus { ok: r.ok, status: r.status, provider_reason: r.provider_reason }
}

pub open spec fn known_status(s: Seq<char>) -> bool {
    s == "done"@ || s == "running"@ || s == "blocked"@ || s == "failed"@
}

/// The request data's text field `key`, where the data is an object.
pub open spec fn request_text(req: ProviderRequest, key: Seq<char>) -> Option<Seq<char>> {
    match req.operation_data {
        JsonValue::Object(es) => text_of(lookup(es@, key)),
        _ => None,
    }
}

/// The rules of a response's operation data. For uploads, chip clearing and
/// send clicks the rules read records that this library does not hold, and
/// `outside` is their result; for session rebinds, `outside` is the result
/// of the rules that follow the echo and field checks (see
/// `rebind_reply_result`).
pub open spec fn response_data_result(
    resp: ProviderResponse,
    req: ProviderRequest,
    rt: RequestTyped,
    yt: ReplyTyped,
    data: Seq<(String, JsonValue)>,
    outside: Result<(), ProviderContractError>,
) -> Result<(), ProviderContractError> {
    let reply = reply_of(resp);
    match resp.operation {
        ProviderOperation::Status => status_reply_result(reply, data),
        ProviderOperation::CaptureRoot => capture_reply_result(
            reply,
            req.identity.operation_id@,
            yt.root_candidate,
            yt.failure_proof,
        ),
        ProviderOperation::EnsureModel => match (
            rt.page_binding,
            rt.requested_model,
            rt.requested_effort,
        ) {
            (Parsed::Value(b), Parsed::Value(m), Parsed::Value(e)) => model_reply_result(
                reply,
                b,
                m,
                e,
                yt.observed_binding,
                yt.model_proof,
                yt.effort_proof,
                yt.failure_proof,
            ),
            (Parsed::Value(_), Parsed::Value(_), _) => bad("requestedEffort"),
            (Parsed::Value(_), _, _) => bad("requestedModel"),
            _ => bad("pageBinding"),
        },
        ProviderOperation::Poll => match rt.expected {
            Parsed::Value(e) => poll_reply_result(
                reply,
                e,
                yt.echoed,
                yt.observed_echo,
                data,
                yt.bottom,
            ),
            _ => bad("expected"),
        },
        ProviderOperation::ArtifactDiscover => match rt.expected {
            Parsed::Value(e) => match (
                request_text(req, "artifactClaimId"@),
                request_text(req, "terminalAssistantTurnId"@),
            ) {
                (Some(c), Some(t)) => discover_reply_result(
                    reply,
                    e,
                    c,
                    t,
                    yt.observed_echo,
                    yt.controls,
                    yt.bottom,
                    yt.zero,
                    data,
                ),
                (Some(_), None) => bad("terminalAssistantTurnId"),
                _ => bad("artifactClaimId"),
            },
            _ => bad("expected"),
        },
        ProviderOperation::ArtifactClickSave => match rt.expected {
            Parsed::Value(e) => match (
                request_text(req, "artifactClaimId"@),
                request_text(req, "terminalAssistantTurnId"@),
                rt.control,
                request_text(req, "hostSaveDirectory"@),
            ) {
                (Some(c), Some(t), Parsed::Value(k), Some(h)) => download_reply_result(
                    reply,
                    e,
                    c,
                    t,
                    k,
                    h,
                    yt.observed_echo,
                    yt.receipt,
                    data,
                ),
                (Some(_), Some(_), Parsed::Value(_), None) => bad("hostSaveDirectory"),
                (Some(_), Some(_), _, _) => bad("control"),
                (Some(_), None, _, _) => bad("terminalAssistantTurnId"),
                _ => bad("artifactClaimId"),
            },
            _ => bad("expected"),
        },
        ProviderOperation::SessionRebind => match rt.expectation {
            Parsed::Value(x) => rebind_reply_result(
                reply,
                x,
                yt.expectation,
                yt.observed_echo,
                data,
                outside,
            ),
            _ => bad("expectation"),
        },
        _ => outside,
    }
}

/// What a response to a request must be, in the order it is checked: the
/// request itself valid; the envelope of the response schema, for the same
/// operation and identity, with a known status and a reason exactly when
/// it failed; a status that fits its reason; a valid JSON receipt at the
/// request's primary receipt path; operation data with exactly the fields
/// of the operation and outcome; and the operation's own rules.
pub open spec fn response_result(
    resp: ProviderResponse,
    req: ProviderRequest,
    rt: RequestTyped,
    yt: ReplyTyped,
    outside: Result<(), ProviderContractError>,
) -> Result<(), ProviderContractError> {
    match request_problem(req, rt) {
        Some(e) => Err(e),
        None => if !(resp.schema@ == RESPONSE_SCHEMA@ && resp.operation == req.operation
            && same_identity(resp.identity, req.identity) && known_status(resp.status@) && resp.ok
            == resp.provider_reason is None) {
            bad("response envelope")
        } else if response_status_error(resp.ok, resp.status@, opt_seq(resp.provider_reason)) is Some {
            bad(response_status_error(resp.ok, resp.status@, opt_seq(resp.provider_reason)).unwrap())
        } else if evidence_ref_error(resp.receipt) is Some || resp.receipt.path@
            != req.evidence.receipt_rel_paths.primary@ || resp.receipt.media_type
            != EvidenceMediaType::Json {
            bad("receipt")
        } else {
            match resp.operation_data {
                JsonValue::Object(es) => if !same_keys(
                    keys_of(es@),
                    response_keys_of(resp.operation, resp.ok),
                ) {
                    bad("operationData fields")
                } else {
                    response_data_result(resp, req, rt, yt, es@, outside)
                },
                _ => bad("operationData"),
            }
        },
    }
}

fn request_field<'a>(req: &'a ProviderRequest, key: &str) -> (r: Option<&'a str>)
    ensures
        r matches Some(s) ==> request_text(*req, key@) == Some(s@),
        r is None ==> request_text(*req, key@) is None,
{
    match &req.operation_data {
        JsonValue::Object(es) => field_text(es, key),
        _ => None,
    }
}

fn response_data(
    resp: &ProviderResponse,
    reply: &ReplyStatus,
    req: &ProviderRequest,
    rt: &RequestTyped,
    yt: &ReplyTyped,
    data: &Vec<(String, JsonValue)>,
    outside: Result<(), ProviderContractError>,
) -> (r: Result<(), ProviderContractError>)
    requires
        *reply == reply_of(*resp),
    ensures
        r == response_data_result(*resp, *req, *rt, *yt, data@, outside),
{
    match resp.operation {
        ProviderOperation::Status => validate_status_response(reply, data),
        ProviderOperation::CaptureRoot => validate_capture_response(
            reply,
            req.identity.operation_id.as_str(),
            &yt.root_candidate,
            &yt.failure_proof,
        ),
        ProviderOperation::EnsureModel => match (
            &rt.page_binding,
            &rt.requested_model,
            &rt.requested_effort,
        ) {
            (Parsed::Value(b), Parsed::Value(m), Parsed::Value(e)) => validate_model_response(
                reply,
                b,
                *m,
                *e,
                &yt.observed_binding,
                &yt.model_proof,
                &yt.effort_proof,
                &yt.failure_proof,
            ),
            (Parsed::Value(_), Parsed::Value(_), _) => Err(
                ProviderContractError::Invalid("requestedEffort"),
            ),
            (Parsed::Value(_), _, _) => Err(ProviderContractError::Invalid("requestedModel")),
            _ => Err(ProviderContractError::Invalid("pageBinding")),
        },
        ProviderOperation::Poll => match &rt.expected {
            Parsed::Value(e) => validate_poll_response(
                reply,
                e,
                &yt.echoed,
                &yt.observed_echo,
                data,
                &yt.bottom,
            ),
            _ => Err(ProviderContractError::Invalid("expected")),
        },
        ProviderOperation::ArtifactDiscover => match &rt.expected {
            Parsed::Value(e) => match (
                request_field(req, "artifactClaimId"),
                request_field(req, "terminalAssistantTurnId"),
            ) {
                (Some(c), Some(t)) => validate_discover_response(
                    reply,
                    e,
                    c,
                    t,
                    &yt.observed_echo,
                    &yt.controls,
                    &yt.bottom,
                    &yt.zero,
                    data,
                ),
                (Some(_), None) => Err(ProviderContractError::Invalid("terminalAssistantTurnId")),
                _ => Err(ProviderContractError::Invalid("artifactClaimId")),
            },
            _ => Err(ProviderContractError::Invalid("expected")),
        },
        ProviderOperation::ArtifactClickSave => match &rt.expected {
            Parsed::Value(e) => match (
                request_field(req, "artifactClaimId"),
                request_field(req, "terminalAssistantTurnId"),
                &rt.control,
                request_field(req, "hostSaveDirectory"),
            ) {
                (Some(c), Some(t), Parsed::Value(k), Some(h)) => validate_download_response(
                    reply,
                    e,
                    c,
                    t,
                    k,
                    h,
                    &yt.observed_echo,
                    &yt.receipt,
                    data,
                ),
                (Some(_), Some(_), Parsed::Value(_), None) => Err(
                    ProviderContractError::Invalid("hostSaveDirectory"),
                ),
                (Some(_), Some(_), _, _) => Err(ProviderContractError::Invalid("control")),
                (Some(_), None, _, _) => Err(
                    ProviderContractError::Invalid("terminalAssistantTurnId"),
                ),
                _ => Err(ProviderContractError::Invalid("artifactClaimId")),
            },
            _ => Err(ProviderContractError::Invalid("expected")),
        },
        ProviderOperation::SessionRebind => match &rt.expectation {
            Parsed::Value(x) => validate_rebind_response(
                reply,
                x,
                &yt.expectation,
                &yt.observed_echo,
                data,
                outside,
            ),
            _ => Err(ProviderContractError::Invalid("expectation")),
        },
        _ => outside,
    }
}

impl ProviderResponse {
    /// Checks a response against the request it answers. The typed fields
    /// of both come decoded; `outside` is the result of the data rules that
    /// read records this library does not hold: all the rules of uploads,
    /// chip clearing and send clicks, and those of session rebinds that
    /// follow the echo and field checks.
    pub fn validate_for(
        &self,
        request: &ProviderRequest,
        request_typed: &RequestTyped,
        typed: &ReplyTyped,
        outside: Result<(), ProviderContractError>,
    ) -> (r: Result<(), ProviderContractError>)
        ensures
            r == response_result(*self, *request, *request_typed, *typed, outside),
    {
        request.validate(request_typed)?;
        let status = self.status.as_str();
        let known = str_eq(status, "done") || str_eq(status, "running") || str_eq(status, "blocked")
            || str_eq(status, "failed");
        if !(str_eq(self.schema.as_str(), RESPONSE_SCHEMA) && self.operation == request.operation
            && identities_equal(&self.identity, &request.identity) && known && self.ok
            == self.provider_reason.is_none()) {
            return Err(ProviderContractError::Invalid("response envelope"));
        }
        let reason = match &self.provider_reason {
            Some(s) => Some(s.as_str()),
            None => None,
        };
        validate_response_status(self.ok, status, reason)?;
        if self.receipt.validate().is_err() || !str_eq(
            self.receipt.path.as_str(),
            request.evidence.receipt_rel_paths.primary.as_str(),
        ) || self.receipt.media_type != EvidenceMediaType::Json {
            return Err(ProviderContractError::Invalid("receipt"));
        }
        let data = match &self.operation_data {
            JsonValue::Object(es) => es,
            _ => return Err(ProviderContractError::Invalid("operationData")),
        };
        let keys = object_keys(data);
        exact_keys(keys.as_slice(), &response_keys(self.operation, self.ok))?;
        let reply = ReplyStatus {
            ok: self.ok,
            status: self.status.clone(),
            provider_reason: copy_opt_string(&self.provider_reason),
        };
        response_data(self, &reply, request, request_typed, typed, data, outside)
    }
}

} // verus!
