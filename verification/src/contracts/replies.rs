use vstd::prelude::*;

use crate::contracts::browser::{
    is_failure_reason, page_binding_error, proof_error, failure_proof_error, root_binding_error,
    session_echo_error, Effort, EffortProof, FailureProof, Model, ModelProof, PageBindingEcho,
    EvidenceRef, RootBindingCandidate, SessionEcho, SessionRebindExpectation,
};
use crate::contracts::health::{health_parse, HealthStatus};
use crate::contracts::provider::{is_session_failure, session_failure, ProviderContractError};
use crate::artifact_claims::completion::{receipt_for_error, PlaywrightDownloadReceipt};
use crate::artifact_claims::{
    bottom_proof_error, control_for_turn_error, zero_proof_error, ArtifactControl, BottomProof,
    ZeroControlProof,
};
use crate::contracts::ids::{MAX_BYTE_COUNT, MAX_DURATION_MS};
use crate::contracts::projection::{get_entry, lookup};
use crate::contracts::semantics::{
    bool_of, field_bool, field_null, field_text, id_at, id_field, null_at, text_of, within,
    within_field, IdKind, JsonValue,
};
use crate::text::{contains_char, has_char, opt_str_eq, str_eq};

verus! {

/// A typed field of a provider reply as its decoder left it: absent, `null`,
/// decoded, or present but not of the expected shape.
pub enum Parsed<T> {
    Missing,
    Null,
    Value(T),
    Malformed,
}

/// The envelope fields of a provider reply that every operation reads.
pub struct ReplyStatus {
    pub ok: bool,
    pub status: String,
    pub provider_reason: Option<String>,
}

pub open spec fn opt_seq(o: Option<String>) -> Option<Seq<char>> {
    match o {
        Some(s) => Some(s@),
        None => None,
    }
}

pub open spec fn reason_is(r: ReplyStatus, s: Seq<char>) -> bool {
    opt_seq(r.provider_reason) == Some(s)
}

pub open spec fn bad(m: &'static str) -> Result<(), ProviderContractError> {
    Err(ProviderContractError::Invalid(m))
}

fn fail(m: &'static str) -> (r: Result<(), ProviderContractError>)
    ensures
        r == bad(m),
{
    Err(ProviderContractError::Invalid(m))
}

fn reason_eq(r: &ReplyStatus, s: &str) -> (b: bool)
    ensures
        b == reason_is(*r, s@),
{
    match &r.provider_reason {
        Some(x) => str_eq(x.as_str(), s),
        None => false,
    }
}

// ---------------------------------------------------------------- page bindings

/// Two page binding echoes agree in every field.
pub open spec fn same_binding(a: PageBindingEcho, b: PageBindingEcho) -> bool {
    &&& a.binding_id@ == b.binding_id@
    &&& a.binding_generation == b.binding_generation
    &&& a.slot_id@ == b.slot_id@
    &&& a.cohort@ == b.cohort@
    &&& a.lease_id@ == b.lease_id@
    &&& a.lease_generation == b.lease_generation
    &&& a.runtime_owner_id@ == b.runtime_owner_id@
    &&& a.runtime_owner_generation == b.runtime_owner_generation
    &&& a.runtime_incarnation_id@ == b.runtime_incarnation_id@
    &&& a.browser_context_id@ == b.browser_context_id@
    &&& a.target_id@ == b.target_id@
    &&& a.page_incarnation_id@ == b.page_incarnation_id@
    &&& a.root_binding_hash@ == b.root_binding_hash@
    &&& a.dom_mutation_generation == b.dom_mutation_generation
}

pub fn bindings_equal(a: &PageBindingEcho, b: &PageBindingEcho) -> (r: bool)
    ensures
        r == same_binding(*a, *b),
{
    str_eq(a.binding_id.as_str(), b.binding_id.as_str()) && a.binding_generation
        == b.binding_generation && str_eq(a.slot_id.as_str(), b.slot_id.as_str()) && str_eq(
        a.cohort.as_str(),
        b.cohort.as_str(),
    ) && str_eq(a.lease_id.as_str(), b.lease_id.as_str()) && a.lease_generation
        == b.lease_generation && str_eq(a.runtime_owner_id.as_str(), b.runtime_owner_id.as_str())
        && a.runtime_owner_generation == b.runtime_owner_generation && str_eq(
        a.runtime_incarnation_id.as_str(),
        b.runtime_incarnation_id.as_str(),
    ) && str_eq(a.browser_context_id.as_str(), b.browser_context_id.as_str()) && str_eq(
        a.target_id.as_str(),
        b.target_id.as_str(),
    ) && str_eq(a.page_incarnation_id.as_str(), b.page_incarnation_id.as_str()) && str_eq(
        a.root_binding_hash.as_str(),
        b.root_binding_hash.as_str(),
    ) && a.dom_mutation_generation == b.dom_mutation_generation
}

/// The reply's observed page binding: `null` gives none, a decoded binding
/// must be valid, anything else is refused.
pub open spec fn observed_binding(v: Parsed<PageBindingEcho>) -> Result<
    Option<PageBindingEcho>,
    ProviderContractError,
> {
    match v {
        Parsed::Null => Ok(None),
        Parsed::Value(b) => if page_binding_error(b) is None {
            Ok(Some(b))
        } else {
            Err(ProviderContractError::Invalid("observedPageBinding"))
        },
        _ => Err(ProviderContractError::Invalid("observedPageBinding")),
    }
}

fn optional_binding(v: &Parsed<PageBindingEcho>) -> (r: Result<
    Option<&PageBindingEcho>,
    ProviderContractError,
>)
    ensures
        match observed_binding(*v) {
            Ok(Some(b)) => r matches Ok(Some(x)) && *x == b,
            Ok(None) => r matches Ok(None),
            Err(e) => r == Err::<Option<&PageBindingEcho>, ProviderContractError>(e),
        },
{
    match v {
        Parsed::Null => Ok(None),
        Parsed::Value(b) => if b.validate().is_ok() {
            Ok(Some(b))
        } else {
            Err(ProviderContractError::Invalid("observedPageBinding"))
        },
        _ => Err(ProviderContractError::Invalid("observedPageBinding")),
    }
}

// ---------------------------------------------------------------- ensure-model

/// What an `ensure-model` reply must show, in the order it is checked: a
/// valid observed binding that echoes the requested one (or, for a binding
/// mismatch, one that differs); on success the two proofs of the requested
/// model and effort and no failure proof; on a picker failure a failure
/// proof of the same reason and no proofs; on an invocation failure no
/// proof at all.
pub open spec fn model_reply_result(
    reply: ReplyStatus,
    expected: PageBindingEcho,
    model: Model,
    effort: Effort,
    observed: Parsed<PageBindingEcho>,
    model_proof: Parsed<ModelProof>,
    effort_proof: Parsed<EffortProof>,
    failure_proof: Parsed<FailureProof>,
) -> Result<(), ProviderContractError> {
    match observed_binding(observed) {
        Err(e) => Err(e),
        Ok(obs) => {
            let mismatch = reason_is(reply, "binding.mismatch"@);
            if mismatch && (obs is None || same_binding(obs.unwrap(), expected)) {
                bad("ensure-model binding mismatch echo")
            } else if !mismatch && obs is Some && !same_binding(obs.unwrap(), expected) {
                Err(ProviderContractError::BindingMismatch)
            } else if reply.ok {
                match (model_proof, effort_proof) {
                    (Parsed::Value(m), Parsed::Value(e)) => if proof_error(
                        m.control,
                        m.evidence_refs@,
                        m.verified_at_ms,
                        m.verified,
                        m.observed == m.requested,
                        m.selected_by@,
                        "ModelProof",
                    ) is Some {
                        bad("modelProof")
                    } else if proof_error(
                        e.control,
                        e.evidence_refs@,
                        e.verified_at_ms,
                        e.verified,
                        e.observed == e.requested,
                        e.selected_by@,
                        "EffortProof",
                    ) is Some {
                        bad("effortProof")
                    } else if m.requested == model && m.observed == model && e.requested == effort
                        && e.observed == effort && obs is Some && failure_proof is Null
                        && reply.status@ == "done"@ {
                        Ok(())
                    } else {
                        bad("ensure-model success")
                    },
                    (Parsed::Value(_), _) => bad("effortProof"),
                    _ => bad("modelProof"),
                }
            } else if picker_failure(reply) {
                match failure_proof {
                    Parsed::Value(f) => if failure_proof_error(f) is Some {
                        bad("failureProof")
                    } else if model_proof is Null && effort_proof is Null && Some(f.reason@)
                        == opt_seq(reply.provider_reason) && obs is Some {
                        Ok(())
                    } else {
                        bad("ensure-model picker failure")
                    },
                    _ => bad("failureProof"),
                }
            } else if reason_is(reply, "provider.schema_drift"@) || reason_is(
                reply,
                "contract.invalid_provider_envelope"@,
            ) || mismatch {
                if model_proof is Null && effort_proof is Null && failure_proof is Null {
                    Ok(())
                } else {
                    bad("ensure-model invocation failure")
                }
            } else {
                bad("ensure-model providerReason")
            }
        },
    }
}

pub open spec fn picker_failure(r: ReplyStatus) -> bool {
    r.provider_reason matches Some(reason) && is_failure_reason(reason@)
}

fn picker_reason(r: &ReplyStatus) -> (b: bool)
    ensures
        b == picker_failure(*r),
{
    match &r.provider_reason {
        Some(x) => {
            let s = x.as_str();
            str_eq(s, "picker.model_absent") || str_eq(s, "picker.effort_absent") || str_eq(
                s,
                "picker.control_drift",
            ) || str_eq(s, "picker.selection_timeout") || str_eq(s, "picker.reverify_mismatch")
                || str_eq(s, "capture.ambiguous")
        },
        None => false,
    }
}

fn is_null<T>(v: &Parsed<T>) -> (b: bool)
    ensures
        b == (*v is Null),
{
    match v {
        Parsed::Null => true,
        _ => false,
    }
}

/// Checks the operation data of an `ensure-model` reply against the page
/// binding, model and effort that the request asked for.
pub fn validate_model_response(
    reply: &ReplyStatus,
    expected: &PageBindingEcho,
    model: Model,
    effort: Effort,
    observed: &Parsed<PageBindingEcho>,
    model_proof: &Parsed<ModelProof>,
    effort_proof: &Parsed<EffortProof>,
    failure_proof: &Parsed<FailureProof>,
) -> (r: Result<(), ProviderContractError>)
    ensures
        r == model_reply_result(
            *reply,
            *expected,
            model,
            effort,
            *observed,
            *model_proof,
            *effort_proof,
            *failure_proof,
        ),
{
    let obs = match optional_binding(observed) {
        Ok(o) => o,
        Err(e) => return Err(e),
    };
    let mismatch = reason_eq(reply, "binding.mismatch");
    if mismatch {
        let same = match obs {
            Some(b) => bindings_equal(b, expected),
            None => true,
        };
        if same {
            return fail("ensure-model binding mismatch echo");
        }
    } else {
        match obs {
            Some(b) => if !bindings_equal(b, expected) {
                return Err(ProviderContractError::BindingMismatch);
            },
            None => {},
        }
    }
    if reply.ok {
        let m = match model_proof {
            Parsed::Value(m) => m,
            _ => return fail("modelProof"),
        };
        let e = match effort_proof {
            Parsed::Value(e) => e,
            _ => return fail("effortProof"),
        };
        if m.validate().is_err() {
            return fail("modelProof");
        }
        if e.validate().is_err() {
            return fail("effortProof");
        }
        if m.requested == model && m.observed == model && e.requested == effort && e.observed
            == effort && obs.is_some() && is_null(failure_proof) && str_eq(
            reply.status.as_str(),
            "done",
        ) {
            Ok(())
        } else {
            fail("ensure-model success")
        }
    } else if picker_reason(reply) {
        let f = match failure_proof {
            Parsed::Value(f) => f,
            _ => return fail("failureProof"),
        };
        if f.validate().is_err() {
            return fail("failureProof");
        }
        let same_reason = opt_str_eq(&reply.provider_reason, Some(f.reason.as_str()));
        if is_null(model_proof) && is_null(effort_proof) && same_reason && obs.is_some() {
            Ok(())
        } else {
            fail("ensure-model picker failure")
        }
    } else if reason_eq(reply, "provider.schema_drift") || reason_eq(
        reply,
        "contract.invalid_provider_envelope",
    ) || mismatch {
        if is_null(model_proof) && is_null(effort_proof) && is_null(failure_proof) {
            Ok(())
        } else {
            fail("ensure-model invocation failure")
        }
    } else {
        fail("ensure-model providerReason")
    }
}


// ---------------------------------------------------------------- session echoes

/// Two session echoes agree in every field.
pub open spec fn same_echo(a: SessionEcho, b: SessionEcho) -> bool {
    &&& same_binding(a.page_binding, b.page_binding)
    &&& a.session_id@ == b.session_id@
    &&& a.conversation_url@ == b.conversation_url@
    &&& opt_seq(a.request_id) == opt_seq(b.request_id)
    &&& opt_seq(a.run_id) == opt_seq(b.run_id)
    &&& a.session_binding_id@ == b.session_binding_id@
    &&& a.page_binding_generation == b.page_binding_generation
    &&& opt_seq(a.visible_user_turn_id) == opt_seq(b.visible_user_turn_id)
    &&& opt_seq(a.visible_assistant_turn_id) == opt_seq(b.visible_assistant_turn_id)
    &&& a.active_turn == b.active_turn
    &&& opt_seq(a.terminal_answer_sha256) == opt_seq(b.terminal_answer_sha256)
}

fn opt_eq(a: &Option<String>, b: &Option<String>) -> (r: bool)
    ensures
        r == (opt_seq(*a) == opt_seq(*b)),
{
    match b {
        Some(y) => opt_str_eq(a, Some(y.as_str())),
        None => a.is_none(),
    }
}

pub fn echoes_equal(a: &SessionEcho, b: &SessionEcho) -> (r: bool)
    ensures
        r == same_echo(*a, *b),
{
    bindings_equal(&a.page_binding, &b.page_binding) && str_eq(
        a.session_id.as_str(),
        b.session_id.as_str(),
    ) && str_eq(a.conversation_url.as_str(), b.conversation_url.as_str()) && opt_eq(
        &a.request_id,
        &b.request_id,
    ) && opt_eq(&a.run_id, &b.run_id) && str_eq(
        a.session_binding_id.as_str(),
        b.session_binding_id.as_str(),
    ) && a.page_binding_generation == b.page_binding_generation && opt_eq(
        &a.visible_user_turn_id,
        &b.visible_user_turn_id,
    ) && opt_eq(&a.visible_assistant_turn_id, &b.visible_assistant_turn_id) && a.active_turn
        == b.active_turn && opt_eq(&a.terminal_answer_sha256, &b.terminal_answer_sha256)
}

/// An optional expected value is either unset or met by the observed one.
pub open spec fn met(expected: Option<String>, observed: Option<String>) -> bool {
    expected is None || opt_seq(observed) == opt_seq(expected)
}

/// The observed echo shows the session, binding and turn state that was
/// expected; expected ids and turns that are unset bind nothing.
pub open spec fn echo_meets(expected: SessionEcho, observed: SessionEcho) -> bool {
    &&& same_binding(expected.page_binding, observed.page_binding)
    &&& expected.session_id@ == observed.session_id@
    &&& expected.conversation_url@ == observed.conversation_url@
    &&& met(expected.request_id, observed.request_id)
    &&& met(expected.run_id, observed.run_id)
    &&& expected.session_binding_id@ == observed.session_binding_id@
    &&& expected.page_binding_generation == observed.page_binding_generation
    &&& met(expected.visible_user_turn_id, observed.visible_user_turn_id)
    &&& met(expected.visible_assistant_turn_id, observed.visible_assistant_turn_id)
    &&& expected.active_turn == observed.active_turn
    &&& met(expected.terminal_answer_sha256, observed.terminal_answer_sha256)
}

fn meets(expected: &Option<String>, observed: &Option<String>) -> (r: bool)
    ensures
        r == met(*expected, *observed),
{
    expected.is_none() || opt_eq(observed, expected)
}

/// `BindingMismatch` unless the observed echo meets the expected one.
pub fn validate_expected_echo(expected: &SessionEcho, observed: &SessionEcho) -> (r: Result<
    (),
    ProviderContractError,
>)
    ensures
        r == (if echo_meets(*expected, *observed) {
            Ok(())
        } else {
            Err::<(), ProviderContractError>(ProviderContractError::BindingMismatch)
        }),
{
    let ok = bindings_equal(&expected.page_binding, &observed.page_binding) && str_eq(
        expected.session_id.as_str(),
        observed.session_id.as_str(),
    ) && str_eq(expected.conversation_url.as_str(), observed.conversation_url.as_str()) && meets(
        &expected.request_id,
        &observed.request_id,
    ) && meets(&expected.run_id, &observed.run_id) && str_eq(
        expected.session_binding_id.as_str(),
        observed.session_binding_id.as_str(),
    ) && expected.page_binding_generation == observed.page_binding_generation && meets(
        &expected.visible_user_turn_id,
        &observed.visible_user_turn_id,
    ) && meets(&expected.visible_assistant_turn_id, &observed.visible_assistant_turn_id)
        && expected.active_turn == observed.active_turn && meets(
        &expected.terminal_answer_sha256,
        &observed.terminal_answer_sha256,
    );
    if ok {
        Ok(())
    } else {
        Err(ProviderContractError::BindingMismatch)
    }
}

/// What a failed session operation may echo: nothing for a root URL, an
/// echo that does not meet the expectation for a mismatched URL, and
/// otherwise nothing or an echo that meets it.
pub open spec fn failure_echo_result(
    reason: Option<Seq<char>>,
    observed: Option<SessionEcho>,
    expected: SessionEcho,
) -> Result<(), ProviderContractError> {
    if reason == Some("session.url_rejected_root"@) {
        if observed is None {
            Ok(())
        } else {
            bad("root observedEcho")
        }
    } else if reason == Some("session.url_rejected_mismatch"@) {
        match observed {
            None => bad("observedEcho"),
            Some(o) => if echo_meets(expected, o) {
                bad("mismatch observedEcho")
            } else {
                Ok(())
            },
        }
    } else {
        match observed {
            Some(o) => if echo_meets(expected, o) {
                Ok(())
            } else {
                Err(ProviderContractError::BindingMismatch)
            },
            None => Ok(()),
        }
    }
}

pub fn validate_failure_echo_rule(
    reason: Option<&str>,
    observed: Option<&SessionEcho>,
    expected: &SessionEcho,
) -> (r: Result<(), ProviderContractError>)
    ensures
        r == failure_echo_result(
            match reason {
                Some(s) => Some(s@),
                None => None,
            },
            match observed {
                Some(o) => Some(*o),
                None => None,
            },
            *expected,
        ),
{
    let root = match reason {
        Some(s) => str_eq(s, "session.url_rejected_root"),
        None => false,
    };
    let mismatch = match reason {
        Some(s) => str_eq(s, "session.url_rejected_mismatch"),
        None => false,
    };
    proof {
        reveal_strlit("session.url_rejected_root");
        reveal_strlit("session.url_rejected_mismatch");
    }
    if root {
        if observed.is_none() {
            Ok(())
        } else {
            fail("root observedEcho")
        }
    } else if mismatch {
        match observed {
            None => fail("observedEcho"),
            Some(o) => if validate_expected_echo(expected, o).is_ok() {
                fail("mismatch observedEcho")
            } else {
                Ok(())
            },
        }
    } else {
        match observed {
            Some(o) => validate_expected_echo(expected, o),
            None => Ok(()),
        }
    }
}

/// The reply's observed session echo: `null` gives none, a decoded echo
/// must be valid, anything else is refused.
pub open spec fn observed_echo(v: Parsed<SessionEcho>) -> Result<
    Option<SessionEcho>,
    ProviderContractError,
> {
    match v {
        Parsed::Null => Ok(None),
        Parsed::Value(e) => if session_echo_error(e) is None {
            Ok(Some(e))
        } else {
            Err(ProviderContractError::Invalid("observedEcho"))
        },
        _ => Err(ProviderContractError::Invalid("observedEcho")),
    }
}

fn optional_echo(v: &Parsed<SessionEcho>) -> (r: Result<Option<&SessionEcho>, ProviderContractError>)
    ensures
        match observed_echo(*v) {
            Ok(Some(e)) => r matches Ok(Some(x)) && *x == e,
            Ok(None) => r matches Ok(None),
            Err(e) => r == Err::<Option<&SessionEcho>, ProviderContractError>(e),
        },
{
    match v {
        Parsed::Null => Ok(None),
        Parsed::Value(e) => if e.validate().is_ok() {
            Ok(Some(e))
        } else {
            Err(ProviderContractError::Invalid("observedEcho"))
        },
        _ => Err(ProviderContractError::Invalid("observedEcho")),
    }
}


// ---------------------------------------------------------------- poll

/// The answer fields of a poll reply are all `null`.
pub open spec fn answer_fields_null(data: Seq<(String, JsonValue)>, bottom: Parsed<BottomProof>) -> bool {
    &&& null_at(lookup(data, "answerSha256"@))
    &&& null_at(lookup(data, "answerSizeBytes"@))
    &&& null_at(lookup(data, "answerRelPath"@))
    &&& null_at(lookup(data, "terminalAssistantTurnId"@))
    &&& bottom is Null
}

pub open spec fn poll_terminal_result(
    o: SessionEcho,
    data: Seq<(String, JsonValue)>,
    bottom: Parsed<BottomProof>,
) -> Result<(), ProviderContractError> {
    if !id_at(data, "answerSha256"@, IdKind::H256) {
        bad("identifier")
    } else if !within(data, "answerSizeBytes"@, 0, MAX_BYTE_COUNT) {
        bad("answerSizeBytes")
    } else if !id_at(data, "answerRelPath"@, IdKind::SafeRelPath) {
        bad("identifier")
    } else if !id_at(data, "terminalAssistantTurnId"@, IdKind::Turn) {
        bad("identifier")
    } else if opt_seq(o.terminal_answer_sha256) != text_of(lookup(data, "answerSha256"@))
        || opt_seq(o.visible_assistant_turn_id) != text_of(
        lookup(data, "terminalAssistantTurnId"@),
    ) {
        bad("poll answer binding")
    } else {
        match bottom {
            Parsed::Null => Ok(()),
            Parsed::Value(p) => if bottom_proof_error(p) is None {
                Ok(())
            } else {
                bad("bottomProof")
            },
            _ => bad("bottomProof"),
        }
    }
}

/// What a `poll` reply must show, in the order it is checked: an echo of the
/// requested session; a valid observed echo, if any; on success an echo that
/// meets the request and a poll state of `running` (no answer yet) or
/// `terminal` (an answer whose digest and turn the echo shows); on failure
/// the state `failed`, no answer, a session failure reason, and an echo
/// that the reason allows.
pub open spec fn poll_reply_result(
    reply: ReplyStatus,
    requested: SessionEcho,
    echoed: Parsed<SessionEcho>,
    observed: Parsed<SessionEcho>,
    data: Seq<(String, JsonValue)>,
    bottom: Parsed<BottomProof>,
) -> Result<(), ProviderContractError> {
    match echoed {
        Parsed::Value(e) => if !same_echo(e, requested) {
            bad("expected echo")
        } else {
            match observed_echo(observed) {
                Err(x) => Err(x),
                Ok(obs) => {
                    let state = text_of(lookup(data, "pollState"@));
                    if reply.ok {
                        match obs {
                            None => bad("observedEcho"),
                            Some(o) => if !echo_meets(requested, o) {
                                Err(ProviderContractError::BindingMismatch)
                            } else if state == Some("running"@) {
                                if reply.status@ == "running"@ && answer_fields_null(data, bottom) {
                                    Ok(())
                                } else {
                                    bad("poll running")
                                }
                            } else if state == Some("terminal"@) {
                                if reply.status@ != "done"@ {
                                    bad("poll terminal status")
                                } else {
                                    poll_terminal_result(o, data, bottom)
                                }
                            } else {
                                bad("pollState")
                            },
                        }
                    } else if state is None {
                        bad("pollState")
                    } else if !(state == Some("failed"@) && answer_fields_null(data, bottom)
                        && (reply.provider_reason matches Some(r) && session_failure(r@))) {
                        bad("poll failure")
                    } else {
                        failure_echo_result(opt_seq(reply.provider_reason), obs, requested)
                    }
                },
            }
        },
        _ => bad("expected"),
    }
}

fn answers_null(data: &Vec<(String, JsonValue)>, bottom: &Parsed<BottomProof>) -> (r: bool)
    ensures
        r == answer_fields_null(data@, *bottom),
{
    field_null(data, "answerSha256") && field_null(data, "answerSizeBytes") && field_null(
        data,
        "answerRelPath",
    ) && field_null(data, "terminalAssistantTurnId") && is_null(bottom)
}

fn poll_terminal(o: &SessionEcho, data: &Vec<(String, JsonValue)>, bottom: &Parsed<BottomProof>) -> (r:
    Result<(), ProviderContractError>)
    ensures
        r == poll_terminal_result(*o, data@, *bottom),
{
    if !id_field(data, "answerSha256", IdKind::H256) {
        return fail("identifier");
    }
    if !within_field(data, "answerSizeBytes", 0, MAX_BYTE_COUNT) {
        return fail("answerSizeBytes");
    }
    if !id_field(data, "answerRelPath", IdKind::SafeRelPath) {
        return fail("identifier");
    }
    if !id_field(data, "terminalAssistantTurnId", IdKind::Turn) {
        return fail("identifier");
    }
    let same_answer = opt_str_eq(&o.terminal_answer_sha256, field_text(data, "answerSha256"));
    let same_turn = opt_str_eq(
        &o.visible_assistant_turn_id,
        field_text(data, "terminalAssistantTurnId"),
    );
    if !(same_answer && same_turn) {
        return fail("poll answer binding");
    }
    match bottom {
        Parsed::Null => Ok(()),
        Parsed::Value(p) => if p.validate().is_ok() {
            Ok(())
        } else {
            fail("bottomProof")
        },
        _ => fail("bottomProof"),
    }
}

/// Checks the operation data of a `poll` reply against the session echo that
/// the request carried. The typed fields come decoded; the scalar fields are
/// read from `data`.
pub fn validate_poll_response(
    reply: &ReplyStatus,
    requested: &SessionEcho,
    echoed: &Parsed<SessionEcho>,
    observed: &Parsed<SessionEcho>,
    data: &Vec<(String, JsonValue)>,
    bottom: &Parsed<BottomProof>,
) -> (r: Result<(), ProviderContractError>)
    ensures
        r == poll_reply_result(*reply, *requested, *echoed, *observed, data@, *bottom),
{
    match echoed {
        Parsed::Value(e) => if !echoes_equal(e, requested) {
            return fail("expected echo");
        },
        _ => return fail("expected"),
    }
    let obs = match optional_echo(observed) {
        Ok(o) => o,
        Err(e) => return Err(e),
    };
    let state = field_text(data, "pollState");
    if reply.ok {
        let o = match obs {
            Some(o) => o,
            None => return fail("observedEcho"),
        };
        if validate_expected_echo(requested, o).is_err() {
            return Err(ProviderContractError::BindingMismatch);
        }
        match state {
            Some(st) => {
                if str_eq(st, "running") {
                    if str_eq(reply.status.as_str(), "running") && answers_null(data, bottom) {
                        Ok(())
                    } else {
                        fail("poll running")
                    }
                } else if str_eq(st, "terminal") {
                    if !str_eq(reply.status.as_str(), "done") {
                        fail("poll terminal status")
                    } else {
                        poll_terminal(o, data, bottom)
                    }
                } else {
                    fail("pollState")
                }
            },
            None => fail("pollState"),
        }
    } else {
        let st = match state {
            Some(st) => st,
            None => return fail("pollState"),
        };
        let reason = match &reply.provider_reason {
            Some(x) => Some(x.as_str()),
            None => None,
        };
        if !(str_eq(st, "failed") && answers_null(data, bottom) && is_session_failure(reason)) {
            return fail("poll failure");
        }
        validate_failure_echo_rule(reason, obs, requested)
    }
}


// ---------------------------------------------------------------- status

pub open spec fn in_docker_status(s: Seq<char>) -> bool {
    s == "running"@ || s == "exited"@ || s == "missing"@ || s == "starting"@ || s == "stopping"@
        || s == "unknown"@
}

pub open spec fn in_model_label(s: Seq<char>) -> bool {
    s == "pro"@ || s == "non_pro"@ || s == "unknown"@
}

/// What a `status` reply must show, in the order it is checked: a known
/// health status, Docker status and model label; an optional retry delay
/// within the duration bound; a composer flag; `done` on success and a
/// probe failure reason otherwise.
pub open spec fn status_reply_result(reply: ReplyStatus, data: Seq<(String, JsonValue)>) -> Result<
    (),
    ProviderContractError,
> {
    let text = |k: Seq<char>| text_of(lookup(data, k));
    if text("healthStatus"@) is None {
        bad("healthStatus")
    } else if health_parse(text("healthStatus"@).unwrap()) is None {
        bad("status observation")
    } else if text("dockerStatus"@) is None {
        bad("dockerStatus")
    } else if !in_docker_status(text("dockerStatus"@).unwrap()) {
        bad("status observation")
    } else if text("modelLabel"@) is None {
        bad("modelLabel")
    } else if !in_model_label(text("modelLabel"@).unwrap()) {
        bad("status observation")
    } else if !(null_at(lookup(data, "retryAfterMs"@)) || within(
        data,
        "retryAfterMs"@,
        0,
        MAX_DURATION_MS,
    )) {
        bad("retryAfterMs")
    } else if bool_of(lookup(data, "composerReady"@)) is None {
        bad("composerReady")
    } else if reply.ok && reply.status@ != "done"@ {
        bad("status response status")
    } else if !reply.ok && !(reason_is(reply, "probe.timeout"@) || reason_is(
        reply,
        "probe.unreachable"@,
    )) {
        bad("status providerReason")
    } else {
        Ok(())
    }
}

pub fn validate_status_response(reply: &ReplyStatus, data: &Vec<(String, JsonValue)>) -> (r: Result<
    (),
    ProviderContractError,
>)
    ensures
        r == status_reply_result(*reply, data@),
{
    let health = match field_text(data, "healthStatus") {
        Some(s) => s,
        None => return fail("healthStatus"),
    };
    if HealthStatus::parse(health).is_none() {
        return fail("status observation");
    }
    let docker = match field_text(data, "dockerStatus") {
        Some(s) => s,
        None => return fail("dockerStatus"),
    };
    if !(str_eq(docker, "running") || str_eq(docker, "exited") || str_eq(docker, "missing")
        || str_eq(docker, "starting") || str_eq(docker, "stopping") || str_eq(docker, "unknown")) {
        return fail("status observation");
    }
    let label = match field_text(data, "modelLabel") {
        Some(s) => s,
        None => return fail("modelLabel"),
    };
    if !(str_eq(label, "pro") || str_eq(label, "non_pro") || str_eq(label, "unknown")) {
        return fail("status observation");
    }
    if !(field_null(data, "retryAfterMs") || within_field(data, "retryAfterMs", 0, MAX_DURATION_MS)) {
        return fail("retryAfterMs");
    }
    if field_bool(data, "composerReady").is_none() {
        return fail("composerReady");
    }
    if reply.ok && !str_eq(reply.status.as_str(), "done") {
        return fail("status response status");
    }
    if !reply.ok && !(reason_eq(reply, "probe.timeout") || reason_eq(reply, "probe.unreachable")) {
        return fail("status providerReason");
    }
    Ok(())
}

// ---------------------------------------------------------------- capture.root

/// What a `capture.root` reply must show: on success a valid root binding
/// candidate of the requested operation and no failure proof; on failure no
/// candidate, and either an ambiguity proof or a timeout with no proof.
pub open spec fn capture_reply_result(
    reply: ReplyStatus,
    operation_id: Seq<char>,
    candidate: Parsed<RootBindingCandidate>,
    failure: Parsed<FailureProof>,
) -> Result<(), ProviderContractError> {
    if reply.ok {
        match candidate {
            Parsed::Value(c) => if root_binding_error(c) is Some {
                bad("rootBindingCandidate")
            } else if c.operation_id@ == operation_id && failure is Null && reply.status@
                == "done"@ {
                Ok(())
            } else {
                bad("capture success")
            },
            _ => bad("rootBindingCandidate"),
        }
    } else if !(candidate is Null) {
        bad("capture failure")
    } else if reason_is(reply, "capture.ambiguous"@) {
        match failure {
            Parsed::Value(f) => if failure_proof_error(f) is Some {
                bad("failureProof")
            } else if f.reason@ != "capture.ambiguous"@ {
                bad("failureProof.reason")
            } else {
                Ok(())
            },
            _ => bad("failureProof"),
        }
    } else if reason_is(reply, "capture.timeout"@) && failure is Null {
        Ok(())
    } else {
        bad("capture providerReason")
    }
}

pub fn validate_capture_response(
    reply: &ReplyStatus,
    operation_id: &str,
    candidate: &Parsed<RootBindingCandidate>,
    failure: &Parsed<FailureProof>,
) -> (r: Result<(), ProviderContractError>)
    ensures
        r == capture_reply_result(*reply, operation_id@, *candidate, *failure),
{
    if reply.ok {
        let c = match candidate {
            Parsed::Value(c) => c,
            _ => return fail("rootBindingCandidate"),
        };
        if c.validate().is_err() {
            return fail("rootBindingCandidate");
        }
        if str_eq(c.operation_id.as_str(), operation_id) && is_null(failure) && str_eq(
            reply.status.as_str(),
            "done",
        ) {
            Ok(())
        } else {
            fail("capture success")
        }
    } else if !is_null(candidate) {
        fail("capture failure")
    } else if reason_eq(reply, "capture.ambiguous") {
        let f = match failure {
            Parsed::Value(f) => f,
            _ => return fail("failureProof"),
        };
        if f.validate().is_err() {
            fail("failureProof")
        } else if !str_eq(f.reason.as_str(), "capture.ambiguous") {
            fail("failureProof.reason")
        } else {
            Ok(())
        }
    } else if reason_eq(reply, "capture.timeout") && is_null(failure) {
        Ok(())
    } else {
        fail("capture providerReason")
    }
}

// ---------------------------------------------------------------- failure reasons

/// A reply's `failureReason`: `null`, or non-empty text without NUL.
pub open spec fn failure_reason_of(data: Seq<(String, JsonValue)>) -> Result<
    Option<Seq<char>>,
    ProviderContractError,
> {
    match lookup(data, "failureReason"@) {
        Some(JsonValue::Null) => Ok(None),
        Some(JsonValue::Text(s)) => if s@.len() > 0 && !has_char(s@, '\0') {
            Ok(Some(s@))
        } else {
            Err(ProviderContractError::Invalid("failureReason"))
        },
        _ => Err(ProviderContractError::Invalid("failureReason")),
    }
}

fn failure_reason(data: &Vec<(String, JsonValue)>) -> (r: Result<Option<&str>, ProviderContractError>)
    ensures
        match failure_reason_of(data@) {
            Ok(Some(s)) => r matches Ok(Some(x)) && x@ == s,
            Ok(None) => r matches Ok(None),
            Err(e) => r == Err::<Option<&str>, ProviderContractError>(e),
        },
{
    match get_entry(data, "failureReason") {
        Some(JsonValue::Null) => Ok(None),
        Some(JsonValue::Text(s)) => {
            proof {
                reveal_strlit("");
                if s@.len() == 0 {
                    assert(s@ =~= ""@);
                }
            }
            if !str_eq(s.as_str(), "") && !contains_char(s.as_str(), '\0') {
                Ok(Some(s.as_str()))
            } else {
                Err(ProviderContractError::Invalid("failureReason"))
            }
        },
        _ => Err(ProviderContractError::Invalid("failureReason")),
    }
}


// ---------------------------------------------------------------- artifact-discover

/// Two evidence references agree in every field.
pub open spec fn same_evidence(a: EvidenceRef, b: EvidenceRef) -> bool {
    a.path@ == b.path@ && a.sha256@ == b.sha256@ && a.size_bytes == b.size_bytes && a.media_type
        == b.media_type
}

/// Two bottom proofs agree in every field, evidence references included.
pub open spec fn same_bottom(a: BottomProof, b: BottomProof) -> bool {
    &&& a.at_bottom == b.at_bottom
    &&& a.method@ == b.method@
    &&& a.captured_at_ms == b.captured_at_ms
    &&& a.evidence_refs@.len() == b.evidence_refs@.len()
    &&& forall|i: int|
        0 <= i < a.evidence_refs@.len() ==> same_evidence(
            #[trigger] a.evidence_refs@[i],
            b.evidence_refs@[i],
        )
}

fn bottoms_equal(a: &BottomProof, b: &BottomProof) -> (r: bool)
    ensures
        r == same_bottom(*a, *b),
{
    if !(a.at_bottom == b.at_bottom && str_eq(a.method.as_str(), b.method.as_str())
        && a.captured_at_ms == b.captured_at_ms && a.evidence_refs.len() == b.evidence_refs.len()) {
        return false;
    }
    let n = a.evidence_refs.len();
    let mut i: usize = 0;
    while i < n
        invariant
            n == a.evidence_refs@.len(),
            n == b.evidence_refs@.len(),
            i <= n,
            forall|j: int|
                0 <= j < i ==> same_evidence(#[trigger] a.evidence_refs@[j], b.evidence_refs@[j]),
        decreases n - i,
    {
        let x = &a.evidence_refs[i];
        let y = &b.evidence_refs[i];
        if !(str_eq(x.path.as_str(), y.path.as_str()) && str_eq(x.sha256.as_str(), y.sha256.as_str())
            && x.size_bytes == y.size_bytes && x.media_type == y.media_type) {
            return false;
        }
        i += 1;
    }
    true
}

pub open spec fn distinct_control_ids(cs: Seq<ArtifactControl>) -> bool {
    forall|i: int, j: int|
        0 <= i < j < cs.len() ==> (#[trigger] cs[i]).control_id@ != (#[trigger] cs[j]).control_id@
}

/// The problem with a reply's discovered controls: at most 64, each a
/// valid control of the terminal turn, with distinct ids.
pub open spec fn controls_problem(cs: Seq<ArtifactControl>, turn_id: Seq<char>) -> Option<
    &'static str,
> {
    if cs.len() > 64 {
        Some("controls")
    } else if exists|i: int| 0 <= i < cs.len() && (#[trigger] control_for_turn_error(cs[i], turn_id)) is Some {
        Some("controls")
    } else if !distinct_control_ids(cs) {
        Some("duplicate controls")
    } else {
        None
    }
}

fn check_controls(cs: &Vec<ArtifactControl>, turn_id: &str) -> (r: Option<&'static str>)
    ensures
        r == controls_problem(cs@, turn_id@),
{
    let n = cs.len();
    if n > 64 {
        return Some("controls");
    }
    let mut i: usize = 0;
    while i < n
        invariant
            n == cs@.len(),
            i <= n,
            forall|j: int| 0 <= j < i ==> (#[trigger] control_for_turn_error(cs@[j], turn_id@)) is None,
        decreases n - i,
    {
        if cs[i].validate_for_turn(turn_id).is_err() {
            return Some("controls");
        }
        i += 1;
    }
    let mut i: usize = 0;
    while i < n
        invariant
            n == cs@.len(),
            i <= n,
            n <= 64,
            forall|j: int| 0 <= j < n ==> (#[trigger] control_for_turn_error(cs@[j], turn_id@)) is None,
            forall|a: int, b: int|
                0 <= a < i && a < b < n ==> (#[trigger] cs@[a]).control_id@ != (#[trigger] cs@[b]).control_id@,
        decreases n - i,
    {
        let mut j: usize = i + 1;
        while j < n
            invariant
                n == cs@.len(),
                i < n,
                i + 1 <= j <= n,
                n <= 64,
                forall|k: int| 0 <= k < n ==> (#[trigger] control_for_turn_error(cs@[k], turn_id@)) is None,
                forall|b: int| i < b < j ==> cs@[i as int].control_id@ != (#[trigger] cs@[b]).control_id@,
            decreases n - j,
        {
            if str_eq(cs[i].control_id.as_str(), cs[j].control_id.as_str()) {
                assert(!distinct_control_ids(cs@)) by {
                    assert(cs@[i as int].control_id@ == cs@[j as int].control_id@);
                }
                return Some("duplicate controls");
            }
            j += 1;
        }
        i += 1;
    }
    None
}

pub open spec fn in_discover_failure(r: ReplyStatus) -> bool {
    reason_is(r, "artifact.controls_ambiguous"@) || reason_is(r, "artifact.bottom_unverified"@)
}

/// What an `artifact-discover` reply must show, in the order it is checked:
/// a valid observed echo, if any; valid, distinct controls of the terminal
/// turn; on success an echo that meets the request, a valid bottom proof,
/// no failure reason, and a zero-control proof exactly when no control was
/// found (valid for the claim and turn, over the same bottom proof); on
/// failure an echo, no controls and no proofs, a discovery failure reason
/// repeated as the failure reason, and an echo that meets the request.
pub open spec fn discover_reply_result(
    reply: ReplyStatus,
    expected: SessionEcho,
    claim_id: Seq<char>,
    turn_id: Seq<char>,
    observed: Parsed<SessionEcho>,
    controls: Parsed<Vec<ArtifactControl>>,
    bottom: Parsed<BottomProof>,
    zero: Parsed<ZeroControlProof>,
    data: Seq<(String, JsonValue)>,
) -> Result<(), ProviderContractError> {
    match observed_echo(observed) {
        Err(e) => Err(e),
        Ok(obs) => match controls {
            Parsed::Value(cs) => if controls_problem(cs@, turn_id) is Some {
                bad(controls_problem(cs@, turn_id).unwrap())
            } else if reply.ok {
                match obs {
                    None => bad("observedEcho"),
                    Some(o) => if !echo_meets(expected, o) {
                        Err(ProviderContractError::BindingMismatch)
                    } else {
                        match bottom {
                            Parsed::Value(b) => if bottom_proof_error(b) is Some {
                                bad("bottomProof")
                            } else if !null_at(lookup(data, "failureReason"@)) {
                                bad("failureReason")
                            } else {
                                match zero {
                                    Parsed::Null => if cs@.len() == 0 {
                                        bad("zeroControlProof")
                                    } else {
                                        Ok(())
                                    },
                                    Parsed::Value(z) => if cs@.len() != 0 {
                                        bad("zeroControlProof nullability")
                                    } else if zero_proof_error(z, claim_id, turn_id) is Some {
                                        bad("zeroControlProof")
                                    } else if !same_bottom(z.bottom_proof, b) {
                                        bad("zeroControlProof.bottomProof")
                                    } else {
                                        Ok(())
                                    },
                                    _ => bad("zeroControlProof"),
                                }
                            },
                            _ => bad("bottomProof"),
                        }
                    },
                }
            } else {
                match obs {
                    None => bad("observedEcho"),
                    Some(o) => if !(cs@.len() == 0 && bottom is Null && zero is Null
                        && in_discover_failure(reply)) {
                        bad("artifact-discover failure")
                    } else {
                        match failure_reason_of(data) {
                            Err(e) => Err(e),
                            Ok(fr) => if fr != opt_seq(reply.provider_reason) {
                                bad("artifact-discover failure")
                            } else if !echo_meets(expected, o) {
                                Err(ProviderContractError::BindingMismatch)
                            } else {
                                Ok(())
                            },
                        }
                    },
                }
            },
            _ => bad("controls"),
        },
    }
}

fn same_reason(fr: Option<&str>, reply: &ReplyStatus) -> (r: bool)
    ensures
        r == (match fr {
            Some(s) => Some(s@),
            None => None,
        } == opt_seq(reply.provider_reason)),
{
    match fr {
        Some(s) => opt_str_eq(&reply.provider_reason, Some(s)),
        None => reply.provider_reason.is_none(),
    }
}

pub fn validate_discover_response(
    reply: &ReplyStatus,
    expected: &SessionEcho,
    claim_id: &str,
    turn_id: &str,
    observed: &Parsed<SessionEcho>,
    controls: &Parsed<Vec<ArtifactControl>>,
    bottom: &Parsed<BottomProof>,
    zero: &Parsed<ZeroControlProof>,
    data: &Vec<(String, JsonValue)>,
) -> (r: Result<(), ProviderContractError>)
    ensures
        r == discover_reply_result(
            *reply,
            *expected,
            claim_id@,
            turn_id@,
            *observed,
            *controls,
            *bottom,
            *zero,
            data@,
        ),
{
    let obs = match optional_echo(observed) {
        Ok(o) => o,
        Err(e) => return Err(e),
    };
    let cs = match controls {
        Parsed::Value(cs) => cs,
        _ => return fail("controls"),
    };
    match check_controls(cs, turn_id) {
        Some(m) => return fail(m),
        None => {},
    }
    let o = match obs {
        Some(o) => o,
        None => return fail("observedEcho"),
    };
    if reply.ok {
        if validate_expected_echo(expected, o).is_err() {
            return Err(ProviderContractError::BindingMismatch);
        }
        let b = match bottom {
            Parsed::Value(b) => b,
            _ => return fail("bottomProof"),
        };
        if b.validate().is_err() {
            return fail("bottomProof");
        }
        if !field_null(data, "failureReason") {
            return fail("failureReason");
        }
        match zero {
            Parsed::Null => if cs.len() == 0 {
                fail("zeroControlProof")
            } else {
                Ok(())
            },
            Parsed::Value(z) => if cs.len() != 0 {
                fail("zeroControlProof nullability")
            } else if z.validate_for(claim_id, turn_id).is_err() {
                fail("zeroControlProof")
            } else if !bottoms_equal(&z.bottom_proof, b) {
                fail("zeroControlProof.bottomProof")
            } else {
                Ok(())
            },
            _ => fail("zeroControlProof"),
        }
    } else {
        let expected_failure = reason_eq(reply, "artifact.controls_ambiguous") || reason_eq(
            reply,
            "artifact.bottom_unverified",
        );
        if !(cs.len() == 0 && is_null(bottom) && is_null(zero) && expected_failure) {
            return fail("artifact-discover failure");
        }
        let fr = match failure_reason(data) {
            Ok(fr) => fr,
            Err(e) => return Err(e),
        };
        if !same_reason(fr, reply) {
            return fail("artifact-discover failure");
        }
        validate_expected_echo(expected, o)
    }
}

// ---------------------------------------------------------------- artifact-click-save

/// The parent of `path` as text, as `std::path::Path::parent` gives it, or
/// empty text where it gives none.
pub uninterp spec fn path_parent_of(path: Seq<char>) -> Seq<char>;

/// Calls `std::path::Path::parent` on `path` and converts the parent to a
/// string (empty where there is none or it is not UTF-8). Claimed: the
/// result is the named parent of exactly this path.
#[verifier::external_body]
fn path_parent(path: &str) -> (r: String)
    ensures
        r@ == path_parent_of(path@),
{
    std::path::Path::new(path).parent().and_then(|p| p.to_str()).unwrap_or_default().to_string()
}

pub open spec fn in_download_failure(r: ReplyStatus) -> bool {
    reason_is(r, "artifact.download_timeout"@) || reason_is(r, "artifact.event_unrecoverable"@)
        || reason_is(r, "artifact.integrity_failed"@) || reason_is(r, "artifact.path_unsafe"@)
}

/// What an `artifact-click-save` reply must show, in the order it is
/// checked: a valid observed echo, if any; on success an echo that meets
/// the request, a download receipt valid for the session, claim, control
/// and turn, saved under the requested host directory, and no failure
/// reason; on failure an echo, no receipt, a download failure reason
/// repeated as the failure reason, and an echo that meets the request.
pub open spec fn download_reply_result(
    reply: ReplyStatus,
    expected: SessionEcho,
    claim_id: Seq<char>,
    turn_id: Seq<char>,
    control: ArtifactControl,
    host_directory: Seq<char>,
    observed: Parsed<SessionEcho>,
    receipt: Parsed<PlaywrightDownloadReceipt>,
    data: Seq<(String, JsonValue)>,
) -> Result<(), ProviderContractError> {
    match observed_echo(observed) {
        Err(e) => Err(e),
        Ok(None) => bad("observedEcho"),
        Ok(Some(o)) => if reply.ok {
            if !echo_meets(expected, o) {
                Err(ProviderContractError::BindingMismatch)
            } else {
                match receipt {
                    Parsed::Value(rc) => if receipt_for_error(
                        rc,
                        expected,
                        claim_id,
                        control,
                        turn_id,
                    ) is Some {
                        bad("downloadReceipt")
                    } else if path_parent_of(rc.host_saved_rel_path@) == host_directory && null_at(
                        lookup(data, "failureReason"@),
                    ) && reply.status@ == "done"@ {
                        Ok(())
                    } else {
                        bad("artifact-click-save success")
                    },
                    _ => bad("downloadReceipt"),
                }
            }
        } else if !(receipt is Null && in_download_failure(reply)) {
            bad("artifact-click-save failure")
        } else {
            match failure_reason_of(data) {
                Err(e) => Err(e),
                Ok(fr) => if fr != opt_seq(reply.provider_reason) {
                    bad("artifact-click-save failure")
                } else if !echo_meets(expected, o) {
                    Err(ProviderContractError::BindingMismatch)
                } else {
                    Ok(())
                },
            }
        },
    }
}

pub fn validate_download_response(
    reply: &ReplyStatus,
    expected: &SessionEcho,
    claim_id: &str,
    turn_id: &str,
    control: &ArtifactControl,
    host_directory: &str,
    observed: &Parsed<SessionEcho>,
    receipt: &Parsed<PlaywrightDownloadReceipt>,
    data: &Vec<(String, JsonValue)>,
) -> (r: Result<(), ProviderContractError>)
    ensures
        r == download_reply_result(
            *reply,
            *expected,
            claim_id@,
            turn_id@,
            *control,
            host_directory@,
            *observed,
            *receipt,
            data@,
        ),
{
    let o = match optional_echo(observed) {
        Ok(Some(o)) => o,
        Ok(None) => return fail("observedEcho"),
        Err(e) => return Err(e),
    };
    if reply.ok {
        if validate_expected_echo(expected, o).is_err() {
            return Err(ProviderContractError::BindingMismatch);
        }
        let rc = match receipt {
            Parsed::Value(rc) => rc,
            _ => return fail("downloadReceipt"),
        };
        if rc.validate_for(expected, claim_id, control, turn_id).is_err() {
            return fail("downloadReceipt");
        }
        let parent = path_parent(rc.host_saved_rel_path.as_str());
        if str_eq(parent.as_str(), host_directory) && field_null(data, "failureReason") && str_eq(
            reply.status.as_str(),
            "done",
        ) {
            Ok(())
        } else {
            fail("artifact-click-save success")
        }
    } else {
        let expected_failure = reason_eq(reply, "artifact.download_timeout") || reason_eq(
            reply,
            "artifact.event_unrecoverable",
        ) || reason_eq(reply, "artifact.integrity_failed") || reason_eq(
            reply,
            "artifact.path_unsafe",
        );
        if !(is_null(receipt) && expected_failure) {
            return fail("artifact-click-save failure");
        }
        let fr = match failure_reason(data) {
            Ok(fr) => fr,
            Err(e) => return Err(e),
        };
        if !same_reason(fr, reply) {
            return fail("artifact-click-save failure");
        }
        validate_expected_echo(expected, o)
    }
}

// ---------------------------------------------------------------- session rebind replies

/// Two rebind expectations agree in every field.
pub open spec fn same_expectation(a: SessionRebindExpectation, b: SessionRebindExpectation) -> bool {
    &&& a.session_id@ == b.session_id@
    &&& a.conversation_url@ == b.conversation_url@
    &&& a.slot_id@ == b.slot_id@
    &&& a.cohort@ == b.cohort@
    &&& opt_seq(a.session_operation_claim_id) == opt_seq(b.session_operation_claim_id)
    &&& a.lease_id@ == b.lease_id@
    &&& a.lease_generation == b.lease_generation
    &&& a.runtime_owner_id@ == b.runtime_owner_id@
    &&& a.runtime_owner_generation == b.runtime_owner_generation
    &&& a.runtime_incarnation_id@ == b.runtime_incarnation_id@
    &&& opt_seq(a.request_id) == opt_seq(b.request_id)
    &&& opt_seq(a.run_id) == opt_seq(b.run_id)
    &&& a.last_known_page_binding_generation == b.last_known_page_binding_generation
}

pub fn expectations_equal(a: &SessionRebindExpectation, b: &SessionRebindExpectation) -> (r: bool)
    ensures
        r == same_expectation(*a, *b),
{
    str_eq(a.session_id.as_str(), b.session_id.as_str()) && str_eq(
        a.conversation_url.as_str(),
        b.conversation_url.as_str(),
    ) && str_eq(a.slot_id.as_str(), b.slot_id.as_str()) && str_eq(a.cohort.as_str(), b.cohort.as_str())
        && opt_eq(&a.session_operation_claim_id, &b.session_operation_claim_id) && str_eq(
        a.lease_id.as_str(),
        b.lease_id.as_str(),
    ) && a.lease_generation == b.lease_generation && str_eq(
        a.runtime_owner_id.as_str(),
        b.runtime_owner_id.as_str(),
    ) && a.runtime_owner_generation == b.runtime_owner_generation && str_eq(
        a.runtime_incarnation_id.as_str(),
        b.runtime_incarnation_id.as_str(),
    ) && opt_eq(&a.request_id, &b.request_id) && opt_eq(&a.run_id, &b.run_id)
        && a.last_known_page_binding_generation == b.last_known_page_binding_generation
}

/// The `failureReason` field read as an optional reason: null, or a
/// non-empty text without NUL; `None` where it is neither.
pub open spec fn failure_reason_field(data: Seq<(String, JsonValue)>) -> Option<Option<Seq<char>>> {
    match lookup(data, "failureReason"@) {
        Some(JsonValue::Null) => Some(None),
        Some(JsonValue::Text(s)) => if s@.len() > 0 && !has_char(s@, '\0') {
            Some(Some(s@))
        } else {
            None
        },
        _ => None,
    }
}

/// The rules of a session-rebind reply that come before its hydration
/// records are read: the expectation echoed exactly; on success, an
/// observed session echo and an unsigned `pageBindingGeneration`; on
/// failure, a null `pageBindingGeneration` and a `failureReason` equal to
/// the reply's session failure reason. `rest` is the result of the rules
/// that follow, which read the hydration observations, the terminal answer
/// and the rebind proof.
pub open spec fn rebind_reply_result(
    reply: ReplyStatus,
    expected: SessionRebindExpectation,
    echoed: Parsed<SessionRebindExpectation>,
    observed: Parsed<SessionEcho>,
    data: Seq<(String, JsonValue)>,
    rest: Result<(), ProviderContractError>,
) -> Result<(), ProviderContractError> {
    match echoed {
        Parsed::Value(e) => if !same_expectation(expected, e) {
            bad("expectation echo")
        } else if reply.ok {
            if !(observed is Value) {
                bad("observedEcho")
            } else if !(lookup(data, "pageBindingGeneration"@) matches Some(JsonValue::Unsigned(_))) {
                bad("pageBindingGeneration")
            } else {
                rest
            }
        } else if !null_at(lookup(data, "pageBindingGeneration"@)) {
            bad("session-rebind failure")
        } else {
            match failure_reason_field(data) {
                None => bad("failureReason"),
                Some(f) => if f != opt_seq(reply.provider_reason) || !(reply.provider_reason matches Some(
                    r,
                ) && session_failure(r@)) {
                    bad("session-rebind failure")
                } else {
                    rest
                },
            }
        },
        _ => bad("expectation"),
    }
}

pub fn validate_rebind_response(
    reply: &ReplyStatus,
    expected: &SessionRebindExpectation,
    echoed: &Parsed<SessionRebindExpectation>,
    observed: &Parsed<SessionEcho>,
    data: &Vec<(String, JsonValue)>,
    rest: Result<(), ProviderContractError>,
) -> (r: Result<(), ProviderContractError>)
    ensures
        r == rebind_reply_result(*reply, *expected, *echoed, *observed, data@, rest),
{
    let e = match echoed {
        Parsed::Value(e) => e,
        _ => return fail("expectation"),
    };
    if !expectations_equal(expected, e) {
        return fail("expectation echo");
    }
    let generation = get_entry(data, "pageBindingGeneration");
    if reply.ok {
        if !matches!(observed, Parsed::Value(_)) {
            return fail("observedEcho");
        }
        match generation {
            Some(JsonValue::Unsigned(_)) => rest,
            _ => fail("pageBindingGeneration"),
        }
    } else {
        match generation {
            Some(JsonValue::Null) => {},
            _ => return fail("session-rebind failure"),
        }
        let field = match get_entry(data, "failureReason") {
            Some(JsonValue::Null) => None,
            Some(JsonValue::Text(s)) => if !s.as_str().is_empty() && !contains_char(s.as_str(), '\0') {
                Some(s.as_str())
            } else {
                return fail("failureReason");
            },
            _ => return fail("failureReason"),
        };
        let reason = match &reply.provider_reason {
            Some(x) => Some(x.as_str()),
            None => None,
        };
        let same = match (field, reason) {
            (Some(a), Some(b)) => str_eq(a, b),
            (None, None) => true,
            _ => false,
        };
        if !same || !is_session_failure(reason) {
            fail("session-rebind failure")
        } else {
            rest
        }
    }
}

} // verus!
