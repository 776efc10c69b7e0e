use vstd::prelude::*;

use crate::contracts::browser::{
    control_error, distinct_paths, failure_proof_error, proof_error, evidence_set_error, evidence_set_problem, is_failure_reason, is_selected_by,
    model_tuple_ok, validate_model_tuple, EffortProof, FailureProof, ModelProof,
};
use crate::contracts::ids::{is_timestamp_ms, validate_timestamp_ms};
use crate::text::str_eq;

verus! {

pub const MODEL_FAILURE_REASONS: [&'static str; 6] = [
    "picker.model_absent",
    "picker.effort_absent",
    "picker.control_drift",
    "picker.selection_timeout",
    "picker.reverify_mismatch",
    "capture.ambiguous",
];

#[derive(Clone, Debug, PartialEq, Eq)]
pub enum ModelSelectionError {
    Invalid(&'static str),
}

pub open spec fn outcome(e: Option<&'static str>) -> Result<(), ModelSelectionError> {
    match e {
        Some(m) => Err(ModelSelectionError::Invalid(m)),
        None => Ok(()),
    }
}

/// The first problem of a pair of success proofs.
pub open spec fn success_error(model: ModelProof, effort: EffortProof) -> Option<&'static str> {
    if !model_tuple_ok(model.requested, effort.requested) {
        Some("requested tuple")
    } else if model.requested != model.observed || effort.requested != effort.observed
        || !model.verified || !effort.verified || !is_selected_by(model.selected_by@)
        || !is_selected_by(effort.selected_by@) {
        Some("proof identity")
    } else if control_error(model.control) is Some {
        Some("model control")
    } else if control_error(effort.control) is Some {
        Some("effort control")
    } else if evidence_set_error(model.evidence_refs@) is Some {
        evidence_set_error(model.evidence_refs@)
    } else if evidence_set_error(effort.evidence_refs@) is Some {
        evidence_set_error(effort.evidence_refs@)
    } else if !is_timestamp_ms(model.verified_at_ms) {
        Some("model verifiedAtMs")
    } else if !is_timestamp_ms(effort.verified_at_ms) {
        Some("effort verifiedAtMs")
    } else {
        None
    }
}

fn fail_if(bad: bool, field: &'static str) -> (r: Result<(), ModelSelectionError>)
    ensures
        r == outcome(if bad {
            Some(field)
        } else {
            None
        }),
{
    if bad {
        Err(ModelSelectionError::Invalid(field))
    } else {
        Ok(())
    }
}

fn evidence_ok(values: &Vec<crate::contracts::browser::EvidenceRef>) -> (r: Result<
    (),
    ModelSelectionError,
>)
    ensures
        r == outcome(evidence_set_error(values@)),
{
    match evidence_set_problem(values) {
        Some(m) => Err(ModelSelectionError::Invalid(m)),
        None => Ok(()),
    }
}

fn selected_by_ok(s: &str) -> (r: bool)
    ensures
        r == is_selected_by(s@),
{
    str_eq(s, "already_exact") || str_eq(s, "picker")
}

pub fn validate_success_proofs(model: &ModelProof, effort: &EffortProof) -> (r: Result<
    (),
    ModelSelectionError,
>)
    ensures
        r == outcome(success_error(*model, *effort)),
{
    fail_if(validate_model_tuple(&model.requested, &effort.requested).is_err(), "requested tuple")?;
    let identity_bad = model.requested != model.observed || effort.requested != effort.observed
        || !model.verified || !effort.verified || !selected_by_ok(model.selected_by.as_str())
        || !selected_by_ok(effort.selected_by.as_str());
    fail_if(identity_bad, "proof identity")?;
    fail_if(model.control.validate().is_err(), "model control")?;
    fail_if(effort.control.validate().is_err(), "effort control")?;
    evidence_ok(&model.evidence_refs)?;
    evidence_ok(&effort.evidence_refs)?;
    fail_if(validate_timestamp_ms(model.verified_at_ms).is_err(), "model verifiedAtMs")?;
    fail_if(validate_timestamp_ms(effort.verified_at_ms).is_err(), "effort verifiedAtMs")
}

pub open spec fn failure_error(proof: FailureProof) -> Option<&'static str> {
    if !is_failure_reason(proof.reason@) {
        Some("reason")
    } else if evidence_set_error(proof.evidence_refs@) is Some {
        evidence_set_error(proof.evidence_refs@)
    } else if !is_timestamp_ms(proof.failed_at_ms) {
        Some("failedAtMs")
    } else {
        None
    }
}

pub fn validate_failure_proof(proof: &FailureProof) -> (r: Result<(), ModelSelectionError>)
    ensures
        r == outcome(failure_error(*proof)),
{
    let names = MODEL_FAILURE_REASONS;
    let reason = proof.reason.as_str();
    let mut known = false;
    let mut i: usize = 0;
    while i < 6
        invariant
            names == MODEL_FAILURE_REASONS,
            i <= 6,
            known == exists|j: int| 0 <= j < i && (#[trigger] MODEL_FAILURE_REASONS[j])@ == reason@,
        decreases 6 - i,
    {
        if str_eq(names[i], reason) {
            known = true;
        }
        i += 1;
    }
    proof {
        if is_failure_reason(reason@) {
            if reason@ == "picker.model_absent"@ {
                assert(MODEL_FAILURE_REASONS[0]@ == reason@);
            } else if reason@ == "picker.effort_absent"@ {
                assert(MODEL_FAILURE_REASONS[1]@ == reason@);
            } else if reason@ == "picker.control_drift"@ {
                assert(MODEL_FAILURE_REASONS[2]@ == reason@);
            } else if reason@ == "picker.selection_timeout"@ {
                assert(MODEL_FAILURE_REASONS[3]@ == reason@);
            } else if reason@ == "picker.reverify_mismatch"@ {
                assert(MODEL_FAILURE_REASONS[4]@ == reason@);
            } else {
                assert(MODEL_FAILURE_REASONS[5]@ == reason@);
            }
        }
    }
    fail_if(!known, "reason")?;
    evidence_ok(&proof.evidence_refs)?;
    fail_if(validate_timestamp_ms(proof.failed_at_ms).is_err(), "failedAtMs")
}

/// A pair of success proofs passes exactly when the requested tuple is
/// supported, each proof passes its own validator, and each proof's
/// evidence paths are distinct.
pub proof fn success_proofs_are_proof_checks(model: ModelProof, effort: EffortProof)
    ensures
        success_error(model, effort) is None <==> {
            &&& model_tuple_ok(model.requested, effort.requested)
            &&& proof_error(
                model.control,
                model.evidence_refs@,
                model.verified_at_ms,
                model.verified,
                model.observed == model.requested,
                model.selected_by@,
                "ModelProof",
            ) is None
            &&& proof_error(
                effort.control,
                effort.evidence_refs@,
                effort.verified_at_ms,
                effort.verified,
                effort.observed == effort.requested,
                effort.selected_by@,
                "EffortProof",
            ) is None
            &&& distinct_paths(model.evidence_refs@)
            &&& distinct_paths(effort.evidence_refs@)
        },
{
}

/// A failure proof passes exactly when it passes its own validator and its
/// evidence paths are distinct.
pub proof fn failure_proof_is_proof_check(proof: FailureProof)
    ensures
        failure_error(proof) is None <==> failure_proof_error(proof) is None && distinct_paths(
            proof.evidence_refs@,
        ),
{
}

} // verus!
