pub mod baseline;
pub mod completion;
pub mod recovery;


use vstd::prelude::*;

use crate::contracts::browser::{evidence_set_error, evidence_set_problem, EvidenceRef};
use crate::contracts::ids::{
    is_h256, is_prefixed_hex, is_timestamp_ms, validate_artifact_claim_id, validate_control_id,
    validate_h256, validate_timestamp_ms, validate_turn_id,
};
use crate::text::str_eq;

verus! {

#[derive(Clone, Copy, Debug, PartialEq, Eq, Structural)]
pub enum ArtifactExpectation {
    NotExpected,
    Optional,
    Required,
    Claimed,
}

#[derive(Clone, Debug, PartialEq, Eq)]
pub struct ArtifactControl {
    pub control_id: String,
    pub role: String,
    pub visible_text_hash: String,
    pub dom_path_hash: String,
    pub bounding_box_hash: String,
    pub current_turn_id: String,
    pub visible: bool,
    pub disabled: bool,
}

#[derive(Clone, Debug, PartialEq, Eq)]
pub struct BottomProof {
    pub at_bottom: bool,
    pub method: String,
    pub captured_at_ms: u64,
    pub evidence_refs: Vec<EvidenceRef>,
}

#[derive(Clone, Debug, PartialEq, Eq)]
pub struct ZeroControlProof {
    pub artifact_claim_id: String,
    pub terminal_assistant_turn_id: String,
    pub bottom_proof: BottomProof,
    pub control_count: u8,
    pub evidence_refs: Vec<EvidenceRef>,
    pub captured_at_ms: u64,
}

#[derive(Clone, Debug, PartialEq, Eq)]
pub enum ArtifactClaimError {
    Invalid(&'static str),
    IllegalTransition,
    Io(String),
}

/// The expectation a name gives: `none`, `optional`, `required` or `claimed`.
pub open spec fn expectation_named(value: Seq<char>) -> Option<ArtifactExpectation> {
    if value == "none"@ {
        Some(ArtifactExpectation::NotExpected)
    } else if value == "optional"@ {
        Some(ArtifactExpectation::Optional)
    } else if value == "required"@ {
        Some(ArtifactExpectation::Required)
    } else if value == "claimed"@ {
        Some(ArtifactExpectation::Claimed)
    } else {
        None
    }
}

impl ArtifactExpectation {
    pub fn parse(value: &str) -> (r: Option<ArtifactExpectation>)
        ensures
            r == expectation_named(value@),
    {
        if str_eq(value, "none") {
            Some(ArtifactExpectation::NotExpected)
        } else if str_eq(value, "optional") {
            Some(ArtifactExpectation::Optional)
        } else if str_eq(value, "required") {
            Some(ArtifactExpectation::Required)
        } else if str_eq(value, "claimed") {
            Some(ArtifactExpectation::Claimed)
        } else {
            None
        }
    }

    pub fn as_str(self) -> (r: &'static str)
        ensures
            expectation_named(r@) == Some(self),
    {
        proof {
            reveal_strlit("none");
            reveal_strlit("optional");
            reveal_strlit("required");
            reveal_strlit("claimed");
            assert("none"@.len() == 4);
            assert("optional"@.len() == 8 && "optional"@[0] == 'o');
            assert("required"@.len() == 8 && "required"@[0] == 'r');
            assert("claimed"@.len() == 7);
            assert("optional"@ != "none"@);
            assert("required"@ != "none"@ && "required"@ != "optional"@);
            assert("claimed"@ != "none"@ && "claimed"@ != "optional"@ && "claimed"@ != "required"@);
        }
        match self {
            ArtifactExpectation::NotExpected => "none",
            ArtifactExpectation::Optional => "optional",
            ArtifactExpectation::Required => "required",
            ArtifactExpectation::Claimed => "claimed",
        }
    }
}

pub open spec fn outcome(e: Option<&'static str>) -> Result<(), ArtifactClaimError> {
    match e {
        Some(m) => Err(ArtifactClaimError::Invalid(m)),
        None => Ok(()),
    }
}

pub open spec fn is_turn_id(s: Seq<char>) -> bool {
    is_prefixed_hex(s, "turn_"@, 64)
}

pub open spec fn control_for_turn_error(c: ArtifactControl, turn_id: Seq<char>) -> Option<&'static str> {
    if !is_prefixed_hex(c.control_id@, "control_"@, 64) {
        Some("controlId")
    } else if !is_h256(c.visible_text_hash@) {
        Some("visibleTextHash")
    } else if !is_h256(c.dom_path_hash@) {
        Some("domPathHash")
    } else if !is_h256(c.bounding_box_hash@) {
        Some("boundingBoxHash")
    } else if !is_turn_id(c.current_turn_id@) {
        Some("currentTurnId")
    } else if c.current_turn_id@ != turn_id || !c.visible || c.disabled || !(c.role@ == "button"@
        || c.role@ == "link"@) {
        Some("control scope/state")
    } else {
        None
    }
}

pub open spec fn bottom_proof_error(p: BottomProof) -> Option<&'static str> {
    if !p.at_bottom || !(p.method@ == "scrollbar"@ || p.method@ == "floating_affordance"@
        || p.method@ == "dom_terminal_anchor"@) {
        Some("bottom proof")
    } else if !is_timestamp_ms(p.captured_at_ms) {
        Some("capturedAtMs")
    } else {
        evidence_set_error(p.evidence_refs@)
    }
}

pub open spec fn zero_proof_error(p: ZeroControlProof, claim_id: Seq<char>, turn_id: Seq<char>) -> Option<
    &'static str,
> {
    if !is_prefixed_hex(p.artifact_claim_id@, "artifact_claim_"@, 64) {
        Some("artifactClaimId")
    } else if !is_turn_id(p.terminal_assistant_turn_id@) {
        Some("terminalAssistantTurnId")
    } else if bottom_proof_error(p.bottom_proof) is Some {
        bottom_proof_error(p.bottom_proof)
    } else if evidence_set_error(p.evidence_refs@) is Some {
        evidence_set_error(p.evidence_refs@)
    } else if !is_timestamp_ms(p.captured_at_ms) {
        Some("capturedAtMs")
    } else if p.artifact_claim_id@ != claim_id || p.terminal_assistant_turn_id@ != turn_id
        || p.control_count != 0 {
        Some("zero control binding")
    } else {
        None
    }
}

pub fn valid<T, E>(result: Result<T, E>, field: &'static str) -> (r: Result<(), ArtifactClaimError>)
    ensures
        r == outcome(if result is Ok {
            None
        } else {
            Some(field)
        }),
{
    match result {
        Ok(_) => Ok(()),
        Err(_) => Err(ArtifactClaimError::Invalid(field)),
    }
}

fn check(ok: bool, field: &'static str) -> (r: Result<(), ArtifactClaimError>)
    ensures
        r == outcome(if ok {
            None
        } else {
            Some(field)
        }),
{
    if ok {
        Ok(())
    } else {
        Err(ArtifactClaimError::Invalid(field))
    }
}

/// Checks an evidence set: 1..=4 valid references with distinct paths.
pub fn validate_evidence(values: &Vec<EvidenceRef>) -> (r: Result<(), ArtifactClaimError>)
    ensures
        r == outcome(evidence_set_error(values@)),
{
    match evidence_set_problem(values) {
        Some(m) => Err(ArtifactClaimError::Invalid(m)),
        None => Ok(()),
    }
}

impl ArtifactControl {
    pub fn validate_for_turn(&self, turn_id: &str) -> (r: Result<(), ArtifactClaimError>)
        ensures
            r == outcome(control_for_turn_error(*self, turn_id@)),
    {
        valid(validate_control_id(self.control_id.as_str()), "controlId")?;
        valid(validate_h256(self.visible_text_hash.as_str()), "visibleTextHash")?;
        valid(validate_h256(self.dom_path_hash.as_str()), "domPathHash")?;
        valid(validate_h256(self.bounding_box_hash.as_str()), "boundingBoxHash")?;
        valid(validate_turn_id(self.current_turn_id.as_str()), "currentTurnId")?;
        let role = self.role.as_str();
        let ok = str_eq(self.current_turn_id.as_str(), turn_id) && self.visible && !self.disabled
            && (str_eq(role, "button") || str_eq(role, "link"));
        check(ok, "control scope/state")
    }
}

impl BottomProof {
    pub fn validate(&self) -> (r: Result<(), ArtifactClaimError>)
        ensures
            r == outcome(bottom_proof_error(*self)),
    {
        let m = self.method.as_str();
        let method_ok = str_eq(m, "scrollbar") || str_eq(m, "floating_affordance") || str_eq(
            m,
            "dom_terminal_anchor",
        );
        check(self.at_bottom && method_ok, "bottom proof")?;
        valid(validate_timestamp_ms(self.captured_at_ms), "capturedAtMs")?;
        validate_evidence(&self.evidence_refs)
    }
}

impl ZeroControlProof {
    pub fn validate_for(&self, claim_id: &str, turn_id: &str) -> (r: Result<(), ArtifactClaimError>)
        ensures
            r == outcome(zero_proof_error(*self, claim_id@, turn_id@)),
    {
        valid(validate_artifact_claim_id(self.artifact_claim_id.as_str()), "artifactClaimId")?;
        valid(
            validate_turn_id(self.terminal_assistant_turn_id.as_str()),
            "terminalAssistantTurnId",
        )?;
        self.bottom_proof.validate()?;
        validate_evidence(&self.evidence_refs)?;
        valid(validate_timestamp_ms(self.captured_at_ms), "capturedAtMs")?;
        let ok = str_eq(self.artifact_claim_id.as_str(), claim_id) && str_eq(
            self.terminal_assistant_turn_id.as_str(),
            turn_id,
        ) && self.control_count == 0;
        check(ok, "zero control binding")
    }
}

} // verus!
