use vstd::prelude::*;

use crate::contracts::browser::SessionEcho;
use crate::contracts::ids::{
    is_general_id, is_h256, is_prefixed_hex, is_safe_rel_path, is_session_id,
    validate_artifact_claim_id, validate_h256, validate_operation_id, validate_safe_rel_path,
    validate_session_id, validate_turn_id,
};
use crate::text::str_eq;

use super::baseline::{baseline_error, ArtifactBaseline};
use super::completion::{receipt_for_error, PlaywrightDownloadReceipt};
use super::{
    bottom_proof_error, control_for_turn_error, is_turn_id, outcome, valid, zero_proof_error,
    ArtifactClaimError, ArtifactControl, ArtifactExpectation, BottomProof, ZeroControlProof,
};

verus! {

#[derive(Clone, Debug, PartialEq, Eq)]
pub enum ClaimOutcome {
    Pending,
    ZeroControlsOptionalSuccess,
    Downloaded,
    Failed(&'static str),
}

/// The download attempt that holds the claim's next control.
#[derive(Clone, Debug, PartialEq, Eq)]
pub struct ConsumedAttempt {
    pub attempt_id: String,
    pub control_index: u8,
    pub control: ArtifactControl,
    pub baseline: ArtifactBaseline,
}

/// The artifact claim of one terminal assistant turn: its controls are
/// downloaded one at a time, in order, until all are done or the claim ends.
///
/// `completed` holds the receipt of control `i` at position `i`: controls are
/// consumed in order, so the completed indices are always `0..completed.len()`.
#[derive(Debug)]
pub struct ArtifactClaim {
    pub artifact_claim_id: String,
    pub session_id: String,
    pub terminal_assistant_turn_id: String,
    pub expectation: ArtifactExpectation,
    controls: Vec<ArtifactControl>,
    completed: Vec<PlaywrightDownloadReceipt>,
    consumed: Option<ConsumedAttempt>,
    outcome: ClaimOutcome,
}

/// The first control, from index `i` on, that is invalid for `turn_id`.
pub open spec fn controls_error_from(cs: Seq<ArtifactControl>, turn_id: Seq<char>, i: int) -> Option<
    &'static str,
>
    decreases cs.len() - i,
{
    if i < 0 || i >= cs.len() {
        None
    } else if control_for_turn_error(cs[i], turn_id) is Some {
        control_for_turn_error(cs[i], turn_id)
    } else {
        controls_error_from(cs, turn_id, i + 1)
    }
}

pub open spec fn control_ids_distinct(cs: Seq<ArtifactControl>) -> bool {
    forall|i: int, j: int| 0 <= i < j < cs.len() ==> cs[i].control_id@ != cs[j].control_id@
}

pub open spec fn establish_error(claim_id: Seq<char>, session_id: Seq<char>, turn_id: Seq<char>) -> Option<
    &'static str,
> {
    if !is_prefixed_hex(claim_id, "artifact_claim_"@, 64) {
        Some("artifactClaimId")
    } else if !is_session_id(session_id) {
        Some("sessionId")
    } else if !is_turn_id(turn_id) {
        Some("terminalAssistantTurnId")
    } else {
        None
    }
}

/// What `discover_controls` answers.
pub open spec fn discover_controls_result(
    claim: ArtifactClaim,
    cs: Seq<ArtifactControl>,
    proof: BottomProof,
) -> Result<(), ArtifactClaimError> {
    if !(claim.state() is Pending) || claim.control_list().len() != 0 || !(1 <= cs.len() <= 64) {
        Err(ArtifactClaimError::IllegalTransition)
    } else if bottom_proof_error(proof) is Some {
        outcome(bottom_proof_error(proof))
    } else if controls_error_from(cs, claim.turn_id(), 0) is Some {
        outcome(controls_error_from(cs, claim.turn_id(), 0))
    } else if !control_ids_distinct(cs) {
        Err(ArtifactClaimError::Invalid("duplicate controls"))
    } else {
        Ok(())
    }
}

/// What `discover_zero` answers.
pub open spec fn discover_zero_result(claim: ArtifactClaim, proof: ZeroControlProof) -> Result<
    (),
    ArtifactClaimError,
> {
    if !(claim.state() is Pending) || claim.control_list().len() != 0 {
        Err(ArtifactClaimError::IllegalTransition)
    } else {
        outcome(
            zero_proof_error(proof, claim.claim_id(), claim.turn_id()),
        )
    }
}

/// The outcome that a valid zero-control proof gives a claim.
pub open spec fn zero_outcome(expectation: ArtifactExpectation) -> ClaimOutcome {
    match expectation {
        ArtifactExpectation::NotExpected | ArtifactExpectation::Optional => {
            ClaimOutcome::ZeroControlsOptionalSuccess
        },
        ArtifactExpectation::Required | ArtifactExpectation::Claimed => ClaimOutcome::Failed(
            "artifact.required_zero",
        ),
    }
}

/// Why `consume_next` refuses, if it does.
pub open spec fn consume_error(claim: ArtifactClaim, attempt_id: Seq<char>, baseline: ArtifactBaseline) -> Option<
    ArtifactClaimError,
> {
    if !(claim.state() is Pending) || claim.attempt() is Some {
        Some(ArtifactClaimError::IllegalTransition)
    } else if !is_general_id(attempt_id) {
        Some(ArtifactClaimError::Invalid("attemptId"))
    } else if baseline_error(baseline) is Some {
        Some(ArtifactClaimError::Invalid(baseline_error(baseline)->0))
    } else if claim.receipts().len() >= claim.control_list().len() {
        Some(ArtifactClaimError::IllegalTransition)
    } else {
        None
    }
}

/// Why `observe_recovery_candidate` refuses, if it does.
pub open spec fn recovery_candidate_result(
    claim: ArtifactClaim,
    path: Seq<char>,
    sha256: Seq<char>,
    stable_observations: u8,
) -> Result<(), ArtifactClaimError> {
    if claim.attempt() is None || stable_observations != 2 {
        Err(ArtifactClaimError::IllegalTransition)
    } else if !is_safe_rel_path(path) {
        Err(ArtifactClaimError::Invalid("candidateRelPath"))
    } else if !is_h256(sha256) {
        Err(ArtifactClaimError::Invalid("sha256"))
    } else {
        Ok(())
    }
}

/// `b` has the identity, expectation and controls of `a`.
pub open spec fn same_identity(a: ArtifactClaim, b: ArtifactClaim) -> bool {
    &&& b.claim_id() == a.claim_id()
    &&& b.session() == a.session()
    &&& b.turn_id() == a.turn_id()
    &&& b.expectation_kind() == a.expectation_kind()
}

impl ArtifactControl {
    /// A field-by-field copy.
    pub fn copy(&self) -> (r: ArtifactControl)
        ensures
            r == *self,
    {
        ArtifactControl {
            control_id: self.control_id.clone(),
            role: self.role.clone(),
            visible_text_hash: self.visible_text_hash.clone(),
            dom_path_hash: self.dom_path_hash.clone(),
            bounding_box_hash: self.bounding_box_hash.clone(),
            current_turn_id: self.current_turn_id.clone(),
            visible: self.visible,
            disabled: self.disabled,
        }
    }
}

fn ids_distinct(controls: &Vec<ArtifactControl>) -> (r: bool)
    ensures
        r == control_ids_distinct(controls@),
{
    let mut j: usize = 0;
    while j < controls.len()
        invariant
            j <= controls@.len(),
            forall|a: int, b: int|
                0 <= a < b < j ==> controls@[a].control_id@ != controls@[b].control_id@,
        decreases controls.len() - j,
    {
        let mut i: usize = 0;
        while i < j
            invariant
                i <= j < controls@.len(),
                forall|a: int, b: int|
                    0 <= a < b < j ==> controls@[a].control_id@ != controls@[b].control_id@,
                forall|a: int| 0 <= a < i ==> controls@[a].control_id@ != controls@[j as int].control_id@,
            decreases j - i,
        {
            if str_eq(controls[i].control_id.as_str(), controls[j].control_id.as_str()) {
                return false;
            }
            i += 1;
        }
        j += 1;
    }
    true
}

impl ArtifactClaim {
    pub closed spec fn claim_id(&self) -> Seq<char> {
        self.artifact_claim_id@
    }

    pub closed spec fn session(&self) -> Seq<char> {
        self.session_id@
    }

    pub closed spec fn turn_id(&self) -> Seq<char> {
        self.terminal_assistant_turn_id@
    }

    pub closed spec fn expectation_kind(&self) -> ArtifactExpectation {
        self.expectation
    }

    pub closed spec fn control_list(&self) -> Seq<ArtifactControl> {
        self.controls@
    }

    /// The receipts of the completed controls, in control order.
    pub closed spec fn receipts(&self) -> Seq<PlaywrightDownloadReceipt> {
        self.completed@
    }

    pub closed spec fn attempt(&self) -> Option<ConsumedAttempt> {
        self.consumed
    }

    pub closed spec fn state(&self) -> ClaimOutcome {
        self.outcome
    }

    /// At most 64 controls; receipts for a prefix of them; an attempt, if any,
    /// on the first control without a receipt.
    pub open spec fn wf(&self) -> bool {
        &&& self.control_list().len() <= 64
        &&& self.receipts().len() <= self.control_list().len()
        &&& self.attempt() matches Some(a) ==> {
            &&& a.control_index == self.receipts().len()
            &&& self.receipts().len() < self.control_list().len()
            &&& a.control == self.control_list()[self.receipts().len() as int]
        }
    }

    pub fn establish(
        artifact_claim_id: String,
        session_id: String,
        terminal_assistant_turn_id: String,
        expectation: ArtifactExpectation,
    ) -> (r: Result<Self, ArtifactClaimError>)
        ensures
            r is Ok <==> establish_error(
                artifact_claim_id@,
                session_id@,
                terminal_assistant_turn_id@,
            ) is None,
            r matches Err(e) ==> Err::<(), ArtifactClaimError>(e) == outcome(
                establish_error(artifact_claim_id@, session_id@, terminal_assistant_turn_id@),
            ),
            r matches Ok(c) ==> {
                &&& c.wf()
                &&& c.claim_id() == artifact_claim_id@
                &&& c.session() == session_id@
                &&& c.turn_id() == terminal_assistant_turn_id@
                &&& c.expectation_kind() == expectation
                &&& c.control_list().len() == 0
                &&& c.receipts().len() == 0
                &&& c.attempt() is None
                &&& c.state() is Pending
            },
    {
        valid(validate_artifact_claim_id(artifact_claim_id.as_str()), "artifactClaimId")?;
        valid(validate_session_id(session_id.as_str()), "sessionId")?;
        valid(validate_turn_id(terminal_assistant_turn_id.as_str()), "terminalAssistantTurnId")?;
        Ok(ArtifactClaim {
            artifact_claim_id,
            session_id,
            terminal_assistant_turn_id,
            expectation,
            controls: Vec::new(),
            completed: Vec::new(),
            consumed: None,
            outcome: ClaimOutcome::Pending,
        })
    }

    /// Records the controls found under the terminal turn, once, while the
    /// claim is pending.
    pub fn discover_controls(
        &mut self,
        controls: Vec<ArtifactControl>,
        bottom_proof: &BottomProof,
    ) -> (r: Result<(), ArtifactClaimError>)
        requires
            old(self).wf(),
        ensures
            final(self).wf(),
            r == discover_controls_result(*old(self), controls@, *bottom_proof),
            r is Err ==> *final(self) == *old(self),
            r is Ok ==> {
                &&& same_identity(*old(self), *final(self))
                &&& final(self).control_list() == controls@
                &&& final(self).receipts() == old(self).receipts()
                &&& final(self).attempt() == old(self).attempt()
                &&& final(self).state() == old(self).state()
            },
    {
        let pending = matches!(self.outcome, ClaimOutcome::Pending);
        if !pending || self.controls.len() != 0 || !(1 <= controls.len() && controls.len() <= 64) {
            return Err(ArtifactClaimError::IllegalTransition);
        }
        bottom_proof.validate()?;
        let mut i: usize = 0;
        while i < controls.len()
            invariant
                i <= controls@.len(),
                *self == *old(self),
                old(self).wf(),
                old(self).state() is Pending,
                old(self).control_list().len() == 0,
                1 <= controls@.len() <= 64,
                bottom_proof_error(*bottom_proof) is None,
                controls_error_from(controls@, self.terminal_assistant_turn_id@, 0)
                    == controls_error_from(controls@, self.terminal_assistant_turn_id@, i as int),
            decreases controls.len() - i,
        {
            match controls[i].validate_for_turn(self.terminal_assistant_turn_id.as_str()) {
                Ok(()) => {},
                Err(e) => {
                    return Err(e);
                },
            }
            i += 1;
        }
        if !ids_distinct(&controls) {
            return Err(ArtifactClaimError::Invalid("duplicate controls"));
        }
        self.controls = controls;
        Ok(())
    }

    /// Ends a pending claim without controls by a zero-control proof: a
    /// success where no artifact was owed, a failure where one was.
    pub fn discover_zero(&mut self, proof: &ZeroControlProof) -> (r: Result<(), ArtifactClaimError>)
        requires
            old(self).wf(),
        ensures
            final(self).wf(),
            r == discover_zero_result(*old(self), *proof),
            r is Err ==> *final(self) == *old(self),
            r is Ok ==> {
                &&& same_identity(*old(self), *final(self))
                &&& final(self).control_list() == old(self).control_list()
                &&& final(self).receipts() == old(self).receipts()
                &&& final(self).attempt() == old(self).attempt()
                &&& final(self).state() == zero_outcome(old(self).expectation_kind())
            },
    {
        let pending = matches!(self.outcome, ClaimOutcome::Pending);
        if !pending || self.controls.len() != 0 {
            return Err(ArtifactClaimError::IllegalTransition);
        }
        proof.validate_for(
            self.artifact_claim_id.as_str(),
            self.terminal_assistant_turn_id.as_str(),
        )?;
        self.outcome = match self.expectation {
            ArtifactExpectation::NotExpected | ArtifactExpectation::Optional => {
                ClaimOutcome::ZeroControlsOptionalSuccess
            },
            ArtifactExpectation::Required | ArtifactExpectation::Claimed => ClaimOutcome::Failed(
                "artifact.required_zero",
            ),
        };
        Ok(())
    }

    /// Starts the download attempt of the next control without a receipt.
    pub fn consume_next(&mut self, attempt_id: String, baseline: ArtifactBaseline) -> (r: Result<
        &ConsumedAttempt,
        ArtifactClaimError,
    >)
        requires
            old(self).wf(),
        ensures
            final(self).wf(),
            match consume_error(*old(self), attempt_id@, baseline) {
                Some(e) => r == Err::<&ConsumedAttempt, ArtifactClaimError>(e) && *final(self)
                    == *old(self),
                None => {
                    let expected = ConsumedAttempt {
                        attempt_id: attempt_id,
                        control_index: old(self).receipts().len() as u8,
                        control: old(self).control_list()[old(self).receipts().len() as int],
                        baseline: baseline,
                    };
                    &&& r matches Ok(a) && *a == expected
                    &&& same_identity(*old(self), *final(self))
                    &&& final(self).control_list() == old(self).control_list()
                    &&& final(self).receipts() == old(self).receipts()
                    &&& final(self).attempt() == Some(expected)
                    &&& final(self).state() == old(self).state()
                },
            },
    {
        let pending = matches!(self.outcome, ClaimOutcome::Pending);
        if !pending || self.consumed.is_some() {
            return Err(ArtifactClaimError::IllegalTransition);
        }
        valid(validate_operation_id(attempt_id.as_str()), "attemptId")?;
        baseline.validate()?;
        let index = self.completed.len();
        if index >= self.controls.len() {
            return Err(ArtifactClaimError::IllegalTransition);
        }
        let control = self.controls[index].copy();
        self.consumed = Some(
            ConsumedAttempt { attempt_id, control_index: index as u8, control, baseline },
        );
        match &self.consumed {
            Some(a) => Ok(a),
            None => Err(ArtifactClaimError::IllegalTransition),
        }
    }

    /// Records the receipt of the consumed attempt: the receipt must belong
    /// to the attempt's control, and `reopen_and_verify` (which reads the saved
    /// file back) must accept it. When every control has a receipt the claim
    /// is downloaded.
    pub fn complete_consumed<F: Fn(&PlaywrightDownloadReceipt) -> Result<(), ArtifactClaimError>>(
        &mut self,
        expected: &SessionEcho,
        receipt: PlaywrightDownloadReceipt,
        reopen_and_verify: F,
    ) -> (r: Result<(), ArtifactClaimError>)
        requires
            old(self).wf(),
            forall|x: &PlaywrightDownloadReceipt| #[trigger] reopen_and_verify.requires((x,)),
        ensures
            final(self).wf(),
            r is Err ==> *final(self) == *old(self),
            old(self).attempt() is None ==> r == Err::<(), ArtifactClaimError>(
                ArtifactClaimError::IllegalTransition,
            ),
            old(self).attempt() matches Some(a) ==> {
                let err = receipt_for_error(
                    receipt,
                    *expected,
                    old(self).claim_id(),
                    a.control,
                    old(self).turn_id(),
                );
                if err is Some {
                    r == outcome(err)
                } else {
                    &&& reopen_and_verify.ensures((&receipt,), r)
                    &&& r is Ok ==> {
                        &&& same_identity(*old(self), *final(self))
                        &&& final(self).control_list() == old(self).control_list()
                        &&& final(self).receipts() == old(self).receipts().push(receipt)
                        &&& final(self).attempt() is None
                        &&& final(self).state() == if old(self).receipts().len() + 1
                            == old(self).control_list().len() {
                            ClaimOutcome::Downloaded
                        } else {
                            old(self).state()
                        }
                    }
                }
            },
    {
        let consumed = match &self.consumed {
            Some(c) => c,
            None => {
                return Err(ArtifactClaimError::IllegalTransition);
            },
        };
        receipt.validate_for(
            expected,
            self.artifact_claim_id.as_str(),
            &consumed.control,
            self.terminal_assistant_turn_id.as_str(),
        )?;
        let reopened = reopen_and_verify(&receipt);
        if reopened.is_err() {
            return reopened;
        }
        self.completed.push(receipt);
        self.consumed = None;
        if self.completed.len() == self.controls.len() {
            self.outcome = ClaimOutcome::Downloaded;
        }
        reopened
    }

    /// Checks that a file found after an interrupted download may be taken
    /// for the consumed attempt: it was seen unchanged twice, at a safe path,
    /// with a valid digest.
    pub fn observe_recovery_candidate(
        &self,
        candidate_rel_path: &str,
        sha256: &str,
        stable_observations: u8,
    ) -> (r: Result<(), ArtifactClaimError>)
        ensures
            r == recovery_candidate_result(*self, candidate_rel_path@, sha256@, stable_observations),
    {
        if self.consumed.is_none() || stable_observations != 2 {
            return Err(ArtifactClaimError::IllegalTransition);
        }
        valid(validate_safe_rel_path(candidate_rel_path), "candidateRelPath")?;
        valid(validate_h256(sha256), "sha256")
    }

    /// Ends a pending claim as failed.
    pub fn fail(&mut self, reason: &'static str) -> (r: Result<(), ArtifactClaimError>)
        requires
            old(self).wf(),
        ensures
            final(self).wf(),
            r == fail_result(*old(self)),
            r is Err ==> *final(self) == *old(self),
            r is Ok ==> {
                &&& same_identity(*old(self), *final(self))
                &&& final(self).control_list() == old(self).control_list()
                &&& final(self).receipts() == old(self).receipts()
                &&& final(self).attempt() == old(self).attempt()
                &&& final(self).state() == ClaimOutcome::Failed(reason)
            },
    {
        let pending = matches!(self.outcome, ClaimOutcome::Pending);
        if !pending {
            return Err(ArtifactClaimError::IllegalTransition);
        }
        self.outcome = ClaimOutcome::Failed(reason);
        Ok(())
    }

    pub fn outcome(&self) -> (r: &ClaimOutcome)
        ensures
            *r == self.state(),
    {
        &self.outcome
    }

    pub fn consumed(&self) -> (r: Option<&ConsumedAttempt>)
        ensures
            r is None <==> self.attempt() is None,
            r matches Some(a) ==> self.attempt() == Some(*a),
    {
        match &self.consumed {
            Some(a) => Some(a),
            None => None,
        }
    }
}

/// What `fail` answers.
pub open spec fn fail_result(claim: ArtifactClaim) -> Result<(), ArtifactClaimError> {
    if claim.state() is Pending {
        Ok(())
    } else {
        Err(ArtifactClaimError::IllegalTransition)
    }
}

/// A claim whose outcome is settled refuses discovery, consumption and
/// failing alike.
pub proof fn settled_claim_refuses_transitions(
    claim: ArtifactClaim,
    controls: Seq<ArtifactControl>,
    bottom_proof: BottomProof,
    zero_proof: ZeroControlProof,
    attempt_id: Seq<char>,
    baseline: ArtifactBaseline,
)
    requires
        !(claim.state() is Pending),
    ensures
        discover_controls_result(claim, controls, bottom_proof) == Err::<(), ArtifactClaimError>(
            ArtifactClaimError::IllegalTransition,
        ),
        discover_zero_result(claim, zero_proof) == Err::<(), ArtifactClaimError>(
            ArtifactClaimError::IllegalTransition,
        ),
        consume_error(claim, attempt_id, baseline) == Some(ArtifactClaimError::IllegalTransition),
        fail_result(claim) == Err::<(), ArtifactClaimError>(ArtifactClaimError::IllegalTransition),
{
}

/// While an attempt is open, no second attempt can start.
pub proof fn open_attempt_blocks_consumption(
    claim: ArtifactClaim,
    attempt_id: Seq<char>,
    baseline: ArtifactBaseline,
)
    requires
        claim.attempt() is Some,
    ensures
        consume_error(claim, attempt_id, baseline) == Some(ArtifactClaimError::IllegalTransition),
{
}

/// Controls are recorded once: a claim that has controls refuses new ones
/// and refuses a zero-control proof.
pub proof fn controls_are_discovered_once(
    claim: ArtifactClaim,
    controls: Seq<ArtifactControl>,
    bottom_proof: BottomProof,
    zero_proof: ZeroControlProof,
)
    requires
        claim.control_list().len() != 0,
    ensures
        discover_controls_result(claim, controls, bottom_proof) == Err::<(), ArtifactClaimError>(
            ArtifactClaimError::IllegalTransition,
        ),
        discover_zero_result(claim, zero_proof) == Err::<(), ArtifactClaimError>(
            ArtifactClaimError::IllegalTransition,
        ),
{
}

/// A pending claim without controls accepts 1..=64 valid, distinct controls
/// of its terminal turn under a valid bottom proof; it then holds exactly
/// those controls, stays pending, and has no open attempt.
pub proof fn discovery_records_valid_controls(
    claim: ArtifactClaim,
    controls: Seq<ArtifactControl>,
    bottom_proof: BottomProof,
    after: ArtifactClaim,
)
    requires
        claim.wf(),
        claim.state() is Pending,
        claim.control_list().len() == 0,
        1 <= controls.len() <= 64,
        bottom_proof_error(bottom_proof) is None,
        controls_error_from(controls, claim.turn_id(), 0) is None,
        control_ids_distinct(controls),
        after.control_list() == controls,
        after.attempt() == claim.attempt(),
        after.state() == claim.state(),
    ensures
        discover_controls_result(claim, controls, bottom_proof) == Ok::<(), ArtifactClaimError>(()),
        after.state() is Pending,
        after.attempt() is None,
        after.control_list() == controls,
{
}

/// Once an attempt has started, a second start before its completion is
/// refused, whatever it names.
pub proof fn second_consumption_is_refused(
    claim: ArtifactClaim,
    attempt_id: Seq<char>,
    baseline: ArtifactBaseline,
    after: ArtifactClaim,
    second_attempt_id: Seq<char>,
    second_baseline: ArtifactBaseline,
)
    requires
        consume_error(claim, attempt_id, baseline) is None,
        after.attempt() is Some,
        after.state() == claim.state(),
    ensures
        consume_error(after, second_attempt_id, second_baseline) == Some(
            ArtifactClaimError::IllegalTransition,
        ),
{
}

} // verus!
