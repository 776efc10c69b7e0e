use vstd::prelude::*;

use crate::contracts::ids::{is_general_id, is_text, validate_non_empty_text, validate_operation_id};
use crate::text::{concat2, ends_with, is_suffix, str_eq};

verus! {

#[derive(Clone, Debug, PartialEq, Eq)]
pub struct RetryDirective {
    pub budget: u16,
    pub delay_ms: u64,
    pub owner: Option<String>,
    pub retryable: bool,
}

#[derive(Clone, Debug, PartialEq, Eq)]
pub struct ArtifactClaimSummary {
    pub artifact_claim_id: String,
    pub expectation: String,
    pub status: String,
    pub result: Option<String>,
    pub artifact_ids: Vec<String>,
}

/// The JSON envelope that every lifecycle command prints.
#[derive(Clone, Debug, PartialEq, Eq)]
pub struct LifecycleEnvelope {
    pub answer_path: Option<String>,
    pub answer_sha256: Option<String>,
    pub answer_size_bytes: Option<u64>,
    pub answer_text: Option<String>,
    pub artifact_claims: Vec<ArtifactClaimSummary>,
    pub claim_id: Option<String>,
    pub cohort: Option<String>,
    pub command: String,
    pub conversation_url: Option<String>,
    pub evidence_root: Option<String>,
    pub event_ids: Vec<String>,
    pub lease_id: Option<String>,
    pub message: String,
    pub ok: bool,
    pub operation_id: String,
    pub reason: Option<String>,
    pub receipt_ids: Vec<String>,
    pub request_id: Option<String>,
    pub result_kind: String,
    pub retry: RetryDirective,
    pub run_id: Option<String>,
    pub runtime_owner_id: Option<String>,
    pub schema: String,
    pub session_id: Option<String>,
    pub slot_id: Option<String>,
    pub status: String,
    pub terminal: bool,
}

/// What the result matrix says of one command result.
#[derive(Clone, Copy, Debug, PartialEq, Eq, Structural)]
pub struct ResultSpec {
    pub exit_code: u8,
    pub ok: bool,
    pub reason_required: bool,
    pub terminal: bool,
}

#[derive(Clone, Debug, PartialEq, Eq)]
pub struct CommandOutcome {
    pub envelope: LifecycleEnvelope,
    pub exit_code: u8,
}

#[derive(Clone, Debug, PartialEq, Eq)]
pub enum CommandOutcomeError {
    UnknownResult { command: String, result_kind: String },
    InvalidOperationId,
    InvalidMessage,
    InvalidReasonPresence,
}

/// The result kinds of each command.
pub open spec fn command_results(c: Seq<char>) -> Option<Seq<Seq<char>>> {
    if c == "status"@ {
        Some(seq!["status.ready"@, "status.blocked"@, "status.degraded"@, "status.state_invalid"@, "status.runtime_probe_failed"@, "status.lock_contended"@])
    }
    else if c == "preflight"@ {
        Some(seq!["preflight.ready"@, "preflight.model_correction_required"@, "preflight.login_required"@, "preflight.subscription_required"@, "preflight.provider_limit"@, "preflight.unreachable"@, "preflight.schema_drift"@, "preflight.no_slot"@, "preflight.state_invalid"@, "preflight.lock_contended"@])
    }
    else if c == "run"@ {
        Some(seq!["run.running"@, "run.terminal_success"@, "run.terminal_optional_zero"@, "run.queued_pool_busy"@, "run.model_failed"@, "run.upload_failed"@, "run.send_failed"@, "run.send_uncertain"@, "run.poll_failed"@, "run.artifact_required_failed"@, "run.output_publish_failed"@, "run.slot_readiness_failed"@, "run.release_failed"@, "run.lock_contended"@])
    }
    else if c == "show"@ {
        Some(seq!["show.running"@, "show.terminal"@, "show.idle"@, "show.unknown_session"@, "show.pinned_slot_unavailable"@, "show.url_rejected"@, "show.content_unavailable"@, "show.claim_conflict"@, "show.request_binding_missing"@, "show.provider_blocked"@, "show.release_failed"@, "show.lock_contended"@])
    }
    else if c == "resume"@ {
        Some(seq!["resume.running"@, "resume.terminal_success"@, "resume.terminal_optional_zero"@, "resume.unknown_session"@, "resume.pinned_slot_unavailable"@, "resume.url_rejected"@, "resume.content_unavailable"@, "resume.claim_conflict"@, "resume.output_publish_failed"@, "resume.request_binding_missing"@, "resume.provider_blocked"@, "resume.poll_failed"@, "resume.artifact_required_failed"@, "resume.release_failed"@, "resume.lock_contended"@])
    }
    else if c == "download"@ {
        Some(seq!["download.completed"@, "download.optional_zero"@, "download.unknown_session"@, "download.pinned_slot_unavailable"@, "download.url_rejected"@, "download.claim_conflict"@, "download.content_unavailable"@, "download.controls_absent_required"@, "download.ambiguous_controls"@, "download.event_timeout"@, "download.integrity_failed"@, "download.provider_blocked"@, "download.release_failed"@, "download.lock_contended"@])
    }
    else if c == "release"@ {
        Some(seq!["release.allocatable"@, "release.cooldown_blocked"@, "release.already_released"@, "release.stop_skipped_owner_alive"@, "release.target_unknown"@, "release.fencing_mismatch"@, "release.takeover_unproven"@, "release.stop_failed"@, "release.cleanup_failed"@, "release.lock_contended"@])
    }
    else if c == "cleanup"@ {
        Some(seq!["cleanup.plan"@, "cleanup.applied"@, "cleanup.state_invalid"@, "cleanup.unsafe_path"@, "cleanup.partial_failure"@, "cleanup.lock_contended"@])
    }
    else if c == "state-rebuild"@ {
        Some(seq!["state_rebuild.match"@, "state_rebuild.head_stale"@, "state_rebuild.snapshot_ignored"@, "state_rebuild.event_invalid"@, "state_rebuild.transition_invalid"@, "state_rebuild.digest_mismatch"@, "state_rebuild.lock_contended"@])
    }
    else if c == "allocate"@ {
        Some(seq!["allocate.dry_run_candidate"@, "allocate.pool_busy"@, "allocate.state_invalid"@, "allocate.lock_contended"@])
    } else {
        None
    }
}

pub open spec fn is_running_kind(k: Seq<char>) -> bool {
    k == "run.running"@ || k == "run.queued_pool_busy"@ || k == "show.running"@ || k == "show.idle"@ || k == "resume.running"@
}

pub open spec fn is_ok_terminal_kind(k: Seq<char>) -> bool {
    k == "status.ready"@ || k == "status.blocked"@ || k == "status.degraded"@ || k == "preflight.ready"@ || k == "preflight.model_correction_required"@ || k == "run.terminal_success"@ || k == "run.terminal_optional_zero"@ || k == "show.terminal"@ || k == "resume.terminal_success"@ || k == "resume.terminal_optional_zero"@ || k == "download.completed"@ || k == "download.optional_zero"@ || k == "release.allocatable"@ || k == "release.cooldown_blocked"@ || k == "release.already_released"@ || k == "release.stop_skipped_owner_alive"@ || k == "cleanup.plan"@ || k == "cleanup.applied"@ || k == "state_rebuild.match"@ || k == "state_rebuild.head_stale"@ || k == "state_rebuild.snapshot_ignored"@ || k == "allocate.dry_run_candidate"@ || k == "allocate.pool_busy"@
}

pub open spec fn is_ok_with_reason_kind(k: Seq<char>) -> bool {
    k == "preflight.login_required"@ || k == "preflight.subscription_required"@ || k == "preflight.provider_limit"@
}

/// The result matrix.
pub open spec fn result_spec_of(command: Seq<char>, k: Seq<char>) -> Option<ResultSpec> {
    match command_results(command) {
        None => None,
        Some(list) => if !list.contains(k) {
            None
        } else if is_suffix(".lock_contended"@, k) {
            Some(ResultSpec { exit_code: 75, ok: false, reason_required: true, terminal: true })
        } else if is_running_kind(k) {
            Some(ResultSpec { exit_code: 0, ok: true, reason_required: false, terminal: false })
        } else if is_ok_terminal_kind(k) {
            Some(ResultSpec { exit_code: 0, ok: true, reason_required: false, terminal: true })
        } else if is_ok_with_reason_kind(k) {
            Some(ResultSpec { exit_code: 0, ok: true, reason_required: true, terminal: true })
        } else {
            Some(ResultSpec { exit_code: 70, ok: false, reason_required: true, terminal: true })
        },
    }
}

fn list_contains(list: &Vec<&'static str>, k: &str) -> (r: bool)
    ensures
        r == list@.map_values(|x: &'static str| x@).contains(k@),
{
    let ghost view = list@.map_values(|x: &'static str| x@);
    let mut i: usize = 0;
    while i < list.len()
        invariant
            view == list@.map_values(|x: &'static str| x@),
            i <= list@.len(),
            forall|j: int| 0 <= j < i ==> view[j] != k@,
        decreases list.len() - i,
    {
        if str_eq(list[i], k) {
            assert(view[i as int] == k@);
            return true;
        }
        i += 1;
    }
    false
}

pub fn result_spec(command: &str, result_kind: &str) -> (r: Option<ResultSpec>)
    ensures
        r == result_spec_of(command@, result_kind@),
{
    let list =     if str_eq(command, "status") {
        vec!["status.ready", "status.blocked", "status.degraded", "status.state_invalid", "status.runtime_probe_failed", "status.lock_contended"]
    }
    else if str_eq(command, "preflight") {
        vec!["preflight.ready", "preflight.model_correction_required", "preflight.login_required", "preflight.subscription_required", "preflight.provider_limit", "preflight.unreachable", "preflight.schema_drift", "preflight.no_slot", "preflight.state_invalid", "preflight.lock_contended"]
    }
    else if str_eq(command, "run") {
        vec!["run.running", "run.terminal_success", "run.terminal_optional_zero", "run.queued_pool_busy", "run.model_failed", "run.upload_failed", "run.send_failed", "run.send_uncertain", "run.poll_failed", "run.artifact_required_failed", "run.output_publish_failed", "run.slot_readiness_failed", "run.release_failed", "run.lock_contended"]
    }
    else if str_eq(command, "show") {
        vec!["show.running", "show.terminal", "show.idle", "show.unknown_session", "show.pinned_slot_unavailable", "show.url_rejected", "show.content_unavailable", "show.claim_conflict", "show.request_binding_missing", "show.provider_blocked", "show.release_failed", "show.lock_contended"]
    }
    else if str_eq(command, "resume") {
        vec!["resume.running", "resume.terminal_success", "resume.terminal_optional_zero", "resume.unknown_session", "resume.pinned_slot_unavailable", "resume.url_rejected", "resume.content_unavailable", "resume.claim_conflict", "resume.output_publish_failed", "resume.request_binding_missing", "resume.provider_blocked", "resume.poll_failed", "resume.artifact_required_failed", "resume.release_failed", "resume.lock_contended"]
    }
    else if str_eq(command, "download") {
        vec!["download.completed", "download.optional_zero", "download.unknown_session", "download.pinned_slot_unavailable", "download.url_rejected", "download.claim_conflict", "download.content_unavailable", "download.controls_absent_required", "download.ambiguous_controls", "download.event_timeout", "download.integrity_failed", "download.provider_blocked", "download.release_failed", "download.lock_contended"]
    }
    else if str_eq(command, "release") {
        vec!["release.allocatable", "release.cooldown_blocked", "release.already_released", "release.stop_skipped_owner_alive", "release.target_unknown", "release.fencing_mismatch", "release.takeover_unproven", "release.stop_failed", "release.cleanup_failed", "release.lock_contended"]
    }
    else if str_eq(command, "cleanup") {
        vec!["cleanup.plan", "cleanup.applied", "cleanup.state_invalid", "cleanup.unsafe_path", "cleanup.partial_failure", "cleanup.lock_contended"]
    }
    else if str_eq(command, "state-rebuild") {
        vec!["state_rebuild.match", "state_rebuild.head_stale", "state_rebuild.snapshot_ignored", "state_rebuild.event_invalid", "state_rebuild.transition_invalid", "state_rebuild.digest_mismatch", "state_rebuild.lock_contended"]
    }
    else if str_eq(command, "allocate") {
        vec!["allocate.dry_run_candidate", "allocate.pool_busy", "allocate.state_invalid", "allocate.lock_contended"]
    } else {
        return None;
    };
    proof {
        assert(list@.map_values(|x: &'static str| x@) =~= command_results(command@).unwrap());
    }
    if !list_contains(&list, result_kind) {
        return None;
    }
    if ends_with(result_kind, ".lock_contended") {
        return Some(ResultSpec { exit_code: 75, ok: false, reason_required: true, terminal: true });
    }
    let k = result_kind;
    if str_eq(k, "run.running") || str_eq(k, "run.queued_pool_busy") || str_eq(k, "show.running") || str_eq(k, "show.idle") || str_eq(k, "resume.running") {
        return Some(ResultSpec { exit_code: 0, ok: true, reason_required: false, terminal: false });
    }
    if str_eq(k, "status.ready") || str_eq(k, "status.blocked") || str_eq(k, "status.degraded") || str_eq(k, "preflight.ready") || str_eq(k, "preflight.model_correction_required") || str_eq(k, "run.terminal_success") || str_eq(k, "run.terminal_optional_zero") || str_eq(k, "show.terminal") || str_eq(k, "resume.terminal_success") || str_eq(k, "resume.terminal_optional_zero") || str_eq(k, "download.completed") || str_eq(k, "download.optional_zero") || str_eq(k, "release.allocatable") || str_eq(k, "release.cooldown_blocked") || str_eq(k, "release.already_released") || str_eq(k, "release.stop_skipped_owner_alive") || str_eq(k, "cleanup.plan") || str_eq(k, "cleanup.applied") || str_eq(k, "state_rebuild.match") || str_eq(k, "state_rebuild.head_stale") || str_eq(k, "state_rebuild.snapshot_ignored") || str_eq(k, "allocate.dry_run_candidate") || str_eq(k, "allocate.pool_busy") {
        return Some(ResultSpec { exit_code: 0, ok: true, reason_required: false, terminal: true });
    }
    if str_eq(k, "preflight.login_required") || str_eq(k, "preflight.subscription_required") || str_eq(k, "preflight.provider_limit") {
        return Some(ResultSpec { exit_code: 0, ok: true, reason_required: true, terminal: true });
    }
    Some(ResultSpec { exit_code: 70, ok: false, reason_required: true, terminal: true })
}

/// Every entry of the result matrix is consistent: success exits with 0,
/// failure requires a reason and is terminal, and a contended lock exits with
/// 75.
pub proof fn result_matrix_is_consistent(command: Seq<char>, k: Seq<char>)
    ensures
        result_spec_of(command, k) matches Some(s) ==> {
            &&& s.ok <==> s.exit_code == 0
            &&& !s.ok ==> s.reason_required && s.terminal
            &&& s.exit_code == 75 <==> is_suffix(".lock_contended"@, k)
            &&& !s.terminal ==> s.ok && !s.reason_required
        },
{
}

/// `e` is the base envelope of `command` and `operation_id`: not ok,
/// terminal, `<command>.state_invalid`, with every optional field empty.
pub open spec fn is_base_envelope(e: LifecycleEnvelope, command: Seq<char>, operation_id: Seq<char>) -> bool {
    &&& e.answer_path is None && e.answer_sha256 is None && e.answer_size_bytes is None
    &&& e.answer_text is None && e.artifact_claims@.len() == 0 && e.claim_id is None
    &&& e.cohort is None && e.command@ == command && e.conversation_url is None
    &&& e.evidence_root is None && e.event_ids@.len() == 0 && e.lease_id is None
    &&& e.message@ == "lifecycle result"@ && !e.ok && e.operation_id@ == operation_id
    &&& e.reason is None && e.receipt_ids@.len() == 0 && e.request_id is None
    &&& e.result_kind@ == command + ".state_invalid"@
    &&& e.retry == (RetryDirective { budget: 0, delay_ms: 0, owner: None, retryable: false })
    &&& e.run_id is None && e.runtime_owner_id is None
    &&& e.schema@ == "gpt-webai.lifecycle.r13.v1"@ && e.session_id is None && e.slot_id is None
    &&& e.status@ == command + ".state_invalid"@ && e.terminal
}

/// `e` equals `old` with a new result kind (also its status), `ok` and
/// `terminal`.
pub open spec fn selected(e: LifecycleEnvelope, old: LifecycleEnvelope, kind: Seq<char>, ok: bool, terminal: bool) -> bool {
    &&& e.status@ == kind && e.result_kind@ == kind && e.ok == ok && e.terminal == terminal
    &&& e == LifecycleEnvelope { status: e.status, result_kind: e.result_kind, ok, terminal, ..old }
}

impl LifecycleEnvelope {
    pub fn base(command: &str, operation_id: &str) -> (e: Self)
        ensures
            is_base_envelope(e, command@, operation_id@),
    {
        let state_invalid = concat2(command, ".state_invalid");
        LifecycleEnvelope {
            answer_path: None,
            answer_sha256: None,
            answer_size_bytes: None,
            answer_text: None,
            artifact_claims: Vec::new(),
            claim_id: None,
            cohort: None,
            command: command.to_owned(),
            conversation_url: None,
            evidence_root: None,
            event_ids: Vec::new(),
            lease_id: None,
            message: "lifecycle result".to_owned(),
            ok: false,
            operation_id: operation_id.to_owned(),
            reason: None,
            receipt_ids: Vec::new(),
            request_id: None,
            result_kind: state_invalid.clone(),
            retry: RetryDirective { budget: 0, delay_ms: 0, owner: None, retryable: false },
            run_id: None,
            runtime_owner_id: None,
            schema: "gpt-webai.lifecycle.r13.v1".to_owned(),
            session_id: None,
            slot_id: None,
            status: state_invalid,
            terminal: true,
        }
    }

    pub fn select(&mut self, result_kind: &str, ok: bool, terminal: bool)
        ensures
            selected(*final(self), *old(self), result_kind@, ok, terminal),
    {
        self.status = result_kind.to_owned();
        self.result_kind = result_kind.to_owned();
        self.ok = ok;
        self.terminal = terminal;
    }

    /// Selects a result through the result matrix of the envelope's command.
    pub fn select_matrix(&mut self, result_kind: &str) -> (r: Option<ResultSpec>)
        ensures
            r == result_spec_of(old(self).command@, result_kind@),
            r matches Some(s) ==> selected(*final(self), *old(self), result_kind@, s.ok, s.terminal),
            r is None ==> *final(self) == *old(self),
    {
        let spec = match result_spec(self.command.as_str(), result_kind) {
            Some(s) => s,
            None => {
                return None;
            },
        };
        self.select(result_kind, spec.ok, spec.terminal);
        Some(spec)
    }
}

pub open spec fn opt_string_view(o: Option<String>) -> Option<Seq<char>> {
    match o {
        Some(s) => Some(s@),
        None => None,
    }
}

proof fn lemma_command_names_distinct()
    ensures
        "allocate"@ != "status"@,
        "allocate"@ != "preflight"@,
        "allocate"@ != "run"@,
        "allocate"@ != "show"@,
        "allocate"@ != "resume"@,
        "allocate"@ != "download"@,
        "allocate"@ != "release"@,
        "allocate"@ != "cleanup"@,
        "allocate"@ != "state-rebuild"@,
        "state-rebuild"@ != "status"@,
        "state-rebuild"@ != "preflight"@,
        "state-rebuild"@ != "run"@,
        "state-rebuild"@ != "show"@,
        "state-rebuild"@ != "resume"@,
        "state-rebuild"@ != "download"@,
        "state-rebuild"@ != "release"@,
        "state-rebuild"@ != "cleanup"@,
{
    reveal_strlit("status");
    reveal_strlit("preflight");
    reveal_strlit("run");
    reveal_strlit("show");
    reveal_strlit("resume");
    reveal_strlit("download");
    reveal_strlit("release");
    reveal_strlit("cleanup");
    reveal_strlit("state-rebuild");
    reveal_strlit("allocate");
    assert("allocate"@[0] != "status"@[0]);
    assert("allocate"@[0] != "preflight"@[0]);
    assert("allocate"@.len() != "run"@.len());
    assert("allocate"@[0] != "show"@[0]);
    assert("allocate"@[0] != "resume"@[0]);
    assert("allocate"@[0] != "download"@[0]);
    assert("allocate"@[0] != "release"@[0]);
    assert("allocate"@[0] != "cleanup"@[0]);
    assert("allocate"@[0] != "state-rebuild"@[0]);
    assert("state-rebuild"@.len() != "status"@.len());
    assert("state-rebuild"@[0] != "preflight"@[0]);
    assert("state-rebuild"@.len() != "run"@.len());
    assert("state-rebuild"@.len() != "show"@.len());
    assert("state-rebuild"@[0] != "resume"@[0]);
    assert("state-rebuild"@[0] != "download"@[0]);
    assert("state-rebuild"@[0] != "release"@[0]);
    assert("state-rebuild"@[0] != "cleanup"@[0]);
}

/// The result kinds that the allocation preview and the check-only rebuild
/// report are in their commands' result matrices.
pub proof fn lemma_builder_kinds_known()
    ensures
        result_spec_of("allocate"@, "allocate.dry_run_candidate"@) is Some,
        result_spec_of("allocate"@, "allocate.pool_busy"@) is Some,
        result_spec_of("allocate"@, "allocate.state_invalid"@) is Some,
        result_spec_of("state-rebuild"@, "state_rebuild.match"@) is Some,
        result_spec_of("state-rebuild"@, "state_rebuild.head_stale"@) is Some,
        result_spec_of("state-rebuild"@, "state_rebuild.snapshot_ignored"@) is Some,
        result_spec_of("state-rebuild"@, "state_rebuild.event_invalid"@) is Some,
        result_spec_of("state-rebuild"@, "state_rebuild.transition_invalid"@) is Some,
        result_spec_of("state-rebuild"@, "state_rebuild.digest_mismatch"@) is Some,
{
    lemma_command_names_distinct();
    let a = command_results("allocate"@).unwrap();
    assert(a[0] == "allocate.dry_run_candidate"@);
    assert(a[1] == "allocate.pool_busy"@);
    assert(a[2] == "allocate.state_invalid"@);
    let r = command_results("state-rebuild"@).unwrap();
    assert(r[0] == "state_rebuild.match"@);
    assert(r[1] == "state_rebuild.head_stale"@);
    assert(r[2] == "state_rebuild.snapshot_ignored"@);
    assert(r[3] == "state_rebuild.event_invalid"@);
    assert(r[4] == "state_rebuild.transition_invalid"@);
    assert(r[5] == "state_rebuild.digest_mismatch"@);
}

/// The error of `CommandOutcome::select`, if any.
pub open spec fn outcome_error(
    command: Seq<char>,
    operation_id: Seq<char>,
    result_kind: Seq<char>,
    message: Seq<char>,
    reason_present: bool,
) -> Option<CommandOutcomeError> {
    if !is_general_id(operation_id) {
        Some(CommandOutcomeError::InvalidOperationId)
    } else if !is_text(message, 4096) {
        Some(CommandOutcomeError::InvalidMessage)
    } else if result_spec_of(command, result_kind) is None {
        None
    } else if result_spec_of(command, result_kind).unwrap().reason_required != reason_present {
        Some(CommandOutcomeError::InvalidReasonPresence)
    } else {
        None
    }
}

impl CommandOutcome {
    /// Builds the outcome of a command result, checked against the result
    /// matrix.
    pub fn select(
        command: &str,
        operation_id: &str,
        result_kind: &str,
        message: String,
        reason: Option<String>,
    ) -> (r: Result<Self, CommandOutcomeError>)
        ensures
            outcome_error(command@, operation_id@, result_kind@, message@, reason is Some) matches Some(
                e,
            ) ==> r == Err::<Self, CommandOutcomeError>(e),
            is_general_id(operation_id@) && is_text(message@, 4096) && result_spec_of(
                command@,
                result_kind@,
            ) is None ==> (r matches Err(CommandOutcomeError::UnknownResult { command: c, result_kind: k })
                && c@ == command@ && k@ == result_kind@),
            r matches Ok(o) ==> {
                let s = result_spec_of(command@, result_kind@).unwrap();
                &&& result_spec_of(command@, result_kind@) is Some
                &&& s.reason_required == reason is Some
                &&& o.exit_code == s.exit_code
                &&& o.envelope.command@ == command@ && o.envelope.operation_id@ == operation_id@
                &&& o.envelope.result_kind@ == result_kind@ && o.envelope.status@ == result_kind@
                &&& o.envelope.ok == s.ok && o.envelope.terminal == s.terminal
                &&& o.envelope.message == message && o.envelope.reason == reason
                &&& o.envelope.schema@ == "gpt-webai.lifecycle.r13.v1"@
                &&& o.envelope.run_id is None && o.envelope.slot_id is None && o.envelope.cohort is None
                &&& o.envelope.receipt_ids@.len() == 0 && o.envelope.event_ids@.len() == 0
            },
            (is_general_id(operation_id@) && is_text(message@, 4096) && result_spec_of(command@, result_kind@)
                is Some && result_spec_of(command@, result_kind@).unwrap().reason_required == reason is Some)
                ==> r is Ok,
    {
        if validate_operation_id(operation_id).is_err() {
            return Err(CommandOutcomeError::InvalidOperationId);
        }
        if validate_non_empty_text(message.as_str()).is_err() {
            return Err(CommandOutcomeError::InvalidMessage);
        }
        let spec = match result_spec(command, result_kind) {
            Some(s) => s,
            None => {
                return Err(
                    CommandOutcomeError::UnknownResult {
                        command: command.to_owned(),
                        result_kind: result_kind.to_owned(),
                    },
                );
            },
        };
        if spec.reason_required != reason.is_some() {
            return Err(CommandOutcomeError::InvalidReasonPresence);
        }
        let mut envelope = LifecycleEnvelope::base(command, operation_id);
        match envelope.select_matrix(result_kind) {
            Some(_) => {},
            None => {
                return Err(
                    CommandOutcomeError::UnknownResult {
                        command: envelope.command.clone(),
                        result_kind: envelope.result_kind.clone(),
                    },
                );
            },
        }
        envelope.message = message;
        envelope.reason = reason;
        Ok(CommandOutcome { envelope, exit_code: spec.exit_code })
    }
}

} // verus!
