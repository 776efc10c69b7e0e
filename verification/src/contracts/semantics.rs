use vstd::prelude::*;

use crate::allocator::{cohort_of, cohort_of_spec};
use crate::contracts::envelope::EventHeader;
use crate::contracts::events::{EventError, EventType};
use crate::contracts::health::{health_parse, HealthStatus};
use crate::contracts::ids::{
    conversation_url_of, is_cohort, is_general_id, is_h256, is_prefixed_hex, is_safe_rel_path,
    is_session_id, is_slot_id, is_text, is_timestamp_ms, validate_artifact_claim_id,
    validate_artifact_id, validate_binding_id, validate_claim_id, validate_cohort,
    validate_control_id, validate_conversation_url, validate_event_id, validate_h256,
    validate_lease_id, validate_non_empty_text, validate_operation_id, validate_owner_id,
    validate_page_incarnation_id, validate_release_id, validate_request_id, validate_run_id,
    validate_runtime_incarnation_id, validate_safe_rel_path, validate_session_id,
    validate_slot_id, validate_target_id, validate_turn_id, MAX_BYTE_COUNT, MAX_DURATION_MS,
    MAX_TIMESTAMP_MS,
};
use crate::contracts::projection::{get_entry, lookup};
use crate::text::str_eq;

verus! {

/// A JSON value as the payload rules read it. Numbers are split into the
/// unsigned integers that fit in 64 bits, the negative integers that fit in
/// 64 bits, and every other number.
pub enum JsonValue {
    Null,
    Bool(bool),
    Unsigned(u64),
    Negative(i64),
    OtherNumber,
    Text(String),
    Array(Vec<JsonValue>),
    Object(Vec<(String, JsonValue)>),
}

/// The identifier grammars a payload field can be held to.
#[derive(Clone, Copy)]
pub enum IdKind {
    Request,
    Run,
    Operation,
    Session,
    Slot,
    Cohort,
    H256,
    Event,
    Claim,
    Lease,
    Owner,
    Release,
    ArtifactClaim,
    Artifact,
    Binding,
    Control,
    Turn,
    RuntimeIncarnation,
    Target,
    PageIncarnation,
    SafeRelPath,
}

pub open spec fn id_ok(kind: IdKind, s: Seq<char>) -> bool {
    match kind {
        IdKind::Request | IdKind::Run | IdKind::Operation => is_general_id(s),
        IdKind::Session => is_session_id(s),
        IdKind::Slot => is_slot_id(s),
        IdKind::Cohort => is_cohort(s),
        IdKind::H256 => is_h256(s),
        IdKind::Event => is_prefixed_hex(s, "evt_"@, 64),
        IdKind::Claim => is_prefixed_hex(s, "claim_"@, 64),
        IdKind::Lease => is_prefixed_hex(s, "lease_"@, 64),
        IdKind::Owner => is_prefixed_hex(s, "owner_"@, 64),
        IdKind::Release => is_prefixed_hex(s, "release_"@, 64),
        IdKind::ArtifactClaim => is_prefixed_hex(s, "artifact_claim_"@, 64),
        IdKind::Artifact => is_prefixed_hex(s, "artifact_"@, 64),
        IdKind::Binding => is_prefixed_hex(s, "binding_"@, 64),
        IdKind::Control => is_prefixed_hex(s, "control_"@, 64),
        IdKind::Turn => is_prefixed_hex(s, "turn_"@, 64),
        IdKind::RuntimeIncarnation => is_prefixed_hex(s, "runtime_"@, 64),
        IdKind::Target => is_prefixed_hex(s, "target_"@, 64),
        IdKind::PageIncarnation => is_prefixed_hex(s, "page_"@, 64),
        IdKind::SafeRelPath => is_safe_rel_path(s),
    }
}

pub fn id_valid(kind: IdKind, s: &str) -> (r: bool)
    ensures
        r == id_ok(kind, s@),
{
    match kind {
        IdKind::Request => validate_request_id(s).is_ok(),
        IdKind::Run => validate_run_id(s).is_ok(),
        IdKind::Operation => validate_operation_id(s).is_ok(),
        IdKind::Session => validate_session_id(s).is_ok(),
        IdKind::Slot => validate_slot_id(s).is_ok(),
        IdKind::Cohort => validate_cohort(s).is_ok(),
        IdKind::H256 => validate_h256(s).is_ok(),
        IdKind::Event => validate_event_id(s).is_ok(),
        IdKind::Claim => validate_claim_id(s).is_ok(),
        IdKind::Lease => validate_lease_id(s).is_ok(),
        IdKind::Owner => validate_owner_id(s).is_ok(),
        IdKind::Release => validate_release_id(s).is_ok(),
        IdKind::ArtifactClaim => validate_artifact_claim_id(s).is_ok(),
        IdKind::Artifact => validate_artifact_id(s).is_ok(),
        IdKind::Binding => validate_binding_id(s).is_ok(),
        IdKind::Control => validate_control_id(s).is_ok(),
        IdKind::Turn => validate_turn_id(s).is_ok(),
        IdKind::RuntimeIncarnation => validate_runtime_incarnation_id(s).is_ok(),
        IdKind::Target => validate_target_id(s).is_ok(),
        IdKind::PageIncarnation => validate_page_incarnation_id(s).is_ok(),
        IdKind::SafeRelPath => validate_safe_rel_path(s).is_ok(),
    }
}

/// The closed vocabularies that payload text fields are drawn from.
#[derive(Clone, Copy)]
pub enum Choice {
    Kind,
    Expectation,
    Decision,
    SkipReason,
    LeaseReason,
    Docker,
    CaptureFailure,
    UploadFailure,
    SendFailure,
    Operation,
    Stage,
    SessionFailure,
    PollFailure,
    ArtifactResult,
    ArtifactFailure,
    SubjectKind,
    ReleaseReason,
    StopSkipReason,
    RuntimeOutcome,
    ReleaseMode,
    FinalStatus,
    Scope,
}

pub open spec fn in_choice(c: Choice, s: Seq<char>) -> bool {
    match c {
        Choice::Kind => s == "pro"@ || s == "xhigh"@,
        Choice::Expectation => {
            s == "none"@
            || s == "optional"@
            || s == "required"@
            || s == "claimed"@
        },
        Choice::Decision => s == "grantable"@ || s == "skip"@,
        Choice::SkipReason => {
            s == "leased"@
            || s == "claim_active"@
            || s == "cooldown"@
            || s == "runtime_owned"@
            || s == "health_blocked"@
            || s == "state_invalid"@
        },
        Choice::LeaseReason => s == "fresh_send"@ || s == "persisted_session"@,
        Choice::Docker => {
            s == "running"@
            || s == "exited"@
            || s == "missing"@
            || s == "starting"@
            || s == "stopping"@
            || s == "unknown"@
        },
        Choice::CaptureFailure => {
            s == "capture.ambiguous"@
            || s == "capture.timeout"@
            || s == "contract.invalid_provider_envelope"@
            || s == "binding.mismatch"@
        },
        Choice::UploadFailure => {
            s == "upload.stale_chip_uncleared"@
            || s == "upload.incomplete"@
            || s == "upload.chip_removal_failed"@
            || s == "contract.invalid_provider_envelope"@
            || s == "binding.mismatch"@
        },
        Choice::SendFailure => {
            s == "contract.invalid_provider_envelope"@
            || s == "binding.mismatch"@
            || s == "send.click_timeout"@
        },
        Choice::Operation => s == "resume"@ || s == "show"@ || s == "download"@ || s == "poll"@,
        Choice::Stage => {
            s == "lease"@
            || s == "runtime"@
            || s == "rebind"@
            || s == "hydration"@
            || s == "content"@
        },
        Choice::SessionFailure => {
            s == "session.rebind_failed"@
            || s == "session.pinned_slot_unavailable"@
            || s == "session.content_unavailable"@
            || s == "session.url_rejected_root"@
            || s == "session.url_rejected_mismatch"@
            || s == "session.missing"@
            || s == "session.hydration_timeout"@
            || s == "session.request_binding_missing"@
            || s == "session.claim_conflict"@
            || s == "session.provider_limit"@
            || s == "session.login_required"@
            || s == "session.subscription_required"@
            || s == "session.schema_drift"@
            || s == "contract.invalid_provider_envelope"@
            || s == "binding.mismatch"@
        },
        Choice::PollFailure => {
            s == "input.empty_prompt"@
            || s == "input.invalid_file"@
            || s == "input.unsupported_model_effort"@
            || s == "binding.mismatch"@
            || s == "model.control_absent"@
            || s == "model.option_absent"@
            || s == "effort.option_absent"@
            || s == "model.ambiguous"@
            || s == "provider.limit"@
            || s == "provider.login_required"@
            || s == "provider.schema_drift"@
            || s == "upload.stale_chip_mismatch"@
            || s == "upload.stale_chip_uncleared"@
            || s == "send.turn_not_proven"@
            || s == "session.rebind_failed"@
            || s == "poll.timeout"@
            || s == "provider.artifact_final_failed"@
            || s == "slot.readiness_failed"@
            || s == "runtime.owner_alive_or_unknown"@
            || s == "journal.head_cas_conflict"@
            || s == "qa.drift"@
            || s == "contract.invalid_provider_envelope"@
        },
        Choice::ArtifactResult => s == "downloaded"@ || s == "zero_controls_optional_success"@,
        Choice::ArtifactFailure => {
            s == "artifact.required_zero"@
            || s == "artifact.controls_ambiguous"@
            || s == "artifact.bottom_unverified"@
            || s == "artifact.download_timeout"@
            || s == "artifact.event_unrecoverable"@
            || s == "artifact.integrity_failed"@
            || s == "artifact.path_unsafe"@
            || s == "contract.invalid_provider_envelope"@
            || s == "binding.mismatch"@
        },
        Choice::SubjectKind => s == "request"@ || s == "session_operation"@ || s == "slot"@,
        Choice::ReleaseReason => {
            s == "release.output_published"@
            || s == "release.artifact_terminal"@
            || s == "release.poll_failed"@
            || s == "release.upload_failed"@
            || s == "release.send_uncertain"@
            || s == "release.send_failed"@
            || s == "release.model_failed"@
            || s == "release.capture_failed"@
            || s == "release.session_operation_failed"@
            || s == "release.allocation_exhausted"@
            || s == "release.readiness_failed"@
            || s == "release.nonterminal_publication"@
            || s == "release.output_publish_failed"@
            || s == "release.explicit"@
        },
        Choice::StopSkipReason => {
            s == "runtime.owner_alive_or_unknown"@
            || s == "runtime.not_acquired"@
        },
        Choice::RuntimeOutcome => s == "stopped"@ || s == "skipped"@ || s == "failed"@,
        Choice::ReleaseMode => s == "released"@ || s == "not_applicable"@,
        Choice::FinalStatus => {
            s == "allocatable"@
            || s == "cooldown_blocked"@
            || s == "cleanup_failed"@
            || s == "stop_skipped_owner_alive"@
            || s == "resources_released_no_slot"@
        },
        Choice::Scope => s == "all"@ || s == "case"@,
    }
}

fn choice_has(c: Choice, s: &str) -> (r: bool)
    ensures
        r == in_choice(c, s@),
{
    match c {
        Choice::Kind => str_eq(s, "pro") || str_eq(s, "xhigh"),
        Choice::Expectation => {
            str_eq(s, "none")
            || str_eq(s, "optional")
            || str_eq(s, "required")
            || str_eq(s, "claimed")
        },
        Choice::Decision => str_eq(s, "grantable") || str_eq(s, "skip"),
        Choice::SkipReason => {
            str_eq(s, "leased")
            || str_eq(s, "claim_active")
            || str_eq(s, "cooldown")
            || str_eq(s, "runtime_owned")
            || str_eq(s, "health_blocked")
            || str_eq(s, "state_invalid")
        },
        Choice::LeaseReason => str_eq(s, "fresh_send") || str_eq(s, "persisted_session"),
        Choice::Docker => {
            str_eq(s, "running")
            || str_eq(s, "exited")
            || str_eq(s, "missing")
            || str_eq(s, "starting")
            || str_eq(s, "stopping")
            || str_eq(s, "unknown")
        },
        Choice::CaptureFailure => {
            str_eq(s, "capture.ambiguous")
            || str_eq(s, "capture.timeout")
            || str_eq(s, "contract.invalid_provider_envelope")
            || str_eq(s, "binding.mismatch")
        },
        Choice::UploadFailure => {
            str_eq(s, "upload.stale_chip_uncleared")
            || str_eq(s, "upload.incomplete")
            || str_eq(s, "upload.chip_removal_failed")
            || str_eq(s, "contract.invalid_provider_envelope")
            || str_eq(s, "binding.mismatch")
        },
        Choice::SendFailure => {
            str_eq(s, "contract.invalid_provider_envelope")
            || str_eq(s, "binding.mismatch")
            || str_eq(s, "send.click_timeout")
        },
        Choice::Operation => {
            str_eq(s, "resume")
            || str_eq(s, "show")
            || str_eq(s, "download")
            || str_eq(s, "poll")
        },
        Choice::Stage => {
            str_eq(s, "lease")
            || str_eq(s, "runtime")
            || str_eq(s, "rebind")
            || str_eq(s, "hydration")
            || str_eq(s, "content")
        },
        Choice::SessionFailure => {
            str_eq(s, "session.rebind_failed")
            || str_eq(s, "session.pinned_slot_unavailable")
            || str_eq(s, "session.content_unavailable")
            || str_eq(s, "session.url_rejected_root")
            || str_eq(s, "session.url_rejected_mismatch")
            || str_eq(s, "session.missing")
            || str_eq(s, "session.hydration_timeout")
            || str_eq(s, "session.request_binding_missing")
            || str_eq(s, "session.claim_conflict")
            || str_eq(s, "session.provider_limit")
            || str_eq(s, "session.login_required")
            || str_eq(s, "session.subscription_required")
            || str_eq(s, "session.schema_drift")
            || str_eq(s, "contract.invalid_provider_envelope")
            || str_eq(s, "binding.mismatch")
        },
        Choice::PollFailure => {
            str_eq(s, "input.empty_prompt")
            || str_eq(s, "input.invalid_file")
            || str_eq(s, "input.unsupported_model_effort")
            || str_eq(s, "binding.mismatch")
            || str_eq(s, "model.control_absent")
            || str_eq(s, "model.option_absent")
            || str_eq(s, "effort.option_absent")
            || str_eq(s, "model.ambiguous")
            || str_eq(s, "provider.limit")
            || str_eq(s, "provider.login_required")
            || str_eq(s, "provider.schema_drift")
            || str_eq(s, "upload.stale_chip_mismatch")
            || str_eq(s, "upload.stale_chip_uncleared")
            || str_eq(s, "send.turn_not_proven")
            || str_eq(s, "session.rebind_failed")
            || str_eq(s, "poll.timeout")
            || str_eq(s, "provider.artifact_final_failed")
            || str_eq(s, "slot.readiness_failed")
            || str_eq(s, "runtime.owner_alive_or_unknown")
            || str_eq(s, "journal.head_cas_conflict")
            || str_eq(s, "qa.drift")
            || str_eq(s, "contract.invalid_provider_envelope")
        },
        Choice::ArtifactResult => {
            str_eq(s, "downloaded")
            || str_eq(s, "zero_controls_optional_success")
        },
        Choice::ArtifactFailure => {
            str_eq(s, "artifact.required_zero")
            || str_eq(s, "artifact.controls_ambiguous")
            || str_eq(s, "artifact.bottom_unverified")
            || str_eq(s, "artifact.download_timeout")
            || str_eq(s, "artifact.event_unrecoverable")
            || str_eq(s, "artifact.integrity_failed")
            || str_eq(s, "artifact.path_unsafe")
            || str_eq(s, "contract.invalid_provider_envelope")
            || str_eq(s, "binding.mismatch")
        },
        Choice::SubjectKind => {
            str_eq(s, "request")
            || str_eq(s, "session_operation")
            || str_eq(s, "slot")
        },
        Choice::ReleaseReason => {
            str_eq(s, "release.output_published")
            || str_eq(s, "release.artifact_terminal")
            || str_eq(s, "release.poll_failed")
            || str_eq(s, "release.upload_failed")
            || str_eq(s, "release.send_uncertain")
            || str_eq(s, "release.send_failed")
            || str_eq(s, "release.model_failed")
            || str_eq(s, "release.capture_failed")
            || str_eq(s, "release.session_operation_failed")
            || str_eq(s, "release.allocation_exhausted")
            || str_eq(s, "release.readiness_failed")
            || str_eq(s, "release.nonterminal_publication")
            || str_eq(s, "release.output_publish_failed")
            || str_eq(s, "release.explicit")
        },
        Choice::StopSkipReason => {
            str_eq(s, "runtime.owner_alive_or_unknown")
            || str_eq(s, "runtime.not_acquired")
        },
        Choice::RuntimeOutcome => {
            str_eq(s, "stopped")
            || str_eq(s, "skipped")
            || str_eq(s, "failed")
        },
        Choice::ReleaseMode => str_eq(s, "released") || str_eq(s, "not_applicable"),
        Choice::FinalStatus => {
            str_eq(s, "allocatable")
            || str_eq(s, "cooldown_blocked")
            || str_eq(s, "cleanup_failed")
            || str_eq(s, "stop_skipped_owner_alive")
            || str_eq(s, "resources_released_no_slot")
        },
        Choice::Scope => str_eq(s, "all") || str_eq(s, "case"),
    }
}

// ---------------------------------------------------------------- field access

pub open spec fn text_of(v: Option<JsonValue>) -> Option<Seq<char>> {
    match v {
        Some(JsonValue::Text(s)) => Some(s@),
        _ => None,
    }
}

pub open spec fn unsigned_of(v: Option<JsonValue>) -> Option<u64> {
    match v {
        Some(JsonValue::Unsigned(n)) => Some(n),
        _ => None,
    }
}

pub open spec fn bool_of(v: Option<JsonValue>) -> Option<bool> {
    match v {
        Some(JsonValue::Bool(b)) => Some(b),
        _ => None,
    }
}

pub open spec fn null_at(v: Option<JsonValue>) -> bool {
    v matches Some(JsonValue::Null)
}

pub(crate) fn field_text<'a>(p: &'a Vec<(String, JsonValue)>, key: &str) -> (r: Option<&'a str>)
    ensures
        r matches Some(s) ==> text_of(lookup(p@, key@)) == Some(s@),
        r is None ==> text_of(lookup(p@, key@)) is None,
{
    match get_entry(p, key) {
        Some(JsonValue::Text(s)) => Some(s.as_str()),
        _ => None,
    }
}

pub(crate) fn field_unsigned(p: &Vec<(String, JsonValue)>, key: &str) -> (r: Option<u64>)
    ensures
        r == unsigned_of(lookup(p@, key@)),
{
    match get_entry(p, key) {
        Some(JsonValue::Unsigned(n)) => Some(*n),
        _ => None,
    }
}

pub(crate) fn field_bool(p: &Vec<(String, JsonValue)>, key: &str) -> (r: Option<bool>)
    ensures
        r == bool_of(lookup(p@, key@)),
{
    match get_entry(p, key) {
        Some(JsonValue::Bool(b)) => Some(*b),
        _ => None,
    }
}

pub(crate) fn field_null(p: &Vec<(String, JsonValue)>, key: &str) -> (r: bool)
    ensures
        r == null_at(lookup(p@, key@)),
{
    match get_entry(p, key) {
        Some(JsonValue::Null) => true,
        _ => false,
    }
}


// ---------------------------------------------------------------- checks

/// One step of a payload's rules. Each step names the message it fails
/// with; the field steps fail with the field's own name.
#[derive(Clone, Copy)]
pub enum Check {
    /// A text field that matches an identifier grammar.
    Id(&'static str, IdKind),
    /// `null`, or a text field that matches an identifier grammar.
    OptionalId(&'static str, IdKind),
    /// Non-empty text of at most 4096 bytes with no NUL.
    NonEmpty(&'static str),
    /// An unsigned integer within the inclusive bounds.
    Integer(&'static str, u64, u64),
    /// `null`, or an unsigned integer within the inclusive bounds.
    OptionalInteger(&'static str, u64, u64),
    Timestamp(&'static str),
    OptionalTimestamp(&'static str),
    Duration(&'static str),
    Bytes(&'static str),
    Boolean(&'static str),
    /// A boolean that is `true`.
    Flag(&'static str),
    Null(&'static str),
    /// Text equal to the given literal.
    Literal(&'static str, &'static str),
    OneOf(&'static str, Choice),
    Health(&'static str),
    /// An array whose length is within the bounds.
    ArrayLen(&'static str, u64, u64),
    /// An array of distinct identifiers, its length within the bounds.
    IdArray(&'static str, IdKind, u64, u64),
    /// A check on a typed sub-object whose verdict the caller supplies under
    /// the first name; it fails with the second.
    Typed(&'static str, &'static str),
    Rule(Rule),
}

/// The rules that tie several payload fields (or the envelope) together.
#[derive(Clone, Copy)]
pub enum Rule {
    /// The slot field (first) belongs to the cohort field (second).
    Cohort(&'static str, &'static str, &'static str),
    RunIdPresent,
    SkipReason,
    /// The renewal and expiry times sit 100 s and 300 s after the named time.
    CasSpacing(&'static str),
    /// `conversationUrl` is the URL of the session field.
    ConversationUrl(&'static str),
    SessionClaimBinding,
    SchemaDriftReceipt,
    MaterializedFiles,
    ClearedChips,
    HydratedOutcome,
    ControlCount,
    ArtifactResult,
    StopSkippedNullability,
    NextGeneration,
    StandbyCooldown,
    CooldownInterval,
    FinalStatus,
    QaCounts,
    QaScope,
}

pub open spec fn fail_unless(ok: bool, message: &'static str) -> Option<&'static str> {
    if ok {
        None
    } else {
        Some(message)
    }
}

pub open spec fn id_at(p: Seq<(String, JsonValue)>, k: Seq<char>, kind: IdKind) -> bool {
    match text_of(lookup(p, k)) {
        Some(s) => id_ok(kind, s),
        None => false,
    }
}

pub open spec fn within(p: Seq<(String, JsonValue)>, k: Seq<char>, lo: u64, hi: u64) -> bool {
    match unsigned_of(lookup(p, k)) {
        Some(n) => lo <= n <= hi,
        None => false,
    }
}

pub open spec fn timestamp_at(p: Seq<(String, JsonValue)>, k: Seq<char>) -> bool {
    match unsigned_of(lookup(p, k)) {
        Some(n) => is_timestamp_ms(n),
        None => false,
    }
}

pub open spec fn distinct_texts(vs: Seq<JsonValue>) -> bool {
    forall|i: int, j: int|
        0 <= i < j < vs.len() ==> #[trigger] text_of(Some(vs[i])) != #[trigger] text_of(
            Some(vs[j]),
        )
}

pub open spec fn id_array_ok(v: Option<JsonValue>, kind: IdKind, lo: u64, hi: u64) -> bool {
    match v {
        Some(JsonValue::Array(vs)) => {
            &&& lo <= vs@.len() <= hi
            &&& forall|i: int|
                0 <= i < vs@.len() ==> ((#[trigger] text_of(Some(vs@[i]))) matches Some(s)
                    && id_ok(kind, s))
            &&& distinct_texts(vs@)
        },
        _ => false,
    }
}

/// Whether `es` has exactly the three field names given.
pub open spec fn keys_are(es: Seq<(String, JsonValue)>, a: Seq<char>, b: Seq<char>, c: Seq<char>) -> bool {
    &&& forall|i: int| 0 <= i < es.len() ==> #[trigger] es[i].0@ == a || es[i].0@ == b || es[i].0@ == c
    &&& lookup(es, a) is Some
    &&& lookup(es, b) is Some
    &&& lookup(es, c) is Some
}

pub open spec fn file_error(e: JsonValue) -> Option<&'static str> {
    match e {
        JsonValue::Object(es) => if !keys_are(es@, "containerRelPath"@, "sha256"@, "sizeBytes"@) {
            Some("nested object fields")
        } else if !id_at(es@, "containerRelPath"@, IdKind::SafeRelPath) {
            Some("containerRelPath")
        } else if !id_at(es@, "sha256"@, IdKind::H256) {
            Some("sha256")
        } else if !within(es@, "sizeBytes"@, 0, MAX_BYTE_COUNT) {
            Some("sizeBytes")
        } else {
            None
        },
        _ => Some("nested object"),
    }
}

pub open spec fn chip_error(e: JsonValue) -> Option<&'static str> {
    match e {
        JsonValue::Object(es) => if !keys_are(es@, "chipStableKey"@, "digest"@, "cleared"@) {
            Some("nested object fields")
        } else if !id_at(es@, "chipStableKey"@, IdKind::H256) {
            Some("chipStableKey")
        } else if !(null_at(lookup(es@, "digest"@)) || id_at(es@, "digest"@, IdKind::H256)) {
            Some("digest")
        } else if bool_of(lookup(es@, "cleared"@)) is None {
            Some("cleared")
        } else if bool_of(lookup(es@, "cleared"@)) != Some(true) {
            Some("cleared chip")
        } else {
            None
        },
        _ => Some("nested object"),
    }
}

/// The first element error of `vs` from index `i` on; `chips` picks the
/// cleared-chip rules over the materialized-file rules.
pub open spec fn elements_error(vs: Seq<JsonValue>, chips: bool, i: int) -> Option<&'static str>
    decreases vs.len() - i,
{
    if i < 0 || i >= vs.len() {
        None
    } else {
        let e = if chips {
            chip_error(vs[i])
        } else {
            file_error(vs[i])
        };
        match e {
            Some(m) => Some(m),
            None => elements_error(vs, chips, i + 1),
        }
    }
}

pub open spec fn array_error(
    v: Option<JsonValue>,
    key: &'static str,
    lo: nat,
    hi: nat,
    chips: bool,
) -> Option<&'static str> {
    match v {
        Some(JsonValue::Array(vs)) => if lo <= vs@.len() <= hi {
            elements_error(vs@, chips, 0)
        } else {
            Some(key)
        },
        _ => Some(key),
    }
}

pub open spec fn rule_error(
    r: Rule,
    p: Seq<(String, JsonValue)>,
    request_id: Option<Seq<char>>,
    run_id: Option<Seq<char>>,
) -> Option<&'static str> {
    let text = |k: Seq<char>| text_of(lookup(p, k));
    let num = |k: Seq<char>| unsigned_of(lookup(p, k));
    let flag = |k: Seq<char>| bool_of(lookup(p, k));
    let null = |k: Seq<char>| null_at(lookup(p, k));
    match r {
        Rule::Cohort(slot, cohort, m) => fail_unless(
            text(slot@) is Some && text(cohort@) is Some && cohort_of_spec(text(slot@).unwrap())
                == text(cohort@),
            m,
        ),
        Rule::RunIdPresent => fail_unless(run_id is Some, "HostAttachmentsStaged runId"),
        Rule::SkipReason => fail_unless(
            if text("decision"@) == Some("grantable"@) {
                null("skipReason"@)
            } else {
                text("skipReason"@) matches Some(s) && in_choice(Choice::SkipReason, s)
            },
            "skipReason",
        ),
        Rule::CasSpacing(base) => fail_unless(
            num(base@) is Some && num("renewAtMs"@) is Some && num("expiresAtMs"@) is Some
                && num(base@).unwrap() + 100_000 == num("renewAtMs"@).unwrap() && num(
                base@,
            ).unwrap() + 300_000 == num("expiresAtMs"@).unwrap(),
            "CAS times",
        ),
        Rule::ConversationUrl(session) => fail_unless(
            text(session@) matches Some(s) && is_session_id(s) && text("conversationUrl"@)
                == Some(conversation_url_of(s)),
            "conversationUrl",
        ),
        Rule::SessionClaimBinding => fail_unless(
            !(text("runId"@) is Some && text("requestId"@) is None) && text("requestId"@)
                == request_id && text("runId"@) == run_id,
            "session claim request binding",
        ),
        Rule::SchemaDriftReceipt => fail_unless(
            !(text("reason"@) == Some("provider.schema_drift"@) && null("providerReceipt"@)),
            "schema drift receipt",
        ),
        Rule::MaterializedFiles => array_error(
            lookup(p, "materializedFiles"@),
            "materializedFiles",
            0,
            64,
            false,
        ),
        Rule::ClearedChips => array_error(lookup(p, "clearedChips"@), "clearedChips", 1, 64, true),
        Rule::HydratedOutcome => fail_unless(
            flag("contentUnavailable"@) == Some(false) && flag("terminalVisible"@) is Some
                && flag("activeGeneration"@) is Some && flag("terminalVisible"@) != flag(
                "activeGeneration"@,
            ),
            "SessionHydrated outcome",
        ),
        Rule::ControlCount => fail_unless(
            lookup(p, "controls"@) matches Some(JsonValue::Array(vs)) && num("controlCount"@)
                == Some(vs@.len() as u64),
            "artifact controlCount",
        ),
        Rule::ArtifactResult => fail_unless(
            if text("result"@) == Some("downloaded"@) {
                within(p, "artifactCount"@, 1, 64) && !null("manifestPath"@) && !null(
                    "manifestSha256"@,
                )
            } else {
                num("artifactCount"@) == Some(0u64) && null("manifestPath"@) && null(
                    "manifestSha256"@,
                )
            },
            "ArtifactClaimCompleted result",
        ),
        Rule::StopSkippedNullability => fail_unless(
            if text("reason"@) == Some("runtime.not_acquired"@) {
                null("runtimeOwnerId"@) && null("proofAttempt"@)
            } else {
                !null("runtimeOwnerId"@)
            },
            "RuntimeStopSkipped nullability",
        ),
        Rule::NextGeneration => fail_unless(
            num("priorGeneration"@) is Some && num("newGeneration"@) is Some && num(
                "newGeneration"@,
            ).unwrap() == num("priorGeneration"@).unwrap() + 1,
            "takeover proof binding",
        ),
        Rule::StandbyCooldown => fail_unless(
            !(flag("allocatable"@) == Some(true) && !null("cooldownUntilMs"@)),
            "standby cooldown",
        ),
        Rule::CooldownInterval => fail_unless(
            num("cooldownUntilMs"@) is Some && num("blockedAtMs"@) is Some && num(
                "cooldownUntilMs"@,
            ).unwrap() > num("blockedAtMs"@).unwrap(),
            "cooldown interval",
        ),
        Rule::FinalStatus => fail_unless(
            flag("allocatable"@) == Some(text("finalStatus"@) == Some("allocatable"@)),
            "ReleaseFinalized allocatable",
        ),
        Rule::QaCounts => fail_unless(
            num("casesPassed"@) is Some && num("casesTotal"@) is Some && num("casesPassed"@).unwrap()
                <= num("casesTotal"@).unwrap(),
            "QA matrix counts",
        ),
        Rule::QaScope => fail_unless(
            if text("scope"@) == Some("all"@) {
                null("caseId"@)
            } else {
                text("caseId"@) matches Some(s) && is_text(s, 4096)
            },
            "caseId",
        ),
    }
}

/// The message a check fails with on payload `p`, or `None` where it passes.
pub open spec fn check_error(
    c: Check,
    p: Seq<(String, JsonValue)>,
    request_id: Option<Seq<char>>,
    run_id: Option<Seq<char>>,
    verdicts: Seq<(String, bool)>,
) -> Option<&'static str> {
    match c {
        Check::Id(k, kind) => fail_unless(id_at(p, k@, kind), k),
        Check::OptionalId(k, kind) => fail_unless(
            null_at(lookup(p, k@)) || id_at(p, k@, kind),
            k,
        ),
        Check::NonEmpty(k) => fail_unless(
            text_of(lookup(p, k@)) matches Some(s) && is_text(s, 4096),
            k,
        ),
        Check::Integer(k, lo, hi) => fail_unless(within(p, k@, lo, hi), k),
        Check::OptionalInteger(k, lo, hi) => fail_unless(
            null_at(lookup(p, k@)) || within(p, k@, lo, hi),
            k,
        ),
        Check::Timestamp(k) => fail_unless(timestamp_at(p, k@), k),
        Check::OptionalTimestamp(k) => fail_unless(
            null_at(lookup(p, k@)) || timestamp_at(p, k@),
            k,
        ),
        Check::Duration(k) => fail_unless(within(p, k@, 0, MAX_DURATION_MS), k),
        Check::Bytes(k) => fail_unless(within(p, k@, 0, MAX_BYTE_COUNT), k),
        Check::Boolean(k) => fail_unless(bool_of(lookup(p, k@)) is Some, k),
        Check::Flag(k) => fail_unless(bool_of(lookup(p, k@)) == Some(true), k),
        Check::Null(k) => fail_unless(null_at(lookup(p, k@)), k),
        Check::Literal(k, v) => fail_unless(text_of(lookup(p, k@)) == Some(v@), k),
        Check::OneOf(k, choice) => fail_unless(
            text_of(lookup(p, k@)) matches Some(s) && in_choice(choice, s),
            k,
        ),
        Check::Health(k) => fail_unless(
            text_of(lookup(p, k@)) matches Some(s) && health_parse(s) is Some,
            k,
        ),
        Check::ArrayLen(k, lo, hi) => fail_unless(
            lookup(p, k@) matches Some(JsonValue::Array(vs)) && lo <= vs@.len() <= hi,
            k,
        ),
        Check::IdArray(k, kind, lo, hi) => fail_unless(
            id_array_ok(lookup(p, k@), kind, lo, hi),
            k,
        ),
        Check::Typed(label, m) => fail_unless(lookup(verdicts, label@) == Some(true), m),
        Check::Rule(r) => rule_error(r, p, request_id, run_id),
    }
}

/// The message of the first check of `cs`, from index `i` on, that fails.
pub open spec fn first_failure(
    cs: Seq<Check>,
    p: Seq<(String, JsonValue)>,
    request_id: Option<Seq<char>>,
    run_id: Option<Seq<char>>,
    verdicts: Seq<(String, bool)>,
    i: int,
) -> Option<&'static str>
    decreases cs.len() - i,
{
    if i < 0 || i >= cs.len() {
        None
    } else {
        match check_error(cs[i], p, request_id, run_id, verdicts) {
            Some(m) => Some(m),
            None => first_failure(cs, p, request_id, run_id, verdicts, i + 1),
        }
    }
}


// ---------------------------------------------------------------- running the checks

pub(crate) fn id_field(p: &Vec<(String, JsonValue)>, k: &str, kind: IdKind) -> (r: bool)
    ensures
        r == id_at(p@, k@, kind),
{
    match field_text(p, k) {
        Some(s) => id_valid(kind, s),
        None => false,
    }
}

pub(crate) fn within_field(p: &Vec<(String, JsonValue)>, k: &str, lo: u64, hi: u64) -> (r: bool)
    ensures
        r == within(p@, k@, lo, hi),
{
    match field_unsigned(p, k) {
        Some(n) => lo <= n && n <= hi,
        None => false,
    }
}

fn timestamp_field(p: &Vec<(String, JsonValue)>, k: &str) -> (r: bool)
    ensures
        r == timestamp_at(p@, k@),
{
    match field_unsigned(p, k) {
        Some(n) => 1 <= n && n <= MAX_TIMESTAMP_MS,
        None => false,
    }
}

fn text_is(p: &Vec<(String, JsonValue)>, k: &str, v: &str) -> (r: bool)
    ensures
        r == (text_of(lookup(p@, k@)) == Some(v@)),
{
    match field_text(p, k) {
        Some(s) => str_eq(s, v),
        None => false,
    }
}

fn text_value(v: &JsonValue) -> (r: Option<&str>)
    ensures
        r matches Some(s) ==> text_of(Some(*v)) == Some(s@),
        r is None ==> text_of(Some(*v)) is None,
{
    match v {
        JsonValue::Text(s) => Some(s.as_str()),
        _ => None,
    }
}

fn ids_valid(vs: &Vec<JsonValue>, kind: IdKind) -> (r: bool)
    ensures
        r == ((forall|i: int|
            0 <= i < vs@.len() ==> ((#[trigger] text_of(Some(vs@[i]))) matches Some(s) && id_ok(
                kind,
                s,
            ))) && distinct_texts(vs@)),
{
    let n = vs.len();
    let mut i: usize = 0;
    while i < n
        invariant
            n == vs@.len(),
            i <= n,
            forall|a: int|
                0 <= a < i ==> ((#[trigger] text_of(Some(vs@[a]))) matches Some(s) && id_ok(
                    kind,
                    s,
                )),
            forall|a: int, b: int|
                0 <= a < b < i ==> #[trigger] text_of(Some(vs@[a])) != #[trigger] text_of(
                    Some(vs@[b]),
                ),
        decreases n - i,
    {
        let s = match text_value(&vs[i]) {
            Some(s) => s,
            None => return false,
        };
        if !id_valid(kind, s) {
            return false;
        }
        let mut j: usize = 0;
        while j < i
            invariant
                n == vs@.len(),
                j <= i < n,
                text_of(Some(vs@[i as int])) == Some(s@),
                forall|a: int| 0 <= a < j ==> #[trigger] text_of(Some(vs@[a])) != Some(s@),
            decreases i - j,
        {
            match text_value(&vs[j]) {
                Some(t) => {
                    if str_eq(t, s) {
                        assert(text_of(Some(vs@[j as int])) == text_of(Some(vs@[i as int])));
                        return false;
                    }
                },
                None => {},
            }
            j += 1;
        }
        i += 1;
    }
    true
}

fn id_array_valid(v: Option<&JsonValue>, kind: IdKind, lo: u64, hi: u64) -> (r: bool)
    ensures
        r == id_array_ok(
            match v {
                Some(x) => Some(*x),
                None => None,
            },
            kind,
            lo,
            hi,
        ),
{
    match v {
        Some(JsonValue::Array(vs)) => {
            let n = vs.len() as u64;
            lo <= n && n <= hi && ids_valid(vs, kind)
        },
        _ => false,
    }
}

fn keys_exactly(es: &Vec<(String, JsonValue)>, a: &str, b: &str, c: &str) -> (r: bool)
    ensures
        r == keys_are(es@, a@, b@, c@),
{
    let n = es.len();
    let mut i: usize = 0;
    while i < n
        invariant
            n == es@.len(),
            i <= n,
            forall|j: int|
                0 <= j < i ==> #[trigger] es@[j].0@ == a@ || es@[j].0@ == b@ || es@[j].0@ == c@,
        decreases n - i,
    {
        let k = es[i].0.as_str();
        if !(str_eq(k, a) || str_eq(k, b) || str_eq(k, c)) {
            return false;
        }
        i += 1;
    }
    get_entry(es, a).is_some() && get_entry(es, b).is_some() && get_entry(es, c).is_some()
}

fn file_problem(e: &JsonValue) -> (r: Option<&'static str>)
    ensures
        r == file_error(*e),
{
    match e {
        JsonValue::Object(es) => {
            if !keys_exactly(es, "containerRelPath", "sha256", "sizeBytes") {
                Some("nested object fields")
            } else if !id_field(es, "containerRelPath", IdKind::SafeRelPath) {
                Some("containerRelPath")
            } else if !id_field(es, "sha256", IdKind::H256) {
                Some("sha256")
            } else if !within_field(es, "sizeBytes", 0, MAX_BYTE_COUNT) {
                Some("sizeBytes")
            } else {
                None
            }
        },
        _ => Some("nested object"),
    }
}

fn chip_problem(e: &JsonValue) -> (r: Option<&'static str>)
    ensures
        r == chip_error(*e),
{
    match e {
        JsonValue::Object(es) => {
            if !keys_exactly(es, "chipStableKey", "digest", "cleared") {
                Some("nested object fields")
            } else if !id_field(es, "chipStableKey", IdKind::H256) {
                Some("chipStableKey")
            } else if !(field_null(es, "digest") || id_field(es, "digest", IdKind::H256)) {
                Some("digest")
            } else {
                match field_bool(es, "cleared") {
                    None => Some("cleared"),
                    Some(false) => Some("cleared chip"),
                    Some(true) => None,
                }
            }
        },
        _ => Some("nested object"),
    }
}

fn elements_problem(vs: &Vec<JsonValue>, chips: bool) -> (r: Option<&'static str>)
    ensures
        r == elements_error(vs@, chips, 0),
{
    let n = vs.len();
    let mut i: usize = 0;
    while i < n
        invariant
            n == vs@.len(),
            i <= n,
            elements_error(vs@, chips, 0) == elements_error(vs@, chips, i as int),
        decreases n - i,
    {
        let e = if chips {
            chip_problem(&vs[i])
        } else {
            file_problem(&vs[i])
        };
        if e.is_some() {
            return e;
        }
        i += 1;
    }
    None
}

fn array_problem(v: Option<&JsonValue>, key: &'static str, lo: usize, hi: usize, chips: bool) -> (r:
    Option<&'static str>)
    ensures
        r == array_error(
            match v {
                Some(x) => Some(*x),
                None => None,
            },
            key,
            lo as nat,
            hi as nat,
            chips,
        ),
{
    match v {
        Some(JsonValue::Array(vs)) => {
            if vs.len() < lo || vs.len() > hi {
                Some(key)
            } else {
                elements_problem(vs, chips)
            }
        },
        _ => Some(key),
    }
}

fn rule_problem(
    r: Rule,
    p: &Vec<(String, JsonValue)>,
    request_id: Option<&str>,
    run_id: Option<&str>,
) -> (e: Option<&'static str>)
    ensures
        e == rule_error(
            r,
            p@,
            match request_id {
                Some(s) => Some(s@),
                None => None,
            },
            match run_id {
                Some(s) => Some(s@),
                None => None,
            },
        ),
{
    let ok = match r {
        Rule::Cohort(slot, cohort, m) => {
            let ok = match (field_text(p, slot), field_text(p, cohort)) {
                (Some(s), Some(c)) => match cohort_of(s) {
                    Some(expected) => str_eq(expected, c),
                    None => false,
                },
                _ => false,
            };
            return if ok {
                None
            } else {
                Some(m)
            };
        },
        Rule::RunIdPresent => run_id.is_some(),
        Rule::SkipReason => {
            if text_is(p, "decision", "grantable") {
                field_null(p, "skipReason")
            } else {
                match field_text(p, "skipReason") {
                    Some(s) => choice_has(Choice::SkipReason, s),
                    None => false,
                }
            }
        },
        Rule::CasSpacing(base) => {
            match (
                field_unsigned(p, base),
                field_unsigned(p, "renewAtMs"),
                field_unsigned(p, "expiresAtMs"),
            ) {
                (Some(b), Some(renew), Some(expires)) => b.checked_add(100_000) == Some(renew)
                    && b.checked_add(300_000) == Some(expires),
                _ => false,
            }
        },
        Rule::ConversationUrl(session) => {
            match (field_text(p, session), field_text(p, "conversationUrl")) {
                (Some(s), Some(url)) => validate_conversation_url(url, s).is_ok(),
                (Some(s), None) => {
                    let _ = validate_session_id(s);
                    false
                },
                _ => false,
            }
        },
        Rule::SessionClaimBinding => {
            let request = field_text(p, "requestId");
            let run = field_text(p, "runId");
            let same_request = match (request, request_id) {
                (Some(a), Some(b)) => str_eq(a, b),
                (None, None) => true,
                _ => false,
            };
            let same_run = match (run, run_id) {
                (Some(a), Some(b)) => str_eq(a, b),
                (None, None) => true,
                _ => false,
            };
            !(run.is_some() && request.is_none()) && same_request && same_run
        },
        Rule::SchemaDriftReceipt => !(text_is(p, "reason", "provider.schema_drift") && field_null(
            p,
            "providerReceipt",
        )),
        Rule::MaterializedFiles => {
            return array_problem(get_entry(p, "materializedFiles"), "materializedFiles", 0, 64, false);
        },
        Rule::ClearedChips => {
            return array_problem(get_entry(p, "clearedChips"), "clearedChips", 1, 64, true);
        },
        Rule::HydratedOutcome => {
            match (
                field_bool(p, "contentUnavailable"),
                field_bool(p, "terminalVisible"),
                field_bool(p, "activeGeneration"),
            ) {
                (Some(unavailable), Some(terminal), Some(active)) => !unavailable && terminal
                    != active,
                _ => false,
            }
        },
        Rule::ControlCount => {
            match (get_entry(p, "controls"), field_unsigned(p, "controlCount")) {
                (Some(JsonValue::Array(vs)), Some(count)) => vs.len() as u64 == count,
                _ => false,
            }
        },
        Rule::ArtifactResult => {
            if text_is(p, "result", "downloaded") {
                within_field(p, "artifactCount", 1, 64) && !field_null(p, "manifestPath")
                    && !field_null(p, "manifestSha256")
            } else {
                field_unsigned(p, "artifactCount") == Some(0u64) && field_null(p, "manifestPath")
                    && field_null(p, "manifestSha256")
            }
        },
        Rule::StopSkippedNullability => {
            if text_is(p, "reason", "runtime.not_acquired") {
                field_null(p, "runtimeOwnerId") && field_null(p, "proofAttempt")
            } else {
                !field_null(p, "runtimeOwnerId")
            }
        },
        Rule::NextGeneration => {
            match (field_unsigned(p, "priorGeneration"), field_unsigned(p, "newGeneration")) {
                (Some(prior), Some(next)) => prior.checked_add(1) == Some(next),
                _ => false,
            }
        },
        Rule::StandbyCooldown => !(field_bool(p, "allocatable") == Some(true) && !field_null(
            p,
            "cooldownUntilMs",
        )),
        Rule::CooldownInterval => {
            match (field_unsigned(p, "cooldownUntilMs"), field_unsigned(p, "blockedAtMs")) {
                (Some(until), Some(blocked)) => until > blocked,
                _ => false,
            }
        },
        Rule::FinalStatus => field_bool(p, "allocatable") == Some(
            text_is(p, "finalStatus", "allocatable"),
        ),
        Rule::QaCounts => {
            match (field_unsigned(p, "casesPassed"), field_unsigned(p, "casesTotal")) {
                (Some(passed), Some(total)) => passed <= total,
                _ => false,
            }
        },
        Rule::QaScope => {
            if text_is(p, "scope", "all") {
                field_null(p, "caseId")
            } else {
                match field_text(p, "caseId") {
                    Some(s) => validate_non_empty_text(s).is_ok(),
                    None => false,
                }
            }
        },
    };
    if ok {
        None
    } else {
        Some(rule_message(r))
    }
}

pub open spec fn rule_message_of(r: Rule) -> &'static str {
    match r {
        Rule::Cohort(_, _, m) => m,
        Rule::RunIdPresent => "HostAttachmentsStaged runId",
        Rule::SkipReason => "skipReason",
        Rule::CasSpacing(_) => "CAS times",
        Rule::ConversationUrl(_) => "conversationUrl",
        Rule::SessionClaimBinding => "session claim request binding",
        Rule::SchemaDriftReceipt => "schema drift receipt",
        Rule::MaterializedFiles => "materializedFiles",
        Rule::ClearedChips => "clearedChips",
        Rule::HydratedOutcome => "SessionHydrated outcome",
        Rule::ControlCount => "artifact controlCount",
        Rule::ArtifactResult => "ArtifactClaimCompleted result",
        Rule::StopSkippedNullability => "RuntimeStopSkipped nullability",
        Rule::NextGeneration => "takeover proof binding",
        Rule::StandbyCooldown => "standby cooldown",
        Rule::CooldownInterval => "cooldown interval",
        Rule::FinalStatus => "ReleaseFinalized allocatable",
        Rule::QaCounts => "QA matrix counts",
        Rule::QaScope => "caseId",
    }
}

fn rule_message(r: Rule) -> (m: &'static str)
    ensures
        m == rule_message_of(r),
{
    match r {
        Rule::Cohort(_, _, m) => m,
        Rule::RunIdPresent => "HostAttachmentsStaged runId",
        Rule::SkipReason => "skipReason",
        Rule::CasSpacing(_) => "CAS times",
        Rule::ConversationUrl(_) => "conversationUrl",
        Rule::SessionClaimBinding => "session claim request binding",
        Rule::SchemaDriftReceipt => "schema drift receipt",
        Rule::MaterializedFiles => "materializedFiles",
        Rule::ClearedChips => "clearedChips",
        Rule::HydratedOutcome => "SessionHydrated outcome",
        Rule::ControlCount => "artifact controlCount",
        Rule::ArtifactResult => "ArtifactClaimCompleted result",
        Rule::StopSkippedNullability => "RuntimeStopSkipped nullability",
        Rule::NextGeneration => "takeover proof binding",
        Rule::StandbyCooldown => "standby cooldown",
        Rule::CooldownInterval => "cooldown interval",
        Rule::FinalStatus => "ReleaseFinalized allocatable",
        Rule::QaCounts => "QA matrix counts",
        Rule::QaScope => "caseId",
    }
}

fn check_problem(
    c: Check,
    p: &Vec<(String, JsonValue)>,
    request_id: Option<&str>,
    run_id: Option<&str>,
    verdicts: &Vec<(String, bool)>,
) -> (e: Option<&'static str>)
    ensures
        e == check_error(
            c,
            p@,
            match request_id {
                Some(s) => Some(s@),
                None => None,
            },
            match run_id {
                Some(s) => Some(s@),
                None => None,
            },
            verdicts@,
        ),
{
    let (ok, key) = match c {
        Check::Id(k, kind) => (id_field(p, k, kind), k),
        Check::OptionalId(k, kind) => (field_null(p, k) || id_field(p, k, kind), k),
        Check::NonEmpty(k) => (
            match field_text(p, k) {
                Some(s) => validate_non_empty_text(s).is_ok(),
                None => false,
            },
            k,
        ),
        Check::Integer(k, lo, hi) => (within_field(p, k, lo, hi), k),
        Check::OptionalInteger(k, lo, hi) => (field_null(p, k) || within_field(p, k, lo, hi), k),
        Check::Timestamp(k) => (timestamp_field(p, k), k),
        Check::OptionalTimestamp(k) => (field_null(p, k) || timestamp_field(p, k), k),
        Check::Duration(k) => (within_field(p, k, 0, MAX_DURATION_MS), k),
        Check::Bytes(k) => (within_field(p, k, 0, MAX_BYTE_COUNT), k),
        Check::Boolean(k) => (field_bool(p, k).is_some(), k),
        Check::Flag(k) => (field_bool(p, k) == Some(true), k),
        Check::Null(k) => (field_null(p, k), k),
        Check::Literal(k, v) => (text_is(p, k, v), k),
        Check::OneOf(k, choice) => (
            match field_text(p, k) {
                Some(s) => choice_has(choice, s),
                None => false,
            },
            k,
        ),
        Check::Health(k) => (
            match field_text(p, k) {
                Some(s) => HealthStatus::parse(s).is_some(),
                None => false,
            },
            k,
        ),
        Check::ArrayLen(k, lo, hi) => (
            match get_entry(p, k) {
                Some(JsonValue::Array(vs)) => lo <= vs.len() as u64 && vs.len() as u64 <= hi,
                _ => false,
            },
            k,
        ),
        Check::IdArray(k, kind, lo, hi) => (id_array_valid(get_entry(p, k), kind, lo, hi), k),
        Check::Typed(label, m) => (
            match get_entry(verdicts, label) {
                Some(b) => *b,
                None => false,
            },
            m,
        ),
        Check::Rule(r) => {
            return rule_problem(r, p, request_id, run_id);
        },
    };
    if ok {
        None
    } else {
        Some(key)
    }
}

fn first_problem(
    cs: &Vec<Check>,
    p: &Vec<(String, JsonValue)>,
    request_id: Option<&str>,
    run_id: Option<&str>,
    verdicts: &Vec<(String, bool)>,
) -> (e: Option<&'static str>)
    ensures
        e == first_failure(
            cs@,
            p@,
            match request_id {
                Some(s) => Some(s@),
                None => None,
            },
            match run_id {
                Some(s) => Some(s@),
                None => None,
            },
            verdicts@,
            0,
        ),
{
    let ghost req = match request_id {
        Some(s) => Some(s@),
        None => None,
    };
    let ghost run = match run_id {
        Some(s) => Some(s@),
        None => None,
    };
    let n = cs.len();
    let mut i: usize = 0;
    while i < n
        invariant
            n == cs@.len(),
            i <= n,
            req == match request_id {
                Some(s) => Some(s@),
                None => None,
            },
            run == match run_id {
                Some(s) => Some(s@),
                None => None,
            },
            first_failure(cs@, p@, req, run, verdicts@, 0) == first_failure(
                cs@,
                p@,
                req,
                run,
                verdicts@,
                i as int,
            ),
        decreases n - i,
    {
        let e = check_problem(cs[i], p, request_id, run_id, verdicts);
        if e.is_some() {
            return e;
        }
        i += 1;
    }
    None
}

// ---------------------------------------------------------------- the rules of each event type

/// The rules of each event type's payload, in the order they are checked.
pub open spec fn checks_of(t: EventType) -> Seq<Check> {
    match t {
        EventType::RequestAccepted => seq![
            Check::Id("requestId", IdKind::Request),
            Check::OneOf("kind", Choice::Kind),
            Check::Id("promptSha256", IdKind::H256),
            Check::Bytes("promptSizeBytes"),
            Check::Integer("attachmentCount", 0, 64),
            Check::OneOf("artifactExpectation", Choice::Expectation),
            Check::Timestamp("acceptedAtMs"),
        ],
        EventType::RequestClaimGranted => seq![
            Check::Id("claimId", IdKind::Claim),
            Check::Id("requestId", IdKind::Request),
            Check::Integer("claimGeneration", 1, 1),
            Check::Integer("ttlMs", 300000, 300000),
            Check::Timestamp("grantedAtMs"),
            Check::Timestamp("renewAtMs"),
            Check::Timestamp("expiresAtMs"),
            Check::Rule(Rule::CasSpacing("grantedAtMs")),
            Check::Id("fencingTokenSha256", IdKind::H256),
        ],
        EventType::RequestClaimRenewed => seq![
            Check::Id("claimId", IdKind::Claim),
            Check::Integer("claimGeneration", 1, 65535),
            Check::Integer("renewalRevision", 2, 65535),
            Check::Timestamp("renewedAtMs"),
            Check::Timestamp("renewAtMs"),
            Check::Timestamp("expiresAtMs"),
            Check::Rule(Rule::CasSpacing("renewedAtMs")),
        ],
        EventType::HostAttachmentsStaged => seq![
            Check::Id("requestId", IdKind::Request),
            Check::Rule(Rule::RunIdPresent),
            Check::Typed("attachmentSet", "attachmentSet"),
            Check::Timestamp("stagedAtMs"),
        ],
        EventType::AllocationCandidateObserved => seq![
            Check::Id("requestId", IdKind::Request),
            Check::Integer("scanOrdinal", 0, 9),
            Check::Id("cohort", IdKind::Cohort),
            Check::Id("slotId", IdKind::Slot),
            Check::Rule(Rule::Cohort("slotId", "cohort", "allocation cohort/slot")),
            Check::Integer("cohortCursorBefore", 0, 2),
            Check::Integer("withinCursorBefore", 0, 3),
            Check::OneOf("decision", Choice::Decision),
            Check::Rule(Rule::SkipReason),
            Check::Timestamp("observedAtMs"),
        ],
        EventType::AllocationExhausted => seq![
            Check::Id("requestId", IdKind::Request),
            Check::Integer("scanOrdinalCount", 10, 10),
            Check::Timestamp("observedAtMs"),
        ],
        EventType::SlotLeaseGranted => seq![
            Check::Id("leaseId", IdKind::Lease),
            Check::Id("claimId", IdKind::Claim),
            Check::Id("slotId", IdKind::Slot),
            Check::Id("cohort", IdKind::Cohort),
            Check::Rule(Rule::Cohort("slotId", "cohort", "lease cohort")),
            Check::Integer("cohortCursorBefore", 0, 2),
            Check::Integer("withinCursorBefore", 0, 3),
            Check::Integer("cohortCursorAfter", 0, 2),
            Check::Integer("withinCursorAfter", 0, 3),
            Check::Integer("leaseGeneration", 1, 1),
            Check::OneOf("reason", Choice::LeaseReason),
            Check::Timestamp("grantedAtMs"),
            Check::Timestamp("renewAtMs"),
            Check::Timestamp("expiresAtMs"),
            Check::Rule(Rule::CasSpacing("grantedAtMs")),
            Check::Id("fencingTokenSha256", IdKind::H256),
        ],
        EventType::SlotLeaseRenewed => seq![
            Check::Id("leaseId", IdKind::Lease),
            Check::Integer("leaseGeneration", 1, 65535),
            Check::Integer("renewalRevision", 2, 65535),
            Check::Timestamp("renewedAtMs"),
            Check::Timestamp("renewAtMs"),
            Check::Timestamp("expiresAtMs"),
            Check::Rule(Rule::CasSpacing("renewedAtMs")),
        ],
        EventType::RuntimeOwnershipGranted => seq![
            Check::Id("runtimeOwnerId", IdKind::Owner),
            Check::Id("slotId", IdKind::Slot),
            Check::Id("leaseId", IdKind::Lease),
            Check::Integer("ownerGeneration", 1, 65535),
            Check::Id("runtimeIncarnationId", IdKind::RuntimeIncarnation),
            Check::OneOf("dockerStatus", Choice::Docker),
            Check::Typed("startReceipt", "startReceipt"),
            Check::Timestamp("grantedAtMs"),
            Check::Timestamp("renewAtMs"),
            Check::Timestamp("expiresAtMs"),
            Check::Rule(Rule::CasSpacing("grantedAtMs")),
            Check::Id("fencingTokenSha256", IdKind::H256),
        ],
        EventType::RuntimeOwnershipAdopted => seq![
            Check::Id("runtimeOwnerId", IdKind::Owner),
            Check::Id("slotId", IdKind::Slot),
            Check::Id("leaseId", IdKind::Lease),
            Check::Integer("ownerGeneration", 1, 65535),
            Check::Id("runtimeIncarnationId", IdKind::RuntimeIncarnation),
            Check::OneOf("dockerStatus", Choice::Docker),
            Check::Typed("adoptionProof", "adoptionProof"),
            Check::Timestamp("adoptedAtMs"),
            Check::Timestamp("renewAtMs"),
            Check::Timestamp("expiresAtMs"),
            Check::Rule(Rule::CasSpacing("adoptedAtMs")),
            Check::Id("fencingTokenSha256", IdKind::H256),
        ],
        EventType::RuntimeOwnershipRenewed => seq![
            Check::Id("runtimeOwnerId", IdKind::Owner),
            Check::Integer("ownerGeneration", 1, 65535),
            Check::Integer("renewalRevision", 2, 65535),
            Check::Timestamp("renewedAtMs"),
            Check::Timestamp("renewAtMs"),
            Check::Timestamp("expiresAtMs"),
            Check::Rule(Rule::CasSpacing("renewedAtMs")),
        ],
        EventType::SlotHealthProbeStarted => seq![
            Check::Id("slotId", IdKind::Slot),
            Check::Id("probeId", IdKind::Operation),
            Check::OneOf("dockerStatus", Choice::Docker),
            Check::Integer("deadlineMs", 15000, 15000),
            Check::Integer("retryIndex", 0, 1),
            Check::Timestamp("startedAtMs"),
        ],
        EventType::SlotHealthObserved => seq![
            Check::Id("slotId", IdKind::Slot),
            Check::Id("probeId", IdKind::Operation),
            Check::Health("healthStatus"),
            Check::OneOf("dockerStatus", Choice::Docker),
            Check::Duration("cooldownMs"),
            Check::Boolean("allocatable"),
            Check::Typed("evidenceRefs", "evidenceRefs"),
            Check::Timestamp("observedAtMs"),
        ],
        EventType::RootCaptureStarted => seq![
            Check::Id("requestId", IdKind::Request),
            Check::Id("captureOperationId", IdKind::Operation),
            Check::Id("slotId", IdKind::Slot),
            Check::Timestamp("startedAtMs"),
        ],
        EventType::RootCaptureObserved => seq![
            Check::Id("requestId", IdKind::Request),
            Check::Id("captureOperationId", IdKind::Operation),
            Check::Typed("rootBindingCandidate", "rootBindingCandidate"),
            Check::Id("bindingId", IdKind::Binding),
            Check::Integer("bindingGeneration", 1, 1),
            Check::Typed("pageBinding", "pageBinding"),
            Check::Typed("root page binding", "root page binding"),
            Check::Timestamp("observedAtMs"),
        ],
        EventType::RootCaptureFailed => seq![
            Check::Id("requestId", IdKind::Request),
            Check::Id("captureOperationId", IdKind::Operation),
            Check::OneOf("reason", Choice::CaptureFailure),
            Check::Typed("providerReceipt", "providerReceipt"),
            Check::Timestamp("failedAtMs"),
        ],
        EventType::ModelSelectionStarted => seq![
            Check::Id("requestId", IdKind::Request),
            Check::Id("modelOperationId", IdKind::Operation),
            Check::Typed("requestedModel", "requestedModel"),
            Check::Typed("requestedEffort", "requestedEffort"),
            Check::Typed("model tuple", "model tuple"),
            Check::Timestamp("startedAtMs"),
        ],
        EventType::ModelSelectionVerified => seq![
            Check::Id("requestId", IdKind::Request),
            Check::Id("modelOperationId", IdKind::Operation),
            Check::Typed("modelProof parsed", "modelProof"),
            Check::Typed("effortProof parsed", "effortProof"),
            Check::Typed("modelProof", "modelProof"),
            Check::Typed("effortProof", "effortProof"),
            Check::Typed("model proof tuple", "model proof tuple"),
            Check::Null("failureProof"),
            Check::Timestamp("verifiedAtMs"),
        ],
        EventType::ModelSelectionFailed => seq![
            Check::Id("requestId", IdKind::Request),
            Check::Id("modelOperationId", IdKind::Operation),
            Check::Null("modelProof"),
            Check::Null("effortProof"),
            Check::NonEmpty("reason"),
            Check::Typed("failureProof parsed", "failureProof"),
            Check::Typed("providerReceipt", "providerReceipt"),
            Check::Typed("ModelSelectionFailed proof", "ModelSelectionFailed proof"),
            Check::Typed("failureProof", "failureProof"),
            Check::Rule(Rule::SchemaDriftReceipt),
            Check::Timestamp("failedAtMs"),
        ],
        EventType::SlotAttachmentsMaterialized => seq![
            Check::Id("requestId", IdKind::Request),
            Check::Id("slotId", IdKind::Slot),
            Check::Id("attachmentSetSha256", IdKind::H256),
            Check::Id("containerMountRoot", IdKind::SafeRelPath),
            Check::Rule(Rule::MaterializedFiles),
            Check::Timestamp("materializedAtMs"),
        ],
        EventType::UploadStarted => seq![
            Check::Id("requestId", IdKind::Request),
            Check::Id("uploadAttemptId", IdKind::Operation),
            Check::Integer("retryIndex", 0, 1),
            Check::Id("expectedSetSha256", IdKind::H256),
            Check::Id("expectedBindingHash", IdKind::H256),
            Check::Timestamp("startedAtMs"),
        ],
        EventType::UploadMismatchObserved => seq![
            Check::Id("requestId", IdKind::Request),
            Check::Id("uploadAttemptId", IdKind::Operation),
            Check::Typed("uploadProof", "uploadProof"),
            Check::Typed("upload mismatch binding", "upload mismatch binding"),
            Check::Literal("reason", "upload.stale_chip_mismatch"),
            Check::Timestamp("observedAtMs"),
        ],
        EventType::UploadCleared => seq![
            Check::Id("requestId", IdKind::Request),
            Check::Id("uploadAttemptId", IdKind::Operation),
            Check::Id("clearAttemptId", IdKind::Operation),
            Check::Rule(Rule::ClearedChips),
            Check::Typed("providerReceipt", "providerReceipt"),
            Check::Timestamp("clearedAtMs"),
        ],
        EventType::UploadCompleted => seq![
            Check::Id("requestId", IdKind::Request),
            Check::Id("uploadAttemptId", IdKind::Operation),
            Check::Integer("retryIndex", 0, 1),
            Check::Typed("uploadProof", "uploadProof"),
            Check::Typed("UploadCompleted proof", "UploadCompleted proof"),
            Check::Typed("providerReceipt", "providerReceipt"),
            Check::Timestamp("completedAtMs"),
        ],
        EventType::UploadFailed => seq![
            Check::Id("requestId", IdKind::Request),
            Check::Id("uploadAttemptId", IdKind::Operation),
            Check::Integer("retryIndex", 0, 1),
            Check::OneOf("reason", Choice::UploadFailure),
            Check::Typed("providerReceipt", "providerReceipt"),
            Check::Timestamp("failedAtMs"),
        ],
        EventType::SendClickArmed => seq![
            Check::Id("requestId", IdKind::Request),
            Check::Id("sendAttemptId", IdKind::Operation),
            Check::Id("uploadAttemptId", IdKind::Operation),
            Check::Id("expectedBindingHash", IdKind::H256),
            Check::Id("promptSha256", IdKind::H256),
            Check::Id("preClickReceiptPath", IdKind::SafeRelPath),
            Check::Id("postClickReceiptPath", IdKind::SafeRelPath),
            Check::Id("reconcileReceiptPath", IdKind::SafeRelPath),
            Check::Integer("clickBudget", 1, 1),
            Check::Timestamp("armedAtMs"),
        ],
        EventType::SendClicked => seq![
            Check::Id("requestId", IdKind::Request),
            Check::Id("sendAttemptId", IdKind::Operation),
            Check::Typed("preClickReceipt", "preClickReceipt"),
            Check::Typed("postClickReceipt", "postClickReceipt"),
            Check::Typed("send receipt pair", "send receipt pair"),
            Check::Typed("send receipt binding", "send receipt binding"),
            Check::Integer("physicalClickCount", 1, 1),
            Check::Timestamp("clickedAtMs"),
        ],
        EventType::SendReconciled => seq![
            Check::Id("requestId", IdKind::Request),
            Check::Id("sendAttemptId", IdKind::Operation),
            Check::Typed("preClickReceipt", "preClickReceipt"),
            Check::Typed("reconciledReceipt", "reconciledReceipt"),
            Check::Typed("send receipt pair", "send receipt pair"),
            Check::Typed("send receipt binding", "send receipt binding"),
            Check::Integer("physicalClickCount", 0, 0),
            Check::Timestamp("reconciledAtMs"),
        ],
        EventType::SendUncertain => seq![
            Check::Id("requestId", IdKind::Request),
            Check::Id("sendAttemptId", IdKind::Operation),
            Check::Literal("reason", "send.turn_not_proven"),
            Check::Timestamp("blockedAtMs"),
        ],
        EventType::SendFailed => seq![
            Check::Id("requestId", IdKind::Request),
            Check::Id("sendAttemptId", IdKind::Operation),
            Check::OneOf("reason", Choice::SendFailure),
            Check::Typed("providerReceipt", "providerReceipt"),
            Check::Timestamp("failedAtMs"),
        ],
        EventType::TurnStartConfirmed => seq![
            Check::Id("requestId", IdKind::Request),
            Check::Id("sessionId", IdKind::Session),
            Check::Rule(Rule::ConversationUrl("sessionId")),
            Check::Id("userTurnId", IdKind::Turn),
            Check::Id("assistantTurnId", IdKind::Turn),
            Check::Timestamp("confirmedAtMs"),
        ],
        EventType::SessionBindingEstablished => seq![
            Check::Id("sessionId", IdKind::Session),
            Check::Id("sessionBindingId", IdKind::Binding),
            Check::Rule(Rule::ConversationUrl("sessionId")),
            Check::Id("slotId", IdKind::Slot),
            Check::Id("cohort", IdKind::Cohort),
            Check::Rule(Rule::Cohort("slotId", "cohort", "session cohort")),
            Check::Id("pageBindingId", IdKind::Binding),
            Check::Integer("pageBindingGeneration", 1, 1),
            Check::Id("targetId", IdKind::Target),
            Check::Id("pageIncarnationId", IdKind::PageIncarnation),
            Check::Id("runtimeOwnerId", IdKind::Owner),
            Check::Timestamp("establishedAtMs"),
        ],
        EventType::RunningProjected => seq![
            Check::Id("requestId", IdKind::Request),
            Check::Id("sessionId", IdKind::Session),
            Check::Id("sessionBindingId", IdKind::Binding),
            Check::Flag("activeTurn"),
            Check::Timestamp("projectedAtMs"),
        ],
        EventType::SessionOperationClaimGranted => seq![
            Check::Id("claimId", IdKind::Claim),
            Check::Id("sessionId", IdKind::Session),
            Check::OneOf("operationKind", Choice::Operation),
            Check::Id("expectedSlotId", IdKind::Slot),
            Check::Id("expectedCohort", IdKind::Cohort),
            Check::Rule(Rule::Cohort("expectedSlotId", "expectedCohort", "session claim cohort")),
            Check::OptionalInteger("expectedRuntimeOwnerGeneration", 1, 65535),
            Check::OptionalId("requestId", IdKind::Request),
            Check::OptionalId("runId", IdKind::Run),
            Check::Rule(Rule::SessionClaimBinding),
            Check::Integer("ttlMs", 300000, 300000),
            Check::Timestamp("grantedAtMs"),
            Check::Timestamp("renewAtMs"),
            Check::Timestamp("expiresAtMs"),
            Check::Rule(Rule::CasSpacing("grantedAtMs")),
            Check::Id("fencingTokenSha256", IdKind::H256),
        ],
        EventType::SessionOperationClaimRenewed => seq![
            Check::Id("claimId", IdKind::Claim),
            Check::Integer("claimGeneration", 1, 65535),
            Check::Integer("renewalRevision", 2, 65535),
            Check::Timestamp("renewedAtMs"),
            Check::Timestamp("renewAtMs"),
            Check::Timestamp("expiresAtMs"),
            Check::Rule(Rule::CasSpacing("renewedAtMs")),
        ],
        EventType::PersistedSessionLeaseGranted => seq![
            Check::Id("leaseId", IdKind::Lease),
            Check::Id("claimId", IdKind::Claim),
            Check::Id("slotId", IdKind::Slot),
            Check::Id("cohort", IdKind::Cohort),
            Check::Rule(Rule::Cohort("slotId", "cohort", "lease cohort")),
            Check::Integer("leaseGeneration", 1, 1),
            Check::Literal("reason", "persisted_session"),
            Check::Timestamp("grantedAtMs"),
            Check::Timestamp("renewAtMs"),
            Check::Timestamp("expiresAtMs"),
            Check::Rule(Rule::CasSpacing("grantedAtMs")),
            Check::Id("fencingTokenSha256", IdKind::H256),
        ],
        EventType::SessionRuntimeOwnershipGranted => seq![
            Check::Id("runtimeOwnerId", IdKind::Owner),
            Check::Id("sessionId", IdKind::Session),
            Check::Id("slotId", IdKind::Slot),
            Check::Id("leaseId", IdKind::Lease),
            Check::Integer("ownerGeneration", 1, 65535),
            Check::Id("runtimeIncarnationId", IdKind::RuntimeIncarnation),
            Check::OneOf("dockerStatus", Choice::Docker),
            Check::Typed("startReceipt", "startReceipt"),
            Check::Timestamp("grantedAtMs"),
            Check::Timestamp("renewAtMs"),
            Check::Timestamp("expiresAtMs"),
            Check::Rule(Rule::CasSpacing("grantedAtMs")),
            Check::Id("fencingTokenSha256", IdKind::H256),
        ],
        EventType::SessionRuntimeOwnershipAdopted => seq![
            Check::Id("runtimeOwnerId", IdKind::Owner),
            Check::Id("sessionId", IdKind::Session),
            Check::Id("slotId", IdKind::Slot),
            Check::Id("leaseId", IdKind::Lease),
            Check::Integer("ownerGeneration", 1, 65535),
            Check::Id("runtimeIncarnationId", IdKind::RuntimeIncarnation),
            Check::OneOf("dockerStatus", Choice::Docker),
            Check::Typed("adoptionProof", "adoptionProof"),
            Check::Timestamp("adoptedAtMs"),
            Check::Timestamp("renewAtMs"),
            Check::Timestamp("expiresAtMs"),
            Check::Rule(Rule::CasSpacing("adoptedAtMs")),
            Check::Id("fencingTokenSha256", IdKind::H256),
        ],
        EventType::SessionRebindStarted => seq![
            Check::Id("sessionId", IdKind::Session),
            Check::OptionalId("sessionOperationClaimId", IdKind::Claim),
            Check::OneOf("operationKind", Choice::Operation),
            Check::Id("expectationSha256", IdKind::H256),
            Check::Integer("navigationAttemptLimit", 2, 2),
            Check::Integer("hydrationDeadlineMs", 90000, 90000),
            Check::Timestamp("startedAtMs"),
        ],
        EventType::SessionRebound => seq![
            Check::Id("sessionId", IdKind::Session),
            Check::Typed("expectation", "expectation"),
            Check::Typed("observedEcho", "observedEcho"),
            Check::Integer("pageBindingGeneration", 1, 65535),
            Check::Typed("rebound session", "SessionRebound binding"),
            Check::Typed("page binding generation", "page binding generation"),
            Check::Typed("SessionRebound binding", "SessionRebound binding"),
            Check::Typed("providerReceipt", "providerReceipt"),
            Check::Timestamp("reboundAtMs"),
        ],
        EventType::SessionHydrationObserved => seq![
            Check::Id("sessionId", IdKind::Session),
            Check::Typed("hydrationObservation", "hydrationObservation"),
            Check::Typed("hydration session", "hydration observation echo"),
            Check::Integer("sequenceIndex", 0, 49),
            Check::Typed("hydration sequence", "hydration observation echo"),
            Check::Duration("remainingDeadlineMs"),
            Check::Typed("hydration deadline", "hydration observation echo"),
            Check::Timestamp("observedAtMs"),
            Check::Typed("hydration time", "hydration observation echo"),
        ],
        EventType::SessionHydrated => seq![
            Check::Id("sessionId", IdKind::Session),
            Check::Integer("observations", 1, 50),
            Check::Boolean("terminalVisible"),
            Check::Boolean("activeGeneration"),
            Check::Boolean("contentUnavailable"),
            Check::Rule(Rule::HydratedOutcome),
            Check::Typed("finalObservation", "finalObservation"),
            Check::Typed("SessionHydrated final observation", "SessionHydrated final observation"),
            Check::Timestamp("hydratedAtMs"),
        ],
        EventType::SessionOperationFailed => seq![
            Check::Id("sessionId", IdKind::Session),
            Check::OptionalId("sessionOperationClaimId", IdKind::Claim),
            Check::OneOf("operationKind", Choice::Operation),
            Check::OneOf("stage", Choice::Stage),
            Check::OneOf("reason", Choice::SessionFailure),
            Check::Typed("providerReceipt", "providerReceipt"),
            Check::Timestamp("failedAtMs"),
        ],
        EventType::PollStarted => seq![
            Check::Id("requestId", IdKind::Request),
            Check::Id("pollAttemptId", IdKind::Operation),
            Check::Id("sessionId", IdKind::Session),
            Check::Integer("pollTimeoutSeconds", 1, 10800),
            Check::Timestamp("startedAtMs"),
        ],
        EventType::PollProgress => seq![
            Check::Id("requestId", IdKind::Request),
            Check::Id("pollAttemptId", IdKind::Operation),
            Check::NonEmpty("providerStatus"),
            Check::Boolean("activeGeneration"),
            Check::Integer("sequenceIndex", 0, 65535),
            Check::Typed("pollReceipt", "pollReceipt"),
            Check::Timestamp("observedAtMs"),
        ],
        EventType::PollFailed => seq![
            Check::Id("requestId", IdKind::Request),
            Check::Id("pollAttemptId", IdKind::Operation),
            Check::OneOf("reason", Choice::PollFailure),
            Check::Typed("providerReceipt", "providerReceipt"),
            Check::Timestamp("failedAtMs"),
        ],
        EventType::AnswerTerminal => seq![
            Check::Id("requestId", IdKind::Request),
            Check::Id("pollAttemptId", IdKind::Operation),
            Check::Id("sessionId", IdKind::Session),
            Check::Id("answerPath", IdKind::SafeRelPath),
            Check::Id("answerSha256", IdKind::H256),
            Check::Bytes("answerSizeBytes"),
            Check::Id("terminalAssistantTurnId", IdKind::Turn),
            Check::Typed("pollReceipt", "pollReceipt"),
            Check::Timestamp("terminalAtMs"),
        ],
        EventType::ArtifactClaimEstablished => seq![
            Check::Id("artifactClaimId", IdKind::ArtifactClaim),
            Check::Id("sessionId", IdKind::Session),
            Check::OptionalId("requestId", IdKind::Request),
            Check::OneOf("expectation", Choice::Expectation),
            Check::Id("terminalAssistantTurnId", IdKind::Turn),
            Check::Timestamp("establishedAtMs"),
        ],
        EventType::ArtifactControlsAbsent => seq![
            Check::Id("artifactClaimId", IdKind::ArtifactClaim),
            Check::Typed("zeroControlProof", "zeroControlProof"),
            Check::Typed("providerReceipt", "providerReceipt"),
            Check::Timestamp("observedAtMs"),
        ],
        EventType::ArtifactControlsDiscovered => seq![
            Check::Id("artifactClaimId", IdKind::ArtifactClaim),
            Check::ArrayLen("controls", 1, 64),
            Check::Integer("controlCount", 1, 64),
            Check::Rule(Rule::ControlCount),
            Check::Typed("ArtifactControl", "ArtifactControl"),
            Check::Typed("duplicate ArtifactControl", "duplicate ArtifactControl"),
            Check::Typed("bottomProof", "bottomProof"),
            Check::Typed("providerReceipt", "providerReceipt"),
            Check::Timestamp("discoveredAtMs"),
        ],
        EventType::ArtifactDownloadAttemptConsumed => seq![
            Check::Id("artifactClaimId", IdKind::ArtifactClaim),
            Check::Id("attemptId", IdKind::Operation),
            Check::Integer("controlIndex", 0, 63),
            Check::Id("controlId", IdKind::Control),
            Check::Typed("artifactBaseline", "artifactBaseline"),
            Check::Id("providerReceiptPath", IdKind::SafeRelPath),
            Check::Id("hostSaveDirectory", IdKind::SafeRelPath),
            Check::Integer("clickBudget", 1, 1),
            Check::Timestamp("attemptConsumedAtMs"),
        ],
        EventType::ArtifactRecoveryCandidateObserved => seq![
            Check::Id("artifactClaimId", IdKind::ArtifactClaim),
            Check::Id("attemptId", IdKind::Operation),
            Check::Id("candidateRelPath", IdKind::SafeRelPath),
            Check::Bytes("sizeBytes"),
            Check::Id("sha256", IdKind::H256),
            Check::Integer("stableObservations", 2, 2),
            Check::Timestamp("observedAtMs"),
        ],
        EventType::ArtifactDownloadCompleted => seq![
            Check::Id("artifactClaimId", IdKind::ArtifactClaim),
            Check::Id("attemptId", IdKind::Operation),
            Check::Integer("controlIndex", 0, 63),
            Check::Id("artifactId", IdKind::Artifact),
            Check::Typed("downloadReceipt", "downloadReceipt"),
            Check::Typed("download receipt identity", "download receipt identity"),
            Check::Timestamp("completedAtMs"),
        ],
        EventType::ArtifactClaimCompleted => seq![
            Check::Id("artifactClaimId", IdKind::ArtifactClaim),
            Check::OneOf("result", Choice::ArtifactResult),
            Check::Integer("artifactCount", 0, 64),
            Check::OptionalId("manifestPath", IdKind::SafeRelPath),
            Check::OptionalId("manifestSha256", IdKind::H256),
            Check::Rule(Rule::ArtifactResult),
            Check::Timestamp("completedAtMs"),
        ],
        EventType::ArtifactClaimFailed => seq![
            Check::Id("artifactClaimId", IdKind::ArtifactClaim),
            Check::OneOf("reason", Choice::ArtifactFailure),
            Check::OptionalInteger("failedControlIndex", 0, 63),
            Check::Typed("providerReceipt", "providerReceipt"),
            Check::Timestamp("failedAtMs"),
        ],
        EventType::TerminalPersisted => seq![
            Check::Id("requestId", IdKind::Request),
            Check::Id("answerTerminalEventId", IdKind::Event),
            Check::IdArray("artifactClaimEventIds", IdKind::Event, 0, 16),
            Check::Id("outputPath", IdKind::SafeRelPath),
            Check::Timestamp("persistedAtMs"),
        ],
        EventType::OutputPublished => seq![
            Check::Id("requestId", IdKind::Request),
            Check::Id("outputPath", IdKind::SafeRelPath),
            Check::Id("outputSha256", IdKind::H256),
            Check::Timestamp("publishedAtMs"),
        ],
        EventType::OutputPublishFailed => seq![
            Check::Id("requestId", IdKind::Request),
            Check::NonEmpty("reason"),
            Check::Timestamp("failedAtMs"),
        ],
        EventType::ReleaseStarted => seq![
            Check::Id("releaseId", IdKind::Release),
            Check::OneOf("subjectKind", Choice::SubjectKind),
            Check::NonEmpty("subjectId"),
            Check::OneOf("reason", Choice::ReleaseReason),
            Check::Timestamp("startedAtMs"),
        ],
        EventType::ReleaseEvidencePreserved => seq![
            Check::Id("releaseId", IdKind::Release),
            Check::Id("evidenceManifestPath", IdKind::SafeRelPath),
            Check::Id("evidenceManifestSha256", IdKind::H256),
            Check::Timestamp("preservedAtMs"),
        ],
        EventType::RuntimeTakeoverProven => seq![
            Check::Id("releaseId", IdKind::Release),
            Check::Id("slotId", IdKind::Slot),
            Check::Id("priorOwnerId", IdKind::Owner),
            Check::Integer("priorGeneration", 1, 65535),
            Check::Id("newOwnerId", IdKind::Owner),
            Check::Integer("newGeneration", 1, 65535),
            Check::Typed("deadOwnerProof", "deadOwnerProof"),
            Check::Typed("DeadOwnerProof", "DeadOwnerProof"),
            Check::Typed("takeover owner", "takeover proof binding"),
            Check::Rule(Rule::NextGeneration),
            Check::Timestamp("provenAtMs"),
            Check::Typed("takeover time", "takeover proof binding"),
        ],
        EventType::RuntimeStopStarted => seq![
            Check::Id("releaseId", IdKind::Release),
            Check::Id("runtimeOwnerId", IdKind::Owner),
            Check::Integer("ownerGeneration", 1, 65535),
            Check::Duration("stopTimeoutMs"),
            Check::Timestamp("startedAtMs"),
        ],
        EventType::RuntimeStopped => seq![
            Check::Id("releaseId", IdKind::Release),
            Check::Id("runtimeOwnerId", IdKind::Owner),
            Check::Integer("ownerGeneration", 1, 65535),
            Check::Timestamp("stoppedAtMs"),
            Check::OneOf("dockerStatus", Choice::Docker),
            Check::Typed("stopReceipt", "stopReceipt"),
        ],
        EventType::RuntimeStopFailed => seq![
            Check::Id("releaseId", IdKind::Release),
            Check::Id("runtimeOwnerId", IdKind::Owner),
            Check::Integer("ownerGeneration", 1, 65535),
            Check::Timestamp("failedAtMs"),
            Check::OneOf("dockerStatus", Choice::Docker),
            Check::Typed("failureReceipt", "failureReceipt"),
            Check::NonEmpty("reason"),
        ],
        EventType::RuntimeStopSkipped => seq![
            Check::Id("releaseId", IdKind::Release),
            Check::OptionalId("runtimeOwnerId", IdKind::Owner),
            Check::OneOf("reason", Choice::StopSkipReason),
            Check::Typed("proofAttempt", "proofAttempt"),
            Check::Typed("DeadOwnerProof", "DeadOwnerProof"),
            Check::Rule(Rule::StopSkippedNullability),
            Check::Timestamp("skippedAtMs"),
        ],
        EventType::ReleaseCleanupStarted => seq![
            Check::Id("releaseId", IdKind::Release),
            Check::Timestamp("startedAtMs"),
        ],
        EventType::ReleaseCleanupFailed => seq![
            Check::Id("releaseId", IdKind::Release),
            Check::NonEmpty("reason"),
            Check::Timestamp("failedAtMs"),
        ],
        EventType::SessionOperationClaimReleased => seq![
            Check::Id("claimId", IdKind::Claim),
            Check::Integer("claimGeneration", 1, 65535),
            Check::Id("releaseId", IdKind::Release),
            Check::Timestamp("releasedAtMs"),
        ],
        EventType::RequestClaimReleased => seq![
            Check::Id("claimId", IdKind::Claim),
            Check::Integer("claimGeneration", 1, 65535),
            Check::Id("releaseId", IdKind::Release),
            Check::Timestamp("releasedAtMs"),
        ],
        EventType::SlotLeaseReleased => seq![
            Check::Id("leaseId", IdKind::Lease),
            Check::Integer("leaseGeneration", 1, 65535),
            Check::Id("releaseId", IdKind::Release),
            Check::Timestamp("releasedAtMs"),
        ],
        EventType::RuntimeOwnershipReleased => seq![
            Check::Id("runtimeOwnerId", IdKind::Owner),
            Check::Integer("ownerGeneration", 1, 65535),
            Check::Id("releaseId", IdKind::Release),
            Check::OneOf("runtimeOutcome", Choice::RuntimeOutcome),
            Check::Timestamp("releasedAtMs"),
        ],
        EventType::ReleaseCleanupCommitted => seq![
            Check::Id("releaseId", IdKind::Release),
            Check::OneOf("requestClaimReleaseMode", Choice::ReleaseMode),
            Check::OneOf("sessionClaimReleaseMode", Choice::ReleaseMode),
            Check::OneOf("leaseReleaseMode", Choice::ReleaseMode),
            Check::OneOf("ownerReleaseMode", Choice::ReleaseMode),
            Check::Timestamp("committedAtMs"),
        ],
        EventType::SlotStandbyWritten => seq![
            Check::Id("slotId", IdKind::Slot),
            Check::Id("releaseId", IdKind::Release),
            Check::Boolean("allocatable"),
            Check::OptionalTimestamp("cooldownUntilMs"),
            Check::Rule(Rule::StandbyCooldown),
            Check::Timestamp("writtenAtMs"),
        ],
        EventType::ReleaseCooldownBlocked => seq![
            Check::Id("releaseId", IdKind::Release),
            Check::Id("slotId", IdKind::Slot),
            Check::Timestamp("cooldownUntilMs"),
            Check::Timestamp("blockedAtMs"),
            Check::Rule(Rule::CooldownInterval),
        ],
        EventType::CooldownCleared => seq![
            Check::Id("slotId", IdKind::Slot),
            Check::Timestamp("clearedAtMs"),
        ],
        EventType::ReleaseFinalized => seq![
            Check::Id("releaseId", IdKind::Release),
            Check::OneOf("finalStatus", Choice::FinalStatus),
            Check::Boolean("allocatable"),
            Check::Rule(Rule::FinalStatus),
            Check::Timestamp("finalizedAtMs"),
        ],
        EventType::SnapshotPublished => seq![
            Check::NonEmpty("projectionName"),
            Check::Id("snapshotPath", IdKind::SafeRelPath),
            Check::Id("lastEventId", IdKind::Event),
            Check::Id("projectionDigest", IdKind::H256),
            Check::Id("snapshotSha256", IdKind::H256),
            Check::Timestamp("publishedAtMs"),
        ],
        EventType::SnapshotRejected => seq![
            Check::NonEmpty("projectionName"),
            Check::Id("snapshotPath", IdKind::SafeRelPath),
            Check::NonEmpty("reason"),
            Check::OptionalId("expectedDigest", IdKind::H256),
            Check::OptionalId("observedDigest", IdKind::H256),
            Check::Timestamp("rejectedAtMs"),
        ],
        EventType::QaMatrixRecorded => seq![
            Check::Id("qaRunId", IdKind::Operation),
            Check::Integer("matrixIteration", 1, 3),
            Check::Id("sourceFingerprint", IdKind::H256),
            Check::Id("evidenceDigest", IdKind::H256),
            Check::Integer("casesPassed", 0, 64),
            Check::Integer("casesTotal", 1, 64),
            Check::Rule(Rule::QaCounts),
            Check::Timestamp("recordedAtMs"),
        ],
        EventType::QaRepeatRecorded => seq![
            Check::Id("qaRunId", IdKind::Operation),
            Check::NonEmpty("caseId"),
            Check::Integer("repetitionIndex", 1, 10),
            Check::Id("sourceFingerprint", IdKind::H256),
            Check::Boolean("passed"),
            Check::Timestamp("recordedAtMs"),
        ],
        EventType::QaCountersReset => seq![
            Check::Id("qaRunId", IdKind::Operation),
            Check::NonEmpty("reason"),
            Check::Id("sourceFingerprint", IdKind::H256),
            Check::OneOf("scope", Choice::Scope),
            Check::Rule(Rule::QaScope),
            Check::Timestamp("resetAtMs"),
        ],
    }
}

/// The rules of an event type's payload, in the order they are checked.
pub fn checks_for(t: EventType) -> (v: Vec<Check>)
    ensures
        v@ == checks_of(t),
{
    match t {
        EventType::RequestAccepted => vec![
            Check::Id("requestId", IdKind::Request),
            Check::OneOf("kind", Choice::Kind),
            Check::Id("promptSha256", IdKind::H256),
            Check::Bytes("promptSizeBytes"),
            Check::Integer("attachmentCount", 0, 64),
            Check::OneOf("artifactExpectation", Choice::Expectation),
            Check::Timestamp("acceptedAtMs"),
        ],
        EventType::RequestClaimGranted => vec![
            Check::Id("claimId", IdKind::Claim),
            Check::Id("requestId", IdKind::Request),
            Check::Integer("claimGeneration", 1, 1),
            Check::Integer("ttlMs", 300000, 300000),
            Check::Timestamp("grantedAtMs"),
            Check::Timestamp("renewAtMs"),
            Check::Timestamp("expiresAtMs"),
            Check::Rule(Rule::CasSpacing("grantedAtMs")),
            Check::Id("fencingTokenSha256", IdKind::H256),
        ],
        EventType::RequestClaimRenewed => vec![
            Check::Id("claimId", IdKind::Claim),
            Check::Integer("claimGeneration", 1, 65535),
            Check::Integer("renewalRevision", 2, 65535),
            Check::Timestamp("renewedAtMs"),
            Check::Timestamp("renewAtMs"),
            Check::Timestamp("expiresAtMs"),
            Check::Rule(Rule::CasSpacing("renewedAtMs")),
        ],
        EventType::HostAttachmentsStaged => vec![
            Check::Id("requestId", IdKind::Request),
            Check::Rule(Rule::RunIdPresent),
            Check::Typed("attachmentSet", "attachmentSet"),
            Check::Timestamp("stagedAtMs"),
        ],
        EventType::AllocationCandidateObserved => vec![
            Check::Id("requestId", IdKind::Request),
            Check::Integer("scanOrdinal", 0, 9),
            Check::Id("cohort", IdKind::Cohort),
            Check::Id("slotId", IdKind::Slot),
            Check::Rule(Rule::Cohort("slotId", "cohort", "allocation cohort/slot")),
            Check::Integer("cohortCursorBefore", 0, 2),
            Check::Integer("withinCursorBefore", 0, 3),
            Check::OneOf("decision", Choice::Decision),
            Check::Rule(Rule::SkipReason),
            Check::Timestamp("observedAtMs"),
        ],
        EventType::AllocationExhausted => vec![
            Check::Id("requestId", IdKind::Request),
            Check::Integer("scanOrdinalCount", 10, 10),
            Check::Timestamp("observedAtMs"),
        ],
        EventType::SlotLeaseGranted => vec![
            Check::Id("leaseId", IdKind::Lease),
            Check::Id("claimId", IdKind::Claim),
            Check::Id("slotId", IdKind::Slot),
            Check::Id("cohort", IdKind::Cohort),
            Check::Rule(Rule::Cohort("slotId", "cohort", "lease cohort")),
            Check::Integer("cohortCursorBefore", 0, 2),
            Check::Integer("withinCursorBefore", 0, 3),
            Check::Integer("cohortCursorAfter", 0, 2),
            Check::Integer("withinCursorAfter", 0, 3),
            Check::Integer("leaseGeneration", 1, 1),
            Check::OneOf("reason", Choice::LeaseReason),
            Check::Timestamp("grantedAtMs"),
            Check::Timestamp("renewAtMs"),
            Check::Timestamp("expiresAtMs"),
            Check::Rule(Rule::CasSpacing("grantedAtMs")),
            Check::Id("fencingTokenSha256", IdKind::H256),
        ],
        EventType::SlotLeaseRenewed => vec![
            Check::Id("leaseId", IdKind::Lease),
            Check::Integer("leaseGeneration", 1, 65535),
            Check::Integer("renewalRevision", 2, 65535),
            Check::Timestamp("renewedAtMs"),
            Check::Timestamp("renewAtMs"),
            Check::Timestamp("expiresAtMs"),
            Check::Rule(Rule::CasSpacing("renewedAtMs")),
        ],
        EventType::RuntimeOwnershipGranted => vec![
            Check::Id("runtimeOwnerId", IdKind::Owner),
            Check::Id("slotId", IdKind::Slot),
            Check::Id("leaseId", IdKind::Lease),
            Check::Integer("ownerGeneration", 1, 65535),
            Check::Id("runtimeIncarnationId", IdKind::RuntimeIncarnation),
            Check::OneOf("dockerStatus", Choice::Docker),
            Check::Typed("startReceipt", "startReceipt"),
            Check::Timestamp("grantedAtMs"),
            Check::Timestamp("renewAtMs"),
            Check::Timestamp("expiresAtMs"),
            Check::Rule(Rule::CasSpacing("grantedAtMs")),
            Check::Id("fencingTokenSha256", IdKind::H256),
        ],
        EventType::RuntimeOwnershipAdopted => vec![
            Check::Id("runtimeOwnerId", IdKind::Owner),
            Check::Id("slotId", IdKind::Slot),
            Check::Id("leaseId", IdKind::Lease),
            Check::Integer("ownerGeneration", 1, 65535),
            Check::Id("runtimeIncarnationId", IdKind::RuntimeIncarnation),
            Check::OneOf("dockerStatus", Choice::Docker),
            Check::Typed("adoptionProof", "adoptionProof"),
            Check::Timestamp("adoptedAtMs"),
            Check::Timestamp("renewAtMs"),
            Check::Timestamp("expiresAtMs"),
            Check::Rule(Rule::CasSpacing("adoptedAtMs")),
            Check::Id("fencingTokenSha256", IdKind::H256),
        ],
        EventType::RuntimeOwnershipRenewed => vec![
            Check::Id("runtimeOwnerId", IdKind::Owner),
            Check::Integer("ownerGeneration", 1, 65535),
            Check::Integer("renewalRevision", 2, 65535),
            Check::Timestamp("renewedAtMs"),
            Check::Timestamp("renewAtMs"),
            Check::Timestamp("expiresAtMs"),
            Check::Rule(Rule::CasSpacing("renewedAtMs")),
        ],
        EventType::SlotHealthProbeStarted => vec![
            Check::Id("slotId", IdKind::Slot),
            Check::Id("probeId", IdKind::Operation),
            Check::OneOf("dockerStatus", Choice::Docker),
            Check::Integer("deadlineMs", 15000, 15000),
            Check::Integer("retryIndex", 0, 1),
            Check::Timestamp("startedAtMs"),
        ],
        EventType::SlotHealthObserved => vec![
            Check::Id("slotId", IdKind::Slot),
            Check::Id("probeId", IdKind::Operation),
            Check::Health("healthStatus"),
            Check::OneOf("dockerStatus", Choice::Docker),
            Check::Duration("cooldownMs"),
            Check::Boolean("allocatable"),
            Check::Typed("evidenceRefs", "evidenceRefs"),
            Check::Timestamp("observedAtMs"),
        ],
        EventType::RootCaptureStarted => vec![
            Check::Id("requestId", IdKind::Request),
            Check::Id("captureOperationId", IdKind::Operation),
            Check::Id("slotId", IdKind::Slot),
            Check::Timestamp("startedAtMs"),
        ],
        EventType::RootCaptureObserved => vec![
            Check::Id("requestId", IdKind::Request),
            Check::Id("captureOperationId", IdKind::Operation),
            Check::Typed("rootBindingCandidate", "rootBindingCandidate"),
            Check::Id("bindingId", IdKind::Binding),
            Check::Integer("bindingGeneration", 1, 1),
            Check::Typed("pageBinding", "pageBinding"),
            Check::Typed("root page binding", "root page binding"),
            Check::Timestamp("observedAtMs"),
        ],
        EventType::RootCaptureFailed => vec![
            Check::Id("requestId", IdKind::Request),
            Check::Id("captureOperationId", IdKind::Operation),
            Check::OneOf("reason", Choice::CaptureFailure),
            Check::Typed("providerReceipt", "providerReceipt"),
            Check::Timestamp("failedAtMs"),
        ],
        EventType::ModelSelectionStarted => vec![
            Check::Id("requestId", IdKind::Request),
            Check::Id("modelOperationId", IdKind::Operation),
            Check::Typed("requestedModel", "requestedModel"),
            Check::Typed("requestedEffort", "requestedEffort"),
            Check::Typed("model tuple", "model tuple"),
            Check::Timestamp("startedAtMs"),
        ],
        EventType::ModelSelectionVerified => vec![
            Check::Id("requestId", IdKind::Request),
            Check::Id("modelOperationId", IdKind::Operation),
            Check::Typed("modelProof parsed", "modelProof"),
            Check::Typed("effortProof parsed", "effortProof"),
            Check::Typed("modelProof", "modelProof"),
            Check::Typed("effortProof", "effortProof"),
            Check::Typed("model proof tuple", "model proof tuple"),
            Check::Null("failureProof"),
            Check::Timestamp("verifiedAtMs"),
        ],
        EventType::ModelSelectionFailed => vec![
            Check::Id("requestId", IdKind::Request),
            Check::Id("modelOperationId", IdKind::Operation),
            Check::Null("modelProof"),
            Check::Null("effortProof"),
            Check::NonEmpty("reason"),
            Check::Typed("failureProof parsed", "failureProof"),
            Check::Typed("providerReceipt", "providerReceipt"),
            Check::Typed("ModelSelectionFailed proof", "ModelSelectionFailed proof"),
            Check::Typed("failureProof", "failureProof"),
            Check::Rule(Rule::SchemaDriftReceipt),
            Check::Timestamp("failedAtMs"),
        ],
        EventType::SlotAttachmentsMaterialized => vec![
            Check::Id("requestId", IdKind::Request),
            Check::Id("slotId", IdKind::Slot),
            Check::Id("attachmentSetSha256", IdKind::H256),
            Check::Id("containerMountRoot", IdKind::SafeRelPath),
            Check::Rule(Rule::MaterializedFiles),
            Check::Timestamp("materializedAtMs"),
        ],
        EventType::UploadStarted => vec![
            Check::Id("requestId", IdKind::Request),
            Check::Id("uploadAttemptId", IdKind::Operation),
            Check::Integer("retryIndex", 0, 1),
            Check::Id("expectedSetSha256", IdKind::H256),
            Check::Id("expectedBindingHash", IdKind::H256),
            Check::Timestamp("startedAtMs"),
        ],
        EventType::UploadMismatchObserved => vec![
            Check::Id("requestId", IdKind::Request),
            Check::Id("uploadAttemptId", IdKind::Operation),
            Check::Typed("uploadProof", "uploadProof"),
            Check::Typed("upload mismatch binding", "upload mismatch binding"),
            Check::Literal("reason", "upload.stale_chip_mismatch"),
            Check::Timestamp("observedAtMs"),
        ],
        EventType::UploadCleared => vec![
            Check::Id("requestId", IdKind::Request),
            Check::Id("uploadAttemptId", IdKind::Operation),
            Check::Id("clearAttemptId", IdKind::Operation),
            Check::Rule(Rule::ClearedChips),
            Check::Typed("providerReceipt", "providerReceipt"),
            Check::Timestamp("clearedAtMs"),
        ],
        EventType::UploadCompleted => vec![
            Check::Id("requestId", IdKind::Request),
            Check::Id("uploadAttemptId", IdKind::Operation),
            Check::Integer("retryIndex", 0, 1),
            Check::Typed("uploadProof", "uploadProof"),
            Check::Typed("UploadCompleted proof", "UploadCompleted proof"),
            Check::Typed("providerReceipt", "providerReceipt"),
            Check::Timestamp("completedAtMs"),
        ],
        EventType::UploadFailed => vec![
            Check::Id("requestId", IdKind::Request),
            Check::Id("uploadAttemptId", IdKind::Operation),
            Check::Integer("retryIndex", 0, 1),
            Check::OneOf("reason", Choice::UploadFailure),
            Check::Typed("providerReceipt", "providerReceipt"),
            Check::Timestamp("failedAtMs"),
        ],
        EventType::SendClickArmed => vec![
            Check::Id("requestId", IdKind::Request),
            Check::Id("sendAttemptId", IdKind::Operation),
            Check::Id("uploadAttemptId", IdKind::Operation),
            Check::Id("expectedBindingHash", IdKind::H256),
            Check::Id("promptSha256", IdKind::H256),
            Check::Id("preClickReceiptPath", IdKind::SafeRelPath),
            Check::Id("postClickReceiptPath", IdKind::SafeRelPath),
            Check::Id("reconcileReceiptPath", IdKind::SafeRelPath),
            Check::Integer("clickBudget", 1, 1),
            Check::Timestamp("armedAtMs"),
        ],
        EventType::SendClicked => vec![
            Check::Id("requestId", IdKind::Request),
            Check::Id("sendAttemptId", IdKind::Operation),
            Check::Typed("preClickReceipt", "preClickReceipt"),
            Check::Typed("postClickReceipt", "postClickReceipt"),
            Check::Typed("send receipt pair", "send receipt pair"),
            Check::Typed("send receipt binding", "send receipt binding"),
            Check::Integer("physicalClickCount", 1, 1),
            Check::Timestamp("clickedAtMs"),
        ],
        EventType::SendReconciled => vec![
            Check::Id("requestId", IdKind::Request),
            Check::Id("sendAttemptId", IdKind::Operation),
            Check::Typed("preClickReceipt", "preClickReceipt"),
            Check::Typed("reconciledReceipt", "reconciledReceipt"),
            Check::Typed("send receipt pair", "send receipt pair"),
            Check::Typed("send receipt binding", "send receipt binding"),
            Check::Integer("physicalClickCount", 0, 0),
            Check::Timestamp("reconciledAtMs"),
        ],
        EventType::SendUncertain => vec![
            Check::Id("requestId", IdKind::Request),
            Check::Id("sendAttemptId", IdKind::Operation),
            Check::Literal("reason", "send.turn_not_proven"),
            Check::Timestamp("blockedAtMs"),
        ],
        EventType::SendFailed => vec![
            Check::Id("requestId", IdKind::Request),
            Check::Id("sendAttemptId", IdKind::Operation),
            Check::OneOf("reason", Choice::SendFailure),
            Check::Typed("providerReceipt", "providerReceipt"),
            Check::Timestamp("failedAtMs"),
        ],
        EventType::TurnStartConfirmed => vec![
            Check::Id("requestId", IdKind::Request),
            Check::Id("sessionId", IdKind::Session),
            Check::Rule(Rule::ConversationUrl("sessionId")),
            Check::Id("userTurnId", IdKind::Turn),
            Check::Id("assistantTurnId", IdKind::Turn),
            Check::Timestamp("confirmedAtMs"),
        ],
        EventType::SessionBindingEstablished => vec![
            Check::Id("sessionId", IdKind::Session),
            Check::Id("sessionBindingId", IdKind::Binding),
            Check::Rule(Rule::ConversationUrl("sessionId")),
            Check::Id("slotId", IdKind::Slot),
            Check::Id("cohort", IdKind::Cohort),
            Check::Rule(Rule::Cohort("slotId", "cohort", "session cohort")),
            Check::Id("pageBindingId", IdKind::Binding),
            Check::Integer("pageBindingGeneration", 1, 1),
            Check::Id("targetId", IdKind::Target),
            Check::Id("pageIncarnationId", IdKind::PageIncarnation),
            Check::Id("runtimeOwnerId", IdKind::Owner),
            Check::Timestamp("establishedAtMs"),
        ],
        EventType::RunningProjected => vec![
            Check::Id("requestId", IdKind::Request),
            Check::Id("sessionId", IdKind::Session),
            Check::Id("sessionBindingId", IdKind::Binding),
            Check::Flag("activeTurn"),
            Check::Timestamp("projectedAtMs"),
        ],
        EventType::SessionOperationClaimGranted => vec![
            Check::Id("claimId", IdKind::Claim),
            Check::Id("sessionId", IdKind::Session),
            Check::OneOf("operationKind", Choice::Operation),
            Check::Id("expectedSlotId", IdKind::Slot),
            Check::Id("expectedCohort", IdKind::Cohort),
            Check::Rule(Rule::Cohort("expectedSlotId", "expectedCohort", "session claim cohort")),
            Check::OptionalInteger("expectedRuntimeOwnerGeneration", 1, 65535),
            Check::OptionalId("requestId", IdKind::Request),
            Check::OptionalId("runId", IdKind::Run),
            Check::Rule(Rule::SessionClaimBinding),
            Check::Integer("ttlMs", 300000, 300000),
            Check::Timestamp("grantedAtMs"),
            Check::Timestamp("renewAtMs"),
            Check::Timestamp("expiresAtMs"),
            Check::Rule(Rule::CasSpacing("grantedAtMs")),
            Check::Id("fencingTokenSha256", IdKind::H256),
        ],
        EventType::SessionOperationClaimRenewed => vec![
            Check::Id("claimId", IdKind::Claim),
            Check::Integer("claimGeneration", 1, 65535),
            Check::Integer("renewalRevision", 2, 65535),
            Check::Timestamp("renewedAtMs"),
            Check::Timestamp("renewAtMs"),
            Check::Timestamp("expiresAtMs"),
            Check::Rule(Rule::CasSpacing("renewedAtMs")),
        ],
        EventType::PersistedSessionLeaseGranted => vec![
            Check::Id("leaseId", IdKind::Lease),
            Check::Id("claimId", IdKind::Claim),
            Check::Id("slotId", IdKind::Slot),
            Check::Id("cohort", IdKind::Cohort),
            Check::Rule(Rule::Cohort("slotId", "cohort", "lease cohort")),
            Check::Integer("leaseGeneration", 1, 1),
            Check::Literal("reason", "persisted_session"),
            Check::Timestamp("grantedAtMs"),
            Check::Timestamp("renewAtMs"),
            Check::Timestamp("expiresAtMs"),
            Check::Rule(Rule::CasSpacing("grantedAtMs")),
            Check::Id("fencingTokenSha256", IdKind::H256),
        ],
        EventType::SessionRuntimeOwnershipGranted => vec![
            Check::Id("runtimeOwnerId", IdKind::Owner),
            Check::Id("sessionId", IdKind::Session),
            Check::Id("slotId", IdKind::Slot),
            Check::Id("leaseId", IdKind::Lease),
            Check::Integer("ownerGeneration", 1, 65535),
            Check::Id("runtimeIncarnationId", IdKind::RuntimeIncarnation),
            Check::OneOf("dockerStatus", Choice::Docker),
            Check::Typed("startReceipt", "startReceipt"),
            Check::Timestamp("grantedAtMs"),
            Check::Timestamp("renewAtMs"),
            Check::Timestamp("expiresAtMs"),
            Check::Rule(Rule::CasSpacing("grantedAtMs")),
            Check::Id("fencingTokenSha256", IdKind::H256),
        ],
        EventType::SessionRuntimeOwnershipAdopted => vec![
            Check::Id("runtimeOwnerId", IdKind::Owner),
            Check::Id("sessionId", IdKind::Session),
            Check::Id("slotId", IdKind::Slot),
            Check::Id("leaseId", IdKind::Lease),
            Check::Integer("ownerGeneration", 1, 65535),
            Check::Id("runtimeIncarnationId", IdKind::RuntimeIncarnation),
            Check::OneOf("dockerStatus", Choice::Docker),
            Check::Typed("adoptionProof", "adoptionProof"),
            Check::Timestamp("adoptedAtMs"),
            Check::Timestamp("renewAtMs"),
            Check::Timestamp("expiresAtMs"),
            Check::Rule(Rule::CasSpacing("adoptedAtMs")),
            Check::Id("fencingTokenSha256", IdKind::H256),
        ],
        EventType::SessionRebindStarted => vec![
            Check::Id("sessionId", IdKind::Session),
            Check::OptionalId("sessionOperationClaimId", IdKind::Claim),
            Check::OneOf("operationKind", Choice::Operation),
            Check::Id("expectationSha256", IdKind::H256),
            Check::Integer("navigationAttemptLimit", 2, 2),
            Check::Integer("hydrationDeadlineMs", 90000, 90000),
            Check::Timestamp("startedAtMs"),
        ],
        EventType::SessionRebound => vec![
            Check::Id("sessionId", IdKind::Session),
            Check::Typed("expectation", "expectation"),
            Check::Typed("observedEcho", "observedEcho"),
            Check::Integer("pageBindingGeneration", 1, 65535),
            Check::Typed("rebound session", "SessionRebound binding"),
            Check::Typed("page binding generation", "page binding generation"),
            Check::Typed("SessionRebound binding", "SessionRebound binding"),
            Check::Typed("providerReceipt", "providerReceipt"),
            Check::Timestamp("reboundAtMs"),
        ],
        EventType::SessionHydrationObserved => vec![
            Check::Id("sessionId", IdKind::Session),
            Check::Typed("hydrationObservation", "hydrationObservation"),
            Check::Typed("hydration session", "hydration observation echo"),
            Check::Integer("sequenceIndex", 0, 49),
            Check::Typed("hydration sequence", "hydration observation echo"),
            Check::Duration("remainingDeadlineMs"),
            Check::Typed("hydration deadline", "hydration observation echo"),
            Check::Timestamp("observedAtMs"),
            Check::Typed("hydration time", "hydration observation echo"),
        ],
        EventType::SessionHydrated => vec![
            Check::Id("sessionId", IdKind::Session),
            Check::Integer("observations", 1, 50),
            Check::Boolean("terminalVisible"),
            Check::Boolean("activeGeneration"),
            Check::Boolean("contentUnavailable"),
            Check::Rule(Rule::HydratedOutcome),
            Check::Typed("finalObservation", "finalObservation"),
            Check::Typed("SessionHydrated final observation", "SessionHydrated final observation"),
            Check::Timestamp("hydratedAtMs"),
        ],
        EventType::SessionOperationFailed => vec![
            Check::Id("sessionId", IdKind::Session),
            Check::OptionalId("sessionOperationClaimId", IdKind::Claim),
            Check::OneOf("operationKind", Choice::Operation),
            Check::OneOf("stage", Choice::Stage),
            Check::OneOf("reason", Choice::SessionFailure),
            Check::Typed("providerReceipt", "providerReceipt"),
            Check::Timestamp("failedAtMs"),
        ],
        EventType::PollStarted => vec![
            Check::Id("requestId", IdKind::Request),
            Check::Id("pollAttemptId", IdKind::Operation),
            Check::Id("sessionId", IdKind::Session),
            Check::Integer("pollTimeoutSeconds", 1, 10800),
            Check::Timestamp("startedAtMs"),
        ],
        EventType::PollProgress => vec![
            Check::Id("requestId", IdKind::Request),
            Check::Id("pollAttemptId", IdKind::Operation),
            Check::NonEmpty("providerStatus"),
            Check::Boolean("activeGeneration"),
            Check::Integer("sequenceIndex", 0, 65535),
            Check::Typed("pollReceipt", "pollReceipt"),
            Check::Timestamp("observedAtMs"),
        ],
        EventType::PollFailed => vec![
            Check::Id("requestId", IdKind::Request),
            Check::Id("pollAttemptId", IdKind::Operation),
            Check::OneOf("reason", Choice::PollFailure),
            Check::Typed("providerReceipt", "providerReceipt"),
            Check::Timestamp("failedAtMs"),
        ],
        EventType::AnswerTerminal => vec![
            Check::Id("requestId", IdKind::Request),
            Check::Id("pollAttemptId", IdKind::Operation),
            Check::Id("sessionId", IdKind::Session),
            Check::Id("answerPath", IdKind::SafeRelPath),
            Check::Id("answerSha256", IdKind::H256),
            Check::Bytes("answerSizeBytes"),
            Check::Id("terminalAssistantTurnId", IdKind::Turn),
            Check::Typed("pollReceipt", "pollReceipt"),
            Check::Timestamp("terminalAtMs"),
        ],
        EventType::ArtifactClaimEstablished => vec![
            Check::Id("artifactClaimId", IdKind::ArtifactClaim),
            Check::Id("sessionId", IdKind::Session),
            Check::OptionalId("requestId", IdKind::Request),
            Check::OneOf("expectation", Choice::Expectation),
            Check::Id("terminalAssistantTurnId", IdKind::Turn),
            Check::Timestamp("establishedAtMs"),
        ],
        EventType::ArtifactControlsAbsent => vec![
            Check::Id("artifactClaimId", IdKind::ArtifactClaim),
            Check::Typed("zeroControlProof", "zeroControlProof"),
            Check::Typed("providerReceipt", "providerReceipt"),
            Check::Timestamp("observedAtMs"),
        ],
        EventType::ArtifactControlsDiscovered => vec![
            Check::Id("artifactClaimId", IdKind::ArtifactClaim),
            Check::ArrayLen("controls", 1, 64),
            Check::Integer("controlCount", 1, 64),
            Check::Rule(Rule::ControlCount),
            Check::Typed("ArtifactControl", "ArtifactControl"),
            Check::Typed("duplicate ArtifactControl", "duplicate ArtifactControl"),
            Check::Typed("bottomProof", "bottomProof"),
            Check::Typed("providerReceipt", "providerReceipt"),
            Check::Timestamp("discoveredAtMs"),
        ],
        EventType::ArtifactDownloadAttemptConsumed => vec![
            Check::Id("artifactClaimId", IdKind::ArtifactClaim),
            Check::Id("attemptId", IdKind::Operation),
            Check::Integer("controlIndex", 0, 63),
            Check::Id("controlId", IdKind::Control),
            Check::Typed("artifactBaseline", "artifactBaseline"),
            Check::Id("providerReceiptPath", IdKind::SafeRelPath),
            Check::Id("hostSaveDirectory", IdKind::SafeRelPath),
            Check::Integer("clickBudget", 1, 1),
            Check::Timestamp("attemptConsumedAtMs"),
        ],
        EventType::ArtifactRecoveryCandidateObserved => vec![
            Check::Id("artifactClaimId", IdKind::ArtifactClaim),
            Check::Id("attemptId", IdKind::Operation),
            Check::Id("candidateRelPath", IdKind::SafeRelPath),
            Check::Bytes("sizeBytes"),
            Check::Id("sha256", IdKind::H256),
            Check::Integer("stableObservations", 2, 2),
            Check::Timestamp("observedAtMs"),
        ],
        EventType::ArtifactDownloadCompleted => vec![
            Check::Id("artifactClaimId", IdKind::ArtifactClaim),
            Check::Id("attemptId", IdKind::Operation),
            Check::Integer("controlIndex", 0, 63),
            Check::Id("artifactId", IdKind::Artifact),
            Check::Typed("downloadReceipt", "downloadReceipt"),
            Check::Typed("download receipt identity", "download receipt identity"),
            Check::Timestamp("completedAtMs"),
        ],
        EventType::ArtifactClaimCompleted => vec![
            Check::Id("artifactClaimId", IdKind::ArtifactClaim),
            Check::OneOf("result", Choice::ArtifactResult),
            Check::Integer("artifactCount", 0, 64),
            Check::OptionalId("manifestPath", IdKind::SafeRelPath),
            Check::OptionalId("manifestSha256", IdKind::H256),
            Check::Rule(Rule::ArtifactResult),
            Check::Timestamp("completedAtMs"),
        ],
        EventType::ArtifactClaimFailed => vec![
            Check::Id("artifactClaimId", IdKind::ArtifactClaim),
            Check::OneOf("reason", Choice::ArtifactFailure),
            Check::OptionalInteger("failedControlIndex", 0, 63),
            Check::Typed("providerReceipt", "providerReceipt"),
            Check::Timestamp("failedAtMs"),
        ],
        EventType::TerminalPersisted => vec![
            Check::Id("requestId", IdKind::Request),
            Check::Id("answerTerminalEventId", IdKind::Event),
            Check::IdArray("artifactClaimEventIds", IdKind::Event, 0, 16),
            Check::Id("outputPath", IdKind::SafeRelPath),
            Check::Timestamp("persistedAtMs"),
        ],
        EventType::OutputPublished => vec![
            Check::Id("requestId", IdKind::Request),
            Check::Id("outputPath", IdKind::SafeRelPath),
            Check::Id("outputSha256", IdKind::H256),
            Check::Timestamp("publishedAtMs"),
        ],
        EventType::OutputPublishFailed => vec![
            Check::Id("requestId", IdKind::Request),
            Check::NonEmpty("reason"),
            Check::Timestamp("failedAtMs"),
        ],
        EventType::ReleaseStarted => vec![
            Check::Id("releaseId", IdKind::Release),
            Check::OneOf("subjectKind", Choice::SubjectKind),
            Check::NonEmpty("subjectId"),
            Check::OneOf("reason", Choice::ReleaseReason),
            Check::Timestamp("startedAtMs"),
        ],
        EventType::ReleaseEvidencePreserved => vec![
            Check::Id("releaseId", IdKind::Release),
            Check::Id("evidenceManifestPath", IdKind::SafeRelPath),
            Check::Id("evidenceManifestSha256", IdKind::H256),
            Check::Timestamp("preservedAtMs"),
        ],
        EventType::RuntimeTakeoverProven => vec![
            Check::Id("releaseId", IdKind::Release),
            Check::Id("slotId", IdKind::Slot),
            Check::Id("priorOwnerId", IdKind::Owner),
            Check::Integer("priorGeneration", 1, 65535),
            Check::Id("newOwnerId", IdKind::Owner),
            Check::Integer("newGeneration", 1, 65535),
            Check::Typed("deadOwnerProof", "deadOwnerProof"),
            Check::Typed("DeadOwnerProof", "DeadOwnerProof"),
            Check::Typed("takeover owner", "takeover proof binding"),
            Check::Rule(Rule::NextGeneration),
            Check::Timestamp("provenAtMs"),
            Check::Typed("takeover time", "takeover proof binding"),
        ],
        EventType::RuntimeStopStarted => vec![
            Check::Id("releaseId", IdKind::Release),
            Check::Id("runtimeOwnerId", IdKind::Owner),
            Check::Integer("ownerGeneration", 1, 65535),
            Check::Duration("stopTimeoutMs"),
            Check::Timestamp("startedAtMs"),
        ],
        EventType::RuntimeStopped => vec![
            Check::Id("releaseId", IdKind::Release),
            Check::Id("runtimeOwnerId", IdKind::Owner),
            Check::Integer("ownerGeneration", 1, 65535),
            Check::Timestamp("stoppedAtMs"),
            Check::OneOf("dockerStatus", Choice::Docker),
            Check::Typed("stopReceipt", "stopReceipt"),
        ],
        EventType::RuntimeStopFailed => vec![
            Check::Id("releaseId", IdKind::Release),
            Check::Id("runtimeOwnerId", IdKind::Owner),
            Check::Integer("ownerGeneration", 1, 65535),
            Check::Timestamp("failedAtMs"),
            Check::OneOf("dockerStatus", Choice::Docker),
            Check::Typed("failureReceipt", "failureReceipt"),
            Check::NonEmpty("reason"),
        ],
        EventType::RuntimeStopSkipped => vec![
            Check::Id("releaseId", IdKind::Release),
            Check::OptionalId("runtimeOwnerId", IdKind::Owner),
            Check::OneOf("reason", Choice::StopSkipReason),
            Check::Typed("proofAttempt", "proofAttempt"),
            Check::Typed("DeadOwnerProof", "DeadOwnerProof"),
            Check::Rule(Rule::StopSkippedNullability),
            Check::Timestamp("skippedAtMs"),
        ],
        EventType::ReleaseCleanupStarted => vec![
            Check::Id("releaseId", IdKind::Release),
            Check::Timestamp("startedAtMs"),
        ],
        EventType::ReleaseCleanupFailed => vec![
            Check::Id("releaseId", IdKind::Release),
            Check::NonEmpty("reason"),
            Check::Timestamp("failedAtMs"),
        ],
        EventType::SessionOperationClaimReleased => vec![
            Check::Id("claimId", IdKind::Claim),
            Check::Integer("claimGeneration", 1, 65535),
            Check::Id("releaseId", IdKind::Release),
            Check::Timestamp("releasedAtMs"),
        ],
        EventType::RequestClaimReleased => vec![
            Check::Id("claimId", IdKind::Claim),
            Check::Integer("claimGeneration", 1, 65535),
            Check::Id("releaseId", IdKind::Release),
            Check::Timestamp("releasedAtMs"),
        ],
        EventType::SlotLeaseReleased => vec![
            Check::Id("leaseId", IdKind::Lease),
            Check::Integer("leaseGeneration", 1, 65535),
            Check::Id("releaseId", IdKind::Release),
            Check::Timestamp("releasedAtMs"),
        ],
        EventType::RuntimeOwnershipReleased => vec![
            Check::Id("runtimeOwnerId", IdKind::Owner),
            Check::Integer("ownerGeneration", 1, 65535),
            Check::Id("releaseId", IdKind::Release),
            Check::OneOf("runtimeOutcome", Choice::RuntimeOutcome),
            Check::Timestamp("releasedAtMs"),
        ],
        EventType::ReleaseCleanupCommitted => vec![
            Check::Id("releaseId", IdKind::Release),
            Check::OneOf("requestClaimReleaseMode", Choice::ReleaseMode),
            Check::OneOf("sessionClaimReleaseMode", Choice::ReleaseMode),
            Check::OneOf("leaseReleaseMode", Choice::ReleaseMode),
            Check::OneOf("ownerReleaseMode", Choice::ReleaseMode),
            Check::Timestamp("committedAtMs"),
        ],
        EventType::SlotStandbyWritten => vec![
            Check::Id("slotId", IdKind::Slot),
            Check::Id("releaseId", IdKind::Release),
            Check::Boolean("allocatable"),
            Check::OptionalTimestamp("cooldownUntilMs"),
            Check::Rule(Rule::StandbyCooldown),
            Check::Timestamp("writtenAtMs"),
        ],
        EventType::ReleaseCooldownBlocked => vec![
            Check::Id("releaseId", IdKind::Release),
            Check::Id("slotId", IdKind::Slot),
            Check::Timestamp("cooldownUntilMs"),
            Check::Timestamp("blockedAtMs"),
            Check::Rule(Rule::CooldownInterval),
        ],
        EventType::CooldownCleared => vec![
            Check::Id("slotId", IdKind::Slot),
            Check::Timestamp("clearedAtMs"),
        ],
        EventType::ReleaseFinalized => vec![
            Check::Id("releaseId", IdKind::Release),
            Check::OneOf("finalStatus", Choice::FinalStatus),
            Check::Boolean("allocatable"),
            Check::Rule(Rule::FinalStatus),
            Check::Timestamp("finalizedAtMs"),
        ],
        EventType::SnapshotPublished => vec![
            Check::NonEmpty("projectionName"),
            Check::Id("snapshotPath", IdKind::SafeRelPath),
            Check::Id("lastEventId", IdKind::Event),
            Check::Id("projectionDigest", IdKind::H256),
            Check::Id("snapshotSha256", IdKind::H256),
            Check::Timestamp("publishedAtMs"),
        ],
        EventType::SnapshotRejected => vec![
            Check::NonEmpty("projectionName"),
            Check::Id("snapshotPath", IdKind::SafeRelPath),
            Check::NonEmpty("reason"),
            Check::OptionalId("expectedDigest", IdKind::H256),
            Check::OptionalId("observedDigest", IdKind::H256),
            Check::Timestamp("rejectedAtMs"),
        ],
        EventType::QaMatrixRecorded => vec![
            Check::Id("qaRunId", IdKind::Operation),
            Check::Integer("matrixIteration", 1, 3),
            Check::Id("sourceFingerprint", IdKind::H256),
            Check::Id("evidenceDigest", IdKind::H256),
            Check::Integer("casesPassed", 0, 64),
            Check::Integer("casesTotal", 1, 64),
            Check::Rule(Rule::QaCounts),
            Check::Timestamp("recordedAtMs"),
        ],
        EventType::QaRepeatRecorded => vec![
            Check::Id("qaRunId", IdKind::Operation),
            Check::NonEmpty("caseId"),
            Check::Integer("repetitionIndex", 1, 10),
            Check::Id("sourceFingerprint", IdKind::H256),
            Check::Boolean("passed"),
            Check::Timestamp("recordedAtMs"),
        ],
        EventType::QaCountersReset => vec![
            Check::Id("qaRunId", IdKind::Operation),
            Check::NonEmpty("reason"),
            Check::Id("sourceFingerprint", IdKind::H256),
            Check::OneOf("scope", Choice::Scope),
            Check::Rule(Rule::QaScope),
            Check::Timestamp("resetAtMs"),
        ],
    }
}


// ---------------------------------------------------------------- the payload rules

pub open spec fn opt_text(s: Option<String>) -> Option<Seq<char>> {
    match s {
        Some(x) => Some(x@),
        None => None,
    }
}

/// The message with which a payload fails the rules of its event type, or
/// `None` where it passes them all: the payload must be an object, and then
/// the first failing check of `checks_of` decides.
pub open spec fn semantics_error(
    event: EventHeader,
    payload: JsonValue,
    verdicts: Seq<(String, bool)>,
) -> Option<&'static str> {
    match payload {
        JsonValue::Object(entries) => first_failure(
            checks_of(event.event_type),
            entries@,
            opt_text(event.request_id),
            opt_text(event.run_id),
            verdicts,
            0,
        ),
        _ => Some("payload"),
    }
}

/// Holds a journal event's payload to the rules of its event type: field
/// types, identifier grammars, ranges, closed vocabularies, and the rules
/// that tie fields together and to the envelope's request and run ids.
///
/// Sub-objects that the rules parse into typed records (receipts, proofs,
/// observations, bindings) are judged separately: `verdicts` maps each
/// `Check::Typed` name to whether that step passed, and a name it lacks
/// counts as failed. The functions of `contracts::decode` give these
/// verdicts for the model-selection, root-capture, slot-health and artifact
/// events.
pub fn validate_payload_semantics(
    event: &EventHeader,
    payload: &JsonValue,
    verdicts: &Vec<(String, bool)>,
) -> (r: Result<(), EventError>)
    ensures
        match semantics_error(*event, *payload, verdicts@) {
            None => r is Ok,
            Some(m) => r == Err::<(), EventError>(EventError::Invalid(m)),
        },
{
    let entries = match payload {
        JsonValue::Object(entries) => entries,
        _ => return Err(EventError::Invalid("payload")),
    };
    let checks = checks_for(event.event_type);
    let request_id = match &event.request_id {
        Some(s) => Some(s.as_str()),
        None => None,
    };
    let run_id = match &event.run_id {
        Some(s) => Some(s.as_str()),
        None => None,
    };
    match first_problem(&checks, entries, request_id, run_id, verdicts) {
        Some(m) => Err(EventError::Invalid(m)),
        None => Ok(()),
    }
}

} // verus!
