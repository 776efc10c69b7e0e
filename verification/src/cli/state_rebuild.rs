use vstd::prelude::*;

use crate::contracts::cli::{lemma_builder_kinds_known, outcome_error, CommandOutcome, CommandOutcomeError};
use crate::contracts::ids::{derive_session_binding_id, IdError};
use crate::text::{concat3, str_eq};

use super::{is_usage, usage_error, LifecycleError};

verus! {

/// `state-rebuild` takes exactly `--json --check-only`.
pub fn state_rebuild_args(args: &[String]) -> (r: Result<(), LifecycleError>)
    ensures
        r is Ok <==> (args@.len() == 2 && args@[0]@ == "--json"@ && args@[1]@ == "--check-only"@),
        r is Err ==> is_usage(r, "state-rebuild requires exactly --json --check-only"@),
{
    if args.len() == 2 && str_eq(args[0].as_str(), "--json") && str_eq(args[1].as_str(), "--check-only") {
        Ok(())
    } else {
        Err(usage_error("state-rebuild requires exactly --json --check-only".to_string()))
    }
}

/// What a check-only rebuild saw of HEAD.
#[derive(Clone, Debug, PartialEq, Eq)]
pub enum RebuildHeadObservation {
    Stale(String),
    Match,
}

/// What a check-only rebuild saw of the snapshot HEAD names.
#[derive(Clone, Debug, PartialEq, Eq)]
pub enum SnapshotInspection {
    Absent,
    Trusted,
    Ignored(String),
}

/// Why a check-only rebuild failed, with its message.
#[derive(Clone, Debug, PartialEq, Eq)]
pub enum RebuildCheckError {
    EventInvalid(String),
    TransitionInvalid(String),
    DigestMismatch(String),
}

/// The result kind and message of a successful check.
pub open spec fn rebuild_result(head: RebuildHeadObservation, snapshot: SnapshotInspection) -> (
    Seq<char>,
    Seq<char>,
) {
    match (head, snapshot) {
        (RebuildHeadObservation::Stale(h), SnapshotInspection::Ignored(s)) => (
            "state_rebuild.head_stale"@,
            h@ + "; subordinate snapshot ignored: "@ + s@,
        ),
        (RebuildHeadObservation::Stale(h), _) => ("state_rebuild.head_stale"@, h@),
        (RebuildHeadObservation::Match, SnapshotInspection::Ignored(s)) => (
            "state_rebuild.snapshot_ignored"@,
            s@,
        ),
        (RebuildHeadObservation::Match, SnapshotInspection::Absent) => (
            "state_rebuild.match"@,
            "event replay, HEAD, and projections match; no snapshot is referenced"@,
        ),
        (RebuildHeadObservation::Match, SnapshotInspection::Trusted) => (
            "state_rebuild.match"@,
            "event replay, HEAD, projections, and trusted snapshot match"@,
        ),
    }
}

/// The outcome of a successful check-only rebuild.
pub fn rebuild_outcome(
    operation_id: &str,
    head: RebuildHeadObservation,
    snapshot: SnapshotInspection,
) -> (r: Result<CommandOutcome, CommandOutcomeError>)
    ensures
        r matches Ok(o) ==> o.envelope.result_kind@ == rebuild_result(head, snapshot).0
            && o.envelope.message@ == rebuild_result(head, snapshot).1 && o.envelope.reason is None
            && o.envelope.operation_id@ == operation_id@,
        r matches Err(e) ==> outcome_error(
            "state-rebuild"@,
            operation_id@,
            rebuild_result(head, snapshot).0,
            rebuild_result(head, snapshot).1,
            false,
        ) == Some(e),
        r is Ok <==> outcome_error(
            "state-rebuild"@,
            operation_id@,
            rebuild_result(head, snapshot).0,
            rebuild_result(head, snapshot).1,
            false,
        ) is None,
{
    proof {
        lemma_builder_kinds_known();
    }
    let (kind, message): (&str, String) = match (head, snapshot) {
        (RebuildHeadObservation::Stale(h), SnapshotInspection::Ignored(s)) => (
            "state_rebuild.head_stale",
            concat3(h.as_str(), "; subordinate snapshot ignored: ", s.as_str()),
        ),
        (RebuildHeadObservation::Stale(h), _) => ("state_rebuild.head_stale", h),
        (RebuildHeadObservation::Match, SnapshotInspection::Ignored(s)) => (
            "state_rebuild.snapshot_ignored",
            s,
        ),
        (RebuildHeadObservation::Match, SnapshotInspection::Absent) => (
            "state_rebuild.match",
            "event replay, HEAD, and projections match; no snapshot is referenced".to_string(),
        ),
        (RebuildHeadObservation::Match, SnapshotInspection::Trusted) => (
            "state_rebuild.match",
            "event replay, HEAD, projections, and trusted snapshot match".to_string(),
        ),
    };
    CommandOutcome::select("state-rebuild", operation_id, kind, message, None)
}

pub open spec fn failure_kind(error: RebuildCheckError) -> Seq<char> {
    match error {
        RebuildCheckError::EventInvalid(_) => "state_rebuild.event_invalid"@,
        RebuildCheckError::TransitionInvalid(_) => "state_rebuild.transition_invalid"@,
        RebuildCheckError::DigestMismatch(_) => "state_rebuild.digest_mismatch"@,
    }
}

pub open spec fn failure_message(error: RebuildCheckError) -> String {
    match error {
        RebuildCheckError::EventInvalid(m) => m,
        RebuildCheckError::TransitionInvalid(m) => m,
        RebuildCheckError::DigestMismatch(m) => m,
    }
}

/// The outcome of a failed check: its kind is both result and reason.
pub fn failure_outcome(operation_id: &str, error: RebuildCheckError) -> (r: Result<
    CommandOutcome,
    CommandOutcomeError,
>)
    ensures
        r matches Ok(o) ==> o.envelope.result_kind@ == failure_kind(error) && o.envelope.message
            == failure_message(error) && (o.envelope.reason matches Some(reason) && reason@
            == failure_kind(error)),
        r matches Err(e) ==> outcome_error(
            "state-rebuild"@,
            operation_id@,
            failure_kind(error),
            failure_message(error)@,
            true,
        ) == Some(e),
        r is Ok <==> outcome_error(
            "state-rebuild"@,
            operation_id@,
            failure_kind(error),
            failure_message(error)@,
            true,
        ) is None,
{
    proof {
        lemma_builder_kinds_known();
    }
    let (kind, message): (&str, String) = match error {
        RebuildCheckError::EventInvalid(m) => ("state_rebuild.event_invalid", m),
        RebuildCheckError::TransitionInvalid(m) => ("state_rebuild.transition_invalid", m),
        RebuildCheckError::DigestMismatch(m) => ("state_rebuild.digest_mismatch", m),
    };
    CommandOutcome::select("state-rebuild", operation_id, kind, message, Some(kind.to_string()))
}

/// A session record as the rebuild reads it.
#[derive(Clone, Debug, PartialEq, Eq)]
pub struct SessionRecordFields {
    pub session_id: String,
    pub slot_id: String,
    pub cohort: String,
    pub conversation_url: String,
    pub page_binding_generation: u16,
}

/// What replay seeds a persisted session with.
#[derive(Clone, Debug, PartialEq, Eq)]
pub struct PersistedSessionSeed {
    pub session_id: String,
    pub session_binding_id: Option<String>,
    pub conversation_url: String,
    pub slot_id: String,
    pub cohort: String,
    pub page_binding_generation: Option<u16>,
}

/// The replay seed of one session record: its binding id is derived from
/// its session, slot and cohort.
pub fn persisted_session_seed(record: SessionRecordFields) -> (r: Result<PersistedSessionSeed, IdError>)
    ensures
        r matches Ok(seed) ==> {
            &&& seed.session_id == record.session_id
            &&& seed.conversation_url == record.conversation_url
            &&& seed.slot_id == record.slot_id
            &&& seed.cohort == record.cohort
            &&& seed.page_binding_generation == Some(record.page_binding_generation)
            &&& seed.session_binding_id matches Some(b) && crate::contracts::ids::ok_text(
                Ok::<String, IdError>(b),
                crate::contracts::ids::derived_id_of(
                    "binding"@,
                    seq![
                        crate::journal::canonical::ScalarView::Text("pr72.session-binding.r13.v1"@),
                        crate::journal::canonical::ScalarView::Text(record.session_id@),
                        crate::journal::canonical::ScalarView::Text(record.slot_id@),
                        crate::journal::canonical::ScalarView::Text(record.cohort@),
                    ],
                ),
            )
        },
        r is Err <==> !(crate::contracts::ids::is_session_id(record.session_id@)
            && crate::contracts::ids::is_slot_id(record.slot_id@) && crate::contracts::ids::is_cohort(
            record.cohort@,
        )),
{
    let binding = match derive_session_binding_id(
        record.session_id.as_str(),
        record.slot_id.as_str(),
        record.cohort.as_str(),
    ) {
        Ok(b) => b,
        Err(e) => {
            return Err(e);
        },
    };
    Ok(
        PersistedSessionSeed {
            session_id: record.session_id,
            session_binding_id: Some(binding),
            conversation_url: record.conversation_url,
            slot_id: record.slot_id,
            cohort: record.cohort,
            page_binding_generation: Some(record.page_binding_generation),
        },
    )
}

} // verus!
