use vstd::prelude::*;

use crate::contracts::envelope::EventHeader;
use crate::contracts::events::EventType;
use crate::contracts::projection::{get_entry, lookup};
use crate::contracts::semantics::{text_of, unsigned_of, JsonValue};
use crate::journal::replay::{source_types_valid, sources_ok};
use crate::text::str_eq;

verus! {

// ---------------------------------------------------------------- payload fields

/// The payload's field `key`, where the payload is an object.
pub open spec fn field_of(p: JsonValue, key: Seq<char>) -> Option<JsonValue> {
    match p {
        JsonValue::Object(es) => lookup(es@, key),
        _ => None,
    }
}

pub open spec fn text_at(p: JsonValue, key: Seq<char>) -> Option<Seq<char>> {
    text_of(field_of(p, key))
}

pub open spec fn number_at(p: JsonValue, key: Seq<char>) -> Option<u64> {
    unsigned_of(field_of(p, key))
}

/// The text field `inner` of the object in field `outer`.
pub open spec fn nested_text(p: JsonValue, outer: Seq<char>, inner: Seq<char>) -> Option<Seq<char>> {
    match field_of(p, outer) {
        Some(v) => text_at(v, inner),
        None => None,
    }
}

/// Both payloads carry the same text under the two names, the first one
/// present.
pub open spec fn same(a: JsonValue, ka: Seq<char>, b: JsonValue, kb: Seq<char>) -> bool {
    text_at(a, ka) is Some && text_at(a, ka) == text_at(b, kb)
}

pub open spec fn same_number(a: JsonValue, ka: Seq<char>, b: JsonValue, kb: Seq<char>) -> bool {
    number_at(a, ka) is Some && number_at(a, ka) == number_at(b, kb)
}

pub open spec fn opt_text(o: Option<String>) -> Option<Seq<char>> {
    match o {
        Some(s) => Some(s@),
        None => None,
    }
}

fn field<'a>(p: &'a JsonValue, key: &str) -> (r: Option<&'a JsonValue>)
    ensures
        match field_of(*p, key@) {
            Some(v) => r matches Some(x) && *x == v,
            None => r is None,
        },
{
    match p {
        JsonValue::Object(es) => get_entry(es, key),
        _ => None,
    }
}

fn text<'a>(p: &'a JsonValue, key: &str) -> (r: Option<&'a str>)
    ensures
        match text_at(*p, key@) {
            Some(s) => r matches Some(x) && x@ == s,
            None => r is None,
        },
{
    match field(p, key) {
        Some(JsonValue::Text(s)) => Some(s.as_str()),
        _ => None,
    }
}

fn number(p: &JsonValue, key: &str) -> (r: Option<u64>)
    ensures
        r == number_at(*p, key@),
{
    match field(p, key) {
        Some(JsonValue::Unsigned(n)) => Some(*n),
        _ => None,
    }
}

fn nested<'a>(p: &'a JsonValue, outer: &str, inner: &str) -> (r: Option<&'a str>)
    ensures
        match nested_text(*p, outer@, inner@) {
            Some(s) => r matches Some(x) && x@ == s,
            None => r is None,
        },
{
    match field(p, outer) {
        Some(v) => text(v, inner),
        None => None,
    }
}

fn opt_eq(a: Option<&str>, b: Option<&str>) -> (r: bool)
    ensures
        r == (match a {
            Some(x) => Some(x@),
            None => None::<Seq<char>>,
        } == match b {
            Some(x) => Some(x@),
            None => None::<Seq<char>>,
        }),
{
    match (a, b) {
        (Some(x), Some(y)) => str_eq(x, y),
        (None, None) => true,
        _ => false,
    }
}

fn same_text(a: &JsonValue, ka: &str, b: &JsonValue, kb: &str) -> (r: bool)
    ensures
        r == same(*a, ka@, *b, kb@),
{
    let x = text(a, ka);
    x.is_some() && opt_eq(x, text(b, kb))
}

fn same_num(a: &JsonValue, ka: &str, b: &JsonValue, kb: &str) -> (r: bool)
    ensures
        r == same_number(*a, ka@, *b, kb@),
{
    let x = number(a, ka);
    x.is_some() && x == number(b, kb)
}

fn text_is(a: Option<&str>, s: &str) -> (r: bool)
    ensures
        r == (match a {
            Some(x) => Some(x@),
            None => None::<Seq<char>>,
        } == Some(s@)),
{
    match a {
        Some(x) => str_eq(x, s),
        None => false,
    }
}

fn opt_string_eq(a: &Option<String>, b: &Option<String>) -> (r: bool)
    ensures
        r == (opt_text(*a) == opt_text(*b)),
{
    match (a, b) {
        (Some(x), Some(y)) => str_eq(x.as_str(), y.as_str()),
        (None, None) => true,
        _ => false,
    }
}


// ---------------------------------------------------------------- composite rules

pub open spec fn scan_skip_ok(e: JsonValue, src: (EventHeader, JsonValue), i: int) -> bool {
    &&& number_at(src.1, "scanOrdinal"@) == Some(i as u64)
    &&& text_at(src.1, "decision"@) == Some("skip"@)
    &&& same(e, "requestId"@, src.1, "requestId"@)
}

/// An exhausted allocation follows the ten skipped candidates of its request,
/// in scan order.
pub open spec fn allocation_exhausted_ok(e: JsonValue, s: Seq<(EventHeader, JsonValue)>) -> bool {
    s.len() == 10 && forall|i: int| 0 <= i < s.len() ==> #[trigger] scan_skip_ok(e, s[i], i)
}

pub open spec fn lease_scan_ok(h: EventHeader, src: (EventHeader, JsonValue), i: int) -> bool {
    number_at(src.1, "scanOrdinal"@) == Some((i - 1) as u64) && opt_text(h.request_id) == opt_text(
        src.0.request_id,
    )
}

/// A lease follows its request claim and the scanned candidates of the same
/// request, in scan order, the last one grantable and naming the leased slot,
/// cohort and cursors.
pub open spec fn lease_sources_ok(h: EventHeader, e: JsonValue, s: Seq<(EventHeader, JsonValue)>) -> bool {
    let last = s[s.len() - 1].1;
    &&& s.len() >= 2
    &&& text_at(e, "claimId"@) == Some(s[0].0.aggregate.id@)
    &&& opt_text(h.request_id) == opt_text(s[0].0.request_id)
    &&& forall|i: int| 1 <= i < s.len() ==> #[trigger] lease_scan_ok(h, s[i], i)
    &&& text_at(last, "decision"@) == Some("grantable"@)
    &&& same(e, "slotId"@, last, "slotId"@)
    &&& same(e, "cohort"@, last, "cohort"@)
    &&& same_number(e, "cohortCursorBefore"@, last, "cohortCursorBefore"@)
    &&& same_number(e, "withinCursorBefore"@, last, "withinCursorBefore"@)
}

pub open spec fn terminal_id_ok(h: EventHeader, id: JsonValue, src: (EventHeader, JsonValue)) -> bool {
    text_of(Some(id)) == Some(src.0.event_id@) && opt_text(src.0.request_id) == opt_text(h.request_id)
}

/// A persisted terminal follows its answer and then the artifact claims it
/// lists, all of its request.
pub open spec fn terminal_sources_ok(h: EventHeader, e: JsonValue, s: Seq<(EventHeader, JsonValue)>) -> bool {
    &&& s.len() >= 1
    &&& text_at(e, "answerTerminalEventId"@) == Some(s[0].0.event_id@)
    &&& opt_text(h.request_id) == opt_text(s[0].0.request_id)
    &&& match field_of(e, "artifactClaimEventIds"@) {
        Some(JsonValue::Array(ids)) => ids@.len() + 1 == s.len() && forall|i: int|
            0 <= i < ids@.len() ==> #[trigger] terminal_id_ok(h, ids@[i], s[i + 1]),
        _ => false,
    }
}

/// The release reason that each single source event gives.
pub open spec fn release_reason_of(t: EventType) -> Option<Seq<char>> {
    match t {
        EventType::OutputPublished => Some("release.output_published"@),
        EventType::ArtifactClaimCompleted | EventType::ArtifactClaimFailed => Some(
            "release.artifact_terminal"@,
        ),
        EventType::PollFailed => Some("release.poll_failed"@),
        EventType::UploadFailed => Some("release.upload_failed"@),
        EventType::SendUncertain => Some("release.send_uncertain"@),
        EventType::SendFailed => Some("release.send_failed"@),
        EventType::ModelSelectionFailed => Some("release.model_failed"@),
        EventType::RootCaptureFailed => Some("release.capture_failed"@),
        EventType::SessionOperationFailed => Some("release.session_operation_failed"@),
        EventType::AllocationExhausted => Some("release.allocation_exhausted"@),
        EventType::SlotHealthObserved => Some("release.readiness_failed"@),
        EventType::PollProgress | EventType::SessionHydrated => Some(
            "release.nonterminal_publication"@,
        ),
        EventType::OutputPublishFailed => Some("release.output_publish_failed"@),
        _ => None,
    }
}

fn release_reason(t: EventType) -> (r: Option<&'static str>)
    ensures
        match release_reason_of(t) {
            Some(x) => r matches Some(y) && y@ == x,
            None => r is None,
        },
{
    match t {
        EventType::OutputPublished => Some("release.output_published"),
        EventType::ArtifactClaimCompleted | EventType::ArtifactClaimFailed => Some(
            "release.artifact_terminal",
        ),
        EventType::PollFailed => Some("release.poll_failed"),
        EventType::UploadFailed => Some("release.upload_failed"),
        EventType::SendUncertain => Some("release.send_uncertain"),
        EventType::SendFailed => Some("release.send_failed"),
        EventType::ModelSelectionFailed => Some("release.model_failed"),
        EventType::RootCaptureFailed => Some("release.capture_failed"),
        EventType::SessionOperationFailed => Some("release.session_operation_failed"),
        EventType::AllocationExhausted => Some("release.allocation_exhausted"),
        EventType::SlotHealthObserved => Some("release.readiness_failed"),
        EventType::PollProgress | EventType::SessionHydrated => Some(
            "release.nonterminal_publication",
        ),
        EventType::OutputPublishFailed => Some("release.output_publish_failed"),
        _ => None,
    }
}

/// The order in which an explicit release gives up what it holds: request
/// claim, session claim, lease, runtime owner.
pub open spec fn release_rank(t: EventType) -> Option<u8> {
    match t {
        EventType::RequestClaimGranted | EventType::RequestClaimRenewed => Some(1),
        EventType::SessionOperationClaimGranted | EventType::SessionOperationClaimRenewed => Some(2),
        EventType::SlotLeaseGranted | EventType::SlotLeaseRenewed
        | EventType::PersistedSessionLeaseGranted => Some(3),
        EventType::RuntimeOwnershipGranted | EventType::RuntimeOwnershipAdopted
        | EventType::RuntimeOwnershipRenewed | EventType::SessionRuntimeOwnershipGranted
        | EventType::SessionRuntimeOwnershipAdopted | EventType::RuntimeTakeoverProven => Some(4),
        _ => None,
    }
}

fn rank(t: EventType) -> (r: Option<u8>)
    ensures
        r == release_rank(t),
{
    match t {
        EventType::RequestClaimGranted | EventType::RequestClaimRenewed => Some(1),
        EventType::SessionOperationClaimGranted | EventType::SessionOperationClaimRenewed => Some(2),
        EventType::SlotLeaseGranted | EventType::SlotLeaseRenewed
        | EventType::PersistedSessionLeaseGranted => Some(3),
        EventType::RuntimeOwnershipGranted | EventType::RuntimeOwnershipAdopted
        | EventType::RuntimeOwnershipRenewed | EventType::SessionRuntimeOwnershipGranted
        | EventType::SessionRuntimeOwnershipAdopted | EventType::RuntimeTakeoverProven => Some(4),
        _ => None,
    }
}

pub open spec fn ranked(src: (EventHeader, JsonValue)) -> bool {
    release_rank(src.0.event_type) is Some
}

/// An explicit release follows one to four held resources, each of a kind it
/// releases, in strictly rising rank.
pub open spec fn explicit_order_ok(s: Seq<(EventHeader, JsonValue)>) -> bool {
    &&& 1 <= s.len() <= 4
    &&& forall|i: int| 0 <= i < s.len() ==> #[trigger] ranked(s[i])
    &&& forall|i: int, j: int|
        0 <= i < j < s.len() ==> release_rank((#[trigger] s[i]).0.event_type)->0 < release_rank(
            (#[trigger] s[j]).0.event_type,
        )->0
}

pub open spec fn release_started_ok(e: JsonValue, s: Seq<(EventHeader, JsonValue)>) -> bool {
    if text_at(e, "reason"@) == Some("release.explicit"@) {
        explicit_order_ok(s)
    } else {
        s.len() == 1 && release_reason_of(s[0].0.event_type) is Some && text_at(e, "reason"@)
            == release_reason_of(s[0].0.event_type)
    }
}

pub open spec fn release_finalized_ok(e: JsonValue, s: Seq<(EventHeader, JsonValue)>) -> bool {
    if s.len() == 0 {
        text_at(e, "finalStatus"@) == Some("resources_released_no_slot"@)
    } else if s.len() == 1 {
        same(e, "releaseId"@, s[0].1, "releaseId"@)
    } else if s.len() == 2 {
        same(e, "releaseId"@, s[0].1, "releaseId"@) && same(s[0].1, "slotId"@, s[1].1, "slotId"@)
            && text_at(e, "finalStatus"@) == Some("allocatable"@)
    } else {
        false
    }
}

/// A confirmed turn start repeats the session, URL and turns of the send
/// receipt of its source.
pub open spec fn turn_start_ok(h: EventHeader, e: JsonValue, src: (EventHeader, JsonValue)) -> bool {
    let key = if src.0.event_type == EventType::SendClicked {
        "postClickReceipt"@
    } else {
        "reconciledReceipt"@
    };
    &&& (src.0.event_type == EventType::SendClicked || src.0.event_type == EventType::SendReconciled)
    &&& h.aggregate.id@ == src.0.aggregate.id@
    &&& text_at(e, "sessionId"@) == nested_text(src.1, key, "sessionId"@)
    &&& text_at(e, "conversationUrl"@) == nested_text(src.1, key, "conversationUrl"@)
    &&& text_at(e, "userTurnId"@) == nested_text(src.1, key, "userTurnId"@)
    &&& text_at(e, "assistantTurnId"@) == nested_text(src.1, key, "assistantTurnId"@)
}

pub open spec fn session_binding_ok(e: JsonValue, s: Seq<(EventHeader, JsonValue)>) -> bool {
    &&& s.len() == 2
    &&& same(e, "sessionId"@, s[0].1, "sessionId"@)
    &&& same(e, "conversationUrl"@, s[0].1, "conversationUrl"@)
    &&& text_at(e, "runtimeOwnerId"@) == nested_text(s[1].1, "pageBinding"@, "runtimeOwnerId"@)
    &&& text_at(e, "slotId"@) == nested_text(s[1].1, "pageBinding"@, "slotId"@)
}

pub open spec fn rebind_sources_ok(e: JsonValue, s: Seq<(EventHeader, JsonValue)>) -> bool {
    &&& s.len() == 3
    &&& (field_of(e, "sessionOperationClaimId"@) == Some(JsonValue::Null) || text_at(
        e,
        "sessionOperationClaimId"@,
    ) == Some(s[0].0.aggregate.id@))
    &&& same(e, "sessionId"@, s[0].1, "sessionId"@)
    &&& text_at(s[0].1, "expectedSlotId"@) == text_at(s[1].1, "slotId"@)
    &&& text_at(s[1].1, "slotId"@) == text_at(s[2].1, "slotId"@)
}

pub open spec fn shares(e: JsonValue, key: Seq<char>, src: (EventHeader, JsonValue)) -> bool {
    same(e, key, src.1, key)
}

pub open spec fn all_share(e: JsonValue, key: Seq<char>, s: Seq<(EventHeader, JsonValue)>) -> bool {
    forall|i: int| 0 <= i < s.len() ==> #[trigger] shares(e, key, s[i])
}

pub open spec fn released_by(e: JsonValue, src: (EventHeader, JsonValue)) -> bool {
    text_at(src.1, "releaseId"@) is None || same(e, "releaseId"@, src.1, "releaseId"@)
}


/// Whether an event's payload agrees with the payloads of its source events,
/// by the rules of its type: the ids it repeats, the scan and release order
/// of its sources, and the receipts and bindings it restates. A rule that
/// reads a first source fails where there is none.
pub open spec fn source_payloads_ok(
    h: EventHeader,
    e: JsonValue,
    s: Seq<(EventHeader, JsonValue)>,
) -> bool {
    let first = s.len() >= 1;
    let s0 = s[0].1;
    let same0 = |k: Seq<char>| first && same(e, k, s0, k);
    let same_aggregate = first && h.aggregate.id@ == s[0].0.aggregate.id@;
    match h.event_type {
        EventType::RequestClaimGranted | EventType::HostAttachmentsStaged
        | EventType::AllocationCandidateObserved => same0("requestId"@),
        EventType::RequestClaimRenewed | EventType::SessionOperationClaimRenewed => first && ((same(
            e,
            "claimId"@,
            s0,
            "claimId"@,
        ) && same_number(e, "claimGeneration"@, s0, "claimGeneration"@)) || (same(
            e,
            "claimId"@,
            s0,
            "claimId"@,
        ) && number_at(s0, "claimGeneration"@) is None && number_at(e, "claimGeneration"@)
            == Some(1u64))),
        EventType::AllocationExhausted => allocation_exhausted_ok(e, s),
        EventType::SlotLeaseGranted => lease_sources_ok(h, e, s),
        EventType::SlotLeaseRenewed => same0("leaseId"@) && same_number(
            e,
            "leaseGeneration"@,
            s0,
            "leaseGeneration"@,
        ),
        EventType::RuntimeOwnershipGranted | EventType::RuntimeOwnershipAdopted => same0("leaseId"@)
            && same0("slotId"@),
        EventType::RuntimeOwnershipRenewed => same0("runtimeOwnerId"@) && same_number(
            e,
            "ownerGeneration"@,
            s0,
            "ownerGeneration"@,
        ),
        EventType::RootCaptureStarted => same0("slotId"@) && (text_at(s0, "healthStatus"@) == Some(
            "ready"@,
        ) || text_at(s0, "healthStatus"@) == Some("ready_model_correction_required"@)),
        EventType::RootCaptureObserved | EventType::RootCaptureFailed => same0(
            "captureOperationId"@,
        ),
        EventType::ModelSelectionStarted | EventType::SlotAttachmentsMaterialized
        | EventType::UploadStarted | EventType::OutputPublished
        | EventType::OutputPublishFailed => same_aggregate,
        EventType::ModelSelectionVerified | EventType::ModelSelectionFailed => same0(
            "modelOperationId"@,
        ),
        EventType::UploadMismatchObserved | EventType::UploadCompleted | EventType::UploadFailed
        | EventType::UploadCleared | EventType::SendClickArmed => same0("uploadAttemptId"@)
            && same_aggregate,
        EventType::SendClicked | EventType::SendReconciled | EventType::SendUncertain
        | EventType::SendFailed => same0("sendAttemptId"@) && same_aggregate,
        EventType::TurnStartConfirmed => first && turn_start_ok(h, e, s[0]),
        EventType::SessionBindingEstablished => session_binding_ok(e, s),
        EventType::RunningProjected => same0("sessionId"@) && same0("sessionBindingId"@),
        EventType::PersistedSessionLeaseGranted => same0("claimId"@) && same(
            e,
            "slotId"@,
            s0,
            "expectedSlotId"@,
        ) && same(e, "cohort"@, s0, "expectedCohort"@),
        EventType::SessionRuntimeOwnershipGranted | EventType::SessionRuntimeOwnershipAdopted => s.len()
            == 2 && same(e, "sessionId"@, s0, "sessionId"@) && same(e, "leaseId"@, s[1].1, "leaseId"@)
            && same(e, "slotId"@, s[1].1, "slotId"@),
        EventType::SessionRebindStarted => rebind_sources_ok(e, s),
        EventType::SessionRebound | EventType::SessionHydrationObserved | EventType::SessionHydrated
        | EventType::PollStarted => same0("sessionId"@),
        EventType::PollProgress | EventType::PollFailed => same0("pollAttemptId"@),
        EventType::AnswerTerminal => s.len() == 0 || (same(e, "sessionId"@, s0, "sessionId"@)
            && text_at(e, "requestId"@) == opt_text(h.request_id)),
        EventType::ArtifactControlsAbsent | EventType::ArtifactControlsDiscovered
        | EventType::ArtifactDownloadAttemptConsumed => same0("artifactClaimId"@),
        EventType::ArtifactRecoveryCandidateObserved | EventType::ArtifactDownloadCompleted => same0(
            "artifactClaimId"@,
        ) && same0("attemptId"@),
        EventType::ArtifactClaimCompleted => all_share(e, "artifactClaimId"@, s),
        EventType::TerminalPersisted => terminal_sources_ok(h, e, s),
        EventType::ReleaseStarted => release_started_ok(e, s),
        EventType::ReleaseEvidencePreserved | EventType::RuntimeStopSkipped
        | EventType::ReleaseCleanupStarted | EventType::ReleaseCleanupFailed
        | EventType::RequestClaimReleased | EventType::SessionOperationClaimReleased
        | EventType::SlotStandbyWritten | EventType::ReleaseCooldownBlocked => same0("releaseId"@),
        EventType::RuntimeTakeoverProven => s.len() == 2 && text_at(e, "priorOwnerId"@) == Some(
            s[0].0.aggregate.id@,
        ) && same(e, "releaseId"@, s[1].1, "releaseId"@),
        EventType::RuntimeStopStarted => s.len() == 0 || (same(e, "runtimeOwnerId"@, s0, "newOwnerId"@)
            && same_number(e, "ownerGeneration"@, s0, "newGeneration"@)),
        EventType::RuntimeStopped | EventType::RuntimeStopFailed => same0("releaseId"@) && same0(
            "runtimeOwnerId"@,
        ) && same_number(e, "ownerGeneration"@, s0, "ownerGeneration"@),
        EventType::SlotLeaseReleased | EventType::ReleaseCleanupCommitted => all_share(
            e,
            "releaseId"@,
            s,
        ),
        EventType::RuntimeOwnershipReleased => forall|i: int|
            0 <= i < s.len() ==> #[trigger] released_by(e, s[i]),
        EventType::CooldownCleared => same0("slotId"@) && number_at(s0, "cooldownUntilMs"@) is Some
            && number_at(e, "clearedAtMs"@) is Some && number_at(e, "clearedAtMs"@)->0 >= number_at(
            s0,
            "cooldownUntilMs"@,
        )->0,
        EventType::ReleaseFinalized => release_finalized_ok(e, s),
        _ => true,
    }
}


fn allocation_exhausted(e: &JsonValue, s: &Vec<(EventHeader, JsonValue)>) -> (r: bool)
    ensures
        r == allocation_exhausted_ok(*e, s@),
{
    if s.len() != 10 {
        return false;
    }
    let mut i: usize = 0;
    while i < 10
        invariant
            s@.len() == 10,
            i <= 10,
            forall|j: int| 0 <= j < i ==> #[trigger] scan_skip_ok(*e, s@[j], j),
        decreases 10 - i,
    {
        let src = &s[i].1;
        if !(number(src, "scanOrdinal") == Some(i as u64) && text_is(text(src, "decision"), "skip")
            && same_text(e, "requestId", src, "requestId")) {
            assert(!scan_skip_ok(*e, s@[i as int], i as int));
            return false;
        }
        i += 1;
    }
    true
}

fn lease_sources(h: &EventHeader, e: &JsonValue, s: &Vec<(EventHeader, JsonValue)>) -> (r: bool)
    ensures
        r == lease_sources_ok(*h, *e, s@),
{
    let n = s.len();
    if n < 2 {
        return false;
    }
    if !(text_is(text(e, "claimId"), s[0].0.aggregate.id.as_str()) && opt_string_eq(
        &h.request_id,
        &s[0].0.request_id,
    )) {
        return false;
    }
    let mut i: usize = 1;
    while i < n
        invariant
            n == s@.len(),
            1 <= i <= n,
            forall|j: int| 1 <= j < i ==> #[trigger] lease_scan_ok(*h, s@[j], j),
        decreases n - i,
    {
        let src = &s[i];
        if !(number(&src.1, "scanOrdinal") == Some((i - 1) as u64) && opt_string_eq(
            &h.request_id,
            &src.0.request_id,
        )) {
            assert(!lease_scan_ok(*h, s@[i as int], i as int));
            return false;
        }
        i += 1;
    }
    let last = &s[n - 1].1;
    text_is(text(last, "decision"), "grantable") && same_text(e, "slotId", last, "slotId")
        && same_text(e, "cohort", last, "cohort") && same_num(
        e,
        "cohortCursorBefore",
        last,
        "cohortCursorBefore",
    ) && same_num(e, "withinCursorBefore", last, "withinCursorBefore")
}

fn ids_match(h: &EventHeader, ids: &Vec<JsonValue>, s: &Vec<(EventHeader, JsonValue)>) -> (r: bool)
    requires
        ids@.len() + 1 == s@.len(),
    ensures
        r == forall|j: int| 0 <= j < ids@.len() ==> #[trigger] terminal_id_ok(*h, ids@[j], s@[j + 1]),
{
    let mut i: usize = 0;
    while i < ids.len()
        invariant
            ids@.len() + 1 == s@.len(),
            i <= ids@.len(),
            forall|j: int| 0 <= j < i ==> #[trigger] terminal_id_ok(*h, ids@[j], s@[j + 1]),
        decreases ids.len() - i,
    {
        let id = match &ids[i] {
            JsonValue::Text(t) => t.as_str(),
            _ => {
                assert(!terminal_id_ok(*h, ids@[i as int], s@[i + 1]));
                return false;
            },
        };
        let src = &s[i + 1].0;
        if !(str_eq(id, src.event_id.as_str()) && opt_string_eq(&src.request_id, &h.request_id)) {
            assert(!terminal_id_ok(*h, ids@[i as int], s@[i + 1]));
            return false;
        }
        i += 1;
    }
    true
}

fn terminal_sources(h: &EventHeader, e: &JsonValue, s: &Vec<(EventHeader, JsonValue)>) -> (r: bool)
    ensures
        r == terminal_sources_ok(*h, *e, s@),
{
    if s.len() < 1 {
        return false;
    }
    if !(text_is(text(e, "answerTerminalEventId"), s[0].0.event_id.as_str()) && opt_string_eq(
        &h.request_id,
        &s[0].0.request_id,
    )) {
        return false;
    }
    match field(e, "artifactClaimEventIds") {
        Some(JsonValue::Array(ids)) => ids.len() == s.len() - 1 && ids_match(h, ids, s),
        _ => false,
    }
}

fn explicit_order(s: &Vec<(EventHeader, JsonValue)>) -> (r: bool)
    ensures
        r == explicit_order_ok(s@),
{
    let n = s.len();
    if n < 1 || n > 4 {
        return false;
    }
    let mut previous: u8 = 0;
    let mut i: usize = 0;
    while i < n
        invariant
            n == s@.len(),
            1 <= n <= 4,
            i <= n,
            forall|j: int| 0 <= j < i ==> #[trigger] ranked(s@[j]),
            forall|a: int, b: int|
                0 <= a < b < i ==> release_rank((#[trigger] s@[a]).0.event_type)->0 < release_rank(
                    (#[trigger] s@[b]).0.event_type,
                )->0,
            i == 0 ==> previous == 0,
            i > 0 ==> previous == release_rank(s@[i - 1].0.event_type)->0,
            forall|j: int| 0 <= j < i ==> release_rank(s@[j].0.event_type)->0 <= previous,
        decreases n - i,
    {
        let r = match rank(s[i].0.event_type) {
            Some(r) => r,
            None => {
                assert(!ranked(s@[i as int]));
                return false;
            },
        };
        if r <= previous {
            proof {
                let a = (i - 1) as int;
                assert(release_rank(s@[a].0.event_type)->0 >= release_rank(
                    s@[i as int].0.event_type,
                )->0);
            }
            return false;
        }
        previous = r;
        i += 1;
    }
    true
}

fn release_started(e: &JsonValue, s: &Vec<(EventHeader, JsonValue)>) -> (r: bool)
    ensures
        r == release_started_ok(*e, s@),
{
    let reason = text(e, "reason");
    if text_is(reason, "release.explicit") {
        return explicit_order(s);
    }
    if s.len() != 1 {
        return false;
    }
    match release_reason(s[0].0.event_type) {
        Some(expected) => text_is(reason, expected),
        None => false,
    }
}

fn release_finalized(e: &JsonValue, s: &Vec<(EventHeader, JsonValue)>) -> (r: bool)
    ensures
        r == release_finalized_ok(*e, s@),
{
    if s.len() == 0 {
        text_is(text(e, "finalStatus"), "resources_released_no_slot")
    } else if s.len() == 1 {
        same_text(e, "releaseId", &s[0].1, "releaseId")
    } else if s.len() == 2 {
        same_text(e, "releaseId", &s[0].1, "releaseId") && same_text(
            &s[0].1,
            "slotId",
            &s[1].1,
            "slotId",
        ) && text_is(text(e, "finalStatus"), "allocatable")
    } else {
        false
    }
}

fn turn_start(h: &EventHeader, e: &JsonValue, src: &(EventHeader, JsonValue)) -> (r: bool)
    ensures
        r == turn_start_ok(*h, *e, *src),
{
    let key = match src.0.event_type {
        EventType::SendClicked => "postClickReceipt",
        EventType::SendReconciled => "reconciledReceipt",
        _ => return false,
    };
    str_eq(h.aggregate.id.as_str(), src.0.aggregate.id.as_str()) && opt_eq(
        text(e, "sessionId"),
        nested(&src.1, key, "sessionId"),
    ) && opt_eq(text(e, "conversationUrl"), nested(&src.1, key, "conversationUrl")) && opt_eq(
        text(e, "userTurnId"),
        nested(&src.1, key, "userTurnId"),
    ) && opt_eq(text(e, "assistantTurnId"), nested(&src.1, key, "assistantTurnId"))
}

fn session_binding(e: &JsonValue, s: &Vec<(EventHeader, JsonValue)>) -> (r: bool)
    ensures
        r == session_binding_ok(*e, s@),
{
    s.len() == 2 && same_text(e, "sessionId", &s[0].1, "sessionId") && same_text(
        e,
        "conversationUrl",
        &s[0].1,
        "conversationUrl",
    ) && opt_eq(text(e, "runtimeOwnerId"), nested(&s[1].1, "pageBinding", "runtimeOwnerId"))
        && opt_eq(text(e, "slotId"), nested(&s[1].1, "pageBinding", "slotId"))
}

fn rebind_sources(e: &JsonValue, s: &Vec<(EventHeader, JsonValue)>) -> (r: bool)
    ensures
        r == rebind_sources_ok(*e, s@),
{
    if s.len() != 3 {
        return false;
    }
    let claim_null = match field(e, "sessionOperationClaimId") {
        Some(JsonValue::Null) => true,
        _ => false,
    };
    let claim_ok = claim_null || text_is(
        text(e, "sessionOperationClaimId"),
        s[0].0.aggregate.id.as_str(),
    );
    claim_ok && same_text(e, "sessionId", &s[0].1, "sessionId") && opt_eq(
        text(&s[0].1, "expectedSlotId"),
        text(&s[1].1, "slotId"),
    ) && opt_eq(text(&s[1].1, "slotId"), text(&s[2].1, "slotId"))
}

fn all_same(e: &JsonValue, key: &str, s: &Vec<(EventHeader, JsonValue)>) -> (r: bool)
    ensures
        r == all_share(*e, key@, s@),
{
    let mut i: usize = 0;
    while i < s.len()
        invariant
            i <= s@.len(),
            forall|j: int| 0 <= j < i ==> #[trigger] shares(*e, key@, s@[j]),
        decreases s.len() - i,
    {
        if !same_text(e, key, &s[i].1, key) {
            assert(!shares(*e, key@, s@[i as int]));
            return false;
        }
        i += 1;
    }
    true
}

fn all_released_by(e: &JsonValue, s: &Vec<(EventHeader, JsonValue)>) -> (r: bool)
    ensures
        r == forall|i: int| 0 <= i < s@.len() ==> #[trigger] released_by(*e, s@[i]),
{
    let mut i: usize = 0;
    while i < s.len()
        invariant
            i <= s@.len(),
            forall|j: int| 0 <= j < i ==> #[trigger] released_by(*e, s@[j]),
        decreases s.len() - i,
    {
        let src = &s[i].1;
        if !(text(src, "releaseId").is_none() || same_text(e, "releaseId", src, "releaseId")) {
            assert(!released_by(*e, s@[i as int]));
            return false;
        }
        i += 1;
    }
    true
}


/// A cooldown is cleared only on the slot its source put on cooldown, and no
/// earlier than the cooldown ends: the event's `clearedAtMs` is at least the
/// source's `cooldownUntilMs`.
pub proof fn cooldown_cleared_after_it_ends(h: EventHeader, e: JsonValue, s: Seq<(EventHeader, JsonValue)>)
    requires
        h.event_type == EventType::CooldownCleared,
        source_payloads_ok(h, e, s),
    ensures
        s.len() >= 1,
        text_at(e, "slotId"@) is Some,
        text_at(e, "slotId"@) == text_at(s[0].1, "slotId"@),
        number_at(e, "clearedAtMs"@) is Some,
        number_at(s[0].1, "cooldownUntilMs"@) is Some,
        number_at(e, "clearedAtMs"@)->0 >= number_at(s[0].1, "cooldownUntilMs"@)->0,
{
}

/// Clearing a cooldown before it ends fails the source check.
pub proof fn early_cooldown_clear_is_refused(h: EventHeader, e: JsonValue, s: Seq<(EventHeader, JsonValue)>)
    requires
        h.event_type == EventType::CooldownCleared,
        s.len() >= 1,
        number_at(e, "clearedAtMs"@) matches Some(at) && number_at(s[0].1, "cooldownUntilMs"@)
            matches Some(until) && at < until,
    ensures
        !source_payloads_ok(h, e, s),
{
}

/// Holds an event's payload to the payloads of its source events (see
/// `source_payloads_ok`).
pub fn source_payloads_valid(
    event: &EventHeader,
    payload: &JsonValue,
    sources: &Vec<(EventHeader, JsonValue)>,
) -> (r: bool)
    ensures
        r == source_payloads_ok(*event, *payload, sources@),
{
    let e = payload;
    let s = sources;
    if s.len() == 0 {
        return match event.event_type {
            EventType::AllocationExhausted => false,
            EventType::SlotLeaseGranted => false,
            EventType::SessionBindingEstablished => false,
            EventType::SessionRuntimeOwnershipGranted | EventType::SessionRuntimeOwnershipAdopted => false,
            EventType::SessionRebindStarted => false,
            EventType::AnswerTerminal => true,
            EventType::ArtifactClaimCompleted => true,
            EventType::TerminalPersisted => false,
            EventType::ReleaseStarted => release_started(e, s),
            EventType::RuntimeTakeoverProven => false,
            EventType::RuntimeStopStarted => true,
            EventType::SlotLeaseReleased | EventType::ReleaseCleanupCommitted => true,
            EventType::RuntimeOwnershipReleased => true,
            EventType::ReleaseFinalized => release_finalized(e, s),
            EventType::RequestClaimGranted | EventType::HostAttachmentsStaged
            | EventType::AllocationCandidateObserved | EventType::RequestClaimRenewed
            | EventType::SessionOperationClaimRenewed | EventType::SlotLeaseRenewed
            | EventType::RuntimeOwnershipGranted | EventType::RuntimeOwnershipAdopted
            | EventType::RuntimeOwnershipRenewed | EventType::RootCaptureStarted
            | EventType::RootCaptureObserved | EventType::RootCaptureFailed
            | EventType::ModelSelectionStarted | EventType::SlotAttachmentsMaterialized
            | EventType::UploadStarted | EventType::OutputPublished
            | EventType::OutputPublishFailed | EventType::ModelSelectionVerified
            | EventType::ModelSelectionFailed | EventType::UploadMismatchObserved
            | EventType::UploadCompleted | EventType::UploadFailed | EventType::UploadCleared
            | EventType::SendClickArmed | EventType::SendClicked | EventType::SendReconciled
            | EventType::SendUncertain | EventType::SendFailed | EventType::TurnStartConfirmed
            | EventType::RunningProjected | EventType::PersistedSessionLeaseGranted
            | EventType::SessionRebound | EventType::SessionHydrationObserved
            | EventType::SessionHydrated | EventType::PollStarted | EventType::PollProgress
            | EventType::PollFailed | EventType::ArtifactControlsAbsent
            | EventType::ArtifactControlsDiscovered | EventType::ArtifactDownloadAttemptConsumed
            | EventType::ArtifactRecoveryCandidateObserved | EventType::ArtifactDownloadCompleted
            | EventType::ReleaseEvidencePreserved | EventType::RuntimeStopSkipped
            | EventType::ReleaseCleanupStarted | EventType::ReleaseCleanupFailed
            | EventType::RequestClaimReleased | EventType::SessionOperationClaimReleased
            | EventType::SlotStandbyWritten | EventType::ReleaseCooldownBlocked
            | EventType::RuntimeStopped | EventType::RuntimeStopFailed
            | EventType::CooldownCleared => false,
            _ => true,
        };
    }
    let s0 = &s[0].1;
    let same_aggregate = str_eq(event.aggregate.id.as_str(), s[0].0.aggregate.id.as_str());
    match event.event_type {
        EventType::RequestClaimGranted | EventType::HostAttachmentsStaged
        | EventType::AllocationCandidateObserved => same_text(e, "requestId", s0, "requestId"),
        EventType::RequestClaimRenewed | EventType::SessionOperationClaimRenewed => {
            let claim = same_text(e, "claimId", s0, "claimId");
            (claim && same_num(e, "claimGeneration", s0, "claimGeneration")) || (claim && number(
                s0,
                "claimGeneration",
            ).is_none() && number(e, "claimGeneration") == Some(1u64))
        },
        EventType::AllocationExhausted => allocation_exhausted(e, s),
        EventType::SlotLeaseGranted => lease_sources(event, e, s),
        EventType::SlotLeaseRenewed => same_text(e, "leaseId", s0, "leaseId") && same_num(
            e,
            "leaseGeneration",
            s0,
            "leaseGeneration",
        ),
        EventType::RuntimeOwnershipGranted | EventType::RuntimeOwnershipAdopted => same_text(
            e,
            "leaseId",
            s0,
            "leaseId",
        ) && same_text(e, "slotId", s0, "slotId"),
        EventType::RuntimeOwnershipRenewed => same_text(e, "runtimeOwnerId", s0, "runtimeOwnerId")
            && same_num(e, "ownerGeneration", s0, "ownerGeneration"),
        EventType::RootCaptureStarted => {
            let health = text(s0, "healthStatus");
            same_text(e, "slotId", s0, "slotId") && (text_is(health, "ready") || text_is(
                health,
                "ready_model_correction_required",
            ))
        },
        EventType::RootCaptureObserved | EventType::RootCaptureFailed => same_text(
            e,
            "captureOperationId",
            s0,
            "captureOperationId",
        ),
        EventType::ModelSelectionStarted | EventType::SlotAttachmentsMaterialized
        | EventType::UploadStarted | EventType::OutputPublished
        | EventType::OutputPublishFailed => same_aggregate,
        EventType::ModelSelectionVerified | EventType::ModelSelectionFailed => same_text(
            e,
            "modelOperationId",
            s0,
            "modelOperationId",
        ),
        EventType::UploadMismatchObserved | EventType::UploadCompleted | EventType::UploadFailed
        | EventType::UploadCleared | EventType::SendClickArmed => same_text(
            e,
            "uploadAttemptId",
            s0,
            "uploadAttemptId",
        ) && same_aggregate,
        EventType::SendClicked | EventType::SendReconciled | EventType::SendUncertain
        | EventType::SendFailed => same_text(e, "sendAttemptId", s0, "sendAttemptId")
            && same_aggregate,
        EventType::TurnStartConfirmed => turn_start(event, e, &s[0]),
        EventType::SessionBindingEstablished => session_binding(e, s),
        EventType::RunningProjected => same_text(e, "sessionId", s0, "sessionId") && same_text(
            e,
            "sessionBindingId",
            s0,
            "sessionBindingId",
        ),
        EventType::PersistedSessionLeaseGranted => same_text(e, "claimId", s0, "claimId")
            && same_text(e, "slotId", s0, "expectedSlotId") && same_text(
            e,
            "cohort",
            s0,
            "expectedCohort",
        ),
        EventType::SessionRuntimeOwnershipGranted | EventType::SessionRuntimeOwnershipAdopted => s.len()
            == 2 && same_text(e, "sessionId", s0, "sessionId") && same_text(
            e,
            "leaseId",
            &s[1].1,
            "leaseId",
        ) && same_text(e, "slotId", &s[1].1, "slotId"),
        EventType::SessionRebindStarted => rebind_sources(e, s),
        EventType::SessionRebound | EventType::SessionHydrationObserved | EventType::SessionHydrated
        | EventType::PollStarted => same_text(e, "sessionId", s0, "sessionId"),
        EventType::PollProgress | EventType::PollFailed => same_text(
            e,
            "pollAttemptId",
            s0,
            "pollAttemptId",
        ),
        EventType::AnswerTerminal => {
            let request = match &event.request_id {
                Some(r) => Some(r.as_str()),
                None => None,
            };
            same_text(e, "sessionId", s0, "sessionId") && opt_eq(text(e, "requestId"), request)
        },
        EventType::ArtifactControlsAbsent | EventType::ArtifactControlsDiscovered
        | EventType::ArtifactDownloadAttemptConsumed => same_text(
            e,
            "artifactClaimId",
            s0,
            "artifactClaimId",
        ),
        EventType::ArtifactRecoveryCandidateObserved | EventType::ArtifactDownloadCompleted => same_text(
            e,
            "artifactClaimId",
            s0,
            "artifactClaimId",
        ) && same_text(e, "attemptId", s0, "attemptId"),
        EventType::ArtifactClaimCompleted => all_same(e, "artifactClaimId", s),
        EventType::TerminalPersisted => terminal_sources(event, e, s),
        EventType::ReleaseStarted => release_started(e, s),
        EventType::ReleaseEvidencePreserved | EventType::RuntimeStopSkipped
        | EventType::ReleaseCleanupStarted | EventType::ReleaseCleanupFailed
        | EventType::RequestClaimReleased | EventType::SessionOperationClaimReleased
        | EventType::SlotStandbyWritten | EventType::ReleaseCooldownBlocked => same_text(
            e,
            "releaseId",
            s0,
            "releaseId",
        ),
        EventType::RuntimeTakeoverProven => s.len() == 2 && text_is(
            text(e, "priorOwnerId"),
            s[0].0.aggregate.id.as_str(),
        ) && same_text(e, "releaseId", &s[1].1, "releaseId"),
        EventType::RuntimeStopStarted => same_text(e, "runtimeOwnerId", s0, "newOwnerId")
            && same_num(e, "ownerGeneration", s0, "newGeneration"),
        EventType::RuntimeStopped | EventType::RuntimeStopFailed => same_text(
            e,
            "releaseId",
            s0,
            "releaseId",
        ) && same_text(e, "runtimeOwnerId", s0, "runtimeOwnerId") && same_num(
            e,
            "ownerGeneration",
            s0,
            "ownerGeneration",
        ),
        EventType::SlotLeaseReleased | EventType::ReleaseCleanupCommitted => all_same(
            e,
            "releaseId",
            s,
        ),
        EventType::RuntimeOwnershipReleased => all_released_by(e, s),
        EventType::CooldownCleared => {
            match (number(s0, "cooldownUntilMs"), number(e, "clearedAtMs")) {
                (Some(until), Some(at)) => same_text(e, "slotId", s0, "slotId") && at >= until,
                _ => false,
            }
        },
        EventType::ReleaseFinalized => release_finalized(e, s),
        _ => true,
    }
}

/// The event types of an event's sources, in order.
pub open spec fn source_kinds(sources: Seq<(EventHeader, JsonValue)>) -> Seq<EventType> {
    sources.map_values(|x: (EventHeader, JsonValue)| x.0.event_type)
}

/// The checks replay makes of an event's sources, once they are all found:
/// their event types, exactly or by the variable rule, then their payloads.
pub fn sources_valid(
    event: &EventHeader,
    payload: &JsonValue,
    sources: &Vec<(EventHeader, JsonValue)>,
) -> (r: bool)
    ensures
        r == (sources_ok(event.event_type, source_kinds(sources@)) && source_payloads_ok(
            *event,
            *payload,
            sources@,
        )),
{
    let mut kinds: Vec<EventType> = Vec::new();
    let mut i: usize = 0;
    while i < sources.len()
        invariant
            i <= sources@.len(),
            kinds@ == source_kinds(sources@).take(i as int),
        decreases sources.len() - i,
    {
        kinds.push(sources[i].0.event_type);
        proof {
            assert(source_kinds(sources@).take(i as int + 1) =~= source_kinds(sources@).take(
                i as int,
            ).push(sources@[i as int].0.event_type));
        }
        i += 1;
    }
    assert(source_kinds(sources@).take(sources@.len() as int) =~= source_kinds(sources@));
    source_types_valid(event.event_type, kinds.as_slice()) && source_payloads_valid(
        event,
        payload,
        sources,
    )
}

} // verus!
