use vstd::prelude::*;

use crate::contracts::events::EventType;

verus! {

// ---------------------------------------------------------------- stream transitions

/// Which event may follow which in one aggregate stream: `previous` is the
/// stream's event before `event`, or `None` where `event` opens the stream.
pub open spec fn predecessor_ok(event: EventType, previous: Option<EventType>) -> bool {
    match event {
        EventType::RequestAccepted | EventType::RequestClaimGranted | EventType::SlotLeaseGranted | EventType::RuntimeOwnershipGranted | EventType::RuntimeOwnershipAdopted | EventType::SessionOperationClaimGranted | EventType::PersistedSessionLeaseGranted | EventType::SessionRuntimeOwnershipGranted | EventType::SessionRuntimeOwnershipAdopted | EventType::ArtifactClaimEstablished | EventType::ReleaseStarted | EventType::RuntimeTakeoverProven | EventType::SessionBindingEstablished => previous is None,
        EventType::RequestClaimRenewed | EventType::RequestClaimReleased => previous == Some(EventType::RequestClaimGranted) || previous == Some(EventType::RequestClaimRenewed),
        EventType::SessionOperationClaimRenewed | EventType::SessionOperationClaimReleased => previous == Some(EventType::SessionOperationClaimGranted) || previous == Some(EventType::SessionOperationClaimRenewed),
        EventType::SlotLeaseRenewed => previous == Some(EventType::SlotLeaseGranted) || previous == Some(EventType::SlotLeaseRenewed),
        EventType::SlotLeaseReleased => previous == Some(EventType::SlotLeaseGranted) || previous == Some(EventType::SlotLeaseRenewed) || previous == Some(EventType::PersistedSessionLeaseGranted),
        EventType::RuntimeOwnershipRenewed => previous == Some(EventType::RuntimeOwnershipGranted) || previous == Some(EventType::RuntimeOwnershipAdopted) || previous == Some(EventType::RuntimeOwnershipRenewed),
        EventType::RuntimeOwnershipReleased => previous == Some(EventType::RuntimeOwnershipGranted) || previous == Some(EventType::RuntimeOwnershipAdopted) || previous == Some(EventType::RuntimeOwnershipRenewed) || previous == Some(EventType::SessionRuntimeOwnershipGranted) || previous == Some(EventType::SessionRuntimeOwnershipAdopted) || previous == Some(EventType::RuntimeTakeoverProven),
        EventType::HostAttachmentsStaged => previous == Some(EventType::RequestAccepted),
        EventType::RootCaptureStarted => previous == Some(EventType::HostAttachmentsStaged),
        EventType::RootCaptureObserved | EventType::RootCaptureFailed => previous == Some(EventType::RootCaptureStarted),
        EventType::ModelSelectionStarted => previous == Some(EventType::RootCaptureObserved),
        EventType::ModelSelectionVerified | EventType::ModelSelectionFailed => previous == Some(EventType::ModelSelectionStarted),
        EventType::SlotAttachmentsMaterialized => previous == Some(EventType::ModelSelectionVerified),
        EventType::UploadStarted => previous == Some(EventType::SlotAttachmentsMaterialized) || previous == Some(EventType::UploadCleared),
        EventType::UploadMismatchObserved => previous == Some(EventType::UploadStarted),
        EventType::UploadCleared => previous == Some(EventType::UploadMismatchObserved),
        EventType::UploadCompleted => previous == Some(EventType::UploadStarted),
        EventType::UploadFailed => previous == Some(EventType::UploadStarted) || previous == Some(EventType::UploadMismatchObserved),
        EventType::SendClickArmed => previous == Some(EventType::UploadCompleted),
        EventType::SendClicked | EventType::SendReconciled | EventType::SendUncertain | EventType::SendFailed => previous == Some(EventType::SendClickArmed),
        EventType::TurnStartConfirmed => previous == Some(EventType::SendClicked) || previous == Some(EventType::SendReconciled),
        EventType::RunningProjected => previous == Some(EventType::TurnStartConfirmed),
        EventType::PollStarted => previous is Some,
        EventType::PollProgress | EventType::PollFailed | EventType::AnswerTerminal => previous == Some(EventType::PollStarted) || previous == Some(EventType::PollProgress),
        EventType::TerminalPersisted => previous == Some(EventType::AnswerTerminal),
        EventType::OutputPublished | EventType::OutputPublishFailed => previous == Some(EventType::TerminalPersisted),
        EventType::AllocationCandidateObserved | EventType::AllocationExhausted | EventType::SlotHealthProbeStarted | EventType::SnapshotPublished | EventType::SnapshotRejected | EventType::QaMatrixRecorded | EventType::QaRepeatRecorded | EventType::QaCountersReset | EventType::SessionRebindStarted | EventType::SessionOperationFailed | EventType::SlotStandbyWritten | EventType::CooldownCleared => true,
        EventType::SlotHealthObserved => previous == Some(EventType::SlotHealthProbeStarted),
        EventType::SessionRebound => previous == Some(EventType::SessionRebindStarted),
        EventType::SessionHydrationObserved | EventType::SessionHydrated => previous == Some(EventType::SessionRebound) || previous == Some(EventType::SessionHydrationObserved),
        EventType::ArtifactControlsAbsent | EventType::ArtifactControlsDiscovered => previous == Some(EventType::ArtifactClaimEstablished),
        EventType::ArtifactDownloadAttemptConsumed => previous == Some(EventType::ArtifactControlsDiscovered) || previous == Some(EventType::ArtifactDownloadCompleted),
        EventType::ArtifactRecoveryCandidateObserved => previous == Some(EventType::ArtifactDownloadAttemptConsumed),
        EventType::ArtifactDownloadCompleted => previous == Some(EventType::ArtifactDownloadAttemptConsumed) || previous == Some(EventType::ArtifactRecoveryCandidateObserved),
        EventType::ArtifactClaimCompleted => previous == Some(EventType::ArtifactControlsAbsent) || previous == Some(EventType::ArtifactDownloadCompleted),
        EventType::ArtifactClaimFailed => previous == Some(EventType::ArtifactClaimEstablished) || previous == Some(EventType::ArtifactControlsAbsent) || previous == Some(EventType::ArtifactControlsDiscovered) || previous == Some(EventType::ArtifactDownloadAttemptConsumed) || previous == Some(EventType::ArtifactRecoveryCandidateObserved),
        EventType::ReleaseEvidencePreserved => previous == Some(EventType::ReleaseStarted),
        EventType::RuntimeStopStarted | EventType::RuntimeStopSkipped => previous == Some(EventType::ReleaseEvidencePreserved),
        EventType::RuntimeStopped | EventType::RuntimeStopFailed => previous == Some(EventType::RuntimeStopStarted),
        EventType::ReleaseCleanupStarted => previous == Some(EventType::RuntimeStopped) || previous == Some(EventType::RuntimeStopFailed) || previous == Some(EventType::RuntimeStopSkipped),
        EventType::ReleaseCleanupFailed | EventType::ReleaseCleanupCommitted => previous == Some(EventType::ReleaseCleanupStarted),
        EventType::ReleaseCooldownBlocked => previous == Some(EventType::ReleaseCleanupCommitted),
        EventType::ReleaseFinalized => previous == Some(EventType::ReleaseCleanupCommitted) || previous == Some(EventType::ReleaseCooldownBlocked),
    }
}

pub fn predecessor_allowed(event: EventType, previous: Option<EventType>) -> (r: bool)
    ensures
        r == predecessor_ok(event, previous),
{
    match event {
        EventType::RequestAccepted | EventType::RequestClaimGranted | EventType::SlotLeaseGranted | EventType::RuntimeOwnershipGranted | EventType::RuntimeOwnershipAdopted | EventType::SessionOperationClaimGranted | EventType::PersistedSessionLeaseGranted | EventType::SessionRuntimeOwnershipGranted | EventType::SessionRuntimeOwnershipAdopted | EventType::ArtifactClaimEstablished | EventType::ReleaseStarted | EventType::RuntimeTakeoverProven | EventType::SessionBindingEstablished => previous.is_none(),
        EventType::RequestClaimRenewed | EventType::RequestClaimReleased => matches!(previous, Some(EventType::RequestClaimGranted | EventType::RequestClaimRenewed)),
        EventType::SessionOperationClaimRenewed | EventType::SessionOperationClaimReleased => matches!(previous, Some(EventType::SessionOperationClaimGranted | EventType::SessionOperationClaimRenewed)),
        EventType::SlotLeaseRenewed => matches!(previous, Some(EventType::SlotLeaseGranted | EventType::SlotLeaseRenewed)),
        EventType::SlotLeaseReleased => matches!(previous, Some(EventType::SlotLeaseGranted | EventType::SlotLeaseRenewed | EventType::PersistedSessionLeaseGranted)),
        EventType::RuntimeOwnershipRenewed => matches!(previous, Some(EventType::RuntimeOwnershipGranted | EventType::RuntimeOwnershipAdopted | EventType::RuntimeOwnershipRenewed)),
        EventType::RuntimeOwnershipReleased => matches!(previous, Some(EventType::RuntimeOwnershipGranted | EventType::RuntimeOwnershipAdopted | EventType::RuntimeOwnershipRenewed | EventType::SessionRuntimeOwnershipGranted | EventType::SessionRuntimeOwnershipAdopted | EventType::RuntimeTakeoverProven)),
        EventType::HostAttachmentsStaged => matches!(previous, Some(EventType::RequestAccepted)),
        EventType::RootCaptureStarted => matches!(previous, Some(EventType::HostAttachmentsStaged)),
        EventType::RootCaptureObserved | EventType::RootCaptureFailed => matches!(previous, Some(EventType::RootCaptureStarted)),
        EventType::ModelSelectionStarted => matches!(previous, Some(EventType::RootCaptureObserved)),
        EventType::ModelSelectionVerified | EventType::ModelSelectionFailed => matches!(previous, Some(EventType::ModelSelectionStarted)),
        EventType::SlotAttachmentsMaterialized => matches!(previous, Some(EventType::ModelSelectionVerified)),
        EventType::UploadStarted => matches!(previous, Some(EventType::SlotAttachmentsMaterialized | EventType::UploadCleared)),
        EventType::UploadMismatchObserved => matches!(previous, Some(EventType::UploadStarted)),
        EventType::UploadCleared => matches!(previous, Some(EventType::UploadMismatchObserved)),
        EventType::UploadCompleted => matches!(previous, Some(EventType::UploadStarted)),
        EventType::UploadFailed => matches!(previous, Some(EventType::UploadStarted | EventType::UploadMismatchObserved)),
        EventType::SendClickArmed => matches!(previous, Some(EventType::UploadCompleted)),
        EventType::SendClicked | EventType::SendReconciled | EventType::SendUncertain | EventType::SendFailed => matches!(previous, Some(EventType::SendClickArmed)),
        EventType::TurnStartConfirmed => matches!(previous, Some(EventType::SendClicked | EventType::SendReconciled)),
        EventType::RunningProjected => matches!(previous, Some(EventType::TurnStartConfirmed)),
        EventType::PollStarted => previous.is_some(),
        EventType::PollProgress | EventType::PollFailed | EventType::AnswerTerminal => matches!(previous, Some(EventType::PollStarted | EventType::PollProgress)),
        EventType::TerminalPersisted => matches!(previous, Some(EventType::AnswerTerminal)),
        EventType::OutputPublished | EventType::OutputPublishFailed => matches!(previous, Some(EventType::TerminalPersisted)),
        EventType::AllocationCandidateObserved | EventType::AllocationExhausted | EventType::SlotHealthProbeStarted | EventType::SnapshotPublished | EventType::SnapshotRejected | EventType::QaMatrixRecorded | EventType::QaRepeatRecorded | EventType::QaCountersReset | EventType::SessionRebindStarted | EventType::SessionOperationFailed | EventType::SlotStandbyWritten | EventType::CooldownCleared => true,
        EventType::SlotHealthObserved => matches!(previous, Some(EventType::SlotHealthProbeStarted)),
        EventType::SessionRebound => matches!(previous, Some(EventType::SessionRebindStarted)),
        EventType::SessionHydrationObserved | EventType::SessionHydrated => matches!(previous, Some(EventType::SessionRebound | EventType::SessionHydrationObserved)),
        EventType::ArtifactControlsAbsent | EventType::ArtifactControlsDiscovered => matches!(previous, Some(EventType::ArtifactClaimEstablished)),
        EventType::ArtifactDownloadAttemptConsumed => matches!(previous, Some(EventType::ArtifactControlsDiscovered | EventType::ArtifactDownloadCompleted)),
        EventType::ArtifactRecoveryCandidateObserved => matches!(previous, Some(EventType::ArtifactDownloadAttemptConsumed)),
        EventType::ArtifactDownloadCompleted => matches!(previous, Some(EventType::ArtifactDownloadAttemptConsumed | EventType::ArtifactRecoveryCandidateObserved)),
        EventType::ArtifactClaimCompleted => matches!(previous, Some(EventType::ArtifactControlsAbsent | EventType::ArtifactDownloadCompleted)),
        EventType::ArtifactClaimFailed => matches!(previous, Some(EventType::ArtifactClaimEstablished | EventType::ArtifactControlsAbsent | EventType::ArtifactControlsDiscovered | EventType::ArtifactDownloadAttemptConsumed | EventType::ArtifactRecoveryCandidateObserved)),
        EventType::ReleaseEvidencePreserved => matches!(previous, Some(EventType::ReleaseStarted)),
        EventType::RuntimeStopStarted | EventType::RuntimeStopSkipped => matches!(previous, Some(EventType::ReleaseEvidencePreserved)),
        EventType::RuntimeStopped | EventType::RuntimeStopFailed => matches!(previous, Some(EventType::RuntimeStopStarted)),
        EventType::ReleaseCleanupStarted => matches!(previous, Some(EventType::RuntimeStopped | EventType::RuntimeStopFailed | EventType::RuntimeStopSkipped)),
        EventType::ReleaseCleanupFailed | EventType::ReleaseCleanupCommitted => matches!(previous, Some(EventType::ReleaseCleanupStarted)),
        EventType::ReleaseCooldownBlocked => matches!(previous, Some(EventType::ReleaseCleanupCommitted)),
        EventType::ReleaseFinalized => matches!(previous, Some(EventType::ReleaseCleanupCommitted | EventType::ReleaseCooldownBlocked)),
    }
}

/// The exact source event types of an event type, in order, where the
/// journal fixes them.
pub open spec fn exact_sources_of(event: EventType) -> Option<Seq<EventType>> {
    match event {
        EventType::RequestAccepted | EventType::SnapshotPublished | EventType::SnapshotRejected | EventType::QaMatrixRecorded | EventType::QaRepeatRecorded | EventType::QaCountersReset => Some(seq![]),
        EventType::RequestClaimGranted => Some(seq![EventType::RequestAccepted]),
        EventType::HostAttachmentsStaged => Some(seq![EventType::RequestClaimGranted]),
        EventType::AllocationCandidateObserved => Some(seq![EventType::HostAttachmentsStaged]),
        EventType::RuntimeOwnershipGranted | EventType::RuntimeOwnershipAdopted => Some(seq![EventType::SlotLeaseGranted]),
        EventType::RootCaptureStarted => Some(seq![EventType::SlotHealthObserved]),
        EventType::RootCaptureObserved | EventType::RootCaptureFailed => Some(seq![EventType::RootCaptureStarted]),
        EventType::ModelSelectionStarted => Some(seq![EventType::RootCaptureObserved]),
        EventType::ModelSelectionVerified | EventType::ModelSelectionFailed => Some(seq![EventType::ModelSelectionStarted]),
        EventType::SlotAttachmentsMaterialized => Some(seq![EventType::ModelSelectionVerified]),
        EventType::UploadMismatchObserved => Some(seq![EventType::UploadStarted]),
        EventType::UploadCleared => Some(seq![EventType::UploadMismatchObserved]),
        EventType::SendClickArmed => Some(seq![EventType::UploadCompleted]),
        EventType::SendClicked | EventType::SendReconciled | EventType::SendUncertain | EventType::SendFailed => Some(seq![EventType::SendClickArmed]),
        EventType::SessionBindingEstablished => Some(seq![EventType::TurnStartConfirmed, EventType::RootCaptureObserved]),
        EventType::RunningProjected => Some(seq![EventType::SessionBindingEstablished]),
        EventType::PersistedSessionLeaseGranted => Some(seq![EventType::SessionOperationClaimGranted]),
        EventType::SessionRebound => Some(seq![EventType::SessionRebindStarted]),
        EventType::PollStarted => Some(seq![EventType::SessionHydrated]),
        EventType::ArtifactControlsAbsent | EventType::ArtifactControlsDiscovered => Some(seq![EventType::ArtifactClaimEstablished]),
        EventType::ArtifactRecoveryCandidateObserved => Some(seq![EventType::ArtifactDownloadAttemptConsumed]),
        EventType::ReleaseEvidencePreserved => Some(seq![EventType::ReleaseStarted]),
        EventType::RuntimeStopped | EventType::RuntimeStopFailed => Some(seq![EventType::RuntimeStopStarted]),
        EventType::RuntimeStopSkipped => Some(seq![EventType::ReleaseEvidencePreserved]),
        EventType::ReleaseCleanupFailed => Some(seq![EventType::ReleaseCleanupStarted]),
        _ => None,
    }
}

pub fn exact_source_types(event: EventType) -> (r: Option<Vec<EventType>>)
    ensures
        match exact_sources_of(event) {
            Some(s) => r matches Some(v) && v@ == s,
            None => r is None,
        },
{
    let r = match event {
        EventType::RequestAccepted | EventType::SnapshotPublished | EventType::SnapshotRejected | EventType::QaMatrixRecorded | EventType::QaRepeatRecorded | EventType::QaCountersReset => Some(vec![]),
        EventType::RequestClaimGranted => Some(vec![EventType::RequestAccepted]),
        EventType::HostAttachmentsStaged => Some(vec![EventType::RequestClaimGranted]),
        EventType::AllocationCandidateObserved => Some(vec![EventType::HostAttachmentsStaged]),
        EventType::RuntimeOwnershipGranted | EventType::RuntimeOwnershipAdopted => Some(vec![EventType::SlotLeaseGranted]),
        EventType::RootCaptureStarted => Some(vec![EventType::SlotHealthObserved]),
        EventType::RootCaptureObserved | EventType::RootCaptureFailed => Some(vec![EventType::RootCaptureStarted]),
        EventType::ModelSelectionStarted => Some(vec![EventType::RootCaptureObserved]),
        EventType::ModelSelectionVerified | EventType::ModelSelectionFailed => Some(vec![EventType::ModelSelectionStarted]),
        EventType::SlotAttachmentsMaterialized => Some(vec![EventType::ModelSelectionVerified]),
        EventType::UploadMismatchObserved => Some(vec![EventType::UploadStarted]),
        EventType::UploadCleared => Some(vec![EventType::UploadMismatchObserved]),
        EventType::SendClickArmed => Some(vec![EventType::UploadCompleted]),
        EventType::SendClicked | EventType::SendReconciled | EventType::SendUncertain | EventType::SendFailed => Some(vec![EventType::SendClickArmed]),
        EventType::SessionBindingEstablished => Some(vec![EventType::TurnStartConfirmed, EventType::RootCaptureObserved]),
        EventType::RunningProjected => Some(vec![EventType::SessionBindingEstablished]),
        EventType::PersistedSessionLeaseGranted => Some(vec![EventType::SessionOperationClaimGranted]),
        EventType::SessionRebound => Some(vec![EventType::SessionRebindStarted]),
        EventType::PollStarted => Some(vec![EventType::SessionHydrated]),
        EventType::ArtifactControlsAbsent | EventType::ArtifactControlsDiscovered => Some(vec![EventType::ArtifactClaimEstablished]),
        EventType::ArtifactRecoveryCandidateObserved => Some(vec![EventType::ArtifactDownloadAttemptConsumed]),
        EventType::ReleaseEvidencePreserved => Some(vec![EventType::ReleaseStarted]),
        EventType::RuntimeStopped | EventType::RuntimeStopFailed => Some(vec![EventType::RuntimeStopStarted]),
        EventType::RuntimeStopSkipped => Some(vec![EventType::ReleaseEvidencePreserved]),
        EventType::ReleaseCleanupFailed => Some(vec![EventType::ReleaseCleanupStarted]),
        _ => None,
    };
    proof {
        if r is Some {
            assert(r->0@ =~= exact_sources_of(event)->0);
        }
    }
    r
}

// ---------------------------------------------------------------- source events

/// Every source from index `from` on is of a type in `kinds`.
pub open spec fn all_in(s: Seq<EventType>, from: int, kinds: Seq<EventType>) -> bool {
    forall|i: int| from <= i < s.len() ==> kinds.contains(#[trigger] s[i])
}

/// Some source is of a type in `kinds`.
pub open spec fn any_in(s: Seq<EventType>, kinds: Seq<EventType>) -> bool {
    exists|i: int| 0 <= i < s.len() && kinds.contains(#[trigger] s[i])
}

fn among(kind: EventType, kinds: &Vec<EventType>) -> (r: bool)
    ensures
        r == kinds@.contains(kind),
{
    let mut j: usize = 0;
    while j < kinds.len()
        invariant
            j <= kinds@.len(),
            forall|k: int| 0 <= k < j ==> kinds@[k] != kind,
        decreases kinds.len() - j,
    {
        if kinds[j] == kind {
            return true;
        }
        j += 1;
    }
    false
}

fn all_among(s: &[EventType], from: usize, kinds: &Vec<EventType>) -> (r: bool)
    ensures
        r == all_in(s@, from as int, kinds@),
{
    let mut i: usize = from;
    while i < s.len()
        invariant
            from <= i || i >= s@.len(),
            forall|k: int| from <= k < i && k < s@.len() ==> kinds@.contains(#[trigger] s@[k]),
        decreases s.len() - i,
    {
        if !among(s[i], kinds) {
            return false;
        }
        i += 1;
    }
    true
}

fn any_among(s: &[EventType], kinds: &Vec<EventType>) -> (r: bool)
    ensures
        r == any_in(s@, kinds@),
{
    let mut i: usize = 0;
    while i < s.len()
        invariant
            i <= s@.len(),
            forall|k: int| 0 <= k < i ==> !kinds@.contains(#[trigger] s@[k]),
        decreases s.len() - i,
    {
        if among(s[i], kinds) {
            return true;
        }
        i += 1;
    }
    false
}

/// The events a release may start from.
pub open spec fn release_source_kinds() -> Seq<EventType> {
    seq![EventType::OutputPublished, EventType::PollFailed, EventType::PollProgress, EventType::SessionHydrated, EventType::UploadFailed, EventType::SendUncertain, EventType::SendFailed, EventType::OutputPublishFailed, EventType::ModelSelectionFailed, EventType::SessionOperationFailed, EventType::RootCaptureFailed, EventType::AllocationExhausted, EventType::ArtifactClaimCompleted, EventType::ArtifactClaimFailed, EventType::SlotHealthObserved, EventType::RequestClaimGranted, EventType::RequestClaimRenewed, EventType::SessionOperationClaimGranted, EventType::SessionOperationClaimRenewed, EventType::SlotLeaseGranted, EventType::SlotLeaseRenewed, EventType::PersistedSessionLeaseGranted, EventType::RuntimeOwnershipGranted, EventType::RuntimeOwnershipAdopted, EventType::RuntimeOwnershipRenewed, EventType::SessionRuntimeOwnershipGranted, EventType::SessionRuntimeOwnershipAdopted]
}

/// A release starts from one to four events of the kinds it may release.
pub open spec fn release_sources_ok(s: Seq<EventType>) -> bool {
    1 <= s.len() <= 4 && all_in(s, 0, release_source_kinds())
}

pub fn release_sources_valid(s: &[EventType]) -> (r: bool)
    ensures
        r == release_sources_ok(s@),
{
    let kinds = vec![EventType::OutputPublished, EventType::PollFailed, EventType::PollProgress, EventType::SessionHydrated, EventType::UploadFailed, EventType::SendUncertain, EventType::SendFailed, EventType::OutputPublishFailed, EventType::ModelSelectionFailed, EventType::SessionOperationFailed, EventType::RootCaptureFailed, EventType::AllocationExhausted, EventType::ArtifactClaimCompleted, EventType::ArtifactClaimFailed, EventType::SlotHealthObserved, EventType::RequestClaimGranted, EventType::RequestClaimRenewed, EventType::SessionOperationClaimGranted, EventType::SessionOperationClaimRenewed, EventType::SlotLeaseGranted, EventType::SlotLeaseRenewed, EventType::PersistedSessionLeaseGranted, EventType::RuntimeOwnershipGranted, EventType::RuntimeOwnershipAdopted, EventType::RuntimeOwnershipRenewed, EventType::SessionRuntimeOwnershipGranted, EventType::SessionRuntimeOwnershipAdopted];
    assert(kinds@ == release_source_kinds());
    1 <= s.len() && s.len() <= 4 && all_among(s, 0, &kinds)
}

/// The sources an event type takes where they vary: how many, and of
/// which types.
pub open spec fn variable_sources_ok(event: EventType, s: Seq<EventType>) -> bool {
    match event {
        EventType::RequestClaimRenewed | EventType::SessionOperationClaimRenewed => s.len() == 1 && (s[0] == EventType::RequestClaimGranted || s[0] == EventType::RequestClaimRenewed || s[0] == EventType::SessionOperationClaimGranted || s[0] == EventType::SessionOperationClaimRenewed),
        EventType::AllocationExhausted => s.len() == 10 && all_in(s, 0, seq![EventType::AllocationCandidateObserved]),
        EventType::SlotLeaseGranted => s.len() >= 2 && s[0] == EventType::RequestClaimGranted && all_in(s, 1, seq![EventType::AllocationCandidateObserved]),
        EventType::SlotLeaseRenewed => s.len() == 1 && (s[0] == EventType::SlotLeaseGranted || s[0] == EventType::SlotLeaseRenewed),
        EventType::RuntimeOwnershipRenewed => s.len() == 1 && (s[0] == EventType::RuntimeOwnershipGranted || s[0] == EventType::RuntimeOwnershipAdopted || s[0] == EventType::RuntimeOwnershipRenewed),
        EventType::SlotHealthProbeStarted => s.len() == 2 && (s[0] == EventType::SlotLeaseGranted || s[0] == EventType::PersistedSessionLeaseGranted) && (s[1] == EventType::RuntimeOwnershipGranted || s[1] == EventType::RuntimeOwnershipAdopted || s[1] == EventType::SessionRuntimeOwnershipGranted || s[1] == EventType::SessionRuntimeOwnershipAdopted),
        EventType::SlotHealthObserved => s.len() == 1 && s[0] == EventType::SlotHealthProbeStarted,
        EventType::UploadStarted => s.len() == 1 && (s[0] == EventType::SlotAttachmentsMaterialized || s[0] == EventType::UploadCleared),
        EventType::UploadCompleted => s.len() == 1 && s[0] == EventType::UploadStarted,
        EventType::UploadFailed => s.len() == 1 && (s[0] == EventType::UploadStarted || s[0] == EventType::UploadMismatchObserved),
        EventType::TurnStartConfirmed => s.len() == 1 && (s[0] == EventType::SendClicked || s[0] == EventType::SendReconciled),
        EventType::SessionOperationClaimGranted => s.len() == 0 || (s.len() == 1 && s[0] == EventType::RunningProjected),
        EventType::SessionRuntimeOwnershipGranted | EventType::SessionRuntimeOwnershipAdopted => s.len() == 2 && s[0] == EventType::SessionOperationClaimGranted && s[1] == EventType::PersistedSessionLeaseGranted,
        EventType::SessionRebindStarted => s.len() == 3 && (s[0] == EventType::SessionOperationClaimGranted || s[0] == EventType::SessionOperationClaimRenewed) && (s[1] == EventType::SlotLeaseGranted || s[1] == EventType::SlotLeaseRenewed || s[1] == EventType::PersistedSessionLeaseGranted) && (s[2] == EventType::RuntimeOwnershipGranted || s[2] == EventType::RuntimeOwnershipAdopted || s[2] == EventType::RuntimeOwnershipRenewed || s[2] == EventType::SessionRuntimeOwnershipGranted || s[2] == EventType::SessionRuntimeOwnershipAdopted),
        EventType::SessionHydrationObserved | EventType::SessionHydrated => s.len() == 1 && (s[0] == EventType::SessionRebound || s[0] == EventType::SessionHydrationObserved),
        EventType::SessionOperationFailed => s.len() == 1,
        EventType::PollProgress | EventType::PollFailed => s.len() == 1 && (s[0] == EventType::PollStarted || s[0] == EventType::PollProgress),
        EventType::AnswerTerminal => s.len() == 0 || (s.len() == 1 && s[0] == EventType::SessionHydrated),
        EventType::ArtifactClaimEstablished => s.len() == 1 && (s[0] == EventType::AnswerTerminal || s[0] == EventType::SessionHydrated),
        EventType::ArtifactDownloadAttemptConsumed => s.len() == 1 && (s[0] == EventType::ArtifactControlsDiscovered || s[0] == EventType::ArtifactDownloadCompleted),
        EventType::ArtifactDownloadCompleted => s.len() == 1 && (s[0] == EventType::ArtifactDownloadAttemptConsumed || s[0] == EventType::ArtifactRecoveryCandidateObserved),
        EventType::ArtifactClaimCompleted => s.len() > 0 && all_in(s, 0, seq![EventType::ArtifactControlsAbsent, EventType::ArtifactDownloadCompleted]),
        EventType::ArtifactClaimFailed => s.len() == 0,
        EventType::TerminalPersisted => s.len() > 0 && s[0] == EventType::AnswerTerminal && all_in(s, 1, seq![EventType::ArtifactClaimCompleted, EventType::ArtifactClaimFailed]),
        EventType::OutputPublished | EventType::OutputPublishFailed => s.len() == 1 && s[0] == EventType::TerminalPersisted,
        EventType::ReleaseStarted => release_sources_ok(s),
        EventType::RuntimeTakeoverProven => s.len() == 2 && s[1] == EventType::ReleaseEvidencePreserved,
        EventType::RuntimeStopStarted => s.len() == 0 || (s.len() == 1 && s[0] == EventType::RuntimeTakeoverProven),
        EventType::ReleaseCleanupStarted => s.len() == 1 && (s[0] == EventType::RuntimeStopped || s[0] == EventType::RuntimeStopFailed || s[0] == EventType::RuntimeStopSkipped),
        EventType::SessionOperationClaimReleased => s.len() == 1 && s[0] == EventType::ReleaseCleanupStarted,
        EventType::RequestClaimReleased => (s.len() == 1 && s[0] == EventType::ReleaseCleanupStarted) || (s.len() == 2 && s[0] == EventType::ReleaseCleanupStarted && s[1] == EventType::SessionOperationClaimReleased),
        EventType::SlotLeaseReleased => s.len() > 0 && all_in(s, 0, seq![EventType::RequestClaimReleased, EventType::SessionOperationClaimReleased, EventType::ReleaseCleanupStarted]),
        EventType::RuntimeOwnershipReleased => any_in(s, seq![EventType::RuntimeStopped, EventType::RuntimeStopFailed, EventType::RuntimeStopSkipped]) && all_in(s, 0, seq![EventType::SlotLeaseReleased, EventType::RuntimeStopped, EventType::RuntimeStopFailed, EventType::RuntimeStopSkipped]),
        EventType::ReleaseCleanupCommitted => all_in(s, 0, seq![EventType::RequestClaimReleased, EventType::SessionOperationClaimReleased, EventType::SlotLeaseReleased, EventType::RuntimeOwnershipReleased]),
        EventType::SlotStandbyWritten => s.len() == 1 && s[0] == EventType::ReleaseCleanupCommitted,
        EventType::ReleaseCooldownBlocked | EventType::CooldownCleared => s.len() == 1 && s[0] == EventType::SlotStandbyWritten,
        EventType::ReleaseFinalized => s.len() == 0 || (s.len() == 1 && s[0] == EventType::SlotStandbyWritten) || (s.len() == 2 && s[0] == EventType::SlotStandbyWritten && s[1] == EventType::CooldownCleared),
        _ => false,
    }
}

pub open spec fn source_group_0(event: EventType) -> bool {
    matches!(event, EventType::RequestClaimRenewed | EventType::SessionOperationClaimRenewed | EventType::AllocationExhausted | EventType::SlotLeaseGranted | EventType::SlotLeaseRenewed | EventType::RuntimeOwnershipRenewed | EventType::SlotHealthProbeStarted | EventType::SlotHealthObserved | EventType::UploadStarted)
}

#[verifier::rlimit(50)]
fn variable_sources_valid_0(event: EventType, s: &[EventType]) -> (r: bool)
    requires
        source_group_0(event),
    ensures
        r == variable_sources_ok(event, s@),
{
    match event {
        EventType::RequestClaimRenewed | EventType::SessionOperationClaimRenewed => s.len() == 1 && matches!(s[0], EventType::RequestClaimGranted | EventType::RequestClaimRenewed | EventType::SessionOperationClaimGranted | EventType::SessionOperationClaimRenewed),
        EventType::AllocationExhausted => {
            let k0 = vec![EventType::AllocationCandidateObserved];
            proof {
                assert(k0@ =~= seq![EventType::AllocationCandidateObserved]);
            }
            s.len() == 10 && all_among(s, 0, &k0)
        },
        EventType::SlotLeaseGranted => {
            let k0 = vec![EventType::AllocationCandidateObserved];
            proof {
                assert(k0@ =~= seq![EventType::AllocationCandidateObserved]);
            }
            s.len() >= 2 && s[0] == EventType::RequestClaimGranted && all_among(s, 1, &k0)
        },
        EventType::SlotLeaseRenewed => s.len() == 1 && matches!(s[0], EventType::SlotLeaseGranted | EventType::SlotLeaseRenewed),
        EventType::RuntimeOwnershipRenewed => s.len() == 1 && matches!(s[0], EventType::RuntimeOwnershipGranted | EventType::RuntimeOwnershipAdopted | EventType::RuntimeOwnershipRenewed),
        EventType::SlotHealthProbeStarted => s.len() == 2 && matches!(s[0], EventType::SlotLeaseGranted | EventType::PersistedSessionLeaseGranted) && matches!(s[1], EventType::RuntimeOwnershipGranted | EventType::RuntimeOwnershipAdopted | EventType::SessionRuntimeOwnershipGranted | EventType::SessionRuntimeOwnershipAdopted),
        EventType::SlotHealthObserved => s.len() == 1 && s[0] == EventType::SlotHealthProbeStarted,
        EventType::UploadStarted => s.len() == 1 && matches!(s[0], EventType::SlotAttachmentsMaterialized | EventType::UploadCleared),
        _ => false,
    }
}

pub open spec fn source_group_1(event: EventType) -> bool {
    matches!(event, EventType::UploadCompleted | EventType::UploadFailed | EventType::TurnStartConfirmed | EventType::SessionOperationClaimGranted | EventType::SessionRuntimeOwnershipGranted | EventType::SessionRuntimeOwnershipAdopted | EventType::SessionRebindStarted | EventType::SessionHydrationObserved | EventType::SessionHydrated | EventType::SessionOperationFailed)
}

#[verifier::rlimit(50)]
fn variable_sources_valid_1(event: EventType, s: &[EventType]) -> (r: bool)
    requires
        source_group_1(event),
    ensures
        r == variable_sources_ok(event, s@),
{
    match event {
        EventType::UploadCompleted => s.len() == 1 && s[0] == EventType::UploadStarted,
        EventType::UploadFailed => s.len() == 1 && matches!(s[0], EventType::UploadStarted | EventType::UploadMismatchObserved),
        EventType::TurnStartConfirmed => s.len() == 1 && matches!(s[0], EventType::SendClicked | EventType::SendReconciled),
        EventType::SessionOperationClaimGranted => s.len() == 0 || (s.len() == 1 && s[0] == EventType::RunningProjected),
        EventType::SessionRuntimeOwnershipGranted | EventType::SessionRuntimeOwnershipAdopted => s.len() == 2 && s[0] == EventType::SessionOperationClaimGranted && s[1] == EventType::PersistedSessionLeaseGranted,
        EventType::SessionRebindStarted => s.len() == 3 && matches!(s[0], EventType::SessionOperationClaimGranted | EventType::SessionOperationClaimRenewed) && matches!(s[1], EventType::SlotLeaseGranted | EventType::SlotLeaseRenewed | EventType::PersistedSessionLeaseGranted) && matches!(s[2], EventType::RuntimeOwnershipGranted | EventType::RuntimeOwnershipAdopted | EventType::RuntimeOwnershipRenewed | EventType::SessionRuntimeOwnershipGranted | EventType::SessionRuntimeOwnershipAdopted),
        EventType::SessionHydrationObserved | EventType::SessionHydrated => s.len() == 1 && matches!(s[0], EventType::SessionRebound | EventType::SessionHydrationObserved),
        EventType::SessionOperationFailed => s.len() == 1,
        _ => false,
    }
}

pub open spec fn source_group_2(event: EventType) -> bool {
    matches!(event, EventType::PollProgress | EventType::PollFailed | EventType::AnswerTerminal | EventType::ArtifactClaimEstablished | EventType::ArtifactDownloadAttemptConsumed | EventType::ArtifactDownloadCompleted | EventType::ArtifactClaimCompleted | EventType::ArtifactClaimFailed | EventType::TerminalPersisted)
}

#[verifier::rlimit(50)]
fn variable_sources_valid_2(event: EventType, s: &[EventType]) -> (r: bool)
    requires
        source_group_2(event),
    ensures
        r == variable_sources_ok(event, s@),
{
    match event {
        EventType::PollProgress | EventType::PollFailed => s.len() == 1 && matches!(s[0], EventType::PollStarted | EventType::PollProgress),
        EventType::AnswerTerminal => s.len() == 0 || (s.len() == 1 && s[0] == EventType::SessionHydrated),
        EventType::ArtifactClaimEstablished => s.len() == 1 && matches!(s[0], EventType::AnswerTerminal | EventType::SessionHydrated),
        EventType::ArtifactDownloadAttemptConsumed => s.len() == 1 && matches!(s[0], EventType::ArtifactControlsDiscovered | EventType::ArtifactDownloadCompleted),
        EventType::ArtifactDownloadCompleted => s.len() == 1 && matches!(s[0], EventType::ArtifactDownloadAttemptConsumed | EventType::ArtifactRecoveryCandidateObserved),
        EventType::ArtifactClaimCompleted => {
            let k0 = vec![EventType::ArtifactControlsAbsent, EventType::ArtifactDownloadCompleted];
            proof {
                assert(k0@ =~= seq![EventType::ArtifactControlsAbsent, EventType::ArtifactDownloadCompleted]);
            }
            s.len() > 0 && all_among(s, 0, &k0)
        },
        EventType::ArtifactClaimFailed => s.len() == 0,
        EventType::TerminalPersisted => {
            let k0 = vec![EventType::ArtifactClaimCompleted, EventType::ArtifactClaimFailed];
            proof {
                assert(k0@ =~= seq![EventType::ArtifactClaimCompleted, EventType::ArtifactClaimFailed]);
            }
            s.len() > 0 && s[0] == EventType::AnswerTerminal && all_among(s, 1, &k0)
        },
        _ => false,
    }
}

pub open spec fn source_group_3(event: EventType) -> bool {
    matches!(event, EventType::OutputPublished | EventType::OutputPublishFailed | EventType::ReleaseStarted | EventType::RuntimeTakeoverProven | EventType::RuntimeStopStarted | EventType::ReleaseCleanupStarted | EventType::SessionOperationClaimReleased | EventType::RequestClaimReleased | EventType::SlotLeaseReleased)
}

#[verifier::rlimit(50)]
fn variable_sources_valid_3(event: EventType, s: &[EventType]) -> (r: bool)
    requires
        source_group_3(event),
    ensures
        r == variable_sources_ok(event, s@),
{
    match event {
        EventType::OutputPublished | EventType::OutputPublishFailed => s.len() == 1 && s[0] == EventType::TerminalPersisted,
        EventType::ReleaseStarted => release_sources_valid(s),
        EventType::RuntimeTakeoverProven => s.len() == 2 && s[1] == EventType::ReleaseEvidencePreserved,
        EventType::RuntimeStopStarted => s.len() == 0 || (s.len() == 1 && s[0] == EventType::RuntimeTakeoverProven),
        EventType::ReleaseCleanupStarted => s.len() == 1 && matches!(s[0], EventType::RuntimeStopped | EventType::RuntimeStopFailed | EventType::RuntimeStopSkipped),
        EventType::SessionOperationClaimReleased => s.len() == 1 && s[0] == EventType::ReleaseCleanupStarted,
        EventType::RequestClaimReleased => (s.len() == 1 && s[0] == EventType::ReleaseCleanupStarted) || (s.len() == 2 && s[0] == EventType::ReleaseCleanupStarted && s[1] == EventType::SessionOperationClaimReleased),
        EventType::SlotLeaseReleased => {
            let k0 = vec![EventType::RequestClaimReleased, EventType::SessionOperationClaimReleased, EventType::ReleaseCleanupStarted];
            proof {
                assert(k0@ =~= seq![EventType::RequestClaimReleased, EventType::SessionOperationClaimReleased, EventType::ReleaseCleanupStarted]);
            }
            s.len() > 0 && all_among(s, 0, &k0)
        },
        _ => false,
    }
}

pub open spec fn source_group_4(event: EventType) -> bool {
    matches!(event, EventType::RuntimeOwnershipReleased | EventType::ReleaseCleanupCommitted | EventType::SlotStandbyWritten | EventType::ReleaseCooldownBlocked | EventType::CooldownCleared | EventType::ReleaseFinalized)
}

#[verifier::rlimit(50)]
fn variable_sources_valid_4(event: EventType, s: &[EventType]) -> (r: bool)
    requires
        source_group_4(event),
    ensures
        r == variable_sources_ok(event, s@),
{
    match event {
        EventType::RuntimeOwnershipReleased => {
            let k0 = vec![EventType::RuntimeStopped, EventType::RuntimeStopFailed, EventType::RuntimeStopSkipped]; let k1 = vec![EventType::SlotLeaseReleased, EventType::RuntimeStopped, EventType::RuntimeStopFailed, EventType::RuntimeStopSkipped];
            proof {
                assert(k0@ =~= seq![EventType::RuntimeStopped, EventType::RuntimeStopFailed, EventType::RuntimeStopSkipped]); assert(k1@ =~= seq![EventType::SlotLeaseReleased, EventType::RuntimeStopped, EventType::RuntimeStopFailed, EventType::RuntimeStopSkipped]);
            }
            any_among(s, &k0) && all_among(s, 0, &k1)
        },
        EventType::ReleaseCleanupCommitted => {
            let k0 = vec![EventType::RequestClaimReleased, EventType::SessionOperationClaimReleased, EventType::SlotLeaseReleased, EventType::RuntimeOwnershipReleased];
            proof {
                assert(k0@ =~= seq![EventType::RequestClaimReleased, EventType::SessionOperationClaimReleased, EventType::SlotLeaseReleased, EventType::RuntimeOwnershipReleased]);
            }
            all_among(s, 0, &k0)
        },
        EventType::SlotStandbyWritten => s.len() == 1 && s[0] == EventType::ReleaseCleanupCommitted,
        EventType::ReleaseCooldownBlocked | EventType::CooldownCleared => s.len() == 1 && s[0] == EventType::SlotStandbyWritten,
        EventType::ReleaseFinalized => s.len() == 0 || (s.len() == 1 && s[0] == EventType::SlotStandbyWritten) || (s.len() == 2 && s[0] == EventType::SlotStandbyWritten && s[1] == EventType::CooldownCleared),
        _ => false,
    }
}

pub fn variable_sources_valid(event: EventType, s: &[EventType]) -> (r: bool)
    ensures
        r == variable_sources_ok(event, s@),
{
    if matches!(event, EventType::RequestClaimRenewed | EventType::SessionOperationClaimRenewed | EventType::AllocationExhausted | EventType::SlotLeaseGranted | EventType::SlotLeaseRenewed | EventType::RuntimeOwnershipRenewed | EventType::SlotHealthProbeStarted | EventType::SlotHealthObserved | EventType::UploadStarted) {
        variable_sources_valid_0(event, s)
    } else if matches!(event, EventType::UploadCompleted | EventType::UploadFailed | EventType::TurnStartConfirmed | EventType::SessionOperationClaimGranted | EventType::SessionRuntimeOwnershipGranted | EventType::SessionRuntimeOwnershipAdopted | EventType::SessionRebindStarted | EventType::SessionHydrationObserved | EventType::SessionHydrated | EventType::SessionOperationFailed) {
        variable_sources_valid_1(event, s)
    } else if matches!(event, EventType::PollProgress | EventType::PollFailed | EventType::AnswerTerminal | EventType::ArtifactClaimEstablished | EventType::ArtifactDownloadAttemptConsumed | EventType::ArtifactDownloadCompleted | EventType::ArtifactClaimCompleted | EventType::ArtifactClaimFailed | EventType::TerminalPersisted) {
        variable_sources_valid_2(event, s)
    } else if matches!(event, EventType::OutputPublished | EventType::OutputPublishFailed | EventType::ReleaseStarted | EventType::RuntimeTakeoverProven | EventType::RuntimeStopStarted | EventType::ReleaseCleanupStarted | EventType::SessionOperationClaimReleased | EventType::RequestClaimReleased | EventType::SlotLeaseReleased) {
        variable_sources_valid_3(event, s)
    } else if matches!(event, EventType::RuntimeOwnershipReleased | EventType::ReleaseCleanupCommitted | EventType::SlotStandbyWritten | EventType::ReleaseCooldownBlocked | EventType::CooldownCleared | EventType::ReleaseFinalized) {
        variable_sources_valid_4(event, s)
    } else {
        false
    }
}

/// The sources of an event have the types its event type takes: exactly
/// the fixed list where there is one, otherwise the variable rule.
pub open spec fn sources_ok(event: EventType, s: Seq<EventType>) -> bool {
    match exact_sources_of(event) {
        Some(expected) => s == expected,
        None => variable_sources_ok(event, s),
    }
}

pub fn source_types_valid(event: EventType, s: &[EventType]) -> (r: bool)
    ensures
        r == sources_ok(event, s@),
{
    match exact_source_types(event) {
        Some(expected) => {
            if expected.len() != s.len() {
                assert(s@.len() != expected@.len());
                return false;
            }
            let mut i: usize = 0;
            while i < s.len()
                invariant
                    i <= s@.len(),
                    expected@.len() == s@.len(),
                    exact_sources_of(event) == Some(expected@),
                    forall|k: int| 0 <= k < i ==> expected@[k] == s@[k],
                decreases s.len() - i,
            {
                if expected[i] != s[i] {
                    assert(s@[i as int] != expected@[i as int]);
                    return false;
                }
                i += 1;
            }
            assert(s@ =~= expected@);
            true
        },
        None => variable_sources_valid(event, s),
    }
}

} // verus!
