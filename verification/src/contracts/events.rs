use vstd::prelude::*;

use crate::contracts::ids::{is_prefixed_hex, is_timestamp_ms, validate_prefixed_hex, validate_timestamp_ms};
use crate::text::str_eq;

verus! {

pub const EVENT_SCHEMA: &'static str = "pr72.event.r13.v1";

/// The stream an event belongs to.
#[derive(Clone, Copy, Debug, PartialEq, Eq, Structural, PartialOrd, Ord, Hash)]
pub enum AggregateKind {
    Request,
    Session,
    Slot,
    Allocator,
    Claim,
    Lease,
    RuntimeOwner,
    ArtifactClaim,
    Release,
    Qa,
}

/// Every event type of the lifecycle journal.
#[derive(Clone, Copy, Debug, PartialEq, Eq, Structural, PartialOrd, Ord, Hash)]
pub enum EventType {
    RequestAccepted,
    RequestClaimGranted,
    RequestClaimRenewed,
    HostAttachmentsStaged,
    AllocationCandidateObserved,
    AllocationExhausted,
    SlotLeaseGranted,
    SlotLeaseRenewed,
    RuntimeOwnershipGranted,
    RuntimeOwnershipAdopted,
    RuntimeOwnershipRenewed,
    SlotHealthProbeStarted,
    SlotHealthObserved,
    RootCaptureStarted,
    RootCaptureObserved,
    RootCaptureFailed,
    ModelSelectionStarted,
    ModelSelectionVerified,
    ModelSelectionFailed,
    SlotAttachmentsMaterialized,
    UploadStarted,
    UploadMismatchObserved,
    UploadCleared,
    UploadCompleted,
    UploadFailed,
    SendClickArmed,
    SendClicked,
    SendReconciled,
    SendUncertain,
    SendFailed,
    TurnStartConfirmed,
    SessionBindingEstablished,
    RunningProjected,
    SessionOperationClaimGranted,
    SessionOperationClaimRenewed,
    PersistedSessionLeaseGranted,
    SessionRuntimeOwnershipGranted,
    SessionRuntimeOwnershipAdopted,
    SessionRebindStarted,
    SessionRebound,
    SessionHydrationObserved,
    SessionHydrated,
    SessionOperationFailed,
    PollStarted,
    PollProgress,
    PollFailed,
    AnswerTerminal,
    ArtifactClaimEstablished,
    ArtifactControlsAbsent,
    ArtifactControlsDiscovered,
    ArtifactDownloadAttemptConsumed,
    ArtifactRecoveryCandidateObserved,
    ArtifactDownloadCompleted,
    ArtifactClaimCompleted,
    ArtifactClaimFailed,
    TerminalPersisted,
    OutputPublished,
    OutputPublishFailed,
    ReleaseStarted,
    ReleaseEvidencePreserved,
    RuntimeTakeoverProven,
    RuntimeStopStarted,
    RuntimeStopped,
    RuntimeStopFailed,
    RuntimeStopSkipped,
    ReleaseCleanupStarted,
    ReleaseCleanupFailed,
    SessionOperationClaimReleased,
    RequestClaimReleased,
    SlotLeaseReleased,
    RuntimeOwnershipReleased,
    ReleaseCleanupCommitted,
    SlotStandbyWritten,
    ReleaseCooldownBlocked,
    CooldownCleared,
    ReleaseFinalized,
    SnapshotPublished,
    SnapshotRejected,
    QaMatrixRecorded,
    QaRepeatRecorded,
    QaCountersReset,
}

#[derive(Clone, Debug, PartialEq, Eq)]
pub struct Aggregate {
    pub id: String,
    pub kind: AggregateKind,
}

/// The process that wrote an event.
#[derive(Clone, Debug, PartialEq, Eq)]
pub struct Writer {
    pub host_id: String,
    pub process_id: u32,
    pub process_start_ms: u64,
    pub writer_id: String,
}

impl Writer {
    /// A field-by-field copy.
    pub fn copy(&self) -> (r: Writer)
        ensures
            r == *self,
    {
        Writer {
            host_id: self.host_id.clone(),
            process_id: self.process_id,
            process_start_ms: self.process_start_ms,
            writer_id: self.writer_id.clone(),
        }
    }
}

#[derive(Clone, Debug, PartialEq, Eq)]
pub enum EventError {
    Invalid(&'static str),
    Serialize(String),
}

/// The aggregate stream of each event type.
pub open spec fn aggregate_of(event: EventType) -> AggregateKind {
    match event {
        EventType::RequestAccepted | EventType::HostAttachmentsStaged | EventType::RootCaptureStarted | EventType::RootCaptureObserved | EventType::RootCaptureFailed | EventType::ModelSelectionStarted | EventType::ModelSelectionVerified | EventType::ModelSelectionFailed | EventType::SlotAttachmentsMaterialized | EventType::UploadStarted | EventType::UploadMismatchObserved | EventType::UploadCleared | EventType::UploadCompleted | EventType::UploadFailed | EventType::SendClickArmed | EventType::SendClicked | EventType::SendReconciled | EventType::SendUncertain | EventType::SendFailed | EventType::TurnStartConfirmed | EventType::RunningProjected | EventType::PollStarted | EventType::PollProgress | EventType::PollFailed | EventType::AnswerTerminal | EventType::TerminalPersisted | EventType::OutputPublished | EventType::OutputPublishFailed => AggregateKind::Request,
        EventType::SessionBindingEstablished | EventType::SessionRebindStarted | EventType::SessionRebound | EventType::SessionHydrationObserved | EventType::SessionHydrated | EventType::SessionOperationFailed => AggregateKind::Session,
        EventType::SlotHealthProbeStarted | EventType::SlotHealthObserved | EventType::SlotStandbyWritten | EventType::CooldownCleared => AggregateKind::Slot,
        EventType::AllocationCandidateObserved | EventType::AllocationExhausted => AggregateKind::Allocator,
        EventType::RequestClaimGranted | EventType::RequestClaimRenewed | EventType::SessionOperationClaimGranted | EventType::SessionOperationClaimRenewed | EventType::SessionOperationClaimReleased | EventType::RequestClaimReleased => AggregateKind::Claim,
        EventType::SlotLeaseGranted | EventType::SlotLeaseRenewed | EventType::PersistedSessionLeaseGranted | EventType::SlotLeaseReleased => AggregateKind::Lease,
        EventType::RuntimeOwnershipGranted | EventType::RuntimeOwnershipAdopted | EventType::RuntimeOwnershipRenewed | EventType::SessionRuntimeOwnershipGranted | EventType::SessionRuntimeOwnershipAdopted | EventType::RuntimeTakeoverProven | EventType::RuntimeOwnershipReleased => AggregateKind::RuntimeOwner,
        EventType::ArtifactClaimEstablished | EventType::ArtifactControlsAbsent | EventType::ArtifactControlsDiscovered | EventType::ArtifactDownloadAttemptConsumed | EventType::ArtifactRecoveryCandidateObserved | EventType::ArtifactDownloadCompleted | EventType::ArtifactClaimCompleted | EventType::ArtifactClaimFailed => AggregateKind::ArtifactClaim,
        EventType::ReleaseStarted | EventType::ReleaseEvidencePreserved | EventType::RuntimeStopStarted | EventType::RuntimeStopped | EventType::RuntimeStopFailed | EventType::RuntimeStopSkipped | EventType::ReleaseCleanupStarted | EventType::ReleaseCleanupFailed | EventType::ReleaseCleanupCommitted | EventType::ReleaseCooldownBlocked | EventType::ReleaseFinalized => AggregateKind::Release,
        EventType::SnapshotPublished | EventType::SnapshotRejected | EventType::QaMatrixRecorded | EventType::QaRepeatRecorded | EventType::QaCountersReset => AggregateKind::Qa,
    }
}

pub fn aggregate_kind(event: EventType) -> (r: AggregateKind)
    ensures
        r == aggregate_of(event),
{
    match event {
        EventType::RequestAccepted | EventType::HostAttachmentsStaged | EventType::RootCaptureStarted | EventType::RootCaptureObserved | EventType::RootCaptureFailed | EventType::ModelSelectionStarted | EventType::ModelSelectionVerified | EventType::ModelSelectionFailed | EventType::SlotAttachmentsMaterialized | EventType::UploadStarted | EventType::UploadMismatchObserved | EventType::UploadCleared | EventType::UploadCompleted | EventType::UploadFailed | EventType::SendClickArmed | EventType::SendClicked | EventType::SendReconciled | EventType::SendUncertain | EventType::SendFailed | EventType::TurnStartConfirmed | EventType::RunningProjected | EventType::PollStarted | EventType::PollProgress | EventType::PollFailed | EventType::AnswerTerminal | EventType::TerminalPersisted | EventType::OutputPublished | EventType::OutputPublishFailed => AggregateKind::Request,
        EventType::SessionBindingEstablished | EventType::SessionRebindStarted | EventType::SessionRebound | EventType::SessionHydrationObserved | EventType::SessionHydrated | EventType::SessionOperationFailed => AggregateKind::Session,
        EventType::SlotHealthProbeStarted | EventType::SlotHealthObserved | EventType::SlotStandbyWritten | EventType::CooldownCleared => AggregateKind::Slot,
        EventType::AllocationCandidateObserved | EventType::AllocationExhausted => AggregateKind::Allocator,
        EventType::RequestClaimGranted | EventType::RequestClaimRenewed | EventType::SessionOperationClaimGranted | EventType::SessionOperationClaimRenewed | EventType::SessionOperationClaimReleased | EventType::RequestClaimReleased => AggregateKind::Claim,
        EventType::SlotLeaseGranted | EventType::SlotLeaseRenewed | EventType::PersistedSessionLeaseGranted | EventType::SlotLeaseReleased => AggregateKind::Lease,
        EventType::RuntimeOwnershipGranted | EventType::RuntimeOwnershipAdopted | EventType::RuntimeOwnershipRenewed | EventType::SessionRuntimeOwnershipGranted | EventType::SessionRuntimeOwnershipAdopted | EventType::RuntimeTakeoverProven | EventType::RuntimeOwnershipReleased => AggregateKind::RuntimeOwner,
        EventType::ArtifactClaimEstablished | EventType::ArtifactControlsAbsent | EventType::ArtifactControlsDiscovered | EventType::ArtifactDownloadAttemptConsumed | EventType::ArtifactRecoveryCandidateObserved | EventType::ArtifactDownloadCompleted | EventType::ArtifactClaimCompleted | EventType::ArtifactClaimFailed => AggregateKind::ArtifactClaim,
        EventType::ReleaseStarted | EventType::ReleaseEvidencePreserved | EventType::RuntimeStopStarted | EventType::RuntimeStopped | EventType::RuntimeStopFailed | EventType::RuntimeStopSkipped | EventType::ReleaseCleanupStarted | EventType::ReleaseCleanupFailed | EventType::ReleaseCleanupCommitted | EventType::ReleaseCooldownBlocked | EventType::ReleaseFinalized => AggregateKind::Release,
        EventType::SnapshotPublished | EventType::SnapshotRejected | EventType::QaMatrixRecorded | EventType::QaRepeatRecorded | EventType::QaCountersReset => AggregateKind::Qa,
    }
}

/// The first problem of an event's writer, if any.
pub open spec fn writer_error(w: Writer) -> Option<&'static str> {
    if w.process_id == 0 {
        Some("writer.processId")
    } else if !is_timestamp_ms(w.process_start_ms) {
        Some("writer.processStartMs")
    } else if !is_prefixed_hex(w.host_id@, "host_"@, 32) {
        Some("writer.hostId")
    } else if !is_prefixed_hex(w.writer_id@, "writer_"@, 64) {
        Some("writer.writerId")
    } else {
        None
    }
}

pub fn validate_writer(writer: &Writer) -> (r: Result<(), EventError>)
    ensures
        match writer_error(*writer) {
            Some(m) => r == Err::<(), EventError>(EventError::Invalid(m)),
            None => r is Ok,
        },
{
    if writer.process_id == 0 {
        return Err(EventError::Invalid("writer.processId"));
    }
    if validate_timestamp_ms(writer.process_start_ms).is_err() {
        return Err(EventError::Invalid("writer.processStartMs"));
    }
    if validate_prefixed_hex("hostId", writer.host_id.as_str(), "host_", 32).is_err() {
        return Err(EventError::Invalid("writer.hostId"));
    }
    if validate_prefixed_hex("writerId", writer.writer_id.as_str(), "writer_", 64).is_err() {
        return Err(EventError::Invalid("writer.writerId"));
    }
    Ok(())
}

/// The states Docker reports for a container.
pub open spec fn is_docker_status(value: Seq<char>) -> bool {
    value == "running"@ || value == "exited"@ || value == "missing"@ || value == "starting"@
        || value == "stopping"@ || value == "unknown"@
}

pub fn docker_status(value: &str) -> (r: bool)
    ensures
        r == is_docker_status(value@),
{
    str_eq(value, "running") || str_eq(value, "exited") || str_eq(value, "missing") || str_eq(
        value,
        "starting",
    ) || str_eq(value, "stopping") || str_eq(value, "unknown")
}


/// The name an event type is written under.
pub open spec fn event_type_text(t: EventType) -> Seq<char> {
    match t {
        EventType::RequestAccepted => "RequestAccepted"@,
        EventType::RequestClaimGranted => "RequestClaimGranted"@,
        EventType::RequestClaimRenewed => "RequestClaimRenewed"@,
        EventType::HostAttachmentsStaged => "HostAttachmentsStaged"@,
        EventType::AllocationCandidateObserved => "AllocationCandidateObserved"@,
        EventType::AllocationExhausted => "AllocationExhausted"@,
        EventType::SlotLeaseGranted => "SlotLeaseGranted"@,
        EventType::SlotLeaseRenewed => "SlotLeaseRenewed"@,
        EventType::RuntimeOwnershipGranted => "RuntimeOwnershipGranted"@,
        EventType::RuntimeOwnershipAdopted => "RuntimeOwnershipAdopted"@,
        EventType::RuntimeOwnershipRenewed => "RuntimeOwnershipRenewed"@,
        EventType::SlotHealthProbeStarted => "SlotHealthProbeStarted"@,
        EventType::SlotHealthObserved => "SlotHealthObserved"@,
        EventType::RootCaptureStarted => "RootCaptureStarted"@,
        EventType::RootCaptureObserved => "RootCaptureObserved"@,
        EventType::RootCaptureFailed => "RootCaptureFailed"@,
        EventType::ModelSelectionStarted => "ModelSelectionStarted"@,
        EventType::ModelSelectionVerified => "ModelSelectionVerified"@,
        EventType::ModelSelectionFailed => "ModelSelectionFailed"@,
        EventType::SlotAttachmentsMaterialized => "SlotAttachmentsMaterialized"@,
        EventType::UploadStarted => "UploadStarted"@,
        EventType::UploadMismatchObserved => "UploadMismatchObserved"@,
        EventType::UploadCleared => "UploadCleared"@,
        EventType::UploadCompleted => "UploadCompleted"@,
        EventType::UploadFailed => "UploadFailed"@,
        EventType::SendClickArmed => "SendClickArmed"@,
        EventType::SendClicked => "SendClicked"@,
        EventType::SendReconciled => "SendReconciled"@,
        EventType::SendUncertain => "SendUncertain"@,
        EventType::SendFailed => "SendFailed"@,
        EventType::TurnStartConfirmed => "TurnStartConfirmed"@,
        EventType::SessionBindingEstablished => "SessionBindingEstablished"@,
        EventType::RunningProjected => "RunningProjected"@,
        EventType::SessionOperationClaimGranted => "SessionOperationClaimGranted"@,
        EventType::SessionOperationClaimRenewed => "SessionOperationClaimRenewed"@,
        EventType::PersistedSessionLeaseGranted => "PersistedSessionLeaseGranted"@,
        EventType::SessionRuntimeOwnershipGranted => "SessionRuntimeOwnershipGranted"@,
        EventType::SessionRuntimeOwnershipAdopted => "SessionRuntimeOwnershipAdopted"@,
        EventType::SessionRebindStarted => "SessionRebindStarted"@,
        EventType::SessionRebound => "SessionRebound"@,
        EventType::SessionHydrationObserved => "SessionHydrationObserved"@,
        EventType::SessionHydrated => "SessionHydrated"@,
        EventType::SessionOperationFailed => "SessionOperationFailed"@,
        EventType::PollStarted => "PollStarted"@,
        EventType::PollProgress => "PollProgress"@,
        EventType::PollFailed => "PollFailed"@,
        EventType::AnswerTerminal => "AnswerTerminal"@,
        EventType::ArtifactClaimEstablished => "ArtifactClaimEstablished"@,
        EventType::ArtifactControlsAbsent => "ArtifactControlsAbsent"@,
        EventType::ArtifactControlsDiscovered => "ArtifactControlsDiscovered"@,
        EventType::ArtifactDownloadAttemptConsumed => "ArtifactDownloadAttemptConsumed"@,
        EventType::ArtifactRecoveryCandidateObserved => "ArtifactRecoveryCandidateObserved"@,
        EventType::ArtifactDownloadCompleted => "ArtifactDownloadCompleted"@,
        EventType::ArtifactClaimCompleted => "ArtifactClaimCompleted"@,
        EventType::ArtifactClaimFailed => "ArtifactClaimFailed"@,
        EventType::TerminalPersisted => "TerminalPersisted"@,
        EventType::OutputPublished => "OutputPublished"@,
        EventType::OutputPublishFailed => "OutputPublishFailed"@,
        EventType::ReleaseStarted => "ReleaseStarted"@,
        EventType::ReleaseEvidencePreserved => "ReleaseEvidencePreserved"@,
        EventType::RuntimeTakeoverProven => "RuntimeTakeoverProven"@,
        EventType::RuntimeStopStarted => "RuntimeStopStarted"@,
        EventType::RuntimeStopped => "RuntimeStopped"@,
        EventType::RuntimeStopFailed => "RuntimeStopFailed"@,
        EventType::RuntimeStopSkipped => "RuntimeStopSkipped"@,
        EventType::ReleaseCleanupStarted => "ReleaseCleanupStarted"@,
        EventType::ReleaseCleanupFailed => "ReleaseCleanupFailed"@,
        EventType::SessionOperationClaimReleased => "SessionOperationClaimReleased"@,
        EventType::RequestClaimReleased => "RequestClaimReleased"@,
        EventType::SlotLeaseReleased => "SlotLeaseReleased"@,
        EventType::RuntimeOwnershipReleased => "RuntimeOwnershipReleased"@,
        EventType::ReleaseCleanupCommitted => "ReleaseCleanupCommitted"@,
        EventType::SlotStandbyWritten => "SlotStandbyWritten"@,
        EventType::ReleaseCooldownBlocked => "ReleaseCooldownBlocked"@,
        EventType::CooldownCleared => "CooldownCleared"@,
        EventType::ReleaseFinalized => "ReleaseFinalized"@,
        EventType::SnapshotPublished => "SnapshotPublished"@,
        EventType::SnapshotRejected => "SnapshotRejected"@,
        EventType::QaMatrixRecorded => "QaMatrixRecorded"@,
        EventType::QaRepeatRecorded => "QaRepeatRecorded"@,
        EventType::QaCountersReset => "QaCountersReset"@,
    }
}

/// The name an event type is written under.
pub fn event_type_name(t: EventType) -> (r: &'static str)
    ensures
        r@ == event_type_text(t),
{
    match t {
        EventType::RequestAccepted => "RequestAccepted",
        EventType::RequestClaimGranted => "RequestClaimGranted",
        EventType::RequestClaimRenewed => "RequestClaimRenewed",
        EventType::HostAttachmentsStaged => "HostAttachmentsStaged",
        EventType::AllocationCandidateObserved => "AllocationCandidateObserved",
        EventType::AllocationExhausted => "AllocationExhausted",
        EventType::SlotLeaseGranted => "SlotLeaseGranted",
        EventType::SlotLeaseRenewed => "SlotLeaseRenewed",
        EventType::RuntimeOwnershipGranted => "RuntimeOwnershipGranted",
        EventType::RuntimeOwnershipAdopted => "RuntimeOwnershipAdopted",
        EventType::RuntimeOwnershipRenewed => "RuntimeOwnershipRenewed",
        EventType::SlotHealthProbeStarted => "SlotHealthProbeStarted",
        EventType::SlotHealthObserved => "SlotHealthObserved",
        EventType::RootCaptureStarted => "RootCaptureStarted",
        EventType::RootCaptureObserved => "RootCaptureObserved",
        EventType::RootCaptureFailed => "RootCaptureFailed",
        EventType::ModelSelectionStarted => "ModelSelectionStarted",
        EventType::ModelSelectionVerified => "ModelSelectionVerified",
        EventType::ModelSelectionFailed => "ModelSelectionFailed",
        EventType::SlotAttachmentsMaterialized => "SlotAttachmentsMaterialized",
        EventType::UploadStarted => "UploadStarted",
        EventType::UploadMismatchObserved => "UploadMismatchObserved",
        EventType::UploadCleared => "UploadCleared",
        EventType::UploadCompleted => "UploadCompleted",
        EventType::UploadFailed => "UploadFailed",
        EventType::SendClickArmed => "SendClickArmed",
        EventType::SendClicked => "SendClicked",
        EventType::SendReconciled => "SendReconciled",
        EventType::SendUncertain => "SendUncertain",
        EventType::SendFailed => "SendFailed",
        EventType::TurnStartConfirmed => "TurnStartConfirmed",
        EventType::SessionBindingEstablished => "SessionBindingEstablished",
        EventType::RunningProjected => "RunningProjected",
        EventType::SessionOperationClaimGranted => "SessionOperationClaimGranted",
        EventType::SessionOperationClaimRenewed => "SessionOperationClaimRenewed",
        EventType::PersistedSessionLeaseGranted => "PersistedSessionLeaseGranted",
        EventType::SessionRuntimeOwnershipGranted => "SessionRuntimeOwnershipGranted",
        EventType::SessionRuntimeOwnershipAdopted => "SessionRuntimeOwnershipAdopted",
        EventType::SessionRebindStarted => "SessionRebindStarted",
        EventType::SessionRebound => "SessionRebound",
        EventType::SessionHydrationObserved => "SessionHydrationObserved",
        EventType::SessionHydrated => "SessionHydrated",
        EventType::SessionOperationFailed => "SessionOperationFailed",
        EventType::PollStarted => "PollStarted",
        EventType::PollProgress => "PollProgress",
        EventType::PollFailed => "PollFailed",
        EventType::AnswerTerminal => "AnswerTerminal",
        EventType::ArtifactClaimEstablished => "ArtifactClaimEstablished",
        EventType::ArtifactControlsAbsent => "ArtifactControlsAbsent",
        EventType::ArtifactControlsDiscovered => "ArtifactControlsDiscovered",
        EventType::ArtifactDownloadAttemptConsumed => "ArtifactDownloadAttemptConsumed",
        EventType::ArtifactRecoveryCandidateObserved => "ArtifactRecoveryCandidateObserved",
        EventType::ArtifactDownloadCompleted => "ArtifactDownloadCompleted",
        EventType::ArtifactClaimCompleted => "ArtifactClaimCompleted",
        EventType::ArtifactClaimFailed => "ArtifactClaimFailed",
        EventType::TerminalPersisted => "TerminalPersisted",
        EventType::OutputPublished => "OutputPublished",
        EventType::OutputPublishFailed => "OutputPublishFailed",
        EventType::ReleaseStarted => "ReleaseStarted",
        EventType::ReleaseEvidencePreserved => "ReleaseEvidencePreserved",
        EventType::RuntimeTakeoverProven => "RuntimeTakeoverProven",
        EventType::RuntimeStopStarted => "RuntimeStopStarted",
        EventType::RuntimeStopped => "RuntimeStopped",
        EventType::RuntimeStopFailed => "RuntimeStopFailed",
        EventType::RuntimeStopSkipped => "RuntimeStopSkipped",
        EventType::ReleaseCleanupStarted => "ReleaseCleanupStarted",
        EventType::ReleaseCleanupFailed => "ReleaseCleanupFailed",
        EventType::SessionOperationClaimReleased => "SessionOperationClaimReleased",
        EventType::RequestClaimReleased => "RequestClaimReleased",
        EventType::SlotLeaseReleased => "SlotLeaseReleased",
        EventType::RuntimeOwnershipReleased => "RuntimeOwnershipReleased",
        EventType::ReleaseCleanupCommitted => "ReleaseCleanupCommitted",
        EventType::SlotStandbyWritten => "SlotStandbyWritten",
        EventType::ReleaseCooldownBlocked => "ReleaseCooldownBlocked",
        EventType::CooldownCleared => "CooldownCleared",
        EventType::ReleaseFinalized => "ReleaseFinalized",
        EventType::SnapshotPublished => "SnapshotPublished",
        EventType::SnapshotRejected => "SnapshotRejected",
        EventType::QaMatrixRecorded => "QaMatrixRecorded",
        EventType::QaRepeatRecorded => "QaRepeatRecorded",
        EventType::QaCountersReset => "QaCountersReset",
    }
}

/// The name an aggregate kind is written under.
pub open spec fn aggregate_kind_text(k: AggregateKind) -> Seq<char> {
    match k {
        AggregateKind::Request => "request"@,
        AggregateKind::Session => "session"@,
        AggregateKind::Slot => "slot"@,
        AggregateKind::Allocator => "allocator"@,
        AggregateKind::Claim => "claim"@,
        AggregateKind::Lease => "lease"@,
        AggregateKind::RuntimeOwner => "runtime_owner"@,
        AggregateKind::ArtifactClaim => "artifact_claim"@,
        AggregateKind::Release => "release"@,
        AggregateKind::Qa => "qa"@,
    }
}

/// The name an aggregate kind is written under.
pub fn aggregate_kind_name(k: AggregateKind) -> (r: &'static str)
    ensures
        r@ == aggregate_kind_text(k),
{
    match k {
        AggregateKind::Request => "request",
        AggregateKind::Session => "session",
        AggregateKind::Slot => "slot",
        AggregateKind::Allocator => "allocator",
        AggregateKind::Claim => "claim",
        AggregateKind::Lease => "lease",
        AggregateKind::RuntimeOwner => "runtime_owner",
        AggregateKind::ArtifactClaim => "artifact_claim",
        AggregateKind::Release => "release",
        AggregateKind::Qa => "qa",
    }
}

} // verus!
