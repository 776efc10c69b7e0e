use vstd::prelude::*;

use crate::text::str_eq;

use super::events::{EventError, EventType};

verus! {

/// The name of each event type, as the journal writes it.
pub open spec fn event_type_name(event: EventType) -> Seq<char> {
    match event {
        EventType::RequestAccepted => "RequestAccepted"@,
        EventType::RequestClaimGranted => "RequestClaimGranted"@,
        EventType::RequestClaimRenewed => "RequestClaimRenewed"@,
        EventType::HostAttachmentsStaged => "HostAttachmentsStaged"@,
        EventType::AllocationCandidateObserved => "AllocationCandidateObserved"@,
        EventType::AllocationExhausted => "AllocationExhausted"@,
        EventType::SlotLeaseGranted => "SlotLeaseGranted"@,
        EventType::SlotLeaseRenewed => "SlotLeaseRenewed"@,
        EventType::RuntimeOwnershipGranted => "RuntimeOwnershipGranted"@,
        EventType::RuntimeOwnershipAdopted => "RuntimeOwnershipAdopted"@,
        EventType::RuntimeOwnershipRenewed => "RuntimeOwnershipRenewed"@,
        EventType::SlotHealthProbeStarted => "SlotHealthProbeStarted"@,
        EventType::SlotHealthObserved => "SlotHealthObserved"@,
        EventType::RootCaptureStarted => "RootCaptureStarted"@,
        EventType::RootCaptureObserved => "RootCaptureObserved"@,
        EventType::RootCaptureFailed => "RootCaptureFailed"@,
        EventType::ModelSelectionStarted => "ModelSelectionStarted"@,
        EventType::ModelSelectionVerified => "ModelSelectionVerified"@,
        EventType::ModelSelectionFailed => "ModelSelectionFailed"@,
        EventType::SlotAttachmentsMaterialized => "SlotAttachmentsMaterialized"@,
        EventType::UploadStarted => "UploadStarted"@,
        EventType::UploadMismatchObserved => "UploadMismatchObserved"@,
        EventType::UploadCleared => "UploadCleared"@,
        EventType::UploadCompleted => "UploadCompleted"@,
        EventType::UploadFailed => "UploadFailed"@,
        EventType::SendClickArmed => "SendClickArmed"@,
        EventType::SendClicked => "SendClicked"@,
        EventType::SendReconciled => "SendReconciled"@,
        EventType::SendUncertain => "SendUncertain"@,
        EventType::SendFailed => "SendFailed"@,
        EventType::TurnStartConfirmed => "TurnStartConfirmed"@,
        EventType::SessionBindingEstablished => "SessionBindingEstablished"@,
        EventType::RunningProjected => "RunningProjected"@,
        EventType::SessionOperationClaimGranted => "SessionOperationClaimGranted"@,
        EventType::SessionOperationClaimRenewed => "SessionOperationClaimRenewed"@,
        EventType::PersistedSessionLeaseGranted => "PersistedSessionLeaseGranted"@,
        EventType::SessionRuntimeOwnershipGranted => "SessionRuntimeOwnershipGranted"@,
        EventType::SessionRuntimeOwnershipAdopted => "SessionRuntimeOwnershipAdopted"@,
        EventType::SessionRebindStarted => "SessionRebindStarted"@,
        EventType::SessionRebound => "SessionRebound"@,
        EventType::SessionHydrationObserved => "SessionHydrationObserved"@,
        EventType::SessionHydrated => "SessionHydrated"@,
        EventType::SessionOperationFailed => "SessionOperationFailed"@,
        EventType::PollStarted => "PollStarted"@,
        EventType::PollProgress => "PollProgress"@,
        EventType::PollFailed => "PollFailed"@,
        EventType::AnswerTerminal => "AnswerTerminal"@,
        EventType::ArtifactClaimEstablished => "ArtifactClaimEstablished"@,
        EventType::ArtifactControlsAbsent => "ArtifactControlsAbsent"@,
        EventType::ArtifactControlsDiscovered => "ArtifactControlsDiscovered"@,
        EventType::ArtifactDownloadAttemptConsumed => "ArtifactDownloadAttemptConsumed"@,
        EventType::ArtifactRecoveryCandidateObserved => "ArtifactRecoveryCandidateObserved"@,
        EventType::ArtifactDownloadCompleted => "ArtifactDownloadCompleted"@,
        EventType::ArtifactClaimCompleted => "ArtifactClaimCompleted"@,
        EventType::ArtifactClaimFailed => "ArtifactClaimFailed"@,
        EventType::TerminalPersisted => "TerminalPersisted"@,
        EventType::OutputPublished => "OutputPublished"@,
        EventType::OutputPublishFailed => "OutputPublishFailed"@,
        EventType::ReleaseStarted => "ReleaseStarted"@,
        EventType::ReleaseEvidencePreserved => "ReleaseEvidencePreserved"@,
        EventType::RuntimeTakeoverProven => "RuntimeTakeoverProven"@,
        EventType::RuntimeStopStarted => "RuntimeStopStarted"@,
        EventType::RuntimeStopped => "RuntimeStopped"@,
        EventType::RuntimeStopFailed => "RuntimeStopFailed"@,
        EventType::RuntimeStopSkipped => "RuntimeStopSkipped"@,
        EventType::ReleaseCleanupStarted => "ReleaseCleanupStarted"@,
        EventType::ReleaseCleanupFailed => "ReleaseCleanupFailed"@,
        EventType::SessionOperationClaimReleased => "SessionOperationClaimReleased"@,
        EventType::RequestClaimReleased => "RequestClaimReleased"@,
        EventType::SlotLeaseReleased => "SlotLeaseReleased"@,
        EventType::RuntimeOwnershipReleased => "RuntimeOwnershipReleased"@,
        EventType::ReleaseCleanupCommitted => "ReleaseCleanupCommitted"@,
        EventType::SlotStandbyWritten => "SlotStandbyWritten"@,
        EventType::ReleaseCooldownBlocked => "ReleaseCooldownBlocked"@,
        EventType::CooldownCleared => "CooldownCleared"@,
        EventType::ReleaseFinalized => "ReleaseFinalized"@,
        EventType::SnapshotPublished => "SnapshotPublished"@,
        EventType::SnapshotRejected => "SnapshotRejected"@,
        EventType::QaMatrixRecorded => "QaMatrixRecorded"@,
        EventType::QaRepeatRecorded => "QaRepeatRecorded"@,
        EventType::QaCountersReset => "QaCountersReset"@,
    }
}

impl EventType {
    pub fn as_str(self) -> (r: &'static str)
        ensures
            r@ == event_type_name(self),
    {
        match self {
            EventType::RequestAccepted => "RequestAccepted",
            EventType::RequestClaimGranted => "RequestClaimGranted",
            EventType::RequestClaimRenewed => "RequestClaimRenewed",
            EventType::HostAttachmentsStaged => "HostAttachmentsStaged",
            EventType::AllocationCandidateObserved => "AllocationCandidateObserved",
            EventType::AllocationExhausted => "AllocationExhausted",
            EventType::SlotLeaseGranted => "SlotLeaseGranted",
            EventType::SlotLeaseRenewed => "SlotLeaseRenewed",
            EventType::RuntimeOwnershipGranted => "RuntimeOwnershipGranted",
            EventType::RuntimeOwnershipAdopted => "RuntimeOwnershipAdopted",
            EventType::RuntimeOwnershipRenewed => "RuntimeOwnershipRenewed",
            EventType::SlotHealthProbeStarted => "SlotHealthProbeStarted",
            EventType::SlotHealthObserved => "SlotHealthObserved",
            EventType::RootCaptureStarted => "RootCaptureStarted",
            EventType::RootCaptureObserved => "RootCaptureObserved",
            EventType::RootCaptureFailed => "RootCaptureFailed",
            EventType::ModelSelectionStarted => "ModelSelectionStarted",
            EventType::ModelSelectionVerified => "ModelSelectionVerified",
            EventType::ModelSelectionFailed => "ModelSelectionFailed",
            EventType::SlotAttachmentsMaterialized => "SlotAttachmentsMaterialized",
            EventType::UploadStarted => "UploadStarted",
            EventType::UploadMismatchObserved => "UploadMismatchObserved",
            EventType::UploadCleared => "UploadCleared",
            EventType::UploadCompleted => "UploadCompleted",
            EventType::UploadFailed => "UploadFailed",
            EventType::SendClickArmed => "SendClickArmed",
            EventType::SendClicked => "SendClicked",
            EventType::SendReconciled => "SendReconciled",
            EventType::SendUncertain => "SendUncertain",
            EventType::SendFailed => "SendFailed",
            EventType::TurnStartConfirmed => "TurnStartConfirmed",
            EventType::SessionBindingEstablished => "SessionBindingEstablished",
            EventType::RunningProjected => "RunningProjected",
            EventType::SessionOperationClaimGranted => "SessionOperationClaimGranted",
            EventType::SessionOperationClaimRenewed => "SessionOperationClaimRenewed",
            EventType::PersistedSessionLeaseGranted => "PersistedSessionLeaseGranted",
            EventType::SessionRuntimeOwnershipGranted => "SessionRuntimeOwnershipGranted",
            EventType::SessionRuntimeOwnershipAdopted => "SessionRuntimeOwnershipAdopted",
            EventType::SessionRebindStarted => "SessionRebindStarted",
            EventType::SessionRebound => "SessionRebound",
            EventType::SessionHydrationObserved => "SessionHydrationObserved",
            EventType::SessionHydrated => "SessionHydrated",
            EventType::SessionOperationFailed => "SessionOperationFailed",
            EventType::PollStarted => "PollStarted",
            EventType::PollProgress => "PollProgress",
            EventType::PollFailed => "PollFailed",
            EventType::AnswerTerminal => "AnswerTerminal",
            EventType::ArtifactClaimEstablished => "ArtifactClaimEstablished",
            EventType::ArtifactControlsAbsent => "ArtifactControlsAbsent",
            EventType::ArtifactControlsDiscovered => "ArtifactControlsDiscovered",
            EventType::ArtifactDownloadAttemptConsumed => "ArtifactDownloadAttemptConsumed",
            EventType::ArtifactRecoveryCandidateObserved => "ArtifactRecoveryCandidateObserved",
            EventType::ArtifactDownloadCompleted => "ArtifactDownloadCompleted",
            EventType::ArtifactClaimCompleted => "ArtifactClaimCompleted",
            EventType::ArtifactClaimFailed => "ArtifactClaimFailed",
            EventType::TerminalPersisted => "TerminalPersisted",
            EventType::OutputPublished => "OutputPublished",
            EventType::OutputPublishFailed => "OutputPublishFailed",
            EventType::ReleaseStarted => "ReleaseStarted",
            EventType::ReleaseEvidencePreserved => "ReleaseEvidencePreserved",
            EventType::RuntimeTakeoverProven => "RuntimeTakeoverProven",
            EventType::RuntimeStopStarted => "RuntimeStopStarted",
            EventType::RuntimeStopped => "RuntimeStopped",
            EventType::RuntimeStopFailed => "RuntimeStopFailed",
            EventType::RuntimeStopSkipped => "RuntimeStopSkipped",
            EventType::ReleaseCleanupStarted => "ReleaseCleanupStarted",
            EventType::ReleaseCleanupFailed => "ReleaseCleanupFailed",
            EventType::SessionOperationClaimReleased => "SessionOperationClaimReleased",
            EventType::RequestClaimReleased => "RequestClaimReleased",
            EventType::SlotLeaseReleased => "SlotLeaseReleased",
            EventType::RuntimeOwnershipReleased => "RuntimeOwnershipReleased",
            EventType::ReleaseCleanupCommitted => "ReleaseCleanupCommitted",
            EventType::SlotStandbyWritten => "SlotStandbyWritten",
            EventType::ReleaseCooldownBlocked => "ReleaseCooldownBlocked",
            EventType::CooldownCleared => "CooldownCleared",
            EventType::ReleaseFinalized => "ReleaseFinalized",
            EventType::SnapshotPublished => "SnapshotPublished",
            EventType::SnapshotRejected => "SnapshotRejected",
            EventType::QaMatrixRecorded => "QaMatrixRecorded",
            EventType::QaRepeatRecorded => "QaRepeatRecorded",
            EventType::QaCountersReset => "QaCountersReset",
        }
    }
}

/// The exact fields of each event type's payload.
pub open spec fn payload_keys_of(event: EventType) -> Seq<Seq<char>> {
    match event {
        EventType::RequestAccepted => seq!["requestId"@, "kind"@, "promptSha256"@, "promptSizeBytes"@, "attachmentCount"@, "artifactExpectation"@, "acceptedAtMs"@],
        EventType::RequestClaimGranted => seq!["claimId"@, "requestId"@, "claimGeneration"@, "ttlMs"@, "grantedAtMs"@, "renewAtMs"@, "expiresAtMs"@, "fencingTokenSha256"@],
        EventType::RequestClaimRenewed | EventType::SessionOperationClaimRenewed => seq!["claimId"@, "claimGeneration"@, "renewalRevision"@, "renewedAtMs"@, "renewAtMs"@, "expiresAtMs"@],
        EventType::HostAttachmentsStaged => seq!["requestId"@, "attachmentSet"@, "stagedAtMs"@],
        EventType::AllocationCandidateObserved => seq!["requestId"@, "scanOrdinal"@, "cohort"@, "slotId"@, "cohortCursorBefore"@, "withinCursorBefore"@, "decision"@, "skipReason"@, "observedAtMs"@],
        EventType::AllocationExhausted => seq!["requestId"@, "scanOrdinalCount"@, "observedAtMs"@],
        EventType::SlotLeaseGranted => seq!["leaseId"@, "claimId"@, "slotId"@, "cohort"@, "cohortCursorBefore"@, "withinCursorBefore"@, "cohortCursorAfter"@, "withinCursorAfter"@, "leaseGeneration"@, "reason"@, "grantedAtMs"@, "renewAtMs"@, "expiresAtMs"@, "fencingTokenSha256"@],
        EventType::SlotLeaseRenewed => seq!["leaseId"@, "leaseGeneration"@, "renewalRevision"@, "renewedAtMs"@, "renewAtMs"@, "expiresAtMs"@],
        EventType::RuntimeOwnershipGranted => seq!["runtimeOwnerId"@, "slotId"@, "leaseId"@, "ownerGeneration"@, "runtimeIncarnationId"@, "dockerStatus"@, "startReceipt"@, "grantedAtMs"@, "renewAtMs"@, "expiresAtMs"@, "fencingTokenSha256"@],
        EventType::RuntimeOwnershipAdopted => seq!["runtimeOwnerId"@, "slotId"@, "leaseId"@, "ownerGeneration"@, "runtimeIncarnationId"@, "dockerStatus"@, "adoptionProof"@, "adoptedAtMs"@, "renewAtMs"@, "expiresAtMs"@, "fencingTokenSha256"@],
        EventType::RuntimeOwnershipRenewed => seq!["runtimeOwnerId"@, "ownerGeneration"@, "renewalRevision"@, "renewedAtMs"@, "renewAtMs"@, "expiresAtMs"@],
        EventType::SlotHealthProbeStarted => seq!["slotId"@, "probeId"@, "dockerStatus"@, "deadlineMs"@, "retryIndex"@, "startedAtMs"@],
        EventType::SlotHealthObserved => seq!["slotId"@, "probeId"@, "healthStatus"@, "dockerStatus"@, "cooldownMs"@, "allocatable"@, "evidenceRefs"@, "observedAtMs"@],
        EventType::RootCaptureStarted => seq!["requestId"@, "captureOperationId"@, "slotId"@, "startedAtMs"@],
        EventType::RootCaptureObserved => seq!["requestId"@, "captureOperationId"@, "rootBindingCandidate"@, "bindingId"@, "bindingGeneration"@, "pageBinding"@, "observedAtMs"@],
        EventType::RootCaptureFailed => seq!["requestId"@, "captureOperationId"@, "reason"@, "providerReceipt"@, "failedAtMs"@],
        EventType::ModelSelectionStarted => seq!["requestId"@, "modelOperationId"@, "requestedModel"@, "requestedEffort"@, "startedAtMs"@],
        EventType::ModelSelectionVerified => seq!["requestId"@, "modelOperationId"@, "modelProof"@, "effortProof"@, "failureProof"@, "verifiedAtMs"@],
        EventType::ModelSelectionFailed => seq!["requestId"@, "modelOperationId"@, "modelProof"@, "effortProof"@, "failureProof"@, "reason"@, "providerReceipt"@, "failedAtMs"@],
        EventType::SlotAttachmentsMaterialized => seq!["requestId"@, "slotId"@, "attachmentSetSha256"@, "containerMountRoot"@, "materializedFiles"@, "materializedAtMs"@],
        EventType::UploadStarted => seq!["requestId"@, "uploadAttemptId"@, "retryIndex"@, "expectedSetSha256"@, "expectedBindingHash"@, "startedAtMs"@],
        EventType::UploadMismatchObserved => seq!["requestId"@, "uploadAttemptId"@, "uploadProof"@, "reason"@, "observedAtMs"@],
        EventType::UploadCleared => seq!["requestId"@, "uploadAttemptId"@, "clearAttemptId"@, "clearedChips"@, "providerReceipt"@, "clearedAtMs"@],
        EventType::UploadCompleted => seq!["requestId"@, "uploadAttemptId"@, "retryIndex"@, "uploadProof"@, "providerReceipt"@, "completedAtMs"@],
        EventType::UploadFailed => seq!["requestId"@, "uploadAttemptId"@, "retryIndex"@, "reason"@, "providerReceipt"@, "failedAtMs"@],
        EventType::SendClickArmed => seq!["requestId"@, "sendAttemptId"@, "uploadAttemptId"@, "expectedBindingHash"@, "promptSha256"@, "preClickReceiptPath"@, "postClickReceiptPath"@, "reconcileReceiptPath"@, "clickBudget"@, "armedAtMs"@],
        EventType::SendClicked => seq!["requestId"@, "sendAttemptId"@, "preClickReceipt"@, "postClickReceipt"@, "physicalClickCount"@, "clickedAtMs"@],
        EventType::SendReconciled => seq!["requestId"@, "sendAttemptId"@, "preClickReceipt"@, "reconciledReceipt"@, "physicalClickCount"@, "reconciledAtMs"@],
        EventType::SendUncertain => seq!["requestId"@, "sendAttemptId"@, "reason"@, "blockedAtMs"@],
        EventType::SendFailed => seq!["requestId"@, "sendAttemptId"@, "reason"@, "providerReceipt"@, "failedAtMs"@],
        EventType::TurnStartConfirmed => seq!["requestId"@, "sessionId"@, "conversationUrl"@, "userTurnId"@, "assistantTurnId"@, "confirmedAtMs"@],
        EventType::SessionBindingEstablished => seq!["sessionId"@, "sessionBindingId"@, "conversationUrl"@, "slotId"@, "cohort"@, "pageBindingId"@, "pageBindingGeneration"@, "targetId"@, "pageIncarnationId"@, "runtimeOwnerId"@, "establishedAtMs"@],
        EventType::RunningProjected => seq!["requestId"@, "sessionId"@, "sessionBindingId"@, "activeTurn"@, "projectedAtMs"@],
        EventType::SessionOperationClaimGranted => seq!["claimId"@, "sessionId"@, "operationKind"@, "expectedSlotId"@, "expectedCohort"@, "expectedRuntimeOwnerGeneration"@, "requestId"@, "runId"@, "ttlMs"@, "grantedAtMs"@, "renewAtMs"@, "expiresAtMs"@, "fencingTokenSha256"@],
        EventType::PersistedSessionLeaseGranted => seq!["leaseId"@, "claimId"@, "slotId"@, "cohort"@, "leaseGeneration"@, "reason"@, "grantedAtMs"@, "renewAtMs"@, "expiresAtMs"@, "fencingTokenSha256"@],
        EventType::SessionRuntimeOwnershipGranted => seq!["runtimeOwnerId"@, "sessionId"@, "slotId"@, "leaseId"@, "ownerGeneration"@, "runtimeIncarnationId"@, "dockerStatus"@, "startReceipt"@, "grantedAtMs"@, "renewAtMs"@, "expiresAtMs"@, "fencingTokenSha256"@],
        EventType::SessionRuntimeOwnershipAdopted => seq!["runtimeOwnerId"@, "sessionId"@, "slotId"@, "leaseId"@, "ownerGeneration"@, "runtimeIncarnationId"@, "dockerStatus"@, "adoptionProof"@, "adoptedAtMs"@, "renewAtMs"@, "expiresAtMs"@, "fencingTokenSha256"@],
        EventType::SessionRebindStarted => seq!["sessionId"@, "sessionOperationClaimId"@, "operationKind"@, "expectationSha256"@, "navigationAttemptLimit"@, "hydrationDeadlineMs"@, "startedAtMs"@],
        EventType::SessionRebound => seq!["sessionId"@, "expectation"@, "observedEcho"@, "pageBindingGeneration"@, "providerReceipt"@, "reboundAtMs"@],
        EventType::SessionHydrationObserved => seq!["sessionId"@, "hydrationObservation"@, "sequenceIndex"@, "remainingDeadlineMs"@, "observedAtMs"@],
        EventType::SessionHydrated => seq!["sessionId"@, "observations"@, "terminalVisible"@, "activeGeneration"@, "contentUnavailable"@, "finalObservation"@, "hydratedAtMs"@],
        EventType::SessionOperationFailed => seq!["sessionId"@, "sessionOperationClaimId"@, "operationKind"@, "stage"@, "reason"@, "providerReceipt"@, "failedAtMs"@],
        EventType::PollStarted => seq!["requestId"@, "pollAttemptId"@, "sessionId"@, "pollTimeoutSeconds"@, "startedAtMs"@],
        EventType::PollProgress => seq!["requestId"@, "pollAttemptId"@, "providerStatus"@, "activeGeneration"@, "sequenceIndex"@, "pollReceipt"@, "observedAtMs"@],
        EventType::PollFailed => seq!["requestId"@, "pollAttemptId"@, "reason"@, "providerReceipt"@, "failedAtMs"@],
        EventType::AnswerTerminal => seq!["requestId"@, "pollAttemptId"@, "sessionId"@, "answerPath"@, "answerSha256"@, "answerSizeBytes"@, "terminalAssistantTurnId"@, "pollReceipt"@, "terminalAtMs"@],
        EventType::ArtifactClaimEstablished => seq!["artifactClaimId"@, "sessionId"@, "requestId"@, "expectation"@, "terminalAssistantTurnId"@, "establishedAtMs"@],
        EventType::ArtifactControlsAbsent => seq!["artifactClaimId"@, "zeroControlProof"@, "providerReceipt"@, "observedAtMs"@],
        EventType::ArtifactControlsDiscovered => seq!["artifactClaimId"@, "controls"@, "controlCount"@, "bottomProof"@, "providerReceipt"@, "discoveredAtMs"@],
        EventType::ArtifactDownloadAttemptConsumed => seq!["artifactClaimId"@, "attemptId"@, "controlIndex"@, "controlId"@, "artifactBaseline"@, "providerReceiptPath"@, "hostSaveDirectory"@, "clickBudget"@, "attemptConsumedAtMs"@],
        EventType::ArtifactRecoveryCandidateObserved => seq!["artifactClaimId"@, "attemptId"@, "candidateRelPath"@, "sizeBytes"@, "sha256"@, "stableObservations"@, "observedAtMs"@],
        EventType::ArtifactDownloadCompleted => seq!["artifactClaimId"@, "attemptId"@, "controlIndex"@, "artifactId"@, "downloadReceipt"@, "completedAtMs"@],
        EventType::ArtifactClaimCompleted => seq!["artifactClaimId"@, "result"@, "artifactCount"@, "manifestPath"@, "manifestSha256"@, "completedAtMs"@],
        EventType::ArtifactClaimFailed => seq!["artifactClaimId"@, "reason"@, "failedControlIndex"@, "providerReceipt"@, "failedAtMs"@],
        EventType::TerminalPersisted => seq!["requestId"@, "answerTerminalEventId"@, "artifactClaimEventIds"@, "outputPath"@, "persistedAtMs"@],
        EventType::OutputPublished => seq!["requestId"@, "outputPath"@, "outputSha256"@, "publishedAtMs"@],
        EventType::OutputPublishFailed => seq!["requestId"@, "reason"@, "failedAtMs"@],
        EventType::ReleaseStarted => seq!["releaseId"@, "subjectKind"@, "subjectId"@, "reason"@, "startedAtMs"@],
        EventType::ReleaseEvidencePreserved => seq!["releaseId"@, "evidenceManifestPath"@, "evidenceManifestSha256"@, "preservedAtMs"@],
        EventType::RuntimeTakeoverProven => seq!["releaseId"@, "slotId"@, "priorOwnerId"@, "priorGeneration"@, "newOwnerId"@, "newGeneration"@, "deadOwnerProof"@, "provenAtMs"@],
        EventType::RuntimeStopStarted => seq!["releaseId"@, "runtimeOwnerId"@, "ownerGeneration"@, "stopTimeoutMs"@, "startedAtMs"@],
        EventType::RuntimeStopped => seq!["releaseId"@, "runtimeOwnerId"@, "ownerGeneration"@, "dockerStatus"@, "stopReceipt"@, "stoppedAtMs"@],
        EventType::RuntimeStopFailed => seq!["releaseId"@, "runtimeOwnerId"@, "ownerGeneration"@, "dockerStatus"@, "failureReceipt"@, "reason"@, "failedAtMs"@],
        EventType::RuntimeStopSkipped => seq!["releaseId"@, "runtimeOwnerId"@, "reason"@, "proofAttempt"@, "skippedAtMs"@],
        EventType::ReleaseCleanupStarted => seq!["releaseId"@, "startedAtMs"@],
        EventType::ReleaseCleanupFailed => seq!["releaseId"@, "reason"@, "failedAtMs"@],
        EventType::SessionOperationClaimReleased | EventType::RequestClaimReleased => seq!["claimId"@, "claimGeneration"@, "releaseId"@, "releasedAtMs"@],
        EventType::SlotLeaseReleased => seq!["leaseId"@, "leaseGeneration"@, "releaseId"@, "releasedAtMs"@],
        EventType::RuntimeOwnershipReleased => seq!["runtimeOwnerId"@, "ownerGeneration"@, "releaseId"@, "runtimeOutcome"@, "releasedAtMs"@],
        EventType::ReleaseCleanupCommitted => seq!["releaseId"@, "requestClaimReleaseMode"@, "sessionClaimReleaseMode"@, "leaseReleaseMode"@, "ownerReleaseMode"@, "committedAtMs"@],
        EventType::SlotStandbyWritten => seq!["slotId"@, "releaseId"@, "allocatable"@, "cooldownUntilMs"@, "writtenAtMs"@],
        EventType::ReleaseCooldownBlocked => seq!["releaseId"@, "slotId"@, "cooldownUntilMs"@, "blockedAtMs"@],
        EventType::CooldownCleared => seq!["slotId"@, "clearedAtMs"@],
        EventType::ReleaseFinalized => seq!["releaseId"@, "finalStatus"@, "allocatable"@, "finalizedAtMs"@],
        EventType::SnapshotPublished => seq!["projectionName"@, "snapshotPath"@, "lastEventId"@, "projectionDigest"@, "snapshotSha256"@, "publishedAtMs"@],
        EventType::SnapshotRejected => seq!["projectionName"@, "snapshotPath"@, "reason"@, "expectedDigest"@, "observedDigest"@, "rejectedAtMs"@],
        EventType::QaMatrixRecorded => seq!["qaRunId"@, "matrixIteration"@, "sourceFingerprint"@, "evidenceDigest"@, "casesPassed"@, "casesTotal"@, "recordedAtMs"@],
        EventType::QaRepeatRecorded => seq!["qaRunId"@, "caseId"@, "repetitionIndex"@, "sourceFingerprint"@, "passed"@, "recordedAtMs"@],
        EventType::QaCountersReset => seq!["qaRunId"@, "reason"@, "sourceFingerprint"@, "scope"@, "caseId"@, "resetAtMs"@],
    }
}

/// The exact fields of each event type's payload, in the journal's order.
#[verifier::rlimit(50)]
pub fn payload_keys(event: EventType) -> (r: Vec<&'static str>)
    ensures
        r@.len() == payload_keys_of(event).len(),
        forall|i: int| 0 <= i < r@.len() ==> #[trigger] r@[i]@ == payload_keys_of(event)[i],
{
    match event {
        EventType::RequestAccepted => vec!["requestId", "kind", "promptSha256", "promptSizeBytes", "attachmentCount", "artifactExpectation", "acceptedAtMs"],
        EventType::RequestClaimGranted => vec!["claimId", "requestId", "claimGeneration", "ttlMs", "grantedAtMs", "renewAtMs", "expiresAtMs", "fencingTokenSha256"],
        EventType::RequestClaimRenewed | EventType::SessionOperationClaimRenewed => vec!["claimId", "claimGeneration", "renewalRevision", "renewedAtMs", "renewAtMs", "expiresAtMs"],
        EventType::HostAttachmentsStaged => vec!["requestId", "attachmentSet", "stagedAtMs"],
        EventType::AllocationCandidateObserved => vec!["requestId", "scanOrdinal", "cohort", "slotId", "cohortCursorBefore", "withinCursorBefore", "decision", "skipReason", "observedAtMs"],
        EventType::AllocationExhausted => vec!["requestId", "scanOrdinalCount", "observedAtMs"],
        EventType::SlotLeaseGranted => vec!["leaseId", "claimId", "slotId", "cohort", "cohortCursorBefore", "withinCursorBefore", "cohortCursorAfter", "withinCursorAfter", "leaseGeneration", "reason", "grantedAtMs", "renewAtMs", "expiresAtMs", "fencingTokenSha256"],
        EventType::SlotLeaseRenewed => vec!["leaseId", "leaseGeneration", "renewalRevision", "renewedAtMs", "renewAtMs", "expiresAtMs"],
        EventType::RuntimeOwnershipGranted => vec!["runtimeOwnerId", "slotId", "leaseId", "ownerGeneration", "runtimeIncarnationId", "dockerStatus", "startReceipt", "grantedAtMs", "renewAtMs", "expiresAtMs", "fencingTokenSha256"],
        EventType::RuntimeOwnershipAdopted => vec!["runtimeOwnerId", "slotId", "leaseId", "ownerGeneration", "runtimeIncarnationId", "dockerStatus", "adoptionProof", "adoptedAtMs", "renewAtMs", "expiresAtMs", "fencingTokenSha256"],
        EventType::RuntimeOwnershipRenewed => vec!["runtimeOwnerId", "ownerGeneration", "renewalRevision", "renewedAtMs", "renewAtMs", "expiresAtMs"],
        EventType::SlotHealthProbeStarted => vec!["slotId", "probeId", "dockerStatus", "deadlineMs", "retryIndex", "startedAtMs"],
        EventType::SlotHealthObserved => vec!["slotId", "probeId", "healthStatus", "dockerStatus", "cooldownMs", "allocatable", "evidenceRefs", "observedAtMs"],
        EventType::RootCaptureStarted => vec!["requestId", "captureOperationId", "slotId", "startedAtMs"],
        EventType::RootCaptureObserved => vec!["requestId", "captureOperationId", "rootBindingCandidate", "bindingId", "bindingGeneration", "pageBinding", "observedAtMs"],
        EventType::RootCaptureFailed => vec!["requestId", "captureOperationId", "reason", "providerReceipt", "failedAtMs"],
        EventType::ModelSelectionStarted => vec!["requestId", "modelOperationId", "requestedModel", "requestedEffort", "startedAtMs"],
        EventType::ModelSelectionVerified => vec!["requestId", "modelOperationId", "modelProof", "effortProof", "failureProof", "verifiedAtMs"],
        EventType::ModelSelectionFailed => vec!["requestId", "modelOperationId", "modelProof", "effortProof", "failureProof", "reason", "providerReceipt", "failedAtMs"],
        EventType::SlotAttachmentsMaterialized => vec!["requestId", "slotId", "attachmentSetSha256", "containerMountRoot", "materializedFiles", "materializedAtMs"],
        EventType::UploadStarted => vec!["requestId", "uploadAttemptId", "retryIndex", "expectedSetSha256", "expectedBindingHash", "startedAtMs"],
        EventType::UploadMismatchObserved => vec!["requestId", "uploadAttemptId", "uploadProof", "reason", "observedAtMs"],
        EventType::UploadCleared => vec!["requestId", "uploadAttemptId", "clearAttemptId", "clearedChips", "providerReceipt", "clearedAtMs"],
        EventType::UploadCompleted => vec!["requestId", "uploadAttemptId", "retryIndex", "uploadProof", "providerReceipt", "completedAtMs"],
        EventType::UploadFailed => vec!["requestId", "uploadAttemptId", "retryIndex", "reason", "providerReceipt", "failedAtMs"],
        EventType::SendClickArmed => vec!["requestId", "sendAttemptId", "uploadAttemptId", "expectedBindingHash", "promptSha256", "preClickReceiptPath", "postClickReceiptPath", "reconcileReceiptPath", "clickBudget", "armedAtMs"],
        EventType::SendClicked => vec!["requestId", "sendAttemptId", "preClickReceipt", "postClickReceipt", "physicalClickCount", "clickedAtMs"],
        EventType::SendReconciled => vec!["requestId", "sendAttemptId", "preClickReceipt", "reconciledReceipt", "physicalClickCount", "reconciledAtMs"],
        EventType::SendUncertain => vec!["requestId", "sendAttemptId", "reason", "blockedAtMs"],
        EventType::SendFailed => vec!["requestId", "sendAttemptId", "reason", "providerReceipt", "failedAtMs"],
        EventType::TurnStartConfirmed => vec!["requestId", "sessionId", "conversationUrl", "userTurnId", "assistantTurnId", "confirmedAtMs"],
        EventType::SessionBindingEstablished => vec!["sessionId", "sessionBindingId", "conversationUrl", "slotId", "cohort", "pageBindingId", "pageBindingGeneration", "targetId", "pageIncarnationId", "runtimeOwnerId", "establishedAtMs"],
        EventType::RunningProjected => vec!["requestId", "sessionId", "sessionBindingId", "activeTurn", "projectedAtMs"],
        EventType::SessionOperationClaimGranted => vec!["claimId", "sessionId", "operationKind", "expectedSlotId", "expectedCohort", "expectedRuntimeOwnerGeneration", "requestId", "runId", "ttlMs", "grantedAtMs", "renewAtMs", "expiresAtMs", "fencingTokenSha256"],
        EventType::PersistedSessionLeaseGranted => vec!["leaseId", "claimId", "slotId", "cohort", "leaseGeneration", "reason", "grantedAtMs", "renewAtMs", "expiresAtMs", "fencingTokenSha256"],
        EventType::SessionRuntimeOwnershipGranted => vec!["runtimeOwnerId", "sessionId", "slotId", "leaseId", "ownerGeneration", "runtimeIncarnationId", "dockerStatus", "startReceipt", "grantedAtMs", "renewAtMs", "expiresAtMs", "fencingTokenSha256"],
        EventType::SessionRuntimeOwnershipAdopted => vec!["runtimeOwnerId", "sessionId", "slotId", "leaseId", "ownerGeneration", "runtimeIncarnationId", "dockerStatus", "adoptionProof", "adoptedAtMs", "renewAtMs", "expiresAtMs", "fencingTokenSha256"],
        EventType::SessionRebindStarted => vec!["sessionId", "sessionOperationClaimId", "operationKind", "expectationSha256", "navigationAttemptLimit", "hydrationDeadlineMs", "startedAtMs"],
        EventType::SessionRebound => vec!["sessionId", "expectation", "observedEcho", "pageBindingGeneration", "providerReceipt", "reboundAtMs"],
        EventType::SessionHydrationObserved => vec!["sessionId", "hydrationObservation", "sequenceIndex", "remainingDeadlineMs", "observedAtMs"],
        EventType::SessionHydrated => vec!["sessionId", "observations", "terminalVisible", "activeGeneration", "contentUnavailable", "finalObservation", "hydratedAtMs"],
        EventType::SessionOperationFailed => vec!["sessionId", "sessionOperationClaimId", "operationKind", "stage", "reason", "providerReceipt", "failedAtMs"],
        EventType::PollStarted => vec!["requestId", "pollAttemptId", "sessionId", "pollTimeoutSeconds", "startedAtMs"],
        EventType::PollProgress => vec!["requestId", "pollAttemptId", "providerStatus", "activeGeneration", "sequenceIndex", "pollReceipt", "observedAtMs"],
        EventType::PollFailed => vec!["requestId", "pollAttemptId", "reason", "providerReceipt", "failedAtMs"],
        EventType::AnswerTerminal => vec!["requestId", "pollAttemptId", "sessionId", "answerPath", "answerSha256", "answerSizeBytes", "terminalAssistantTurnId", "pollReceipt", "terminalAtMs"],
        EventType::ArtifactClaimEstablished => vec!["artifactClaimId", "sessionId", "requestId", "expectation", "terminalAssistantTurnId", "establishedAtMs"],
        EventType::ArtifactControlsAbsent => vec!["artifactClaimId", "zeroControlProof", "providerReceipt", "observedAtMs"],
        EventType::ArtifactControlsDiscovered => vec!["artifactClaimId", "controls", "controlCount", "bottomProof", "providerReceipt", "discoveredAtMs"],
        EventType::ArtifactDownloadAttemptConsumed => vec!["artifactClaimId", "attemptId", "controlIndex", "controlId", "artifactBaseline", "providerReceiptPath", "hostSaveDirectory", "clickBudget", "attemptConsumedAtMs"],
        EventType::ArtifactRecoveryCandidateObserved => vec!["artifactClaimId", "attemptId", "candidateRelPath", "sizeBytes", "sha256", "stableObservations", "observedAtMs"],
        EventType::ArtifactDownloadCompleted => vec!["artifactClaimId", "attemptId", "controlIndex", "artifactId", "downloadReceipt", "completedAtMs"],
        EventType::ArtifactClaimCompleted => vec!["artifactClaimId", "result", "artifactCount", "manifestPath", "manifestSha256", "completedAtMs"],
        EventType::ArtifactClaimFailed => vec!["artifactClaimId", "reason", "failedControlIndex", "providerReceipt", "failedAtMs"],
        EventType::TerminalPersisted => vec!["requestId", "answerTerminalEventId", "artifactClaimEventIds", "outputPath", "persistedAtMs"],
        EventType::OutputPublished => vec!["requestId", "outputPath", "outputSha256", "publishedAtMs"],
        EventType::OutputPublishFailed => vec!["requestId", "reason", "failedAtMs"],
        EventType::ReleaseStarted => vec!["releaseId", "subjectKind", "subjectId", "reason", "startedAtMs"],
        EventType::ReleaseEvidencePreserved => vec!["releaseId", "evidenceManifestPath", "evidenceManifestSha256", "preservedAtMs"],
        EventType::RuntimeTakeoverProven => vec!["releaseId", "slotId", "priorOwnerId", "priorGeneration", "newOwnerId", "newGeneration", "deadOwnerProof", "provenAtMs"],
        EventType::RuntimeStopStarted => vec!["releaseId", "runtimeOwnerId", "ownerGeneration", "stopTimeoutMs", "startedAtMs"],
        EventType::RuntimeStopped => vec!["releaseId", "runtimeOwnerId", "ownerGeneration", "dockerStatus", "stopReceipt", "stoppedAtMs"],
        EventType::RuntimeStopFailed => vec!["releaseId", "runtimeOwnerId", "ownerGeneration", "dockerStatus", "failureReceipt", "reason", "failedAtMs"],
        EventType::RuntimeStopSkipped => vec!["releaseId", "runtimeOwnerId", "reason", "proofAttempt", "skippedAtMs"],
        EventType::ReleaseCleanupStarted => vec!["releaseId", "startedAtMs"],
        EventType::ReleaseCleanupFailed => vec!["releaseId", "reason", "failedAtMs"],
        EventType::SessionOperationClaimReleased | EventType::RequestClaimReleased => vec!["claimId", "claimGeneration", "releaseId", "releasedAtMs"],
        EventType::SlotLeaseReleased => vec!["leaseId", "leaseGeneration", "releaseId", "releasedAtMs"],
        EventType::RuntimeOwnershipReleased => vec!["runtimeOwnerId", "ownerGeneration", "releaseId", "runtimeOutcome", "releasedAtMs"],
        EventType::ReleaseCleanupCommitted => vec!["releaseId", "requestClaimReleaseMode", "sessionClaimReleaseMode", "leaseReleaseMode", "ownerReleaseMode", "committedAtMs"],
        EventType::SlotStandbyWritten => vec!["slotId", "releaseId", "allocatable", "cooldownUntilMs", "writtenAtMs"],
        EventType::ReleaseCooldownBlocked => vec!["releaseId", "slotId", "cooldownUntilMs", "blockedAtMs"],
        EventType::CooldownCleared => vec!["slotId", "clearedAtMs"],
        EventType::ReleaseFinalized => vec!["releaseId", "finalStatus", "allocatable", "finalizedAtMs"],
        EventType::SnapshotPublished => vec!["projectionName", "snapshotPath", "lastEventId", "projectionDigest", "snapshotSha256", "publishedAtMs"],
        EventType::SnapshotRejected => vec!["projectionName", "snapshotPath", "reason", "expectedDigest", "observedDigest", "rejectedAtMs"],
        EventType::QaMatrixRecorded => vec!["qaRunId", "matrixIteration", "sourceFingerprint", "evidenceDigest", "casesPassed", "casesTotal", "recordedAtMs"],
        EventType::QaRepeatRecorded => vec!["qaRunId", "caseId", "repetitionIndex", "sourceFingerprint", "passed", "recordedAtMs"],
        EventType::QaCountersReset => vec!["qaRunId", "reason", "sourceFingerprint", "scope", "caseId", "resetAtMs"],
    }
}

/// The views of a list of keys.
pub open spec fn key_views(keys: Seq<String>) -> Seq<Seq<char>> {
    Seq::new(keys.len(), |i: int| keys[i]@)
}

/// The keys, taken as a set, are exactly `expected`.
pub open spec fn same_keys(keys: Seq<String>, expected: Seq<Seq<char>>) -> bool {
    key_views(keys).to_set() == expected.to_set()
}

fn listed(values: &Vec<&'static str>, key: &str) -> (r: bool)
    ensures
        r == exists|j: int| 0 <= j < values@.len() && #[trigger] values@[j]@ == key@,
{
    let mut j: usize = 0;
    while j < values.len()
        invariant
            j <= values@.len(),
            forall|k: int| 0 <= k < j ==> #[trigger] values@[k]@ != key@,
        decreases values.len() - j,
    {
        if str_eq(values[j], key) {
            return true;
        }
        j += 1;
    }
    false
}

fn present(keys: &[String], key: &str) -> (r: bool)
    ensures
        r == exists|i: int| 0 <= i < keys@.len() && #[trigger] keys@[i]@ == key@,
{
    let mut i: usize = 0;
    while i < keys.len()
        invariant
            i <= keys@.len(),
            forall|k: int| 0 <= k < i ==> #[trigger] keys@[k]@ != key@,
        decreases keys.len() - i,
    {
        if str_eq(keys[i].as_str(), key) {
            return true;
        }
        i += 1;
    }
    false
}

/// The views of a sequence of string slices.
pub open spec fn views(v: Seq<&str>) -> Seq<Seq<char>> {
    Seq::new(v.len(), |i: int| v[i]@)
}

/// Whether `keys`, taken as a set, is exactly the set of `expected`.
pub fn keys_match(keys: &[String], expected: &Vec<&'static str>) -> (r: bool)
    ensures
        r == same_keys(keys@, views(expected@)),
{
    let ghost exp = views(expected@);
    let ghost kv = key_views(keys@);
    let mut i: usize = 0;
    while i < keys.len()
        invariant
            i <= keys@.len(),
            exp == views(expected@),
            kv == key_views(keys@),
            forall|k: int| 0 <= k < i ==> exp.contains(#[trigger] kv[k]),
        decreases keys.len() - i,
    {
        assert(kv[i as int] == keys@[i as int]@);
        if !listed(expected, keys[i].as_str()) {
            proof {
                if exp.contains(kv[i as int]) {
                    let j = choose|j: int| 0 <= j < exp.len() && exp[j] == kv[i as int];
                    assert(expected@[j]@ == keys@[i as int]@);
                }
                assert(kv.to_set().contains(kv[i as int]));
                assert(!exp.to_set().contains(kv[i as int]));
            }
            return false;
        }
        proof {
            let j = choose|j: int| 0 <= j < expected@.len() && #[trigger] expected@[j]@ == keys@[i as int]@;
            assert(exp[j] == kv[i as int]);
        }
        i += 1;
    }
    let mut j: usize = 0;
    while j < expected.len()
        invariant
            j <= expected@.len(),
            exp == views(expected@),
            kv == key_views(keys@),
            forall|k: int| 0 <= k < kv.len() ==> exp.contains(#[trigger] kv[k]),
            forall|k: int| 0 <= k < j ==> kv.contains(#[trigger] exp[k]),
        decreases expected.len() - j,
    {
        assert(exp[j as int] == expected@[j as int]@);
        if !present(keys, expected[j]) {
            proof {
                if kv.contains(exp[j as int]) {
                    let i = choose|i: int| 0 <= i < kv.len() && kv[i] == exp[j as int];
                    assert(keys@[i]@ == expected@[j as int]@);
                }
                assert(exp.to_set().contains(exp[j as int]));
                assert(!kv.to_set().contains(exp[j as int]));
            }
            return false;
        }
        proof {
            let i = choose|i: int| 0 <= i < keys@.len() && #[trigger] keys@[i]@ == expected@[j as int]@;
            assert(kv[i] == exp[j as int]);
        }
        j += 1;
    }
    assert(kv.to_set() =~= exp.to_set()) by {
        assert forall|x: Seq<char>| kv.contains(x) implies exp.contains(x) by {
            let k = choose|k: int| 0 <= k < kv.len() && kv[k] == x;
            assert(exp.contains(kv[k]));
        }
        assert forall|x: Seq<char>| exp.contains(x) implies kv.contains(x) by {
            let k = choose|k: int| 0 <= k < exp.len() && exp[k] == x;
            assert(kv.contains(exp[k]));
        }
    }
    true
}

/// Checks that a payload object has exactly the fields of its event type;
/// `keys` are the object's field names.
pub fn validate_payload_keys(event: EventType, keys: &[String]) -> (r: Result<(), EventError>)
    ensures
        r is Ok <==> same_keys(keys@, payload_keys_of(event)),
        r is Err ==> r == Err::<(), EventError>(EventError::Invalid("payload fields")),
{
    let expected = payload_keys(event);
    assert(views(expected@) =~= payload_keys_of(event));
    if keys_match(keys, &expected) {
        Ok(())
    } else {
        Err(EventError::Invalid("payload fields"))
    }
}

} // verus!
