use vstd::prelude::*;

use crate::contracts::ids::{
    is_cohort, is_general_id, is_h256, is_safe_rel_path, is_session_id, is_slot_id, is_text,
    validate_byte_count, validate_cohort, validate_h256, validate_non_empty_text,
    validate_operation_id, validate_request_id, validate_run_id, validate_safe_rel_path,
    validate_session_id, validate_slot_id, MAX_BYTE_COUNT,
};
use crate::text::{opt_str_eq, opt_view, str_eq};

use super::payload_keys::{keys_match, same_keys, views};

verus! {

pub const REQUEST_SCHEMA: &'static str = "gpt-webai.provider.request.r13.v1";

pub const RESPONSE_SCHEMA: &'static str = "gpt-webai.provider.response.r13.v1";

/// The most attachments one request may carry.
pub const MAX_ATTACHMENTS: usize = 64;

/// What a provider call is asked to do.
#[derive(Clone, Copy, Debug, PartialEq, Eq, Structural)]
pub enum ProviderOperation {
    Status,
    CaptureRoot,
    EnsureModel,
    UploadOnly,
    ClearUpload,
    SendClick,
    SendReconcile,
    SessionRebind,
    Poll,
    ArtifactDiscover,
    ArtifactClickSave,
}

/// The wire name of each operation.
pub open spec fn operation_name(op: ProviderOperation) -> Seq<char> {
    match op {
        ProviderOperation::Status => "status"@,
        ProviderOperation::CaptureRoot => "capture.root"@,
        ProviderOperation::EnsureModel => "ensure-model"@,
        ProviderOperation::UploadOnly => "upload-only"@,
        ProviderOperation::ClearUpload => "clear-upload"@,
        ProviderOperation::SendClick => "send-click"@,
        ProviderOperation::SendReconcile => "send-reconcile"@,
        ProviderOperation::SessionRebind => "session-rebind"@,
        ProviderOperation::Poll => "poll"@,
        ProviderOperation::ArtifactDiscover => "artifact-discover"@,
        ProviderOperation::ArtifactClickSave => "artifact-click-save"@,
    }
}

impl ProviderOperation {
    pub fn as_str(self) -> (r: &'static str)
        ensures
            r@ == operation_name(self),
    {
        match self {
            ProviderOperation::Status => "status",
            ProviderOperation::CaptureRoot => "capture.root",
            ProviderOperation::EnsureModel => "ensure-model",
            ProviderOperation::UploadOnly => "upload-only",
            ProviderOperation::ClearUpload => "clear-upload",
            ProviderOperation::SendClick => "send-click",
            ProviderOperation::SendReconcile => "send-reconcile",
            ProviderOperation::SessionRebind => "session-rebind",
            ProviderOperation::Poll => "poll",
            ProviderOperation::ArtifactDiscover => "artifact-discover",
            ProviderOperation::ArtifactClickSave => "artifact-click-save",
        }
    }
}

#[derive(Clone, Debug, PartialEq, Eq)]
pub enum ProviderContractError {
    Invalid(&'static str),
    BindingMismatch,
}

pub open spec fn invalid(e: Option<&'static str>) -> Result<(), ProviderContractError> {
    match e {
        Some(m) => Err(ProviderContractError::Invalid(m)),
        None => Ok(()),
    }
}

// ---------------------------------------------------------------- operation data fields

/// The fields of each operation's request data.
pub open spec fn request_keys_of(op: ProviderOperation) -> Seq<Seq<char>> {
    match op {
        ProviderOperation::Status => seq!["expectedSlotId"@, "probeAttempt"@],
        ProviderOperation::CaptureRoot => seq!["requestedModel"@, "requestedEffort"@, "rediscoveryAttempt"@],
        ProviderOperation::EnsureModel => seq!["pageBinding"@, "requestedModel"@, "requestedEffort"@, "pickerOpenBudget"@, "stabilizationMs"@],
        ProviderOperation::UploadOnly => seq!["pageBinding"@, "attachmentSet"@, "uploadAttemptId"@, "retryIndex"@],
        ProviderOperation::ClearUpload => seq!["pageBinding"@, "uploadAttemptId"@, "clearAttemptId"@, "staleChips"@],
        ProviderOperation::SendClick => seq!["pageBinding"@, "sendAttemptId"@, "uploadProof"@, "promptInput"@, "clickBudget"@],
        ProviderOperation::SendReconcile => seq!["pageBinding"@, "sendAttemptId"@, "preClickReceipt"@],
        ProviderOperation::SessionRebind => seq!["operationKind"@, "expectation"@, "navigationAttemptLimit"@, "hydrationDeadlineMs"@],
        ProviderOperation::Poll => seq!["expected"@, "pollAttemptId"@, "pollTimeoutSeconds"@, "artifactExpectation"@],
        ProviderOperation::ArtifactDiscover => seq!["expected"@, "artifactClaimId"@, "terminalAssistantTurnId"@, "expectation"@],
        ProviderOperation::ArtifactClickSave => seq!["expected"@, "artifactClaimId"@, "terminalAssistantTurnId"@, "control"@, "baseline"@, "controlIndex"@, "hostSaveDirectory"@],
    }
}

pub fn request_keys(operation: ProviderOperation) -> (r: Vec<&'static str>)
    ensures
        views(r@) == request_keys_of(operation),
{
    let r = match operation {
        ProviderOperation::Status => vec!["expectedSlotId", "probeAttempt"],
        ProviderOperation::CaptureRoot => vec!["requestedModel", "requestedEffort", "rediscoveryAttempt"],
        ProviderOperation::EnsureModel => vec!["pageBinding", "requestedModel", "requestedEffort", "pickerOpenBudget", "stabilizationMs"],
        ProviderOperation::UploadOnly => vec!["pageBinding", "attachmentSet", "uploadAttemptId", "retryIndex"],
        ProviderOperation::ClearUpload => vec!["pageBinding", "uploadAttemptId", "clearAttemptId", "staleChips"],
        ProviderOperation::SendClick => vec!["pageBinding", "sendAttemptId", "uploadProof", "promptInput", "clickBudget"],
        ProviderOperation::SendReconcile => vec!["pageBinding", "sendAttemptId", "preClickReceipt"],
        ProviderOperation::SessionRebind => vec!["operationKind", "expectation", "navigationAttemptLimit", "hydrationDeadlineMs"],
        ProviderOperation::Poll => vec!["expected", "pollAttemptId", "pollTimeoutSeconds", "artifactExpectation"],
        ProviderOperation::ArtifactDiscover => vec!["expected", "artifactClaimId", "terminalAssistantTurnId", "expectation"],
        ProviderOperation::ArtifactClickSave => vec!["expected", "artifactClaimId", "terminalAssistantTurnId", "control", "baseline", "controlIndex", "hostSaveDirectory"],
    };
    assert(views(r@) =~= request_keys_of(operation));
    r
}

/// The fields of each operation's response data; a few operations answer
/// with other fields on success than on failure.
pub open spec fn response_keys_of(op: ProviderOperation, ok: bool) -> Seq<Seq<char>> {
    match op {
        ProviderOperation::Status => seq!["healthStatus"@, "dockerStatus"@, "retryAfterMs"@, "modelLabel"@, "composerReady"@],
        ProviderOperation::CaptureRoot => seq!["rootBindingCandidate"@, "failureProof"@],
        ProviderOperation::EnsureModel => seq!["modelProof"@, "effortProof"@, "failureProof"@, "observedPageBinding"@],
        ProviderOperation::UploadOnly => seq!["uploadProof"@, "failureReason"@, "observedPageBinding"@],
        ProviderOperation::ClearUpload if ok => seq!["clearAttemptId"@, "clearedChips"@, "observedPageBinding"@],
        ProviderOperation::ClearUpload => seq!["clearAttemptId"@, "failureReason"@, "attemptedChipKeys"@, "clearedChips"@, "observedPageBinding"@],
        ProviderOperation::SendClick | ProviderOperation::SendReconcile => seq!["preClickReceipt"@, "terminalSendReceipt"@, "observedPageBinding"@],
        ProviderOperation::SessionRebind if ok => seq!["expectation"@, "observedEcho"@, "pageBindingGeneration"@, "hydrationObservations"@, "terminalAnswer"@, "failureReason"@],
        ProviderOperation::SessionRebind => seq!["expectation"@, "observedEcho"@, "pageBindingGeneration"@, "hydrationObservations"@, "failureReason"@],
        ProviderOperation::Poll => seq!["expected"@, "observedEcho"@, "pollState"@, "answerSha256"@, "answerSizeBytes"@, "answerRelPath"@, "terminalAssistantTurnId"@, "bottomProof"@],
        ProviderOperation::ArtifactDiscover => seq!["controls"@, "bottomProof"@, "zeroControlProof"@, "failureReason"@, "observedEcho"@],
        ProviderOperation::ArtifactClickSave => seq!["downloadReceipt"@, "failureReason"@, "observedEcho"@],
    }
}

pub fn response_keys(operation: ProviderOperation, ok: bool) -> (r: Vec<&'static str>)
    ensures
        views(r@) == response_keys_of(operation, ok),
{
    let r = match operation {
        ProviderOperation::Status => vec!["healthStatus", "dockerStatus", "retryAfterMs", "modelLabel", "composerReady"],
        ProviderOperation::CaptureRoot => vec!["rootBindingCandidate", "failureProof"],
        ProviderOperation::EnsureModel => vec!["modelProof", "effortProof", "failureProof", "observedPageBinding"],
        ProviderOperation::UploadOnly => vec!["uploadProof", "failureReason", "observedPageBinding"],
        ProviderOperation::ClearUpload if ok => vec!["clearAttemptId", "clearedChips", "observedPageBinding"],
        ProviderOperation::ClearUpload => vec!["clearAttemptId", "failureReason", "attemptedChipKeys", "clearedChips", "observedPageBinding"],
        ProviderOperation::SendClick | ProviderOperation::SendReconcile => vec!["preClickReceipt", "terminalSendReceipt", "observedPageBinding"],
        ProviderOperation::SessionRebind if ok => vec!["expectation", "observedEcho", "pageBindingGeneration", "hydrationObservations", "terminalAnswer", "failureReason"],
        ProviderOperation::SessionRebind => vec!["expectation", "observedEcho", "pageBindingGeneration", "hydrationObservations", "failureReason"],
        ProviderOperation::Poll => vec!["expected", "observedEcho", "pollState", "answerSha256", "answerSizeBytes", "answerRelPath", "terminalAssistantTurnId", "bottomProof"],
        ProviderOperation::ArtifactDiscover => vec!["controls", "bottomProof", "zeroControlProof", "failureReason", "observedEcho"],
        ProviderOperation::ArtifactClickSave => vec!["downloadReceipt", "failureReason", "observedEcho"],
    };
    assert(views(r@) =~= response_keys_of(operation, ok));
    r
}

/// Checks that operation data has exactly the expected fields; `keys` are
/// the data object's field names.
pub fn exact_keys(keys: &[String], expected: &Vec<&'static str>) -> (r: Result<(), ProviderContractError>)
    ensures
        r == invalid(if same_keys(keys@, views(expected@)) {
            None
        } else {
            Some("operationData fields")
        }),
{
    if keys_match(keys, expected) {
        Ok(())
    } else {
        Err(ProviderContractError::Invalid("operationData fields"))
    }
}

// ---------------------------------------------------------------- identity and evidence

/// Who a provider call is for.
#[derive(Clone, Debug, PartialEq, Eq)]
pub struct ProviderIdentity {
    pub cohort: Option<String>,
    pub operation_id: String,
    pub request_id: Option<String>,
    pub run_id: Option<String>,
    pub session_id: Option<String>,
    pub slot_id: String,
}

pub open spec fn opt_cohort_ok(v: Option<String>) -> bool {
    match v {
        Some(s) => is_cohort(s@),
        None => true,
    }
}

pub open spec fn opt_general_id_ok(v: Option<String>) -> bool {
    match v {
        Some(s) => is_general_id(s@),
        None => true,
    }
}

pub open spec fn opt_session_id_ok(v: Option<String>) -> bool {
    match v {
        Some(s) => is_session_id(s@),
        None => true,
    }
}

pub open spec fn identity_error(i: ProviderIdentity) -> Option<&'static str> {
    if !opt_cohort_ok(i.cohort) {
        Some("identity.cohort")
    } else if !is_general_id(i.operation_id@) {
        Some("identity.operationId")
    } else if !opt_general_id_ok(i.request_id) {
        Some("identity.requestId")
    } else if !opt_general_id_ok(i.run_id) {
        Some("identity.runId")
    } else if !opt_session_id_ok(i.session_id) {
        Some("identity.sessionId")
    } else if !is_slot_id(i.slot_id@) {
        Some("identity.slotId")
    } else {
        None
    }
}

fn check(ok: bool, field: &'static str) -> (r: Result<(), ProviderContractError>)
    ensures
        r == invalid(if ok {
            None
        } else {
            Some(field)
        }),
{
    if ok {
        Ok(())
    } else {
        Err(ProviderContractError::Invalid(field))
    }
}

impl ProviderIdentity {
    pub fn validate(&self) -> (r: Result<(), ProviderContractError>)
        ensures
            r == invalid(identity_error(*self)),
    {
        let cohort_ok = match &self.cohort {
            Some(c) => validate_cohort(c.as_str()).is_ok(),
            None => true,
        };
        check(cohort_ok, "identity.cohort")?;
        check(validate_operation_id(self.operation_id.as_str()).is_ok(), "identity.operationId")?;
        let request_ok = match &self.request_id {
            Some(v) => validate_request_id(v.as_str()).is_ok(),
            None => true,
        };
        check(request_ok, "identity.requestId")?;
        let run_ok = match &self.run_id {
            Some(v) => validate_run_id(v.as_str()).is_ok(),
            None => true,
        };
        check(run_ok, "identity.runId")?;
        let session_ok = match &self.session_id {
            Some(v) => validate_session_id(v.as_str()).is_ok(),
            None => true,
        };
        check(session_ok, "identity.sessionId")?;
        check(validate_slot_id(self.slot_id.as_str()).is_ok(), "identity.slotId")
    }
}

#[derive(Clone, Debug, PartialEq, Eq)]
pub struct ReceiptRelPaths {
    pub primary: String,
    pub pre_click: Option<String>,
    pub post_click: Option<String>,
    pub reconcile: Option<String>,
}

/// Where a provider writes its evidence, relative to the evidence directory.
#[derive(Clone, Debug, PartialEq, Eq)]
pub struct ProviderEvidencePaths {
    pub cdp_rel_path: String,
    pub dom_rel_path: String,
    pub receipt_rel_paths: ReceiptRelPaths,
    pub screenshot_rel_path: String,
}

/// The send receipts an operation writes besides its primary receipt:
/// pre-click, post-click and reconcile.
pub open spec fn expected_receipts(op: ProviderOperation) -> (
    Option<Seq<char>>,
    Option<Seq<char>>,
    Option<Seq<char>>,
) {
    match op {
        ProviderOperation::SendClick => (
            Some("send.pre-click.receipt.json"@),
            Some("send.post-click.receipt.json"@),
            None,
        ),
        ProviderOperation::SendReconcile => (
            Some("send.pre-click.receipt.json"@),
            None,
            Some("send.reconcile.receipt.json"@),
        ),
        _ => (None, None, None),
    }
}

pub open spec fn fixed_path_ok(value: Seq<char>, expected: Seq<char>) -> bool {
    is_safe_rel_path(value) && value == expected
}

pub open spec fn optional_path_ok(value: Option<String>, expected: Option<Seq<char>>) -> bool {
    &&& opt_view_string(value) == expected
    &&& value matches Some(v) ==> is_safe_rel_path(v@)
}

pub open spec fn opt_view_string(value: Option<String>) -> Option<Seq<char>> {
    match value {
        Some(v) => Some(v@),
        None => None,
    }
}

pub open spec fn evidence_paths_error(p: ProviderEvidencePaths, op: ProviderOperation) -> Option<
    &'static str,
> {
    let expected = expected_receipts(op);
    if !fixed_path_ok(p.cdp_rel_path@, "cdp.sanitized.json"@) {
        Some("evidence.cdpRelPath")
    } else if !fixed_path_ok(p.dom_rel_path@, "dom.sanitized.json"@) {
        Some("evidence.domRelPath")
    } else if !fixed_path_ok(p.screenshot_rel_path@, "screenshot.privacy-crop.png"@) {
        Some("evidence.screenshotRelPath")
    } else if !fixed_path_ok(p.receipt_rel_paths.primary@, "provider-receipt.json"@) {
        Some("evidence.receiptRelPaths.primary")
    } else if !optional_path_ok(p.receipt_rel_paths.pre_click, expected.0) {
        Some("evidence.receiptRelPaths.preClick")
    } else if !optional_path_ok(p.receipt_rel_paths.post_click, expected.1) {
        Some("evidence.receiptRelPaths.postClick")
    } else if !optional_path_ok(p.receipt_rel_paths.reconcile, expected.2) {
        Some("evidence.receiptRelPaths.reconcile")
    } else {
        None
    }
}

fn fixed_path(value: &String, expected: &str, field: &'static str) -> (r: Result<
    (),
    ProviderContractError,
>)
    ensures
        r == invalid(if fixed_path_ok(value@, expected@) {
            None
        } else {
            Some(field)
        }),
{
    check(validate_safe_rel_path(value.as_str()).is_ok(), field)?;
    check(str_eq(value.as_str(), expected), field)
}

fn optional_path(value: &Option<String>, expected: Option<&str>, field: &'static str) -> (r: Result<
    (),
    ProviderContractError,
>)
    ensures
        r == invalid(if optional_path_ok(*value, opt_view(expected)) {
            None
        } else {
            Some(field)
        }),
{
    check(opt_str_eq(value, expected), field)?;
    match value {
        Some(v) => check(validate_safe_rel_path(v.as_str()).is_ok(), field),
        None => Ok(()),
    }
}

impl ProviderEvidencePaths {
    pub fn validate(&self, operation: ProviderOperation) -> (r: Result<(), ProviderContractError>)
        ensures
            r == invalid(evidence_paths_error(*self, operation)),
    {
        fixed_path(&self.cdp_rel_path, "cdp.sanitized.json", "evidence.cdpRelPath")?;
        fixed_path(&self.dom_rel_path, "dom.sanitized.json", "evidence.domRelPath")?;
        fixed_path(
            &self.screenshot_rel_path,
            "screenshot.privacy-crop.png",
            "evidence.screenshotRelPath",
        )?;
        fixed_path(
            &self.receipt_rel_paths.primary,
            "provider-receipt.json",
            "evidence.receiptRelPaths.primary",
        )?;
        let (pre, post, reconcile): (Option<&str>, Option<&str>, Option<&str>) = match operation {
            ProviderOperation::SendClick => (
                Some("send.pre-click.receipt.json"),
                Some("send.post-click.receipt.json"),
                None,
            ),
            ProviderOperation::SendReconcile => (
                Some("send.pre-click.receipt.json"),
                None,
                Some("send.reconcile.receipt.json"),
            ),
            _ => (None, None, None),
        };
        optional_path(&self.receipt_rel_paths.pre_click, pre, "evidence.receiptRelPaths.preClick")?;
        optional_path(
            &self.receipt_rel_paths.post_click,
            post,
            "evidence.receiptRelPaths.postClick",
        )?;
        optional_path(
            &self.receipt_rel_paths.reconcile,
            reconcile,
            "evidence.receiptRelPaths.reconcile",
        )
    }
}

/// The receipt paths that each operation uses: both send receipts for a
/// send click, the pre-click and reconcile receipts for a reconcile, none
/// otherwise.
pub open spec fn receipt_paths_ok(op: ProviderOperation, p: ReceiptRelPaths) -> bool {
    match op {
        ProviderOperation::SendClick => p.pre_click is Some && p.post_click is Some
            && p.reconcile is None,
        ProviderOperation::SendReconcile => p.pre_click is Some && p.post_click is None
            && p.reconcile is Some,
        _ => p.pre_click is None && p.post_click is None && p.reconcile is None,
    }
}

pub fn validate_receipt_paths(operation: ProviderOperation, paths: &ReceiptRelPaths) -> (r: Result<
    (),
    ProviderContractError,
>)
    ensures
        r == invalid(if receipt_paths_ok(operation, *paths) {
            None
        } else {
            Some("receiptRelPaths")
        }),
{
    let ok = match operation {
        ProviderOperation::SendClick => paths.pre_click.is_some() && paths.post_click.is_some()
            && paths.reconcile.is_none(),
        ProviderOperation::SendReconcile => paths.pre_click.is_some() && paths.post_click.is_none()
            && paths.reconcile.is_some(),
        _ => paths.pre_click.is_none() && paths.post_click.is_none() && paths.reconcile.is_none(),
    };
    check(ok, "receiptRelPaths")
}

// ---------------------------------------------------------------- attachments and chips

#[derive(Clone, Debug, PartialEq, Eq)]
pub struct ProviderAttachmentRecord {
    pub ordinal: u8,
    pub container_rel_path: String,
    pub source_sha256: String,
    pub size_bytes: u64,
    pub media_type: String,
}

/// The attachments staged in a slot for an upload.
#[derive(Clone, Debug, PartialEq, Eq)]
pub struct ProviderAttachmentSet {
    pub count: u8,
    pub records: Vec<ProviderAttachmentRecord>,
    pub set_sha256: String,
}

pub open spec fn record_error(r: ProviderAttachmentRecord, index: int) -> Option<&'static str> {
    if r.ordinal != index {
        Some("attachmentSet.ordinal")
    } else if !is_safe_rel_path(r.container_rel_path@) {
        Some("attachmentSet.containerRelPath")
    } else if !is_h256(r.source_sha256@) {
        Some("attachmentSet.sourceSha256")
    } else if r.size_bytes > MAX_BYTE_COUNT {
        Some("attachmentSet.sizeBytes")
    } else if !is_text(r.media_type@, 4096) {
        Some("attachmentSet.mediaType")
    } else {
        None
    }
}

/// The first problem among the records from index `i` on.
pub open spec fn records_error_from(rs: Seq<ProviderAttachmentRecord>, i: int) -> Option<&'static str>
    decreases rs.len() - i,
{
    if i < 0 || i >= rs.len() {
        None
    } else if record_error(rs[i], i) is Some {
        record_error(rs[i], i)
    } else {
        records_error_from(rs, i + 1)
    }
}

pub open spec fn attachment_set_error(s: ProviderAttachmentSet) -> Option<&'static str> {
    if s.count != s.records@.len() || s.records@.len() > MAX_ATTACHMENTS {
        Some("attachmentSet.count")
    } else if !is_h256(s.set_sha256@) {
        Some("attachmentSet.setSha256")
    } else {
        records_error_from(s.records@, 0)
    }
}

impl ProviderAttachmentRecord {
    fn validate_at(&self, index: usize) -> (r: Result<(), ProviderContractError>)
        ensures
            r == invalid(record_error(*self, index as int)),
    {
        check(self.ordinal as usize == index, "attachmentSet.ordinal")?;
        check(
            validate_safe_rel_path(self.container_rel_path.as_str()).is_ok(),
            "attachmentSet.containerRelPath",
        )?;
        check(validate_h256(self.source_sha256.as_str()).is_ok(), "attachmentSet.sourceSha256")?;
        check(validate_byte_count(self.size_bytes).is_ok(), "attachmentSet.sizeBytes")?;
        check(validate_non_empty_text(self.media_type.as_str()).is_ok(), "attachmentSet.mediaType")
    }
}

impl ProviderAttachmentSet {
    pub fn validate(&self) -> (r: Result<(), ProviderContractError>)
        ensures
            r == invalid(attachment_set_error(*self)),
    {
        check(
            self.count as usize == self.records.len() && self.records.len() <= MAX_ATTACHMENTS,
            "attachmentSet.count",
        )?;
        check(validate_h256(self.set_sha256.as_str()).is_ok(), "attachmentSet.setSha256")?;
        let mut i: usize = 0;
        while i < self.records.len()
            invariant
                i <= self.records@.len(),
                attachment_set_error(*self) == records_error_from(self.records@, 0),
                records_error_from(self.records@, 0) == records_error_from(self.records@, i as int),
            decreases self.records.len() - i,
        {
            match self.records[i].validate_at(i) {
                Ok(()) => {},
                Err(e) => {
                    return Err(e);
                },
            }
            i += 1;
        }
        Ok(())
    }
}

/// A chip that a clear-upload call removed from the composer.
#[derive(Clone, Debug, PartialEq, Eq)]
pub struct ClearedChip {
    pub chip_stable_key: String,
    pub digest: Option<String>,
    pub cleared: bool,
}

pub open spec fn cleared_chip_error(c: ClearedChip) -> Option<&'static str> {
    if !is_h256(c.chip_stable_key@) {
        Some("clearedChip.chipStableKey")
    } else if c.digest matches Some(d) && !is_h256(d@) {
        Some("clearedChip.digest")
    } else if !c.cleared {
        Some("clearedChip.cleared")
    } else {
        None
    }
}

impl ClearedChip {
    pub fn validate(&self) -> (r: Result<(), ProviderContractError>)
        ensures
            r == invalid(cleared_chip_error(*self)),
    {
        check(validate_h256(self.chip_stable_key.as_str()).is_ok(), "clearedChip.chipStableKey")?;
        let digest_ok = match &self.digest {
            Some(d) => validate_h256(d.as_str()).is_ok(),
            None => true,
        };
        check(digest_ok, "clearedChip.digest")?;
        check(self.cleared, "clearedChip.cleared")
    }
}

// ---------------------------------------------------------------- response status

/// The failure reasons that belong to a session operation.
pub open spec fn session_failure(reason: Seq<char>) -> bool {
    reason == "session.rebind_failed"@ || reason == "session.pinned_slot_unavailable"@ || reason
        == "session.content_unavailable"@ || reason == "session.url_rejected_root"@ || reason
        == "session.url_rejected_mismatch"@ || reason == "session.missing"@ || reason
        == "session.hydration_timeout"@ || reason == "session.request_binding_missing"@ || reason
        == "session.claim_conflict"@ || reason == "session.provider_limit"@ || reason
        == "session.login_required"@ || reason == "session.subscription_required"@ || reason
        == "session.schema_drift"@
}

pub fn is_session_failure(reason: Option<&str>) -> (r: bool)
    ensures
        r == (reason matches Some(x) && session_failure(x@)),
{
    match reason {
        Some(x) => str_eq(x, "session.rebind_failed") || str_eq(x, "session.pinned_slot_unavailable")
            || str_eq(x, "session.content_unavailable") || str_eq(x, "session.url_rejected_root")
            || str_eq(x, "session.url_rejected_mismatch") || str_eq(x, "session.missing")
            || str_eq(x, "session.hydration_timeout") || str_eq(
            x,
            "session.request_binding_missing",
        ) || str_eq(x, "session.claim_conflict") || str_eq(x, "session.provider_limit") || str_eq(
            x,
            "session.login_required",
        ) || str_eq(x, "session.subscription_required") || str_eq(x, "session.schema_drift"),
        None => false,
    }
}

/// The reasons for which a provider answers `blocked` rather than `failed`.
pub open spec fn blocking_reason(reason: Seq<char>) -> bool {
    reason == "session.provider_limit"@ || reason == "session.login_required"@ || reason
        == "session.subscription_required"@ || reason == "provider.limit"@ || reason
        == "provider.login_required"@ || reason == "provider.subscription_required"@
}

pub open spec fn response_status_error(ok: bool, status: Seq<char>, reason: Option<Seq<char>>) -> Option<
    &'static str,
> {
    if ok {
        if status == "done"@ || status == "running"@ {
            None
        } else {
            Some("response status")
        }
    } else {
        match reason {
            None => Some("providerReason"),
            Some(r) => if status == (if blocking_reason(r) {
                "blocked"@
            } else {
                "failed"@
            }) {
                None
            } else {
                Some("response status")
            },
        }
    }
}

/// Checks a response's status against its `ok` flag and reason: a success
/// is `done` or `running`; a failure names a reason and is `blocked` for
/// limits and login or subscription walls, `failed` otherwise.
pub fn validate_response_status(ok: bool, status: &str, provider_reason: Option<&str>) -> (r:
    Result<(), ProviderContractError>)
    ensures
        r == invalid(response_status_error(ok, status@, opt_view(provider_reason))),
{
    if ok {
        return check(str_eq(status, "done") || str_eq(status, "running"), "response status");
    }
    let reason = match provider_reason {
        Some(r) => r,
        None => {
            return Err(ProviderContractError::Invalid("providerReason"));
        },
    };
    let blocked = str_eq(reason, "session.provider_limit") || str_eq(
        reason,
        "session.login_required",
    ) || str_eq(reason, "session.subscription_required") || str_eq(reason, "provider.limit")
        || str_eq(reason, "provider.login_required") || str_eq(
        reason,
        "provider.subscription_required",
    );
    let expected = if blocked {
        "blocked"
    } else {
        "failed"
    };
    check(str_eq(status, expected), "response status")
}

} // verus!
