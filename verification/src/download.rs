use vstd::prelude::*;

use crate::text::{concat2, copy_opt_string, str_eq};

verus! {

pub const DOWNLOAD_SCHEMA: &'static str = "gpt-webai.lifecycle.download.v2";

/// What a download reads from a session's record.
#[derive(Clone, Debug, PartialEq, Eq)]
pub struct DownloadSession {
    pub session_id: String,
    pub request_id: Option<String>,
    pub run_id: Option<String>,
    pub slot_id: String,
    pub cohort: String,
    pub conversation_url: String,
}

/// Whether a download started the slot's runtime, and whether it owns it.
#[derive(Clone, Copy, Debug, PartialEq, Eq, Structural)]
pub struct RuntimeStartReport {
    pub runtime_started: bool,
    pub runtime_owned: bool,
}

/// Whether a download stopped the runtime and wrote the slot's state.
#[derive(Clone, Copy, Debug, PartialEq, Eq, Structural)]
pub struct RuntimeReleaseReport {
    pub runtime_stopped: bool,
    pub slot_state_written: bool,
}

/// Why reading a session record failed.
#[derive(Clone, Copy, Debug, PartialEq, Eq, Structural)]
pub enum SessionRecordFailure {
    Missing,
    Collision,
    Invalid,
    InvalidConversationUrl,
    Json,
    Io,
}

/// The step of a download that failed.
#[derive(Clone, Copy, Debug, PartialEq, Eq, Structural)]
pub enum DownloadError {
    Session(SessionRecordFailure),
    ProviderCommand,
    ProviderInvocation,
    RuntimeStart,
    RuntimeRelease,
    SessionMismatch,
    ArtifactManifest,
}

pub open spec fn reason_of(error: DownloadError) -> Seq<char> {
    match error {
        DownloadError::Session(SessionRecordFailure::Missing) => "session.record_missing"@,
        DownloadError::Session(SessionRecordFailure::Io) => "session.record_read_failed"@,
        DownloadError::Session(_) => "session.record_invalid"@,
        DownloadError::ProviderCommand => "provider.command_failed"@,
        DownloadError::ProviderInvocation => "provider.invocation_failed"@,
        DownloadError::RuntimeStart => "runtime.start_failed"@,
        DownloadError::RuntimeRelease => "runtime.stop_failed"@,
        DownloadError::SessionMismatch => "session.url_mismatch"@,
        DownloadError::ArtifactManifest => "artifact.manifest_write_failed"@,
    }
}

/// The reason code a failed download reports.
pub fn reason_for(error: DownloadError) -> (r: &'static str)
    ensures
        r@ == reason_of(error),
{
    match error {
        DownloadError::Session(SessionRecordFailure::Missing) => "session.record_missing",
        DownloadError::Session(SessionRecordFailure::Io) => "session.record_read_failed",
        DownloadError::Session(_) => "session.record_invalid",
        DownloadError::ProviderCommand => "provider.command_failed",
        DownloadError::ProviderInvocation => "provider.invocation_failed",
        DownloadError::RuntimeStart => "runtime.start_failed",
        DownloadError::RuntimeRelease => "runtime.stop_failed",
        DownloadError::SessionMismatch => "session.url_mismatch",
        DownloadError::ArtifactManifest => "artifact.manifest_write_failed",
    }
}

/// Once the runtime was started, a failing download stops it before it
/// reports: the failure stands if the stop succeeds, and becomes a runtime
/// stop failure (with nothing released) if the stop fails too.
pub fn failure_after_runtime_start(
    error: DownloadError,
    stop: Option<RuntimeReleaseReport>,
) -> (r: (DownloadError, RuntimeReleaseReport))
    ensures
        match stop {
            Some(release) => r == (error, release),
            None => r == (
                DownloadError::RuntimeRelease,
                RuntimeReleaseReport { runtime_stopped: false, slot_state_written: false },
            ),
        },
{
    match stop {
        Some(release) => (error, release),
        None => (
            DownloadError::RuntimeRelease,
            RuntimeReleaseReport { runtime_stopped: false, slot_state_written: false },
        ),
    }
}

/// Whether the provider answered for the session it was asked about.
pub fn provider_session_matches(reported: Option<&str>, session_id: &str) -> (r: bool)
    ensures
        r == (reported matches Some(s) && s@ == session_id@),
{
    match reported {
        Some(s) => str_eq(s, session_id),
        None => false,
    }
}

/// The report of a download.
#[derive(Clone, Debug, PartialEq, Eq)]
pub struct DownloadOutput {
    pub schema: String,
    pub ok: bool,
    pub status: String,
    pub reason: Option<String>,
    pub session_id: Option<String>,
    pub request_id: Option<String>,
    pub run_id: Option<String>,
    pub slot_id: Option<String>,
    pub account_group: Option<String>,
    pub conversation_url: Option<String>,
    pub provider_status: Option<String>,
    pub artifacts: usize,
    pub artifact_candidates: usize,
    pub runtime_started: bool,
    pub runtime_owned: bool,
    pub runtime_stopped: bool,
    pub slot_state_written: bool,
    pub message: String,
}

pub open spec fn opt_view(v: Option<String>) -> Option<Seq<char>> {
    match v {
        Some(s) => Some(s@),
        None => None,
    }
}


/// The report of a download that ran to the end: it succeeded when the
/// provider is `done`; otherwise the provider's reason (or its status)
/// is the reason.
pub open spec fn success_report(
    r: DownloadOutput,
    record: DownloadSession,
    provider_status: Seq<char>,
    provider_reason: Option<Seq<char>>,
    artifacts: usize,
    artifact_candidates: usize,
    runtime_start: RuntimeStartReport,
    runtime_release: RuntimeReleaseReport,
) -> bool {
    &&& r.schema@ == DOWNLOAD_SCHEMA@
    &&& r.ok == (provider_status == "done"@)
    &&& r.status@ == provider_status
    &&& opt_view(r.reason) == (if provider_status == "done"@ {
        None
    } else {
        match provider_reason {
            Some(reason) => Some(reason),
            None => Some(provider_status),
        }
    })
    &&& opt_view(r.session_id) == Some(record.session_id@)
    &&& r.request_id == record.request_id
    &&& r.run_id == record.run_id
    &&& opt_view(r.slot_id) == Some(record.slot_id@)
    &&& opt_view(r.account_group) == Some(record.cohort@)
    &&& opt_view(r.conversation_url) == Some(record.conversation_url@)
    &&& opt_view(r.provider_status) == Some(provider_status)
    &&& r.artifacts == artifacts
    &&& r.artifact_candidates == artifact_candidates
    &&& r.runtime_started == runtime_start.runtime_started
    &&& r.runtime_owned == runtime_start.runtime_owned
    &&& r.runtime_stopped == runtime_release.runtime_stopped
    &&& r.slot_state_written == runtime_release.slot_state_written
    &&& r.message@ == "downloaded artifacts through pinned session provider"@
}

/// The report of a failed download: what is known of the session, the
/// reason and message of the failure, and what happened to the runtime.
pub open spec fn failed_report(
    r: DownloadOutput,
    session_id: Seq<char>,
    record: Option<DownloadSession>,
    reason: Seq<char>,
    message: Seq<char>,
    runtime_start: RuntimeStartReport,
    runtime_release: RuntimeReleaseReport,
    provider_status: Option<String>,
) -> bool {
    &&& r.schema@ == DOWNLOAD_SCHEMA@
    &&& !r.ok
    &&& r.status@ == "failed"@
    &&& opt_view(r.reason) == Some(reason)
    &&& opt_view(r.session_id) == Some(session_id)
    &&& match record {
        Some(s) => {
            &&& r.request_id == s.request_id
            &&& r.run_id == s.run_id
            &&& opt_view(r.slot_id) == Some(s.slot_id@)
            &&& opt_view(r.account_group) == Some(s.cohort@)
            &&& opt_view(r.conversation_url) == Some(s.conversation_url@)
        },
        None => r.request_id is None && r.run_id is None && r.slot_id is None
            && r.account_group is None && r.conversation_url is None,
    }
    &&& r.provider_status == provider_status
    &&& r.artifacts == 0
    &&& r.artifact_candidates == 0
    &&& r.runtime_started == runtime_start.runtime_started
    &&& r.runtime_owned == runtime_start.runtime_owned
    &&& r.runtime_stopped == runtime_release.runtime_stopped
    &&& r.slot_state_written == runtime_release.slot_state_written
    &&& r.message@ == message
}

/// Builds the report of a download that ran to the end.
pub fn success(
    record: DownloadSession,
    provider_status: String,
    provider_reason: Option<String>,
    artifacts: usize,
    artifact_candidates: usize,
    runtime_start: RuntimeStartReport,
    runtime_release: RuntimeReleaseReport,
) -> (r: DownloadOutput)
    ensures
        success_report(
            r,
            record,
            provider_status@,
            opt_view(provider_reason),
            artifacts,
            artifact_candidates,
            runtime_start,
            runtime_release,
        ),
{
    let ok = str_eq(provider_status.as_str(), "done");
    let reason = if ok {
        None
    } else {
        match provider_reason {
            Some(reason) => Some(reason),
            None => Some(provider_status.clone()),
        }
    };
    DownloadOutput {
        schema: DOWNLOAD_SCHEMA.to_string(),
        ok,
        status: provider_status.clone(),
        reason,
        session_id: Some(record.session_id),
        request_id: record.request_id,
        run_id: record.run_id,
        slot_id: Some(record.slot_id),
        account_group: Some(record.cohort),
        conversation_url: Some(record.conversation_url),
        provider_status: Some(provider_status),
        artifacts,
        artifact_candidates,
        runtime_started: runtime_start.runtime_started,
        runtime_owned: runtime_start.runtime_owned,
        runtime_stopped: runtime_release.runtime_stopped,
        slot_state_written: runtime_release.slot_state_written,
        message: "downloaded artifacts through pinned session provider".to_string(),
    }
}

/// Builds the report of a failed download.
pub fn failed(
    session_id: &str,
    record: Option<&DownloadSession>,
    reason: &str,
    message: String,
    runtime_start: RuntimeStartReport,
    runtime_release: RuntimeReleaseReport,
    provider_status: Option<String>,
) -> (r: DownloadOutput)
    ensures
        failed_report(
            r,
            session_id@,
            match record {
                Some(x) => Some(*x),
                None => None,
            },
            reason@,
            message@,
            runtime_start,
            runtime_release,
            provider_status,
        ),
{
    let (request_id, run_id, slot_id, account_group, conversation_url) = match record {
        Some(s) => (
            copy_opt_string(&s.request_id),
            copy_opt_string(&s.run_id),
            Some(s.slot_id.clone()),
            Some(s.cohort.clone()),
            Some(s.conversation_url.clone()),
        ),
        None => (None, None, None, None, None),
    };
    DownloadOutput {
        schema: DOWNLOAD_SCHEMA.to_string(),
        ok: false,
        status: "failed".to_string(),
        reason: Some(reason.to_string()),
        session_id: Some(session_id.to_string()),
        request_id,
        run_id,
        slot_id,
        account_group,
        conversation_url,
        provider_status,
        artifacts: 0,
        artifact_candidates: 0,
        runtime_started: runtime_start.runtime_started,
        runtime_owned: runtime_start.runtime_owned,
        runtime_stopped: runtime_release.runtime_stopped,
        slot_state_written: runtime_release.slot_state_written,
        message,
    }
}

// ---------------------------------------------------------------- the download's steps

/// What the provider answered to a download.
#[derive(Clone, Debug, PartialEq, Eq)]
pub struct ProviderAnswer {
    pub session_id: Option<String>,
    pub status: String,
    pub reason: Option<String>,
    pub artifacts: usize,
    pub artifact_candidates: usize,
}

/// Where a download stands between its outside steps.
#[derive(Clone, Debug, PartialEq, Eq)]
pub enum DownloadStage {
    /// The session record is to be read.
    ReadRecord,
    /// The slot runtime is being started.
    StartRuntime { record: DownloadSession },
    /// The provider command is being prepared.
    PrepareCommand { record: DownloadSession, start: RuntimeStartReport },
    /// The provider is being asked to download.
    Invoke { record: DownloadSession, start: RuntimeStartReport },
    /// The artifact manifests of the answer are being written.
    WriteArtifacts { record: DownloadSession, start: RuntimeStartReport, answer: ProviderAnswer },
    /// The runtime is being released after a complete download.
    StopRuntime { record: DownloadSession, start: RuntimeStartReport, answer: ProviderAnswer },
    /// The runtime is being released because a step failed.
    StopAfterFailure {
        record: DownloadSession,
        start: RuntimeStartReport,
        error: DownloadError,
        message: String,
    },
    /// The download has reported.
    Finished,
}

/// What an outside step of a download gave back. A failure carries the
/// outside error's text.
#[derive(Debug, PartialEq, Eq)]
pub enum DownloadEvent {
    /// The session record, or why it could not be used (with the record where
    /// it was read but its request binding is invalid).
    RecordRead(Result<DownloadSession, (SessionRecordFailure, String, Option<DownloadSession>)>),
    RuntimeStarted(Result<RuntimeStartReport, String>),
    CommandPrepared(Result<(), String>),
    Invoked(Result<ProviderAnswer, String>),
    ArtifactsWritten(Result<(), String>),
    RuntimeStopped(Result<RuntimeReleaseReport, String>),
}

/// The outside step a download asks for next.
#[derive(Clone, Debug, PartialEq, Eq)]
pub enum DownloadAction {
    ReadRecord,
    StartRuntime { slot_id: String },
    PrepareCommand { slot_id: String, run_id: Option<String> },
    Invoke { session_id: String },
    WriteArtifacts,
    StopRuntime { slot_id: String, owned: bool },
    Report(DownloadOutput),
}

/// A download of one session's artifacts.
#[derive(Clone, Debug, PartialEq, Eq)]
pub struct DownloadRun {
    pub session_id: String,
    pub stage: DownloadStage,
}

pub open spec fn no_start() -> RuntimeStartReport {
    RuntimeStartReport { runtime_started: false, runtime_owned: false }
}

pub open spec fn no_release() -> RuntimeReleaseReport {
    RuntimeReleaseReport { runtime_stopped: false, slot_state_written: false }
}

/// The text of a download error, given the outside error's text.
pub open spec fn download_error_text(error: DownloadError, detail: Seq<char>) -> Seq<char> {
    match error {
        DownloadError::Session(_) => "session record error: "@ + detail,
        DownloadError::ProviderCommand => "provider command failed: "@ + detail,
        DownloadError::ProviderInvocation => "provider invocation failed: "@ + detail,
        DownloadError::RuntimeStart => "runtime start failed: "@ + detail,
        DownloadError::RuntimeRelease => "runtime stop failed: "@ + detail,
        DownloadError::SessionMismatch => "provider returned session mismatch"@,
        DownloadError::ArtifactManifest => "artifact manifest write failed: "@ + detail,
    }
}

fn download_error_message(error: DownloadError, detail: &str) -> (r: String)
    ensures
        r@ == download_error_text(error, detail@),
{
    match error {
        DownloadError::Session(_) => concat2("session record error: ", detail),
        DownloadError::ProviderCommand => concat2("provider command failed: ", detail),
        DownloadError::ProviderInvocation => concat2("provider invocation failed: ", detail),
        DownloadError::RuntimeStart => concat2("runtime start failed: ", detail),
        DownloadError::RuntimeRelease => concat2("runtime stop failed: ", detail),
        DownloadError::SessionMismatch => "provider returned session mismatch".to_string(),
        DownloadError::ArtifactManifest => concat2("artifact manifest write failed: ", detail),
    }
}

/// The step a stage waits for.
pub open spec fn awaited(session_id: Seq<char>, stage: DownloadStage, action: DownloadAction) -> bool {
    match stage {
        DownloadStage::ReadRecord => action is ReadRecord,
        DownloadStage::StartRuntime { record } => action matches DownloadAction::StartRuntime {
            slot_id,
        } && slot_id@ == record.slot_id@,
        DownloadStage::PrepareCommand { record, .. } => action matches DownloadAction::PrepareCommand {
            slot_id,
            run_id,
        } && slot_id@ == record.slot_id@ && run_id == record.run_id,
        DownloadStage::Invoke { record, .. } => action matches DownloadAction::Invoke { session_id }
            && session_id@ == record.session_id@,
        DownloadStage::WriteArtifacts { .. } => action is WriteArtifacts,
        DownloadStage::StopRuntime { record, start, .. } => action matches DownloadAction::StopRuntime {
            slot_id,
            owned,
        } && slot_id@ == record.slot_id@ && owned == start.runtime_owned,
        DownloadStage::StopAfterFailure { record, start, .. } => action matches DownloadAction::StopRuntime {
            slot_id,
            owned,
        } && slot_id@ == record.slot_id@ && owned == start.runtime_owned,
        DownloadStage::Finished => false,
    }
}

pub open spec fn stop_after(record: DownloadSession, start: RuntimeStartReport, error: DownloadError, detail: Seq<char>) -> DownloadStageView {
    DownloadStageView::StopAfterFailure(record, start, error, download_error_text(error, detail))
}

/// A stage with its message as a character sequence.
pub enum DownloadStageView {
    Other(DownloadStage),
    StopAfterFailure(DownloadSession, RuntimeStartReport, DownloadError, Seq<char>),
}

pub open spec fn stage_view(s: DownloadStage) -> DownloadStageView {
    match s {
        DownloadStage::StopAfterFailure { record, start, error, message } => DownloadStageView::StopAfterFailure(
            record,
            start,
            error,
            message@,
        ),
        _ => DownloadStageView::Other(s),
    }
}

/// `action` reports `out`, and the run is over.
pub open spec fn reports(next: DownloadRun, action: DownloadAction) -> bool {
    next.stage is Finished && action is Report
}

/// One step of a download: from where it stands and what the last outside
/// step gave back, where it stands next and what it asks for. An event that
/// does not answer the awaited step changes nothing and asks again.
pub open spec fn step_result(m: DownloadRun, e: DownloadEvent, next: DownloadRun, action: DownloadAction) -> bool {
    let sid = m.session_id@;
    &&& next.session_id == m.session_id
    &&& match (m.stage, e) {
        (DownloadStage::ReadRecord, DownloadEvent::RecordRead(Ok(record))) => next.stage
            == DownloadStage::StartRuntime { record } && awaited(sid, next.stage, action),
        (DownloadStage::ReadRecord, DownloadEvent::RecordRead(Err((failure, detail, record)))) => reports(
            next,
            action,
        ) && failed_report(
            action->Report_0,
            sid,
            record,
            reason_of(DownloadError::Session(failure)),
            download_error_text(DownloadError::Session(failure), detail@),
            no_start(),
            no_release(),
            None,
        ),
        (DownloadStage::StartRuntime { record }, DownloadEvent::RuntimeStarted(Ok(start))) => next.stage
            == DownloadStage::PrepareCommand { record, start } && awaited(sid, next.stage, action),
        (DownloadStage::StartRuntime { record }, DownloadEvent::RuntimeStarted(Err(detail))) => reports(
            next,
            action,
        ) && failed_report(
            action->Report_0,
            sid,
            Some(record),
            reason_of(DownloadError::RuntimeStart),
            download_error_text(DownloadError::RuntimeStart, detail@),
            no_start(),
            no_release(),
            None,
        ),
        (DownloadStage::PrepareCommand { record, start }, DownloadEvent::CommandPrepared(Ok(_))) => next.stage
            == DownloadStage::Invoke { record, start } && awaited(sid, next.stage, action),
        (DownloadStage::PrepareCommand { record, start }, DownloadEvent::CommandPrepared(Err(detail))) => stage_view(next.stage)
            == stop_after(record, start, DownloadError::ProviderCommand, detail@) && awaited(
            sid,
            next.stage,
            action,
        ),
        (DownloadStage::Invoke { record, start }, DownloadEvent::Invoked(Ok(answer))) => next.stage
            == DownloadStage::WriteArtifacts { record, start, answer } && awaited(sid, next.stage, action),
        (DownloadStage::Invoke { record, start }, DownloadEvent::Invoked(Err(detail))) => stage_view(next.stage)
            == stop_after(record, start, DownloadError::ProviderInvocation, detail@) && awaited(
            sid,
            next.stage,
            action,
        ),
        (
            DownloadStage::WriteArtifacts { record, start, answer },
            DownloadEvent::ArtifactsWritten(Ok(_)),
        ) => (if answer.session_id matches Some(s) && s@ == record.session_id@ {
            next.stage == DownloadStage::StopRuntime { record, start, answer }
        } else {
            stage_view(next.stage) == stop_after(record, start, DownloadError::SessionMismatch, seq![])
        }) && awaited(sid, next.stage, action),
        (
            DownloadStage::WriteArtifacts { record, start, answer },
            DownloadEvent::ArtifactsWritten(Err(detail)),
        ) => stage_view(next.stage) == stop_after(record, start, DownloadError::ArtifactManifest, detail@)
            && awaited(sid, next.stage, action),
        (
            DownloadStage::StopRuntime { record, start, answer },
            DownloadEvent::RuntimeStopped(Ok(release)),
        ) => reports(next, action) && success_report(
            action->Report_0,
            record,
            answer.status@,
            opt_view(answer.reason),
            answer.artifacts,
            answer.artifact_candidates,
            start,
            release,
        ),
        (
            DownloadStage::StopRuntime { record, start, answer },
            DownloadEvent::RuntimeStopped(Err(detail)),
        ) => reports(next, action) && failed_report(
            action->Report_0,
            sid,
            Some(record),
            reason_of(DownloadError::RuntimeRelease),
            download_error_text(DownloadError::RuntimeRelease, detail@),
            start,
            no_release(),
            Some(answer.status),
        ),
        (
            DownloadStage::StopAfterFailure { record, start, error, message },
            DownloadEvent::RuntimeStopped(Ok(release)),
        ) => reports(next, action) && failed_report(
            action->Report_0,
            sid,
            Some(record),
            reason_of(error),
            message@,
            start,
            release,
            None,
        ),
        (
            DownloadStage::StopAfterFailure { record, start, .. },
            DownloadEvent::RuntimeStopped(Err(detail)),
        ) => reports(next, action) && failed_report(
            action->Report_0,
            sid,
            Some(record),
            reason_of(DownloadError::RuntimeRelease),
            download_error_text(DownloadError::RuntimeRelease, detail@),
            start,
            no_release(),
            None,
        ),
        _ => next.stage == m.stage && awaited(sid, m.stage, action),
    }
}

/// The step `stage` waits for.
fn awaited_action(stage: &DownloadStage) -> (r: DownloadAction)
    requires
        !(stage is Finished),
    ensures
        forall|sid: Seq<char>| awaited(sid, *stage, r),
{
    match stage {
        DownloadStage::ReadRecord => DownloadAction::ReadRecord,
        DownloadStage::StartRuntime { record } => DownloadAction::StartRuntime {
            slot_id: record.slot_id.clone(),
        },
        DownloadStage::PrepareCommand { record, .. } => DownloadAction::PrepareCommand {
            slot_id: record.slot_id.clone(),
            run_id: copy_opt_string(&record.run_id),
        },
        DownloadStage::Invoke { record, .. } => DownloadAction::Invoke {
            session_id: record.session_id.clone(),
        },
        DownloadStage::WriteArtifacts { .. } => DownloadAction::WriteArtifacts,
        DownloadStage::StopRuntime { record, start, .. } => DownloadAction::StopRuntime {
            slot_id: record.slot_id.clone(),
            owned: start.runtime_owned,
        },
        DownloadStage::StopAfterFailure { record, start, .. } => DownloadAction::StopRuntime {
            slot_id: record.slot_id.clone(),
            owned: start.runtime_owned,
        },
        DownloadStage::Finished => vstd::pervasive::unreached(),
    }
}

fn no_start_report() -> (r: RuntimeStartReport)
    ensures
        r == no_start(),
{
    RuntimeStartReport { runtime_started: false, runtime_owned: false }
}

fn no_release_report() -> (r: RuntimeReleaseReport)
    ensures
        r == no_release(),
{
    RuntimeReleaseReport { runtime_stopped: false, slot_state_written: false }
}

fn moved(session_id: String, stage: DownloadStage) -> (r: (DownloadRun, DownloadAction))
    requires
        !(stage is Finished),
    ensures
        r.0.session_id == session_id,
        r.0.stage == stage,
        awaited(session_id@, stage, r.1),
{
    let action = awaited_action(&stage);
    (DownloadRun { session_id, stage }, action)
}

fn reported(session_id: String, out: DownloadOutput) -> (r: (DownloadRun, DownloadAction))
    ensures
        r.0.session_id == session_id,
        r.0.stage is Finished,
        r.1 == DownloadAction::Report(out),
{
    (DownloadRun { session_id, stage: DownloadStage::Finished }, DownloadAction::Report(out))
}

impl DownloadRun {
    /// A download of `session_id`, which starts by reading the session record.
    pub fn new(session_id: String) -> (r: (DownloadRun, DownloadAction))
        ensures
            r.0.session_id == session_id,
            r.0.stage is ReadRecord,
            r.1 is ReadRecord,
    {
        (DownloadRun { session_id, stage: DownloadStage::ReadRecord }, DownloadAction::ReadRecord)
    }

    /// Takes one step: see `step_result`.
    pub fn step(self, event: DownloadEvent) -> (r: (DownloadRun, DownloadAction))
        requires
            !(self.stage is Finished),
        ensures
            step_result(self, event, r.0, r.1),
    {
        let sid = self.session_id;
        match (self.stage, event) {
            (DownloadStage::ReadRecord, DownloadEvent::RecordRead(Ok(record))) => {
                moved(sid, DownloadStage::StartRuntime { record })
            },
            (DownloadStage::ReadRecord, DownloadEvent::RecordRead(Err((failure, detail, record)))) => {
                let error = DownloadError::Session(failure);
                let message = download_error_message(error, detail.as_str());
                let out = failed(
                    sid.as_str(),
                    record.as_ref(),
                    reason_for(error),
                    message,
                    no_start_report(),
                    no_release_report(),
                    None,
                );
                reported(sid, out)
            },
            (DownloadStage::StartRuntime { record }, DownloadEvent::RuntimeStarted(Ok(start))) => {
                moved(sid, DownloadStage::PrepareCommand { record, start })
            },
            (DownloadStage::StartRuntime { record }, DownloadEvent::RuntimeStarted(Err(detail))) => {
                let error = DownloadError::RuntimeStart;
                let message = download_error_message(error, detail.as_str());
                let out = failed(
                    sid.as_str(),
                    Some(&record),
                    reason_for(error),
                    message,
                    no_start_report(),
                    no_release_report(),
                    None,
                );
                reported(sid, out)
            },
            (DownloadStage::PrepareCommand { record, start }, DownloadEvent::CommandPrepared(Ok(_))) => {
                moved(sid, DownloadStage::Invoke { record, start })
            },
            (
                DownloadStage::PrepareCommand { record, start },
                DownloadEvent::CommandPrepared(Err(detail)),
            ) => {
                let error = DownloadError::ProviderCommand;
                let message = download_error_message(error, detail.as_str());
                moved(sid, DownloadStage::StopAfterFailure { record, start, error, message })
            },
            (DownloadStage::Invoke { record, start }, DownloadEvent::Invoked(Ok(answer))) => {
                moved(sid, DownloadStage::WriteArtifacts { record, start, answer })
            },
            (DownloadStage::Invoke { record, start }, DownloadEvent::Invoked(Err(detail))) => {
                let error = DownloadError::ProviderInvocation;
                let message = download_error_message(error, detail.as_str());
                moved(sid, DownloadStage::StopAfterFailure { record, start, error, message })
            },
            (
                DownloadStage::WriteArtifacts { record, start, answer },
                DownloadEvent::ArtifactsWritten(Ok(_)),
            ) => {
                let matches = match &answer.session_id {
                    Some(s) => str_eq(s.as_str(), record.session_id.as_str()),
                    None => false,
                };
                if matches {
                    moved(sid, DownloadStage::StopRuntime { record, start, answer })
                } else {
                    let error = DownloadError::SessionMismatch;
                    let message = download_error_message(error, "");
                    proof {
                        reveal_strlit("");
                        assert(""@ =~= Seq::<char>::empty());
                    }
                    moved(sid, DownloadStage::StopAfterFailure { record, start, error, message })
                }
            },
            (
                DownloadStage::WriteArtifacts { record, start, .. },
                DownloadEvent::ArtifactsWritten(Err(detail)),
            ) => {
                let error = DownloadError::ArtifactManifest;
                let message = download_error_message(error, detail.as_str());
                moved(sid, DownloadStage::StopAfterFailure { record, start, error, message })
            },
            (
                DownloadStage::StopRuntime { record, start, answer },
                DownloadEvent::RuntimeStopped(Ok(release)),
            ) => {
                let out = success(
                    record,
                    answer.status,
                    answer.reason,
                    answer.artifacts,
                    answer.artifact_candidates,
                    start,
                    release,
                );
                reported(sid, out)
            },
            (
                DownloadStage::StopRuntime { record, start, answer },
                DownloadEvent::RuntimeStopped(Err(detail)),
            ) => {
                let error = DownloadError::RuntimeRelease;
                let message = download_error_message(error, detail.as_str());
                let out = failed(
                    sid.as_str(),
                    Some(&record),
                    reason_for(error),
                    message,
                    start,
                    no_release_report(),
                    Some(answer.status),
                );
                reported(sid, out)
            },
            (
                DownloadStage::StopAfterFailure { record, start, error, message },
                DownloadEvent::RuntimeStopped(Ok(release)),
            ) => {
                let out = failed(
                    sid.as_str(),
                    Some(&record),
                    reason_for(error),
                    message,
                    start,
                    release,
                    None,
                );
                reported(sid, out)
            },
            (
                DownloadStage::StopAfterFailure { record, start, .. },
                DownloadEvent::RuntimeStopped(Err(detail)),
            ) => {
                let error = DownloadError::RuntimeRelease;
                let message = download_error_message(error, detail.as_str());
                let out = failed(
                    sid.as_str(),
                    Some(&record),
                    reason_for(error),
                    message,
                    start,
                    no_release_report(),
                    None,
                );
                reported(sid, out)
            },
            (stage, _) => moved(sid, stage),
        }
    }
}

/// Every report ends a download, and once the runtime has been started a
/// download reports only when the runtime's release has come back: a step
/// that fails after the start first asks to stop the runtime.
pub proof fn runtime_released_before_report(
    m: DownloadRun,
    e: DownloadEvent,
    next: DownloadRun,
    action: DownloadAction,
)
    requires
        step_result(m, e, next, action),
        action is Report,
    ensures
        next.stage is Finished,
        !(m.stage is ReadRecord || m.stage is StartRuntime) ==> e is RuntimeStopped,
{
}

} // verus!
