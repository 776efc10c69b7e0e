use vstd::prelude::*;

use crate::download::{reason_of, DownloadError, RuntimeReleaseReport, SessionRecordFailure};

use super::options::ReleaseArgs;

verus! {

pub const RELEASE_SCHEMA: &'static str = "gpt-webai.lifecycle.release.v2";

/// The report of a `release`.
#[derive(Clone, Debug, PartialEq, Eq)]
pub struct ReleaseOutput {
    pub schema: String,
    pub ok: bool,
    pub status: String,
    pub reason: Option<String>,
    pub session_id: Option<String>,
    pub slot_id: Option<String>,
    pub lock_released: bool,
    pub runtime_stopped: bool,
    pub slot_state_written: bool,
    pub message: String,
}

pub open spec fn text_view(v: Option<String>) -> Option<Seq<char>> {
    match v {
        Some(s) => Some(s@),
        None => None,
    }
}

pub open spec fn str_view(v: Option<&str>) -> Option<Seq<char>> {
    match v {
        Some(s) => Some(s@),
        None => None,
    }
}

/// The report of a release that went through.
pub fn released(
    session_id: Option<String>,
    slot_id: String,
    lock_released: bool,
    reason: Option<&str>,
    message: &str,
    runtime: RuntimeReleaseReport,
) -> (r: ReleaseOutput)
    ensures
        r.schema@ == RELEASE_SCHEMA@,
        r.ok,
        r.status@ == "released"@,
        text_view(r.reason) == str_view(reason),
        r.session_id == session_id,
        text_view(r.slot_id) == Some(slot_id@),
        r.lock_released == lock_released,
        r.runtime_stopped == runtime.runtime_stopped,
        r.slot_state_written == runtime.slot_state_written,
        r.message@ == message@,
{
    ReleaseOutput {
        schema: RELEASE_SCHEMA.to_string(),
        ok: true,
        status: "released".to_string(),
        reason: match reason {
            Some(x) => Some(x.to_string()),
            None => None,
        },
        session_id,
        slot_id: Some(slot_id),
        lock_released,
        runtime_stopped: runtime.runtime_stopped,
        slot_state_written: runtime.slot_state_written,
        message: message.to_string(),
    }
}

/// The report of a release that failed: no lock is released.
pub fn release_failed(
    session_id: Option<String>,
    slot_id: Option<String>,
    reason: &str,
    message: String,
    runtime: RuntimeReleaseReport,
) -> (r: ReleaseOutput)
    ensures
        r.schema@ == RELEASE_SCHEMA@,
        !r.ok,
        r.status@ == "failed"@,
        text_view(r.reason) == Some(reason@),
        r.session_id == session_id,
        r.slot_id == slot_id,
        !r.lock_released,
        r.runtime_stopped == runtime.runtime_stopped,
        r.slot_state_written == runtime.slot_state_written,
        r.message == message,
{
    ReleaseOutput {
        schema: RELEASE_SCHEMA.to_string(),
        ok: false,
        status: "failed".to_string(),
        reason: Some(reason.to_string()),
        session_id,
        slot_id,
        lock_released: false,
        runtime_stopped: runtime.runtime_stopped,
        slot_state_written: runtime.slot_state_written,
        message,
    }
}

/// The slot a release acts on, and the session it came from, if any.
#[derive(Clone, Debug, PartialEq, Eq)]
pub struct ReleaseTarget {
    pub slot_id: String,
    pub session_id: Option<String>,
}

/// Why the slot of a session could not be found.
#[derive(Clone, Debug, PartialEq, Eq)]
pub struct TargetError {
    pub session_id: String,
    pub reason: &'static str,
    pub message: String,
}

/// The report of a release whose target could not be resolved: nothing was
/// stopped or written.
pub fn target_failed(error: TargetError) -> (r: ReleaseOutput)
    ensures
        r.schema@ == RELEASE_SCHEMA@,
        !r.ok,
        r.status@ == "failed"@,
        text_view(r.reason) == Some(error.reason@),
        text_view(r.session_id) == Some(error.session_id@),
        r.slot_id is None,
        !r.lock_released,
        !r.runtime_stopped,
        !r.slot_state_written,
        r.message == error.message,
{
    release_failed(
        Some(error.session_id),
        None,
        error.reason,
        error.message,
        RuntimeReleaseReport { runtime_stopped: false, slot_state_written: false },
    )
}

/// Resolves what a release acts on: the given slot, or else the slot of the
/// given session's record, which `read_slot` reads (answering with the
/// record's slot, or why it cannot, with the error's text).
pub fn resolve_target<F: Fn(&str) -> Result<String, (SessionRecordFailure, String)>>(
    args: &ReleaseArgs,
    read_slot: F,
) -> (r: Result<ReleaseTarget, TargetError>)
    requires
        args.slot_id is Some || args.session_id is Some,
        forall|s: &str| #[trigger] read_slot.requires((s,)),
    ensures
        match args.slot_id {
            Some(slot) => r == Ok::<ReleaseTarget, TargetError>(
                ReleaseTarget { slot_id: slot, session_id: None },
            ),
            None => {
                let session = args.session_id->0;
                exists|s: &str, answer: Result<String, (SessionRecordFailure, String)>|
                    s@ == session@ && #[trigger] read_slot.ensures((s,), answer) && match answer {
                        Ok(slot) => r == Ok::<ReleaseTarget, TargetError>(
                            ReleaseTarget { slot_id: slot, session_id: Some(session) },
                        ),
                        Err((failure, message)) => r matches Err(e) && e.session_id == session
                            && e.reason@ == reason_of(DownloadError::Session(failure)) && e.message
                            == message,
                    }
            },
        },
{
    match &args.slot_id {
        Some(slot) => Ok(ReleaseTarget { slot_id: slot.clone(), session_id: None }),
        None => {
            let session = match &args.session_id {
                Some(s) => s.clone(),
                None => vstd::pervasive::unreached(),
            };
            let s = session.as_str();
            let answer = read_slot(s);
            assert(read_slot.ensures((s,), answer));
            match answer {
                Ok(slot) => Ok(ReleaseTarget { slot_id: slot, session_id: Some(session) }),
                Err((failure, message)) => {
                    let reason = crate::download::reason_for(DownloadError::Session(failure));
                    Err(TargetError { session_id: session, reason, message })
                },
            }
        },
    }
}

} // verus!
