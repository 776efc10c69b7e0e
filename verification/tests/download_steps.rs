use gpt_webai_lifecycle::download::{
    DownloadAction, DownloadEvent, DownloadRun, DownloadSession, ProviderAnswer,
    RuntimeReleaseReport, RuntimeStartReport, SessionRecordFailure,
};

fn session() -> DownloadSession {
    DownloadSession {
        session_id: "sess".to_string(),
        request_id: Some("req".to_string()),
        run_id: Some("run".to_string()),
        slot_id: "slot-02".to_string(),
        cohort: "cohort-a".to_string(),
        conversation_url: "https://chatgpt.com/c/sess".to_string(),
    }
}

fn answer(session_id: &str) -> ProviderAnswer {
    ProviderAnswer {
        session_id: Some(session_id.to_string()),
        status: "done".to_string(),
        reason: None,
        artifacts: 2,
        artifact_candidates: 3,
    }
}

const STARTED: RuntimeStartReport = RuntimeStartReport { runtime_started: true, runtime_owned: true };
const RELEASED: RuntimeReleaseReport = RuntimeReleaseReport { runtime_stopped: true, slot_state_written: true };

fn report(action: DownloadAction) -> gpt_webai_lifecycle::download::DownloadOutput {
    match action {
        DownloadAction::Report(out) => out,
        other => panic!("expected a report, got {other:?}"),
    }
}

#[test]
fn a_download_walks_its_steps_in_order() {
    let (run, action) = DownloadRun::new("sess".to_string());
    assert_eq!(action, DownloadAction::ReadRecord);
    let (run, action) = run.step(DownloadEvent::RecordRead(Ok(session())));
    assert_eq!(action, DownloadAction::StartRuntime { slot_id: "slot-02".to_string() });
    let (run, action) = run.step(DownloadEvent::RuntimeStarted(Ok(STARTED)));
    assert_eq!(
        action,
        DownloadAction::PrepareCommand { slot_id: "slot-02".to_string(), run_id: Some("run".to_string()) }
    );
    let (run, action) = run.step(DownloadEvent::CommandPrepared(Ok(())));
    assert_eq!(action, DownloadAction::Invoke { session_id: "sess".to_string() });
    let (run, action) = run.step(DownloadEvent::Invoked(Ok(answer("sess"))));
    assert_eq!(action, DownloadAction::WriteArtifacts);
    let (run, action) = run.step(DownloadEvent::ArtifactsWritten(Ok(())));
    assert_eq!(action, DownloadAction::StopRuntime { slot_id: "slot-02".to_string(), owned: true });
    let (_, action) = run.step(DownloadEvent::RuntimeStopped(Ok(RELEASED)));
    let out = report(action);
    assert!(out.ok);
    assert_eq!(out.artifacts, 2);
    assert_eq!(out.artifact_candidates, 3);
    assert!(out.runtime_stopped);
}

#[test]
fn a_failure_after_the_start_stops_the_runtime_first() {
    let (run, _) = DownloadRun::new("sess".to_string());
    let (run, _) = run.step(DownloadEvent::RecordRead(Ok(session())));
    let (run, _) = run.step(DownloadEvent::RuntimeStarted(Ok(STARTED)));
    let (run, _) = run.step(DownloadEvent::CommandPrepared(Ok(())));
    let (run, _) = run.step(DownloadEvent::Invoked(Ok(answer("other"))));
    let (run, action) = run.step(DownloadEvent::ArtifactsWritten(Ok(())));
    assert_eq!(action, DownloadAction::StopRuntime { slot_id: "slot-02".to_string(), owned: true });
    let (_, action) = run.step(DownloadEvent::RuntimeStopped(Ok(RELEASED)));
    let out = report(action);
    assert!(!out.ok);
    assert_eq!(out.reason, Some("session.url_mismatch".to_string()));
    assert_eq!(out.message, "provider returned session mismatch");
    assert!(out.runtime_stopped);
}

#[test]
fn a_failed_stop_becomes_the_failure() {
    let (run, _) = DownloadRun::new("sess".to_string());
    let (run, _) = run.step(DownloadEvent::RecordRead(Ok(session())));
    let (run, _) = run.step(DownloadEvent::RuntimeStarted(Ok(STARTED)));
    let (run, action) = run.step(DownloadEvent::CommandPrepared(Err("no docker".to_string())));
    assert_eq!(action, DownloadAction::StopRuntime { slot_id: "slot-02".to_string(), owned: true });
    let (_, action) = run.step(DownloadEvent::RuntimeStopped(Err("timeout".to_string())));
    let out = report(action);
    assert_eq!(out.reason, Some("runtime.stop_failed".to_string()));
    assert_eq!(out.message, "runtime stop failed: timeout");
    assert!(!out.runtime_stopped);
    assert!(out.runtime_started);
}

#[test]
fn record_failures_report_at_once() {
    let (run, _) = DownloadRun::new("sess".to_string());
    let (_, action) = run.step(DownloadEvent::RecordRead(Err((
        SessionRecordFailure::Missing,
        "sess".to_string(),
        None,
    ))));
    let out = report(action);
    assert_eq!(out.reason, Some("session.record_missing".to_string()));
    assert_eq!(out.message, "session record error: sess");
    assert_eq!(out.slot_id, None);
    let (run, _) = DownloadRun::new("sess".to_string());
    let (run2, action) = run.step(DownloadEvent::Invoked(Ok(answer("sess"))));
    assert_eq!(action, DownloadAction::ReadRecord);
    let (_, action) = run2.step(DownloadEvent::RecordRead(Ok(session())));
    assert_eq!(action, DownloadAction::StartRuntime { slot_id: "slot-02".to_string() });
}
