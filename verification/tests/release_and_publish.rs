use gpt_webai_lifecycle::cli::options::ReleaseArgs;
use gpt_webai_lifecycle::cli::release::{released, resolve_target, target_failed, ReleaseTarget, TargetError};
use gpt_webai_lifecycle::download::{RuntimeReleaseReport, SessionRecordFailure};
use gpt_webai_lifecycle::journal::head::{start_publish, Head, HeadError, PublishAction, PublishEvent};

fn release_args(slot: Option<&str>, session: Option<&str>) -> ReleaseArgs {
    ReleaseArgs {
        fencing_token: None,
        slot_id: slot.map(str::to_string),
        session_id: session.map(str::to_string),
        docker_bin: "docker".to_string(),
        runtime_stop_timeout_ms: 30_000,
    }
}

fn never(_: &str) -> Result<String, (SessionRecordFailure, String)> {
    panic!("the slot is given")
}

fn slot_of(session: &str) -> Result<String, (SessionRecordFailure, String)> {
    if session == "sess" {
        Ok("slot-04".to_string())
    } else {
        Err((SessionRecordFailure::Io, format!("cannot read {session}")))
    }
}

#[test]
fn release_targets_a_slot_or_a_session() {
    assert_eq!(
        resolve_target(&release_args(Some("slot-01"), None), never),
        Ok(ReleaseTarget { slot_id: "slot-01".to_string(), session_id: None })
    );
    assert_eq!(
        resolve_target(&release_args(None, Some("sess")), slot_of),
        Ok(ReleaseTarget { slot_id: "slot-04".to_string(), session_id: Some("sess".to_string()) })
    );
    let error = resolve_target(&release_args(None, Some("other")), slot_of).unwrap_err();
    assert_eq!(
        error,
        TargetError {
            session_id: "other".to_string(),
            reason: "session.record_read_failed",
            message: "cannot read other".to_string()
        }
    );
    let report = target_failed(error);
    assert!(!report.ok);
    assert_eq!(report.status, "failed");
    assert_eq!(report.slot_id, None);
    assert!(!report.lock_released);
    let done = released(
        None,
        "slot-01".to_string(),
        true,
        None,
        "released slot",
        RuntimeReleaseReport { runtime_stopped: true, slot_state_written: true },
    );
    assert!(done.ok);
    assert_eq!(done.schema, "gpt-webai.lifecycle.release.v2");
    assert_eq!(done.slot_id, Some("slot-01".to_string()));
}

fn head() -> Head {
    Head {
        head_generation: 0,
        last_event_id: None,
        projection_digest: format!("sha256:{}", "0".repeat(64)),
        schema_version: "pr72.head.r13.v1".to_string(),
        snapshot_event_id: None,
        snapshot_sha256: None,
        updated_at_ms: 1_000,
    }
}

#[test]
fn publishing_retries_three_conflicts_at_most() {
    let (mut run, action) = start_publish(4, head());
    match action {
        PublishAction::Publish { expected, candidate } => {
            assert_eq!(expected, 4);
            assert_eq!(candidate.head_generation, 5);
        }
        other => panic!("unexpected {other:?}"),
    }
    for round in 0..3u64 {
        let (next, action) = run.step(PublishEvent::Published(Err(HeadError::CasConflict)));
        assert_eq!(action, PublishAction::ReadCurrent);
        let (next, action) = next.step(PublishEvent::CurrentRead(Ok(Some(10 + round))));
        match action {
            PublishAction::Publish { expected, candidate } => {
                assert_eq!(expected, 10 + round);
                assert_eq!(candidate.head_generation, 11 + round);
            }
            other => panic!("unexpected {other:?}"),
        }
        run = next;
    }
    let (_, action) = run.clone().step(PublishEvent::Published(Err(HeadError::CasConflict)));
    assert_eq!(action, PublishAction::Fail(HeadError::CasConflict));
    let (_, action) = run.step(PublishEvent::Published(Ok(())));
    match action {
        PublishAction::Done(h) => assert_eq!(h.head_generation, 13),
        other => panic!("unexpected {other:?}"),
    }
    let (_, action) = start_publish(u64::MAX, head());
    assert_eq!(action, PublishAction::Fail(HeadError::Invalid("headGeneration overflow")));
}
