use gpt_webai_lifecycle::artifacts::{answer_artifact_dir, safe_key};
use gpt_webai_lifecycle::cleanup::{holder_is_stale, mode_name, summarize_cleanup, CleanupMode};
use gpt_webai_lifecycle::config::{
    env_flag, join_path, resolve_host_id_seed_path, resolve_state_root, state_base,
    SupervisorConfig,
};
use gpt_webai_lifecycle::download::{
    failed, failure_after_runtime_start, provider_session_matches, reason_for, success,
    DownloadError, DownloadSession, RuntimeReleaseReport, RuntimeStartReport, SessionRecordFailure,
};
use gpt_webai_lifecycle::journal::canonical::{
    canonical_array_text, canonical_object_text, push_json_string, CanonicalScalar,
};
use gpt_webai_lifecycle::journal::head::{check_publish, next_generation, replay_head, Head, HeadError};

fn h256(c: char) -> String {
    format!("sha256:{}", std::iter::repeat(c).take(64).collect::<String>())
}

fn evt(c: char) -> String {
    format!("evt_{}", std::iter::repeat(c).take(64).collect::<String>())
}

fn head(generation: u64) -> Head {
    Head {
        head_generation: generation,
        last_event_id: Some(evt('a')),
        projection_digest: h256('b'),
        schema_version: "pr72.head.r13.v1".to_string(),
        snapshot_event_id: None,
        snapshot_sha256: None,
        updated_at_ms: 1_000,
    }
}

#[test]
fn heads_are_published_by_compare_and_swap() {
    assert!(head(1).validate().is_ok());
    let mut half = head(1);
    half.snapshot_event_id = Some(evt('c'));
    assert_eq!(half.validate(), Err(HeadError::Invalid("fields")));
    assert!(check_publish(&None, 0, &head(1)).is_ok());
    assert_eq!(check_publish(&None, 1, &head(2)), Err(HeadError::CasConflict));
    assert!(check_publish(&Some(head(3)), 3, &head(4)).is_ok());
    assert_eq!(check_publish(&Some(head(3)), 3, &head(5)), Err(HeadError::CasConflict));
    assert_eq!(next_generation(4), Ok(5));
    assert_eq!(next_generation(u64::MAX), Err(HeadError::Invalid("headGeneration overflow")));
    assert_eq!(replay_head(&head(9)).unwrap().head_generation, 1);
}

#[test]
fn canonical_json_matches_serde_json() {
    let mut out = String::new();
    push_json_string(&mut out, "a\"b\\c\n\u{1}é");
    assert_eq!(out, serde_json::to_string("a\"b\\c\n\u{1}é").unwrap());
    let items = vec![CanonicalScalar::Text("x".to_string()), CanonicalScalar::Number(42)];
    let expected = serde_json::Value::Array(vec![
        serde_json::Value::String("x".to_string()),
        serde_json::Value::from(42u64),
    ]);
    assert_eq!(canonical_array_text(&items), serde_json::to_string(&expected).unwrap());
    let keys = vec!["a", "b"];
    let values = vec![CanonicalScalar::Number(1), CanonicalScalar::Text("two".to_string())];
    assert_eq!(canonical_object_text(&keys, &values), "{\"a\":1,\"b\":\"two\"}");
}

#[test]
fn config_paths_and_flags() {
    assert_eq!(join_path("/a", "b"), "/a/b");
    assert_eq!(join_path("/a/", "b"), "/a/b");
    assert_eq!(join_path("", "b"), "b");
    assert_eq!(state_base(Some(""), Some("/home/u")), Some("/home/u/.local/state".to_string()));
    assert_eq!(state_base(None, None), None);
    assert_eq!(
        resolve_state_root(None, Some("/xdg"), None),
        Some("/xdg/gpt-webai-lifecycle/r13".to_string())
    );
    assert_eq!(resolve_state_root(Some("/root"), Some("/xdg"), None), Some("/root".to_string()));
    assert_eq!(
        resolve_host_id_seed_path(None, Some("/h")),
        Some("/h/.local/state/gpt-webai-lifecycle/host-id".to_string())
    );
    assert!(!env_flag(Some("no"), true));
    assert!(env_flag(Some("yes"), false));
    assert!(env_flag(Some("maybe"), true));
    assert!(!env_flag(None, false));
    let mut config = SupervisorConfig {
        state_root: "/s".to_string(),
        slot_count: 10,
        slot_container_prefix: "gpt-webai-".to_string(),
        slot_mode: "auto".to_string(),
        status_provider_check: true,
        provider_status_timeout_ms: 15_000,
    };
    assert!(config.slot_pool_enabled());
    config.slot_mode = "off".to_string();
    assert!(!config.slot_pool_enabled());
}

#[test]
fn cleanup_counts_what_it_removed() {
    let out = summarize_cleanup(CleanupMode::Apply, &[true, false], &[true]);
    assert_eq!((out.stale_locks, out.removed_locks, out.removed_holders, out.skipped), (2, 1, 1, 1));
    assert_eq!(out.mode, "apply");
    let dry = summarize_cleanup(CleanupMode::DryRun, &[true, false], &[true]);
    assert_eq!((dry.removed_locks, dry.skipped), (0, 0));
    assert_eq!(mode_name(CleanupMode::DryRun), "dry-run");
    assert!(!holder_is_stale(true, true));
    assert!(holder_is_stale(false, true));
}

#[test]
fn path_keys_are_safe() {
    assert_eq!(safe_key("__run id/1__"), "run_id_1");
    assert_eq!(safe_key("___"), "unknown");
    assert_eq!(safe_key(&"x".repeat(200)).len(), 120);
    assert_eq!(answer_artifact_dir("/state", "run 1"), "/state/requests/run_1/artifacts");
}

#[test]
fn download_reports() {
    let session = DownloadSession {
        session_id: "sess".to_string(),
        request_id: Some("r".to_string()),
        run_id: None,
        slot_id: "slot-01".to_string(),
        cohort: "cohort-a".to_string(),
        conversation_url: "https://chatgpt.com/c/sess".to_string(),
    };
    let start = RuntimeStartReport { runtime_started: true, runtime_owned: true };
    let release = RuntimeReleaseReport { runtime_stopped: true, slot_state_written: true };
    let ok = success(session.clone(), "done".to_string(), None, 2, 3, start, release);
    assert!(ok.ok);
    assert_eq!(ok.reason, None);
    let blocked = success(session.clone(), "blocked".to_string(), None, 0, 0, start, release);
    assert_eq!(blocked.reason, Some("blocked".to_string()));
    let bad = failed("sess", Some(&session), "session.url_mismatch", "m".to_string(), start, release, None);
    assert_eq!(bad.status, "failed");
    assert_eq!(bad.slot_id, Some("slot-01".to_string()));
    assert_eq!(reason_for(DownloadError::Session(SessionRecordFailure::Json)), "session.record_invalid");
    assert_eq!(
        failure_after_runtime_start(DownloadError::ProviderInvocation, None).0,
        DownloadError::RuntimeRelease
    );
    assert!(provider_session_matches(Some("sess"), "sess"));
    assert!(!provider_session_matches(None, "sess"));
}

use gpt_webai_lifecycle::config::{host_id_from_seed, seed_text, HostIdSeedError};

#[test]
fn host_ids_come_from_their_seed() {
    let mut seed = b"0123456789abcdef0123456789abcdef".to_vec();
    seed.push(b'\n');
    assert_eq!(host_id_from_seed(&seed), Ok("host_0123456789abcdef0123456789abcdef".to_string()));
    assert_eq!(host_id_from_seed(&seed[..32]), Err(HostIdSeedError::Length));
    let mut upper = seed.clone();
    upper[0] = b'A';
    assert_eq!(host_id_from_seed(&upper), Err(HostIdSeedError::Invalid));
    let mut binary = seed.clone();
    binary[3] = 0xff;
    assert_eq!(host_id_from_seed(&binary), Err(HostIdSeedError::NotUtf8));
    assert_eq!(HostIdSeedError::Length.message(), "invalid host id seed length");
    assert_eq!(seed_text(&[0x00, 0x0f, 0xa5, 0xff]), "000fa5ff");
}
