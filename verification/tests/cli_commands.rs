use gpt_webai_lifecycle::artifact_claims::ArtifactExpectation;
use gpt_webai_lifecycle::cli::allocate::parse_allocate_args;
use gpt_webai_lifecycle::cli::download_args::{download_artifact_expectation, parse_download_args};
use gpt_webai_lifecycle::cli::options::ParsedProviderMode;
use gpt_webai_lifecycle::cli::preflight::parse_preflight_args;
use gpt_webai_lifecycle::cli::state_rebuild::state_rebuild_args;
use gpt_webai_lifecycle::cli::LifecycleError;

fn args(items: &[&str]) -> Vec<String> {
    items.iter().map(|s| s.to_string()).collect()
}

fn usage<T: std::fmt::Debug>(r: Result<T, LifecycleError>) -> String {
    match r {
        Err(LifecycleError::Usage(m)) => m,
        other => panic!("expected a usage error, got {other:?}"),
    }
}

fn accept(_: &str, _: &str) -> Result<(), LifecycleError> {
    Ok(())
}

fn refuse(path: &str, name: &str) -> Result<(), LifecycleError> {
    Err(LifecycleError::Usage(format!("{name} is not executable: {path}")))
}

#[test]
fn allocate_takes_ids_and_a_token() {
    let parsed = parse_allocate_args(
        &args(&["--json", "--dry-run", "--request-id", "req_1", "--run-id", "run_1", "--fencing-token", "tok"]),
        refuse,
    )
    .unwrap();
    assert_eq!(parsed.request_id, "req_1");
    assert_eq!(parsed.run_id, "run_1");
    assert_eq!(parsed.fencing_token, "tok");
    assert_eq!(parsed.docker_bin, "docker");
    assert_eq!(
        usage(parse_allocate_args(&args(&["--request-id", "req_1"]), accept)),
        "allocate requires --json"
    );
    assert_eq!(
        usage(parse_allocate_args(&args(&["--json", "--request-id", "req_1", "--run-id", "run_1"]), accept)),
        "allocate requires --fencing-token"
    );
    assert_eq!(
        usage(parse_allocate_args(&args(&["--json", "--bogus"]), accept)),
        "unknown option: --bogus"
    );
    assert_eq!(
        usage(parse_allocate_args(
            &args(&["--json", "--request-id", "r", "--run-id", "u", "--fencing-token", "t", "--ttl-ms", "5"]),
            accept
        )),
        "--ttl-ms accepts only the compatibility literal 300000"
    );
    assert_eq!(
        usage(parse_allocate_args(
            &args(&["--json", "--request-id", "r", "--run-id", "u", "--fencing-token", "t", "--docker-bin", "/x"]),
            refuse
        )),
        "--docker-bin is not executable: /x"
    );
}

#[test]
fn preflight_modes_and_defaults() {
    let fake = parse_preflight_args(
        &args(&["--json", "--fake-runtime", "--fake-provider", "--provider-bin", "/bin/p", "--run-id", "run_1"]),
        accept,
    )
    .unwrap();
    assert!(fake.fake_mode);
    assert_eq!(fake.run_id, "run_1");
    assert_eq!(fake.slot_id, None);
    assert_eq!(fake.provider_timeout_ms, 65_000);
    assert_eq!(fake.max_stdout_bytes, 1_048_576);
    assert_eq!(fake.max_stderr_bytes, 262_144);
    assert_eq!(fake.provider, ParsedProviderMode::Fake { provider_bin: "/bin/p".to_string() });
    let docker = parse_preflight_args(
        &args(&["--json", "--docker-slot-provider", "--run-id", "run_1", "--slot", "slot-03"]),
        refuse,
    )
    .unwrap();
    assert_eq!(docker.slot_id, Some("slot-03".to_string()));
    assert_eq!(
        docker.provider,
        ParsedProviderMode::Docker {
            docker_bin: "docker".to_string(),
            artifact_container_root: "/broker-artifacts".to_string()
        }
    );
    assert_eq!(usage(parse_preflight_args(&args(&["--docker-slot-provider"]), accept)), "preflight requires --json");
    assert_eq!(
        usage(parse_preflight_args(&args(&["--json", "--fake-runtime"]), accept)),
        "preflight fake mode requires the exact bundle --fake-runtime --fake-provider --provider-bin"
    );
    assert_eq!(
        usage(parse_preflight_args(&args(&["--json"]), accept)),
        "preflight requires exactly one provider mode"
    );
    assert_eq!(
        usage(parse_preflight_args(&args(&["--json", "--docker-slot-provider", "--run-id", "run_1", "--slot", "slot-11"]), accept)),
        "invalid --slot: slot-11"
    );
}

#[test]
fn download_expectations() {
    assert_eq!(
        download_artifact_expectation(&args(&["--artifact-expectation", "required"])).unwrap(),
        ArtifactExpectation::Required
    );
    assert_eq!(
        usage(download_artifact_expectation(&args(&[]))),
        "download requires --artifact-expectation"
    );
    assert_eq!(
        usage(download_artifact_expectation(&args(&["--artifact-expectation", "none"]))),
        "unsupported --artifact-expectation: none; expected optional, required, or claimed"
    );
}

#[test]
fn download_arguments() {
    let parsed = parse_download_args(
        &args(&[
            "--json",
            "--docker-slot-provider",
            "--session",
            "sess-1",
            "--fencing-token",
            "tok",
            "--artifact-expectation",
            "claimed",
        ]),
        refuse,
    )
    .unwrap();
    assert_eq!(parsed.session_id, "sess-1");
    assert_eq!(parsed.fencing_token, "tok");
    assert_eq!(parsed.expectation, ArtifactExpectation::Claimed);
    assert_eq!(
        usage(parse_download_args(&args(&["--json", "--session", "-bad"]), accept)),
        "invalid --session: -bad"
    );
    assert_eq!(usage(parse_download_args(&args(&["--session", "s1"]), accept)), "download requires --json");
}

#[test]
fn state_rebuild_takes_exactly_two_flags() {
    assert!(state_rebuild_args(&args(&["--json", "--check-only"])).is_ok());
    assert_eq!(
        usage(state_rebuild_args(&args(&["--check-only", "--json"]))),
        "state-rebuild requires exactly --json --check-only"
    );
}

use gpt_webai_lifecycle::cli::run_command::{parse_legacy_run, parse_run_command};

fn fake_run(extra: &[&str]) -> Vec<String> {
    let mut v = args(&[
        "--json",
        "--fake-runtime",
        "--fake-provider",
        "--provider-bin",
        "/bin/provider",
        "--request-id",
        "req_1",
        "--run-id",
        "run_1",
        "--fencing-token",
        "tok",
        "--model",
        "pro",
        "--prompt-file",
        "/tmp/prompt.md",
        "--artifact-expectation",
        "optional",
    ]);
    v.extend(args(extra));
    v
}

#[test]
fn fake_runs_use_the_host_provider() {
    let c = parse_run_command(&fake_run(&["--file", "/tmp/a.txt"]), accept, accept).unwrap();
    assert!(c.fake_mode);
    assert_eq!(c.request_id, "req_1");
    assert_eq!(c.effort, "standard");
    assert_eq!(c.prompt_file, "/tmp/prompt.md");
    assert_eq!(c.files, vec!["/tmp/a.txt".to_string()]);
    assert_eq!(c.provider, ParsedProviderMode::Fake { provider_bin: "/bin/provider".to_string() });
    assert_eq!(c.runtime_start_timeout_ms, None);
    assert_eq!(c.runtime_stop_timeout_ms, None);
    assert!(!c.live_gates);
    assert_eq!(c.artifact_expectation, ArtifactExpectation::Optional);
    assert_eq!(c.poll_timeout_seconds, 300);
    assert_eq!(c.send_process_timeout_ms, 65_000);
    assert_eq!(c.poll_process_timeout_ms, 500_000);
    assert_eq!(c.max_stdout_bytes, 1_048_576);
    assert_eq!(c.legacy_prompt, None);
}

#[test]
fn run_checks_files_and_timeouts() {
    assert_eq!(
        usage(parse_run_command(&fake_run(&[]), accept, refuse)),
        "--prompt-file is not executable: /tmp/prompt.md"
    );
    assert_eq!(
        usage(parse_run_command(&fake_run(&[]), refuse, accept)),
        "--provider-bin is not executable: /bin/provider"
    );
    assert_eq!(
        usage(parse_run_command(&fake_run(&["--provider-timeout-ms", "1000"]), accept, accept)),
        "--provider-timeout-ms for run must be at least 500000"
    );
    let c = parse_run_command(&fake_run(&["--provider-timeout-ms", "600000"]), accept, accept).unwrap();
    assert_eq!(c.send_process_timeout_ms, 600_000);
    assert_eq!(c.poll_process_timeout_ms, 600_000);
    assert_eq!(
        usage(parse_run_command(&fake_run(&["--ttl-ms", "5"]), accept, accept)),
        "--ttl-ms accepts only the compatibility literal 300000"
    );
    assert_eq!(usage(parse_run_command(&args(&["--fake-runtime"]), accept, accept)), "run requires --json");
}

#[test]
fn docker_runs_need_the_live_gates() {
    let base = [
        "--json",
        "--docker-slot-provider",
        "--request-id",
        "req_1",
        "--run-id",
        "run_1",
        "--fencing-token",
        "tok",
        "--model",
        "xhigh",
        "--prompt-file",
        "/tmp/prompt.md",
        "--artifact-expectation",
        "none",
    ];
    assert_eq!(
        usage(parse_run_command(&args(&base), accept, accept)),
        "docker run requires --live-send --require-visual-gate"
    );
    let mut gated = args(&base);
    gated.extend(args(&["--live-send", "--require-visual-gate", "--runtime-start-timeout-ms", "45000"]));
    let c = parse_run_command(&gated, refuse, accept).unwrap();
    assert!(!c.fake_mode);
    assert_eq!(c.effort, "high");
    assert!(c.live_gates);
    assert_eq!(c.runtime_start_timeout_ms, Some(45_000));
    assert_eq!(c.runtime_stop_timeout_ms, Some(30_000));
    assert_eq!(c.artifact_expectation, ArtifactExpectation::NotExpected);
    assert_eq!(
        c.provider,
        ParsedProviderMode::Docker {
            docker_bin: "docker".to_string(),
            artifact_container_root: "/broker-artifacts".to_string()
        }
    );
}

fn from_prompt(_: &str) -> ArtifactExpectation {
    ArtifactExpectation::Optional
}

#[test]
fn legacy_runs_take_ids_from_the_nonce() {
    let c = parse_legacy_run(
        &args(&["--kind", "xhigh", "--prompt", "hello"]),
        "/state",
        "7-1",
        None,
        from_prompt,
        refuse,
        refuse,
    )
    .unwrap();
    assert_eq!(c.request_id, "req-7-1");
    assert_eq!(c.run_id, "run-7-1");
    assert_eq!(c.fencing_token, "fence-7-1");
    assert_eq!(c.model, "xhigh");
    assert_eq!(c.effort, "high");
    assert_eq!(c.prompt_file, "/state/requests/legacy-inputs/run-7-1/prompt.md");
    assert_eq!(c.artifact_expectation, ArtifactExpectation::Optional);
    assert_eq!(c.legacy_prompt, Some("hello".to_string()));
    assert_eq!(c.poll_timeout_seconds, 300);
    assert!(c.live_gates);
    let long = parse_legacy_run(
        &args(&["--kind", "pro", "--prompt", "hi", "--artifact-expectation", "claimed"]),
        "/state",
        "n",
        Some("20000"),
        from_prompt,
        accept,
        accept,
    )
    .unwrap();
    assert_eq!(long.poll_timeout_seconds, 10_800);
    assert_eq!(long.artifact_expectation, ArtifactExpectation::Claimed);
    assert_eq!(long.send_process_timeout_ms, 65_000);
}

#[test]
fn legacy_runs_refuse_unknown_kinds() {
    let run = |a: &[&str]| parse_legacy_run(&args(a), "/s", "n", None, from_prompt, accept, accept);
    assert_eq!(usage(run(&["--prompt", "x"])), "run requires --kind pro|xhigh");
    assert_eq!(usage(run(&["--kind", "max", "--prompt", "x"])), "unsupported run kind: max");
    assert_eq!(usage(run(&["--kind", "pro"])), "run requires --prompt PROMPT");
    assert_eq!(usage(run(&["--kind", "pro", "--prompt", "x", "--json"])), "unknown option: --json");
}

use gpt_webai_lifecycle::cli::{guard_refusal, GuardRefusal};
use gpt_webai_lifecycle::journal::head::HeadError;

#[test]
fn guard_refusals_follow_the_command() {
    assert_eq!(
        guard_refusal("state-rebuild", &HeadError::LockContended("mutation")),
        GuardRefusal::Outcome {
            result_kind: "state_rebuild.lock_contended".to_string(),
            message: "the lifecycle state-store mutation lock is contended".to_string(),
            reason: "lock.contended".to_string(),
        }
    );
    assert_eq!(
        guard_refusal("status", &HeadError::CasConflict),
        GuardRefusal::Outcome {
            result_kind: "status.state_invalid".to_string(),
            message: "the lifecycle state-store command guard is invalid: journal.head_cas_conflict".to_string(),
            reason: "journal.head_cas_conflict".to_string(),
        }
    );
    assert_eq!(
        guard_refusal("status", &HeadError::Invalid("fields")),
        GuardRefusal::Outcome {
            result_kind: "status.state_invalid".to_string(),
            message: "the lifecycle state-store command guard is invalid: HEAD contract invalid: fields".to_string(),
            reason: "journal.immutable_collision".to_string(),
        }
    );
    assert_eq!(
        guard_refusal("allocate", &HeadError::Io("denied".to_string())),
        GuardRefusal::Outcome {
            result_kind: "allocate.state_invalid".to_string(),
            message: "the lifecycle state-store command guard is invalid: io error: denied".to_string(),
            reason: "allocate.state_invalid".to_string(),
        }
    );
    assert_eq!(
        guard_refusal("run", &HeadError::Json("eof".to_string())),
        GuardRefusal::Fail("json error: eof".to_string())
    );
}

use gpt_webai_lifecycle::cli::show_args::parse_show_args;

#[test]
fn show_arguments() {
    let fake = parse_show_args(
        &args(&[
            "--json",
            "--session",
            "sess-1",
            "--fencing-token",
            "tok",
            "--fake-runtime",
            "--fake-provider",
            "--provider-bin",
            "/bin/p",
        ]),
        accept,
    )
    .unwrap();
    assert_eq!(fake.provider_timeout_ms, 200_000);
    assert_eq!(fake.runtime_start_timeout_ms, None);
    assert_eq!(fake.provider, ParsedProviderMode::Fake { provider_bin: "/bin/p".to_string() });
    let docker = parse_show_args(
        &args(&["--json", "--session", "sess-1", "--fencing-token", "tok", "--docker-slot-provider"]),
        refuse,
    )
    .unwrap();
    assert_eq!(docker.runtime_stop_timeout_ms, Some(30_000));
    assert_eq!(
        usage(parse_show_args(
            &args(&["--json", "--session", "sess-1", "--fencing-token", "tok", "--docker-slot-provider", "--docker-bin", "/d"]),
            refuse
        )),
        "--docker-bin is not executable: /d"
    );
    assert_eq!(
        usage(parse_show_args(
            &args(&["--json", "--session", "sess-1", "--fencing-token", "tok", "--docker-slot-provider", "--provider-timeout-ms", "100"]),
            accept
        )),
        "--provider-timeout-ms for show must be at least 200000"
    );
    assert_eq!(usage(parse_show_args(&args(&["--json", "--session"]), accept)), "show requires --session");
    assert_eq!(
        usage(parse_show_args(&args(&["--json", "--session", "s", "--fencing-token", "t", "--docker-slot-provider", "--artifact-container-root", "rel"]), accept)),
        "--artifact-container-root must be an absolute container path: rel"
    );
}
