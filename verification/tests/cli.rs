use gpt_webai_lifecycle::cleanup::{CleanupMode, CleanupOutput};
use gpt_webai_lifecycle::cli::options::{
    any_arg, option_value, optional_u64, parse_bounded, parse_byte_cap, parse_decimal,
    parse_provider_mode, parse_release_args, parse_u64, reject_unknown_options, release_options,
    reject_unlisted_options, require_flag, required_value, validate_absolute_container_path,
    validate_compatibility_literal, validate_provider_timeout_minimum, validate_request_id,
    values_after, ParsedProviderMode,
};
use gpt_webai_lifecycle::cli::run_args::{
    artifact_expectation, docker_bin, model_effort, provider_mode, require_json,
    require_live_docker_gate,
};
use gpt_webai_lifecycle::cli::{
    cleanup_message, cleanup_mode, cleanup_result_kind, constants_args, lock_contended_kind,
    new_operation_id, select_command, status_format, validate_lexical_args, Command,
    LifecycleError, StatusFormat,
};
use gpt_webai_lifecycle::artifact_claims::ArtifactExpectation;

fn args(items: &[&str]) -> Vec<String> {
    items.iter().map(|s| s.to_string()).collect()
}

fn usage<T: std::fmt::Debug>(r: Result<T, LifecycleError>) -> String {
    match r {
        Err(LifecycleError::Usage(m)) => m,
        other => panic!("expected a usage error, got {other:?}"),
    }
}

#[test]
fn lexical_args_accept_separate_option_tokens() {
    assert!(validate_lexical_args(&args(&["run", "--json", "--kind", "pro"])).is_ok());
    assert!(validate_lexical_args(&args(&[])).is_ok());
    assert!(validate_lexical_args(&args(&["status"])).is_ok());
}

#[test]
fn lexical_args_refuse_each_problem() {
    assert_eq!(
        usage(validate_lexical_args(&args(&["run", "--"]))),
        "the Rust lifecycle CLI does not accept --"
    );
    assert_eq!(
        usage(validate_lexical_args(&args(&["run", "--kind=pro"]))),
        "Rust lifecycle options require separate tokens: --kind=pro"
    );
    assert_eq!(
        usage(validate_lexical_args(&args(&["run", "pro"]))),
        "unexpected positional argument: pro"
    );
    assert_eq!(
        usage(validate_lexical_args(&args(&["run", "--json", "--json"]))),
        "duplicate singleton option: --json"
    );
    assert_eq!(
        usage(validate_lexical_args(&args(&["run", "--kind"]))),
        "missing value for --kind"
    );
    assert_eq!(
        usage(validate_lexical_args(&args(&["run", "--kind", "--json"]))),
        "missing value for --kind"
    );
    assert_eq!(
        usage(validate_lexical_args(&args(&["run", "--kind", ""]))),
        "missing value for --kind"
    );
}

#[test]
fn lexical_args_allow_at_most_64_files() {
    let mut many = vec!["run".to_string()];
    for _ in 0..64 {
        many.push("--file".to_string());
        many.push("a.txt".to_string());
    }
    assert!(validate_lexical_args(&many).is_ok());
    many.push("--file".to_string());
    many.push("b.txt".to_string());
    assert_eq!(usage(validate_lexical_args(&many)), "no more than 64 --file options are allowed");
}

#[test]
fn commands_are_selected_by_name() {
    assert_eq!(select_command(&args(&["status"]), None).unwrap(), Command::Status);
    assert_eq!(select_command(&args(&["state-rebuild"]), None).unwrap(), Command::StateRebuild);
    assert_eq!(select_command(&args(&["-h"]), None).unwrap(), Command::Help);
    let unknown = usage(select_command(&args(&["frobnicate"]), None));
    assert!(unknown.starts_with("unknown command: frobnicate\nusage: gpt-webai-lifecycle <status"));
    assert!(usage(select_command(&args(&[]), None)).starts_with("usage: "));
    assert_eq!(
        usage(select_command(&args(&["status"]), Some("bogus"))),
        "unrecognised GPT_WEBAI_FAILPOINT: bogus"
    );
    assert_eq!(
        select_command(&args(&["status"]), Some("after-uploadcleared")).unwrap(),
        Command::Status
    );
}

#[test]
fn option_lookup_takes_the_first_occurrence() {
    let a = args(&["--model", "pro", "--model", "xhigh", "--file", "a", "--file", "--json"]);
    assert_eq!(option_value(&a, "--model"), Some("pro".to_string()));
    assert_eq!(option_value(&a, "--effort"), None);
    assert_eq!(values_after(&a, "--file"), vec!["a".to_string()]);
    assert!(any_arg(&a, "--json"));
    assert!(!any_arg(&a, "--kind"));
}

#[test]
fn run_rejects_unknown_options_but_skips_values() {
    assert!(reject_unknown_options(&args(&["--kind", "--bogus", "--json"])).is_ok());
    assert_eq!(
        usage(reject_unknown_options(&args(&["--json", "--bogus"]))),
        "unknown option: --bogus"
    );
    let (allowed, with_value) = release_options();
    assert_eq!(
        usage(reject_unlisted_options(&args(&["--json", "--kind", "pro"]), &allowed, &with_value)),
        "unknown option: --kind"
    );
}

#[test]
fn required_values_and_flags() {
    assert_eq!(required_value(&args(&["--model", "pro"]), "--model").unwrap(), "pro");
    assert_eq!(usage(required_value(&args(&["--model"]), "--model")), "run requires --model");
    assert_eq!(
        usage(require_flag(&args(&["--slot", "slot-01"]), "--json", "release")),
        "release requires --json"
    );
    assert_eq!(
        usage(validate_request_id("bad id", "--request-id")),
        "invalid --request-id: bad id"
    );
}

#[test]
fn decimals_parse_strictly() {
    assert_eq!(parse_decimal("--n", "42").unwrap(), 42);
    assert_eq!(parse_decimal("--n", "18446744073709551615").unwrap(), u64::MAX);
    assert_eq!(usage(parse_decimal("--n", "18446744073709551616")), "invalid --n: numeric overflow");
    assert_eq!(usage(parse_decimal("--n", "+4")), "invalid --n: expected a decimal integer");
    assert_eq!(usage(parse_decimal("--n", "")), "invalid --n: expected a decimal integer");
    assert_eq!(parse_u64("+4"), Some(4));
    assert_eq!(parse_u64("+"), None);
    assert_eq!(parse_u64("18446744073709551616"), None);
    assert_eq!(optional_u64(&args(&["--ttl-ms", "0"]), "--ttl-ms", 7), 7);
    assert_eq!(optional_u64(&args(&["--ttl-ms", "9"]), "--ttl-ms", 7), 9);
    assert_eq!(optional_u64(&args(&["--ttl-ms", "x"]), "--ttl-ms", 7), 7);
}

#[test]
fn bounded_options_fall_back_or_stay_in_range() {
    assert_eq!(parse_bounded(&args(&[]), "--x", 5, 10).unwrap(), 5);
    assert_eq!(parse_bounded(&args(&["--x", "10"]), "--x", 5, 10).unwrap(), 10);
    assert_eq!(usage(parse_bounded(&args(&["--x", "11"]), "--x", 5, 10)), "invalid --x: expected 1..=10");
    assert_eq!(usage(parse_bounded(&args(&["--x", "0"]), "--x", 5, 10)), "invalid --x: expected 1..=10");
    assert_eq!(parse_byte_cap(&args(&[]), "--max-stdout-bytes", 1_048_576).unwrap(), 1_048_576);
    assert!(validate_compatibility_literal(&args(&["--ttl-ms", "300000"]), "--ttl-ms", 300_000).is_ok());
    assert_eq!(
        usage(validate_compatibility_literal(&args(&["--ttl-ms", "1"]), "--ttl-ms", 300_000)),
        "--ttl-ms accepts only the compatibility literal 300000"
    );
}

#[test]
fn provider_timeout_override_has_a_floor() {
    assert_eq!(validate_provider_timeout_minimum(&args(&[]), 320_000, "run").unwrap(), None);
    assert_eq!(
        validate_provider_timeout_minimum(&args(&["--provider-timeout-ms", "400000"]), 320_000, "run")
            .unwrap(),
        Some(400_000)
    );
    assert_eq!(
        usage(validate_provider_timeout_minimum(&args(&["--provider-timeout-ms", "1000"]), 320_000, "run")),
        "--provider-timeout-ms for run must be at least 320000"
    );
    assert_eq!(
        usage(validate_provider_timeout_minimum(&args(&["--provider-timeout-ms", "12000001"]), 1, "run")),
        "invalid --provider-timeout-ms: expected 1..=12000000"
    );
}

#[test]
fn container_paths_must_be_absolute() {
    assert!(validate_absolute_container_path("/broker-artifacts", "--root").is_ok());
    assert_eq!(
        usage(validate_absolute_container_path("rel", "--root")),
        "--root must be an absolute container path: rel"
    );
}

fn accept(_: &str, _: &str) -> Result<(), LifecycleError> {
    Ok(())
}

fn refuse(path: &str, name: &str) -> Result<(), LifecycleError> {
    Err(LifecycleError::Usage(format!("{name} must be an existing executable: {path}")))
}

#[test]
fn provider_mode_is_fake_or_docker() {
    let fake = args(&["--fake-runtime", "--fake-provider", "--provider-bin", "/bin/p"]);
    assert_eq!(
        parse_provider_mode(&fake, "show", accept).unwrap(),
        ParsedProviderMode::Fake { provider_bin: "/bin/p".to_string() }
    );
    assert_eq!(
        usage(parse_provider_mode(&fake, "show", refuse)),
        "--provider-bin must be an existing executable: /bin/p"
    );
    let docker = args(&["--docker-slot-provider"]);
    assert_eq!(
        parse_provider_mode(&docker, "show", refuse).unwrap(),
        ParsedProviderMode::Docker {
            docker_bin: "docker".to_string(),
            artifact_container_root: "/broker-artifacts".to_string()
        }
    );
    assert_eq!(
        usage(parse_provider_mode(&args(&["--fake-runtime"]), "show", accept)),
        "show requires exactly one provider mode"
    );
    assert_eq!(
        usage(parse_provider_mode(
            &args(&["--fake-runtime", "--docker-slot-provider"]),
            "show",
            accept
        )),
        "show fake mode requires the exact bundle --fake-runtime --fake-provider --provider-bin"
    );
    assert_eq!(
        usage(parse_provider_mode(
            &args(&["--docker-slot-provider", "--artifact-container-root", "rel"]),
            "show",
            accept
        )),
        "--artifact-container-root must be an absolute container path: rel"
    );
}

#[test]
fn run_mode_flags() {
    assert_eq!(provider_mode(&args(&["--docker-slot-provider"])).unwrap(), false);
    assert_eq!(
        provider_mode(&args(&["--fake-runtime", "--fake-provider", "--provider-bin", "p"])).unwrap(),
        true
    );
    assert_eq!(
        usage(provider_mode(&args(&["--fake-runtime"]))),
        "fake run requires the exact bundle --fake-runtime --fake-provider --provider-bin"
    );
    assert_eq!(
        usage(provider_mode(&args(&["--fake-runtime", "--fake-provider", "--provider-bin", "p", "--live-send"]))),
        "fake run forbids Docker options and live-send gates"
    );
    assert_eq!(usage(require_json(&args(&[]))), "run requires --json");
    assert!(require_live_docker_gate(&args(&["--live-send", "--require-visual-gate"])).is_ok());
    assert_eq!(docker_bin(&args(&["--docker-bin", "/usr/bin/docker"])), "/usr/bin/docker");
    assert_eq!(docker_bin(&args(&[])), "docker");
}

#[test]
fn model_effort_pairs() {
    assert_eq!(
        model_effort(&args(&["--model", "pro"])).unwrap(),
        ("pro".to_string(), "standard".to_string())
    );
    assert_eq!(
        model_effort(&args(&["--model", "xhigh", "--effort", "high"])).unwrap(),
        ("xhigh".to_string(), "high".to_string())
    );
    assert_eq!(
        usage(model_effort(&args(&["--model", "pro", "--effort", "high"]))),
        "model pro accepts only effort standard, got high"
    );
    assert_eq!(
        usage(model_effort(&args(&["--model", "mini"]))),
        "unsupported --model: mini; expected pro or xhigh"
    );
    assert_eq!(
        artifact_expectation(&args(&["--artifact-expectation", "none"])).unwrap(),
        ArtifactExpectation::NotExpected
    );
    assert_eq!(
        usage(artifact_expectation(&args(&["--artifact-expectation", "maybe"]))),
        "unsupported --artifact-expectation: maybe; expected none, optional, required, or claimed"
    );
}

#[test]
fn release_arguments() {
    let parsed = parse_release_args(&args(&["--json", "--slot", "slot-01"]), refuse).unwrap();
    assert_eq!(parsed.slot_id, Some("slot-01".to_string()));
    assert_eq!(parsed.docker_bin, "docker");
    assert_eq!(parsed.runtime_stop_timeout_ms, 30_000);
    assert_eq!(
        usage(parse_release_args(&args(&["--json"]), accept)),
        "release requires exactly one of --slot or --session"
    );
    assert_eq!(
        usage(parse_release_args(&args(&["--json", "--slot", "slot-11"]), accept)),
        "invalid --slot: slot-11"
    );
    assert_eq!(
        usage(parse_release_args(&args(&["--json", "--slot", "slot-01", "--docker-bin", "/x"]), refuse)),
        "--docker-bin must be an existing executable: /x"
    );
}

#[test]
fn small_command_arguments() {
    assert_eq!(cleanup_mode(&args(&["--json", "--apply"])).unwrap(), CleanupMode::Apply);
    assert!(cleanup_mode(&args(&["--apply", "--json"])).is_err());
    assert_eq!(cleanup_result_kind(CleanupMode::Apply, 0), "cleanup.applied");
    assert_eq!(cleanup_result_kind(CleanupMode::Apply, 2), "cleanup.partial_failure");
    assert_eq!(cleanup_result_kind(CleanupMode::DryRun, 2), "cleanup.plan");
    assert_eq!(status_format(&args(&[])).unwrap(), StatusFormat::LegacyKv);
    assert_eq!(status_format(&args(&["--json"])).unwrap(), StatusFormat::Json);
    assert_eq!(
        usage(status_format(&args(&["--json", "--legacy-kv"]))),
        "status accepts at most one of --json or --legacy-kv"
    );
    assert_eq!(usage(status_format(&args(&["--x"]))), "status accepts only --json or --legacy-kv");
    assert!(constants_args(&args(&[])).is_ok());
    assert_eq!(new_operation_id("status", 42, 1_700), "status-42-1700");
    assert_eq!(lock_contended_kind("state-rebuild"), "state_rebuild.lock_contended");
    let output = CleanupOutput {
        schema: "s".to_string(),
        ok: true,
        mode: "apply".to_string(),
        stale_holders: 1,
        stale_locks: 2,
        removed_holders: 1,
        removed_locks: 2,
        skipped: 0,
        message: String::new(),
    };
    assert_eq!(
        cleanup_message(&output),
        "cleanup mode=apply stale_holders=1 stale_locks=2 removed_holders=1 removed_locks=2 skipped=0"
    );
}

#[test]
fn usage_errors_exit_with_two() {
    assert_eq!(LifecycleError::Usage(String::new()).exit_code(), 2);
    assert_eq!(LifecycleError::Io(String::new()).exit_code(), 70);
}
