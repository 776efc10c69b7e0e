use vstd::prelude::*;

use crate::allocator::{cohort_of, cohort_of_spec};
use crate::contracts::cli::{CommandOutcome, LifecycleEnvelope};
use crate::contracts::ids::{is_general_id, is_slot_id};

use super::options::{
    any_arg, bounded_problem, bounded_value, container_root_of, docker_bin_of, executable_refused,
    has_arg, is_absolute, non_empty_value, option_value, option_value_of, parse_byte_cap,
    parse_duration, preflight_options, reject_unlisted_options, required_command_value,
    required_path, unlisted_option_from, validate_absolute_container_path, validate_run_id,
    validate_slot_id, ParsedProviderMode, MAX_BYTE_CAP, MAX_DURATION,
};
use super::{is_usage, usage_error, LifecycleError};

verus! {

/// What `preflight` is asked to check.
#[derive(Clone, Debug, PartialEq, Eq)]
pub struct PreflightArgs {
    pub fake_mode: bool,
    pub run_id: String,
    pub slot_id: Option<String>,
    pub provider_timeout_ms: u64,
    pub provider: ParsedProviderMode,
    pub max_stdout_bytes: usize,
    pub max_stderr_bytes: usize,
}

/// Why `preflight` refuses its mode flags, if it does.
pub open spec fn preflight_mode_problem(args: Seq<String>) -> Option<Seq<char>> {
    let allowed = seq!["--json"@, "--fake-runtime"@, "--fake-provider"@, "--docker-slot-provider"@, "--provider-bin"@, "--docker-bin"@, "--artifact-container-root"@, "--slot"@, "--run-id"@, "--provider-timeout-ms"@, "--max-stdout-bytes"@, "--max-stderr-bytes"@];
    let with_value = seq!["--provider-bin"@, "--docker-bin"@, "--artifact-container-root"@, "--slot"@, "--run-id"@, "--provider-timeout-ms"@, "--max-stdout-bytes"@, "--max-stderr-bytes"@];
    let fake_runtime = has_arg(args, "--fake-runtime"@);
    let fake_provider = has_arg(args, "--fake-provider"@);
    let provider_bin = has_arg(args, "--provider-bin"@);
    if !has_arg(args, "--json"@) {
        Some("preflight requires --json"@)
    } else if unlisted_option_from(args, allowed, with_value, 0) is Some {
        Some("unknown option: "@ + unlisted_option_from(args, allowed, with_value, 0)->0)
    } else if !(fake_runtime == fake_provider && fake_provider == provider_bin) {
        Some(
            "preflight fake mode requires the exact bundle --fake-runtime --fake-provider --provider-bin"@,
        )
    } else if fake_runtime == has_arg(args, "--docker-slot-provider"@) {
        Some("preflight requires exactly one provider mode"@)
    } else if fake_runtime && (has_arg(args, "--docker-bin"@) || has_arg(
        args,
        "--artifact-container-root"@,
    )) {
        Some("preflight fake mode forbids Docker options"@)
    } else {
        None
    }
}

/// Why `preflight` refuses the rest of its arguments, if it does; the
/// checks of executables are not among these.
pub open spec fn preflight_value_problem(args: Seq<String>) -> Option<Seq<char>> {
    let root = option_value_of(args, "--artifact-container-root"@);
    let run = non_empty_value(args, "--run-id"@);
    let slot = option_value_of(args, "--slot"@);
    let timeout = option_value_of(args, "--provider-timeout-ms"@);
    if root is Some && !is_absolute(root->0) {
        Some("--artifact-container-root"@ + " must be an absolute container path: "@ + root->0)
    } else if run is None {
        Some("preflight"@ + " requires "@ + "--run-id"@)
    } else if !is_general_id(run->0) {
        Some("invalid "@ + "--run-id"@ + ": "@ + run->0)
    } else if slot is Some && !is_slot_id(slot->0) {
        Some("invalid "@ + "--slot"@ + ": "@ + slot->0)
    } else if bounded_problem("--provider-timeout-ms"@, timeout, MAX_DURATION) is Some {
        bounded_problem("--provider-timeout-ms"@, timeout, MAX_DURATION)
    } else if has_arg(args, "--fake-runtime"@) && non_empty_value(args, "--provider-bin"@) is None {
        Some("run requires "@ + "--provider-bin"@)
    } else if bounded_problem(
        "--max-stdout-bytes"@,
        option_value_of(args, "--max-stdout-bytes"@),
        MAX_BYTE_CAP,
    ) is Some {
        bounded_problem(
            "--max-stdout-bytes"@,
            option_value_of(args, "--max-stdout-bytes"@),
            MAX_BYTE_CAP,
        )
    } else {
        bounded_problem(
            "--max-stderr-bytes"@,
            option_value_of(args, "--max-stderr-bytes"@),
            MAX_BYTE_CAP,
        )
    }
}

/// The arguments `preflight` runs with, where nothing is refused.
pub open spec fn preflight_args_match(a: PreflightArgs, args: Seq<String>) -> bool {
    &&& a.fake_mode == has_arg(args, "--fake-runtime"@)
    &&& a.run_id@ == non_empty_value(args, "--run-id"@)->0
    &&& match a.slot_id {
        Some(s) => option_value_of(args, "--slot"@) == Some(s@),
        None => option_value_of(args, "--slot"@) is None,
    }
    &&& a.provider_timeout_ms == bounded_value(option_value_of(args, "--provider-timeout-ms"@), 65_000)
    &&& a.max_stdout_bytes == bounded_value(option_value_of(args, "--max-stdout-bytes"@), 1_048_576)
    &&& a.max_stderr_bytes == bounded_value(option_value_of(args, "--max-stderr-bytes"@), 262_144)
    &&& if a.fake_mode {
        a.provider matches ParsedProviderMode::Fake { provider_bin } && provider_bin@
            == non_empty_value(args, "--provider-bin"@)->0
    } else {
        a.provider matches ParsedProviderMode::Docker { docker_bin, artifact_container_root }
            && docker_bin@ == docker_bin_of(args) && artifact_container_root@ == container_root_of(
            args,
        )
    }
}

/// Parses the arguments of `preflight`. `check_executable` is asked about
/// an explicit `--docker-bin` and, in fake mode, about `--provider-bin`.
pub fn parse_preflight_args<F: Fn(&str, &str) -> Result<(), LifecycleError>>(
    args: &[String],
    check_executable: F,
) -> (r: Result<PreflightArgs, LifecycleError>)
    requires
        forall|p: &str, n: &str| #[trigger] check_executable.requires((p, n)),
    ensures
        match preflight_mode_problem(args@) {
            Some(m) => is_usage(r, m),
            None => {
                &&& r matches Ok(a) ==> preflight_value_problem(args@) is None
                    && preflight_args_match(a, args@)
                &&& r matches Err(e) ==> executable_refused(
                    check_executable,
                    docker_bin_of(args@),
                    "--docker-bin",
                    e,
                ) || executable_refused(
                    check_executable,
                    non_empty_value(args@, "--provider-bin"@)->0,
                    "--provider-bin",
                    e,
                ) || (preflight_value_problem(args@) matches Some(m) && is_usage(r, m))
                &&& !has_arg(args@, "--fake-runtime"@) && option_value_of(args@, "--docker-bin"@)
                    is None ==> match preflight_value_problem(args@) {
                    Some(m) => is_usage(r, m),
                    None => r is Ok,
                }
            },
        },
{
    if !any_arg(args, "--json") {
        return Err(usage_error("preflight requires --json".to_string()));
    }
    let (allowed, with_value) = preflight_options();
    match reject_unlisted_options(args, &allowed, &with_value) {
        Ok(()) => {},
        Err(e) => {
            return Err(e);
        },
    }
    let fake_runtime = any_arg(args, "--fake-runtime");
    let fake_provider = any_arg(args, "--fake-provider");
    let provider_bin_present = any_arg(args, "--provider-bin");
    if !(fake_runtime == fake_provider && fake_provider == provider_bin_present) {
        return Err(
            usage_error(
                "preflight fake mode requires the exact bundle --fake-runtime --fake-provider --provider-bin".to_string(),
            ),
        );
    }
    let fake_mode = fake_runtime;
    let docker_mode = any_arg(args, "--docker-slot-provider");
    if fake_mode == docker_mode {
        return Err(usage_error("preflight requires exactly one provider mode".to_string()));
    }
    if fake_mode && (any_arg(args, "--docker-bin") || any_arg(args, "--artifact-container-root")) {
        return Err(usage_error("preflight fake mode forbids Docker options".to_string()));
    }
    if !fake_mode && any_arg(args, "--provider-bin") {
        return Err(usage_error("preflight Docker mode forbids --provider-bin".to_string()));
    }
    match option_value(args, "--docker-bin") {
        Some(v) => {
            let path = v.as_str();
            let checked = check_executable(path, "--docker-bin");
            match checked {
                Ok(()) => {},
                Err(e) => {
                    assert(check_executable.ensures((path, "--docker-bin"), Err(e)));
                    return Err(e);
                },
            }
        },
        None => {},
    }
    match option_value(args, "--artifact-container-root") {
        Some(v) => match validate_absolute_container_path(v.as_str(), "--artifact-container-root") {
            Ok(()) => {},
            Err(e) => {
                return Err(e);
            },
        },
        None => {},
    }
    let run_id = match required_command_value(args, "--run-id", "preflight") {
        Ok(v) => v,
        Err(e) => {
            return Err(e);
        },
    };
    match validate_run_id(run_id.as_str(), "--run-id") {
        Ok(()) => {},
        Err(e) => {
            return Err(e);
        },
    }
    let slot_id = option_value(args, "--slot");
    match &slot_id {
        Some(s) => match validate_slot_id(s.as_str(), "--slot") {
            Ok(()) => {},
            Err(e) => {
                return Err(e);
            },
        },
        None => {},
    }
    let provider_timeout_ms = if option_value(args, "--provider-timeout-ms").is_some() {
        match parse_duration(args, "--provider-timeout-ms", 1) {
            Ok(v) => v,
            Err(e) => {
                return Err(e);
            },
        }
    } else {
        65_000
    };
    let provider = if fake_mode {
        let provider_bin = match required_path(args, "--provider-bin") {
            Ok(v) => v,
            Err(e) => {
                return Err(e);
            },
        };
        let path = provider_bin.as_str();
        let checked = check_executable(path, "--provider-bin");
        match checked {
            Ok(()) => {},
            Err(e) => {
                assert(check_executable.ensures((path, "--provider-bin"), Err(e)));
                return Err(e);
            },
        }
        ParsedProviderMode::Fake { provider_bin }
    } else {
        let docker_bin = match option_value(args, "--docker-bin") {
            Some(v) => v,
            None => "docker".to_string(),
        };
        let artifact_container_root = match option_value(args, "--artifact-container-root") {
            Some(v) => v,
            None => "/broker-artifacts".to_string(),
        };
        ParsedProviderMode::Docker { docker_bin, artifact_container_root }
    };
    let max_stdout_bytes = match parse_byte_cap(args, "--max-stdout-bytes", 1_048_576) {
        Ok(v) => v,
        Err(e) => {
            return Err(e);
        },
    };
    let max_stderr_bytes = match parse_byte_cap(args, "--max-stderr-bytes", 262_144) {
        Ok(v) => v,
        Err(e) => {
            return Err(e);
        },
    };
    Ok(
        PreflightArgs {
            fake_mode,
            run_id,
            slot_id,
            provider_timeout_ms,
            provider,
            max_stdout_bytes,
            max_stderr_bytes,
        },
    )
}

/// Stamps a preflight's run, slot and the slot's cohort on its outcome.
pub fn with_preflight_identity(outcome: CommandOutcome, run_id: String, slot_id: Option<String>) -> (r:
    CommandOutcome)
    ensures
        r.exit_code == outcome.exit_code,
        r.envelope == (LifecycleEnvelope {
            run_id: Some(run_id),
            slot_id: slot_id,
            cohort: r.envelope.cohort,
            ..outcome.envelope
        }),
        match slot_id {
            Some(s) => match cohort_of_spec(s@) {
                Some(c) => r.envelope.cohort matches Some(x) && x@ == c,
                None => r.envelope.cohort is None,
            },
            None => r.envelope.cohort is None,
        },
{
    let cohort = match &slot_id {
        Some(s) => match cohort_of(s.as_str()) {
            Some(c) => Some(c.to_string()),
            None => None,
        },
        None => None,
    };
    let mut outcome = outcome;
    outcome.envelope.run_id = Some(run_id);
    outcome.envelope.slot_id = slot_id;
    outcome.envelope.cohort = cohort;
    outcome
}

} // verus!
