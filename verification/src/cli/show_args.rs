use vstd::prelude::*;

use crate::contracts::ids::{is_session_id, is_text};

use super::options::{
    any_fake_flag, bounded_problem, bounded_value, container_root_of, docker_bin_of,
    executable_accepted, executable_refused, has_arg, provider_executable,
    provider_executable_refused,
    is_absolute, non_empty_value, option_value_of, parse_byte_cap, parse_duration,
    parse_poll_seconds, parse_provider_mode, provider_mode_problem, provider_timeout_problem,
    reject_unlisted_options, require_flag, required_command_value, show_options,
    unlisted_option_from, validate_non_empty_text, validate_provider_timeout_minimum,
    validate_session_id, ParsedProviderMode, MAX_BYTE_CAP, MAX_DURATION, MAX_POLL_SECONDS,
};
use super::{is_usage, LifecycleError};

verus! {

/// What `show` is asked to do.
#[derive(Clone, Debug, PartialEq, Eq)]
pub struct ShowArgs {
    pub session_id: String,
    pub fencing_token: String,
    pub provider: ParsedProviderMode,
    pub provider_timeout_ms: u64,
    pub max_stdout_bytes: usize,
    pub max_stderr_bytes: usize,
    /// `None` where the runtime is not started (fake mode).
    pub runtime_start_timeout_ms: Option<u64>,
    /// `None` where releasing the runtime only drops its lock (fake mode).
    pub runtime_stop_timeout_ms: Option<u64>,
}

pub open spec fn show_allowed() -> Seq<Seq<char>> {
    seq![
        "--json"@,
        "--session"@,
        "--fencing-token"@,
        "--fake-runtime"@,
        "--fake-provider"@,
        "--provider-bin"@,
        "--docker-slot-provider"@,
        "--docker-bin"@,
        "--artifact-container-root"@,
        "--provider-timeout-ms"@,
        "--max-stdout-bytes"@,
        "--max-stderr-bytes"@,
        "--poll-timeout-seconds"@,
        "--runtime-start-timeout-ms"@,
        "--runtime-stop-timeout-ms"@,
    ]
}

pub open spec fn show_with_value() -> Seq<Seq<char>> {
    seq![
        "--session"@,
        "--fencing-token"@,
        "--provider-bin"@,
        "--docker-bin"@,
        "--artifact-container-root"@,
        "--provider-timeout-ms"@,
        "--max-stdout-bytes"@,
        "--max-stderr-bytes"@,
        "--poll-timeout-seconds"@,
        "--runtime-start-timeout-ms"@,
        "--runtime-stop-timeout-ms"@,
    ]
}

/// Why `show` refuses its arguments before it looks at any file.
pub open spec fn show_early_problem(args: Seq<String>) -> Option<Seq<char>> {
    let unknown = unlisted_option_from(args, show_allowed(), show_with_value(), 0);
    let session = non_empty_value(args, "--session"@);
    let token = non_empty_value(args, "--fencing-token"@);
    if unknown is Some {
        Some("unknown option: "@ + unknown->0)
    } else if !has_arg(args, "--json"@) {
        Some("show"@ + " requires "@ + "--json"@)
    } else if session is None {
        Some("show"@ + " requires "@ + "--session"@)
    } else if !is_session_id(session->0) {
        Some("invalid "@ + "--session"@ + ": "@ + session->0)
    } else if token is None {
        Some("show"@ + " requires "@ + "--fencing-token"@)
    } else if !is_text(token->0, 4096) {
        Some("invalid "@ + "--fencing-token"@ + ": expected 1..4096 UTF-8 bytes without NUL"@)
    } else if provider_mode_problem(args, "show"@) is Some {
        provider_mode_problem(args, "show"@)
    } else {
        None
    }
}

/// Why `show` refuses the rest of its arguments, once its executable is found.
pub open spec fn show_late_problem(args: Seq<String>) -> Option<Seq<char>> {
    let fake = has_arg(args, "--fake-runtime"@);
    let root = container_root_of(args);
    let timeout = option_value_of(args, "--provider-timeout-ms"@);
    let stdout = option_value_of(args, "--max-stdout-bytes"@);
    let stderr = option_value_of(args, "--max-stderr-bytes"@);
    let poll = option_value_of(args, "--poll-timeout-seconds"@);
    let start = option_value_of(args, "--runtime-start-timeout-ms"@);
    let stop = option_value_of(args, "--runtime-stop-timeout-ms"@);
    if !fake && !is_absolute(root) {
        Some("--artifact-container-root"@ + " must be an absolute container path: "@ + root)
    } else if provider_timeout_problem(timeout, 200_000, "show"@) is Some {
        provider_timeout_problem(timeout, 200_000, "show"@)
    } else if bounded_problem("--max-stdout-bytes"@, stdout, MAX_BYTE_CAP) is Some {
        bounded_problem("--max-stdout-bytes"@, stdout, MAX_BYTE_CAP)
    } else if bounded_problem("--max-stderr-bytes"@, stderr, MAX_BYTE_CAP) is Some {
        bounded_problem("--max-stderr-bytes"@, stderr, MAX_BYTE_CAP)
    } else if bounded_problem("--poll-timeout-seconds"@, poll, MAX_POLL_SECONDS) is Some {
        bounded_problem("--poll-timeout-seconds"@, poll, MAX_POLL_SECONDS)
    } else if !fake && bounded_problem("--runtime-start-timeout-ms"@, start, MAX_DURATION) is Some {
        bounded_problem("--runtime-start-timeout-ms"@, start, MAX_DURATION)
    } else if !fake && bounded_problem("--runtime-stop-timeout-ms"@, stop, MAX_DURATION) is Some {
        bounded_problem("--runtime-stop-timeout-ms"@, stop, MAX_DURATION)
    } else {
        None
    }
}

/// The show an accepted command line describes.
pub open spec fn show_args_match(a: ShowArgs, args: Seq<String>) -> bool {
    let fake = has_arg(args, "--fake-runtime"@);
    &&& a.session_id@ == non_empty_value(args, "--session"@)->0
    &&& a.fencing_token@ == non_empty_value(args, "--fencing-token"@)->0
    &&& (if fake {
        a.provider matches ParsedProviderMode::Fake { provider_bin } && provider_bin@
            == non_empty_value(args, "--provider-bin"@)->0
    } else {
        a.provider matches ParsedProviderMode::Docker { docker_bin, artifact_container_root }
            && docker_bin@ == docker_bin_of(args) && artifact_container_root@ == container_root_of(
            args,
        )
    })
    &&& a.provider_timeout_ms == bounded_value(option_value_of(args, "--provider-timeout-ms"@), 200_000)
    &&& a.max_stdout_bytes == bounded_value(option_value_of(args, "--max-stdout-bytes"@), 1_048_576)
    &&& a.max_stderr_bytes == bounded_value(option_value_of(args, "--max-stderr-bytes"@), 262_144)
    &&& a.runtime_start_timeout_ms == (if fake {
        None
    } else {
        Some(bounded_value(option_value_of(args, "--runtime-start-timeout-ms"@), 30_000))
    })
    &&& a.runtime_stop_timeout_ms == (if fake {
        None
    } else {
        Some(bounded_value(option_value_of(args, "--runtime-stop-timeout-ms"@), 30_000))
    })
}

/// Parses the arguments of `show`; `check_executable` is handed to the
/// choice of provider mode.
pub fn parse_show_args<F: Fn(&str, &str) -> Result<(), LifecycleError>>(
    args: &[String],
    check_executable: F,
) -> (r: Result<ShowArgs, LifecycleError>)
    requires
        forall|p: &str, n: &str| #[trigger] check_executable.requires((p, n)),
    ensures
        match show_early_problem(args@) {
            Some(m) => is_usage(r, m),
            None => {
                &&& r matches Ok(a) ==> show_late_problem(args@) is None && show_args_match(a, args@)
                &&& r matches Err(e) ==> provider_executable_refused(check_executable, args@, e) || (
                show_late_problem(args@) matches Some(m) && is_usage(r, m))
                &&& executable_accepted(check_executable, args@) ==> match show_late_problem(
                    args@,
                ) {
                    Some(m) => is_usage(r, m),
                    None => r is Ok,
                }
            },
        },
{
    let (allowed, with_value) = show_options();
    match reject_unlisted_options(args, &allowed, &with_value) {
        Ok(_) => {},
        Err(e) => return Err(e),
    }
    match require_flag(args, "--json", "show") {
        Ok(_) => {},
        Err(e) => return Err(e),
    }
    let session_id = match required_command_value(args, "--session", "show") {
        Ok(v) => v,
        Err(e) => return Err(e),
    };
    match validate_session_id(session_id.as_str(), "--session") {
        Ok(_) => {},
        Err(e) => return Err(e),
    }
    let fencing_token = match required_command_value(args, "--fencing-token", "show") {
        Ok(v) => v,
        Err(e) => return Err(e),
    };
    match validate_non_empty_text(fencing_token.as_str(), "--fencing-token") {
        Ok(_) => {},
        Err(e) => return Err(e),
    }
    let ghost check = check_executable;
    let provider = match parse_provider_mode(args, "show", check_executable) {
        Ok(p) => p,
        Err(e) => {
            proof {
                if provider_mode_problem(args@, "show"@) is Some {
                } else if any_fake_flag(args@) {
                    assert(has_arg(args@, "--fake-runtime"@));
                    let q = choose|q: &str|
                        q@ == non_empty_value(args@, "--provider-bin"@)->0
                            && #[trigger] check.ensures((q, "--provider-bin"), Err(e));
                    assert(provider_executable(args@) == Some((q@, "--provider-bin"@)));
                } else if option_value_of(args@, "--docker-bin"@) is Some && executable_refused(
                    check,
                    docker_bin_of(args@),
                    "--docker-bin",
                    e,
                ) {
                    let q = choose|q: &str|
                        q@ == docker_bin_of(args@) && #[trigger] check.ensures((q, "--docker-bin"), Err(e));
                    assert(provider_executable(args@) == Some((q@, "--docker-bin"@)));
                }
            }
            return Err(e);
        },
    };
    let fake_mode = match &provider {
        ParsedProviderMode::Fake { .. } => true,
        ParsedProviderMode::Docker { .. } => false,
    };
    let provider_timeout_ms = match validate_provider_timeout_minimum(args, 200_000, "show") {
        Ok(Some(v)) => v,
        Ok(None) => 200_000,
        Err(e) => return Err(e),
    };
    let max_stdout_bytes = match parse_byte_cap(args, "--max-stdout-bytes", 1_048_576) {
        Ok(v) => v,
        Err(e) => return Err(e),
    };
    let max_stderr_bytes = match parse_byte_cap(args, "--max-stderr-bytes", 262_144) {
        Ok(v) => v,
        Err(e) => return Err(e),
    };
    match parse_poll_seconds(args, 300) {
        Ok(_) => {},
        Err(e) => return Err(e),
    }
    let runtime_start_timeout_ms = if fake_mode {
        None
    } else {
        match parse_duration(args, "--runtime-start-timeout-ms", 30_000) {
            Ok(v) => Some(v),
            Err(e) => return Err(e),
        }
    };
    let runtime_stop_timeout_ms = if fake_mode {
        None
    } else {
        match parse_duration(args, "--runtime-stop-timeout-ms", 30_000) {
            Ok(v) => Some(v),
            Err(e) => return Err(e),
        }
    };
    Ok(
        ShowArgs {
            session_id,
            fencing_token,
            provider,
            provider_timeout_ms,
            max_stdout_bytes,
            max_stderr_bytes,
            runtime_start_timeout_ms,
            runtime_stop_timeout_ms,
        },
    )
}

} // verus!
