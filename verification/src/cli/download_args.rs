use vstd::prelude::*;

use crate::artifact_claims::{expectation_named, ArtifactExpectation};
use crate::contracts::ids::{is_session_id, is_text};
use crate::text::{concat2, push_str, str_eq};

use super::options::{
    any_fake_flag, container_root_of, docker_bin_of, executable_accepted, executable_refused,
    is_absolute, provider_executable, provider_executable_refused,
    bounded_problem, bounded_value, download_options, has_arg, non_empty_value, option_value,
    option_value_of, parse_byte_cap, parse_duration, parse_poll_seconds, parse_provider_mode,
    provider_mode_problem, provider_timeout_problem, reject_unlisted_options, require_flag,
    required_command_value, unlisted_option_from, validate_non_empty_text,
    validate_provider_timeout_minimum, validate_session_id, ParsedProviderMode, MAX_BYTE_CAP,
    MAX_DURATION, MAX_POLL_SECONDS,
};
use super::{is_usage, usage_error, LifecycleError};

verus! {

/// What `download` is asked to do.
#[derive(Clone, Debug, PartialEq, Eq)]
pub struct DownloadArgs {
    pub session_id: String,
    pub fencing_token: String,
    pub provider: ParsedProviderMode,
    pub poll_timeout_seconds: u64,
    pub provider_timeout_ms: u64,
    pub expectation: ArtifactExpectation,
    pub runtime_start_timeout_ms: Option<u64>,
    pub runtime_stop_timeout_ms: Option<u64>,
    pub max_stdout_bytes: usize,
    pub max_stderr_bytes: usize,
}

/// The expectations a download may be asked for: all but `none`.
pub open spec fn download_expectation_of(v: Option<Seq<char>>) -> Result<ArtifactExpectation, Seq<char>> {
    match v {
        None => Err("download requires --artifact-expectation"@),
        Some(value) => if value == "optional"@ || value == "required"@ || value == "claimed"@ {
            Ok(expectation_named(value)->0)
        } else {
            Err(
                "unsupported --artifact-expectation: "@ + value
                    + "; expected optional, required, or claimed"@,
            )
        },
    }
}

pub fn download_artifact_expectation(args: &[String]) -> (r: Result<ArtifactExpectation, LifecycleError>)
    ensures
        match download_expectation_of(option_value_of(args@, "--artifact-expectation"@)) {
            Ok(e) => r == Ok::<ArtifactExpectation, LifecycleError>(e),
            Err(m) => is_usage(r, m),
        },
{
    match option_value(args, "--artifact-expectation") {
        Some(value) => {
            let v = value.as_str();
            if str_eq(v, "optional") || str_eq(v, "required") || str_eq(v, "claimed") {
                match ArtifactExpectation::parse(v) {
                    Some(e) => Ok(e),
                    None => Err(usage_error("download requires --artifact-expectation".to_string())),
                }
            } else {
                let mut m = concat2("unsupported --artifact-expectation: ", v);
                push_str(&mut m, "; expected optional, required, or claimed");
                Err(usage_error(m))
            }
        },
        None => Err(usage_error("download requires --artifact-expectation".to_string())),
    }
}

/// Why `download` refuses its arguments before choosing a provider.
pub open spec fn download_early_problem(args: Seq<String>) -> Option<Seq<char>> {
    let allowed = seq!["--json"@, "--fake-runtime"@, "--fake-provider"@, "--docker-slot-provider"@, "--provider-bin"@, "--docker-bin"@, "--artifact-container-root"@, "--artifact-expectation"@, "--session"@, "--fencing-token"@, "--provider-timeout-ms"@, "--poll-timeout-seconds"@, "--max-stdout-bytes"@, "--max-stderr-bytes"@, "--runtime-start-timeout-ms"@, "--runtime-stop-timeout-ms"@];
    let with_value = seq!["--provider-bin"@, "--docker-bin"@, "--artifact-container-root"@, "--artifact-expectation"@, "--session"@, "--fencing-token"@, "--provider-timeout-ms"@, "--poll-timeout-seconds"@, "--max-stdout-bytes"@, "--max-stderr-bytes"@, "--runtime-start-timeout-ms"@, "--runtime-stop-timeout-ms"@];
    let session = non_empty_value(args, "--session"@);
    let token = non_empty_value(args, "--fencing-token"@);
    if unlisted_option_from(args, allowed, with_value, 0) is Some {
        Some("unknown option: "@ + unlisted_option_from(args, allowed, with_value, 0)->0)
    } else if !has_arg(args, "--json"@) {
        Some("download"@ + " requires "@ + "--json"@)
    } else if session is None {
        Some("download"@ + " requires "@ + "--session"@)
    } else if !is_session_id(session->0) {
        Some("invalid "@ + "--session"@ + ": "@ + session->0)
    } else if token is None {
        Some("download"@ + " requires "@ + "--fencing-token"@)
    } else if !is_text(token->0, 4096) {
        Some("invalid "@ + "--fencing-token"@ + ": expected 1..4096 UTF-8 bytes without NUL"@)
    } else if provider_mode_problem(args, "download"@) is Some {
        provider_mode_problem(args, "download"@)
    } else {
        None
    }
}

/// Why `download` refuses the rest of its arguments, if it does.
pub open spec fn download_late_problem(args: Seq<String>) -> Option<Seq<char>> {
    let fake = has_arg(args, "--fake-runtime"@);
    let poll = option_value_of(args, "--poll-timeout-seconds"@);
    let start = option_value_of(args, "--runtime-start-timeout-ms"@);
    let stop = option_value_of(args, "--runtime-stop-timeout-ms"@);
    if bounded_problem("--poll-timeout-seconds"@, poll, MAX_POLL_SECONDS) is Some {
        bounded_problem("--poll-timeout-seconds"@, poll, MAX_POLL_SECONDS)
    } else if provider_timeout_problem(
        option_value_of(args, "--provider-timeout-ms"@),
        320_000,
        "download"@,
    ) is Some {
        provider_timeout_problem(option_value_of(args, "--provider-timeout-ms"@), 320_000, "download"@)
    } else if download_expectation_of(option_value_of(args, "--artifact-expectation"@)) is Err {
        Some(download_expectation_of(option_value_of(args, "--artifact-expectation"@))->Err_0)
    } else if !fake && bounded_problem("--runtime-start-timeout-ms"@, start, MAX_DURATION) is Some {
        bounded_problem("--runtime-start-timeout-ms"@, start, MAX_DURATION)
    } else if !fake && bounded_problem("--runtime-stop-timeout-ms"@, stop, MAX_DURATION) is Some {
        bounded_problem("--runtime-stop-timeout-ms"@, stop, MAX_DURATION)
    } else if bounded_problem(
        "--max-stdout-bytes"@,
        option_value_of(args, "--max-stdout-bytes"@),
        MAX_BYTE_CAP,
    ) is Some {
        bounded_problem(
            "--max-stdout-bytes"@,
            option_value_of(args, "--max-stdout-bytes"@),
            MAX_BYTE_CAP,
        )
    } else {
        bounded_problem(
            "--max-stderr-bytes"@,
            option_value_of(args, "--max-stderr-bytes"@),
            MAX_BYTE_CAP,
        )
    }
}

/// Why `download` refuses its arguments once its executable is found: a
/// Docker container root that is not absolute, then the rest.
pub open spec fn download_problem_after_mode(args: Seq<String>) -> Option<Seq<char>> {
    let root = container_root_of(args);
    if !has_arg(args, "--fake-runtime"@) && !is_absolute(root) {
        Some("--artifact-container-root"@ + " must be an absolute container path: "@ + root)
    } else {
        download_late_problem(args)
    }
}

/// Parses the arguments of `download`; `check_executable` is handed to the
/// choice of provider mode.
pub fn parse_download_args<F: Fn(&str, &str) -> Result<(), LifecycleError>>(
    args: &[String],
    check_executable: F,
) -> (r: Result<DownloadArgs, LifecycleError>)
    requires
        forall|p: &str, n: &str| #[trigger] check_executable.requires((p, n)),
    ensures
        match download_early_problem(args@) {
            Some(m) => is_usage(r, m),
            None => {
                let fake = has_arg(args@, "--fake-runtime"@);
                &&& r matches Err(e) ==> provider_executable_refused(check_executable, args@, e) || (
                download_problem_after_mode(args@) matches Some(m) && is_usage(r, m))
                &&& executable_accepted(check_executable, args@) ==> match download_problem_after_mode(
                    args@,
                ) {
                    Some(m) => is_usage(r, m),
                    None => r is Ok,
                }
                &&& r matches Ok(a) ==> {
                    &&& download_problem_after_mode(args@) is None
                    &&& a.session_id@ == non_empty_value(args@, "--session"@)->0
                    &&& a.fencing_token@ == non_empty_value(args@, "--fencing-token"@)->0
                    &&& (a.provider is Fake) == fake
                    &&& a.poll_timeout_seconds == bounded_value(
                        option_value_of(args@, "--poll-timeout-seconds"@),
                        300,
                    )
                    &&& a.provider_timeout_ms == bounded_value(
                        option_value_of(args@, "--provider-timeout-ms"@),
                        320_000,
                    )
                    &&& download_expectation_of(option_value_of(args@, "--artifact-expectation"@))
                        == Ok::<ArtifactExpectation, Seq<char>>(a.expectation)
                    &&& a.runtime_start_timeout_ms == if fake {
                        None
                    } else {
                        Some(
                            bounded_value(option_value_of(args@, "--runtime-start-timeout-ms"@), 30_000),
                        )
                    }
                    &&& a.runtime_stop_timeout_ms == if fake {
                        None
                    } else {
                        Some(
                            bounded_value(option_value_of(args@, "--runtime-stop-timeout-ms"@), 30_000),
                        )
                    }
                    &&& a.max_stdout_bytes == bounded_value(
                        option_value_of(args@, "--max-stdout-bytes"@),
                        1_048_576,
                    )
                    &&& a.max_stderr_bytes == bounded_value(
                        option_value_of(args@, "--max-stderr-bytes"@),
                        262_144,
                    )
                }
            },
        },
{
    let (allowed, with_value) = download_options();
    match reject_unlisted_options(args, &allowed, &with_value) {
        Ok(()) => {},
        Err(e) => {
            return Err(e);
        },
    }
    match require_flag(args, "--json", "download") {
        Ok(()) => {},
        Err(e) => {
            return Err(e);
        },
    }
    let session_id = match required_command_value(args, "--session", "download") {
        Ok(v) => v,
        Err(e) => {
            return Err(e);
        },
    };
    match validate_session_id(session_id.as_str(), "--session") {
        Ok(()) => {},
        Err(e) => {
            return Err(e);
        },
    }
    let fencing_token = match required_command_value(args, "--fencing-token", "download") {
        Ok(v) => v,
        Err(e) => {
            return Err(e);
        },
    };
    match validate_non_empty_text(fencing_token.as_str(), "--fencing-token") {
        Ok(()) => {},
        Err(e) => {
            return Err(e);
        },
    }
    let ghost check = check_executable;
    let provider = match parse_provider_mode(args, "download", check_executable) {
        Ok(p) => p,
        Err(e) => {
            proof {
                if provider_mode_problem(args@, "download"@) is Some {
                } else if any_fake_flag(args@) {
                    assert(has_arg(args@, "--fake-runtime"@));
                    let q = choose|q: &str|
                        q@ == non_empty_value(args@, "--provider-bin"@)->0
                            && #[trigger] check.ensures((q, "--provider-bin"), Err(e));
                    assert(provider_executable(args@) == Some((q@, "--provider-bin"@)));
                } else if option_value_of(args@, "--docker-bin"@) is Some && executable_refused(
                    check,
                    docker_bin_of(args@),
                    "--docker-bin",
                    e,
                ) {
                    let q = choose|q: &str|
                        q@ == docker_bin_of(args@) && #[trigger] check.ensures((q, "--docker-bin"), Err(e));
                    assert(provider_executable(args@) == Some((q@, "--docker-bin"@)));
                }
            }
            return Err(e);
        },
    };
    let fake_mode = match &provider {
        ParsedProviderMode::Fake { .. } => true,
        ParsedProviderMode::Docker { .. } => false,
    };
    let poll_timeout_seconds = match parse_poll_seconds(args, 300) {
        Ok(v) => v,
        Err(e) => {
            return Err(e);
        },
    };
    let provider_timeout_ms = match validate_provider_timeout_minimum(args, 320_000, "download") {
        Ok(Some(v)) => v,
        Ok(None) => 320_000,
        Err(e) => {
            return Err(e);
        },
    };
    let expectation = match download_artifact_expectation(args) {
        Ok(e) => e,
        Err(e) => {
            return Err(e);
        },
    };
    let runtime_start_timeout_ms = if fake_mode {
        None
    } else {
        match parse_duration(args, "--runtime-start-timeout-ms", 30_000) {
            Ok(v) => Some(v),
            Err(e) => {
                return Err(e);
            },
        }
    };
    let runtime_stop_timeout_ms = if fake_mode {
        None
    } else {
        match parse_duration(args, "--runtime-stop-timeout-ms", 30_000) {
            Ok(v) => Some(v),
            Err(e) => {
                return Err(e);
            },
        }
    };
    let max_stdout_bytes = match parse_byte_cap(args, "--max-stdout-bytes", 1_048_576) {
        Ok(v) => v,
        Err(e) => {
            return Err(e);
        },
    };
    let max_stderr_bytes = match parse_byte_cap(args, "--max-stderr-bytes", 262_144) {
        Ok(v) => v,
        Err(e) => {
            return Err(e);
        },
    };
    Ok(
        DownloadArgs {
            session_id,
            fencing_token,
            provider,
            poll_timeout_seconds,
            provider_timeout_ms,
            expectation,
            runtime_start_timeout_ms,
            runtime_stop_timeout_ms,
            max_stdout_bytes,
            max_stderr_bytes,
        },
    )
}

} // verus!
