use vstd::prelude::*;

use crate::artifact_claims::{expectation_named, ArtifactExpectation};
use crate::contracts::ids::{is_general_id, is_text};
use crate::contracts::payload_keys::views;
use crate::text::{concat2, decimal, decimal_value, opt_view, push_str};

use super::options::{
    legacy_options, positive_u64_or, reject_unlisted_options, unlisted_option_from,
    bounded_problem, bounded_value, decimal_problem, docker_bin_of, has_arg, is_absolute,
    non_empty_value, option_value, option_value_of, parse_byte_cap, parse_duration,
    parse_poll_seconds, provider_timeout_problem, reject_unknown_options, required_path,
    required_value, unknown_option_from, validate_absolute_container_path,
    validate_compatibility_literal, validate_non_empty_text, validate_provider_timeout_minimum,
    validate_request_id, validate_run_id, values_after, values_after_from, ParsedProviderMode,
    MAX_BYTE_CAP, MAX_DURATION, MAX_POLL_SECONDS,
};
use super::run_args::{
    artifact_expectation, docker_bin, legacy_model_effort, legacy_poll_timeout_seconds,
    model_effort, model_effort_of, prompt_file_of, prompt_file_path, provider_mode,
    require_json, require_live_docker_gate, run_mode_problem,
};
use super::{is_usage, LifecycleError};

verus! {

/// What a `run` command line asks for, once its arguments are accepted.
#[derive(Clone, Debug, PartialEq, Eq)]
pub struct RunCommand {
    pub fake_mode: bool,
    pub request_id: String,
    pub run_id: String,
    pub fencing_token: String,
    pub model: String,
    pub effort: String,
    pub prompt_file: String,
    pub files: Vec<String>,
    pub provider: ParsedProviderMode,
    /// `None` where the runtime is not started (fake mode).
    pub runtime_start_timeout_ms: Option<u64>,
    /// `None` where releasing the runtime only drops its lock (fake mode).
    pub runtime_stop_timeout_ms: Option<u64>,
    /// The pre-send visual gate, the pre-poll wait gate and the artifact
    /// download after polling, which run only against a live provider.
    pub live_gates: bool,
    pub artifact_expectation: ArtifactExpectation,
    pub ttl_ms: u64,
    pub send_process_timeout_ms: u64,
    pub poll_timeout_seconds: u64,
    pub poll_process_timeout_ms: u64,
    pub max_stdout_bytes: usize,
    pub max_stderr_bytes: usize,
    /// The prompt given inline on the legacy surface.
    pub legacy_prompt: Option<String>,
}

// ---------------------------------------------------------------- the checks, in order

/// Why `run` refuses its arguments before it looks at any file.
pub open spec fn run_early_problem(args: Seq<String>) -> Option<Seq<char>> {
    let request = non_empty_value(args, "--request-id"@);
    let run = non_empty_value(args, "--run-id"@);
    let token = non_empty_value(args, "--fencing-token"@);
    let model = non_empty_value(args, "--model"@);
    if !has_arg(args, "--json"@) {
        Some("run requires --json"@)
    } else if unknown_option_from(args, 0) is Some {
        Some("unknown option: "@ + unknown_option_from(args, 0)->0)
    } else if run_mode_problem(args) is Some {
        run_mode_problem(args)
    } else if request is None {
        Some("run requires "@ + "--request-id"@)
    } else if run is None {
        Some("run requires "@ + "--run-id"@)
    } else if token is None {
        Some("run requires "@ + "--fencing-token"@)
    } else if !is_general_id(request->0) {
        Some("invalid "@ + "--request-id"@ + ": "@ + request->0)
    } else if !is_general_id(run->0) {
        Some("invalid "@ + "--run-id"@ + ": "@ + run->0)
    } else if !is_text(token->0, 4096) {
        Some("invalid "@ + "--fencing-token"@ + ": expected 1..4096 UTF-8 bytes without NUL"@)
    } else if model is None {
        Some("run requires "@ + "--model"@)
    } else if model_effort_of(model->0, option_value_of(args, "--effort"@)) is Err {
        Some(model_effort_of(model->0, option_value_of(args, "--effort"@))->Err_0)
    } else if non_empty_value(args, "--prompt-file"@) is None {
        Some("run requires "@ + "--prompt-file"@)
    } else {
        None
    }
}

/// Why a retired option is refused: it may only carry its compatibility value.
pub open spec fn literal_problem(args: Seq<String>, name: Seq<char>, expected: u64) -> Option<
    Seq<char>,
> {
    match option_value_of(args, name) {
        None => None,
        Some(v) => if decimal_problem(name, v) is Some {
            decimal_problem(name, v)
        } else if decimal_value(v) != expected {
            Some(name + " accepts only the compatibility literal "@ + decimal(expected as nat))
        } else {
            None
        },
    }
}

pub open spec fn poll_seconds_of(args: Seq<String>) -> u64 {
    bounded_value(option_value_of(args, "--poll-timeout-seconds"@), 300)
}

/// The least provider timeout a run may set: the poll deadline, and never
/// under 320 s.
pub open spec fn provider_floor(poll_seconds: u64) -> u64 {
    if 200_000 + poll_seconds * 1000 > 320_000 {
        (200_000 + poll_seconds * 1000) as u64
    } else {
        320_000
    }
}

/// Why `run` refuses its timing options or its provider, once the files are
/// found.
pub open spec fn run_middle_problem(args: Seq<String>) -> Option<Seq<char>> {
    let fake = has_arg(args, "--fake-runtime"@);
    let poll = option_value_of(args, "--poll-timeout-seconds"@);
    let timeout = option_value_of(args, "--provider-timeout-ms"@);
    if literal_problem(args, "--ttl-ms"@, 300_000) is Some {
        literal_problem(args, "--ttl-ms"@, 300_000)
    } else if literal_problem(args, "--send-timeout-ms"@, 30_000) is Some {
        literal_problem(args, "--send-timeout-ms"@, 30_000)
    } else if bounded_problem("--poll-timeout-seconds"@, poll, MAX_POLL_SECONDS) is Some {
        bounded_problem("--poll-timeout-seconds"@, poll, MAX_POLL_SECONDS)
    } else if provider_timeout_problem(timeout, provider_floor(poll_seconds_of(args)), "run"@) is Some {
        provider_timeout_problem(timeout, provider_floor(poll_seconds_of(args)), "run"@)
    } else if fake && non_empty_value(args, "--provider-bin"@) is None {
        Some("run requires "@ + "--provider-bin"@)
    } else if !fake && !(has_arg(args, "--live-send"@) && has_arg(args, "--require-visual-gate"@)) {
        Some("docker run requires --live-send --require-visual-gate"@)
    } else {
        None
    }
}

/// Why `run` refuses the rest of its arguments, once its executable is found.
pub open spec fn run_late_problem(args: Seq<String>) -> Option<Seq<char>> {
    let fake = has_arg(args, "--fake-runtime"@);
    let root = option_value_of(args, "--artifact-container-root"@);
    let start = option_value_of(args, "--runtime-start-timeout-ms"@);
    let stop = option_value_of(args, "--runtime-stop-timeout-ms"@);
    let expectation = option_value_of(args, "--artifact-expectation"@);
    let stdout = option_value_of(args, "--max-stdout-bytes"@);
    let stderr = option_value_of(args, "--max-stderr-bytes"@);
    if !fake && root is Some && !is_absolute(root->0) {
        Some("--artifact-container-root"@ + " must be an absolute container path: "@ + root->0)
    } else if !fake && bounded_problem("--runtime-start-timeout-ms"@, start, MAX_DURATION) is Some {
        bounded_problem("--runtime-start-timeout-ms"@, start, MAX_DURATION)
    } else if !fake && bounded_problem("--runtime-stop-timeout-ms"@, stop, MAX_DURATION) is Some {
        bounded_problem("--runtime-stop-timeout-ms"@, stop, MAX_DURATION)
    } else if expectation is None {
        Some("run requires --artifact-expectation"@)
    } else if expectation_named(expectation->0) is None {
        Some(
            "unsupported --artifact-expectation: "@ + expectation->0
                + "; expected none, optional, required, or claimed"@,
        )
    } else if bounded_problem("--max-stdout-bytes"@, stdout, MAX_BYTE_CAP) is Some {
        bounded_problem("--max-stdout-bytes"@, stdout, MAX_BYTE_CAP)
    } else {
        bounded_problem("--max-stderr-bytes"@, stderr, MAX_BYTE_CAP)
    }
}

/// The first problem after the file checks.
pub open spec fn run_problem_after_files(args: Seq<String>) -> Option<Seq<char>> {
    if run_middle_problem(args) is Some {
        run_middle_problem(args)
    } else {
        run_late_problem(args)
    }
}

/// The executable `run` checks, with the option it came from, if any.
pub open spec fn run_executable(args: Seq<String>) -> Option<(Seq<char>, Seq<char>)> {
    if has_arg(args, "--fake-runtime"@) {
        Some((non_empty_value(args, "--provider-bin"@)->0, "--provider-bin"@))
    } else if option_value_of(args, "--docker-bin"@) is Some {
        Some((option_value_of(args, "--docker-bin"@)->0, "--docker-bin"@))
    } else {
        None
    }
}

/// The files `run` checks: the prompt file, then each `--file`.
pub open spec fn run_file_checked(args: Seq<String>, path: Seq<char>, name: Seq<char>) -> bool {
    ||| (name == "--prompt-file"@ && path == non_empty_value(args, "--prompt-file"@)->0)
    ||| (name == "--file"@ && values_after_from(args, "--file"@, 0).contains(path))
}

/// `check_file` answered `Ok` for the file `path` under the option `name`.
pub open spec fn file_accepted<G: Fn(&str, &str) -> Result<(), LifecycleError>>(
    check_file: G,
    path: Seq<char>,
    name: &str,
) -> bool {
    exists|p: &str| p@ == path && #[trigger] check_file.ensures((p, name), Ok(()))
}

/// `check_file` answered `Err(e)` for the file `path` under the option `name`.
pub open spec fn file_refused_with<G: Fn(&str, &str) -> Result<(), LifecycleError>>(
    check_file: G,
    path: Seq<char>,
    name: &str,
    e: LifecycleError,
) -> bool {
    exists|p: &str| p@ == path && #[trigger] check_file.ensures((p, name), Err(e))
}

/// `e` is what `check_file` answered for one of the files `run` checks.
pub open spec fn file_refused<G: Fn(&str, &str) -> Result<(), LifecycleError>>(
    check_file: G,
    args: Seq<String>,
    e: LifecycleError,
) -> bool {
    exists|p: &str, n: &str|
        #[trigger] check_file.ensures((p, n), Err(e)) && run_file_checked(args, p@, n@)
}

/// `e` is what `check_executable` answered for the executable `run` checks.
pub open spec fn run_executable_refused<F: Fn(&str, &str) -> Result<(), LifecycleError>>(
    check_executable: F,
    args: Seq<String>,
    e: LifecycleError,
) -> bool {
    exists|p: &str, n: &str|
        #[trigger] check_executable.ensures((p, n), Err(e)) && run_executable(args) == Some(
            (p@, n@),
        )
}

/// Neither checker can refuse what `run` asks it about.
pub open spec fn run_checks_accept<
    F: Fn(&str, &str) -> Result<(), LifecycleError>,
    G: Fn(&str, &str) -> Result<(), LifecycleError>,
>(check_executable: F, check_file: G, args: Seq<String>) -> bool {
    &&& forall|p: &str, n: &str, e: LifecycleError|
        #[trigger] check_file.ensures((p, n), Err(e)) ==> !run_file_checked(args, p@, n@)
    &&& forall|p: &str, n: &str, e: LifecycleError|
        #[trigger] check_executable.ensures((p, n), Err(e)) ==> run_executable(args) != Some(
            (p@, n@),
        )
}

/// The files a run attaches, as given.
pub open spec fn files_match(files: Seq<String>, args: Seq<String>) -> bool {
    let given = values_after_from(args, "--file"@, 0);
    &&& files.len() == given.len()
    &&& forall|k: int| 0 <= k < files.len() ==> #[trigger] files[k]@ == given[k]
}

/// The provider timeout override, if one is given.
pub open spec fn timeout_override_of(args: Seq<String>) -> Option<u64> {
    match option_value_of(args, "--provider-timeout-ms"@) {
        None => None,
        Some(v) => Some(decimal_value(v) as u64),
    }
}

/// The run an accepted command line describes.
pub open spec fn run_command_matches(c: RunCommand, args: Seq<String>) -> bool {
    let fake = has_arg(args, "--fake-runtime"@);
    let poll = poll_seconds_of(args);
    let model = non_empty_value(args, "--model"@)->0;
    &&& c.fake_mode == fake
    &&& c.request_id@ == non_empty_value(args, "--request-id"@)->0
    &&& c.run_id@ == non_empty_value(args, "--run-id"@)->0
    &&& c.fencing_token@ == non_empty_value(args, "--fencing-token"@)->0
    &&& c.model@ == model
    &&& c.effort@ == model_effort_of(model, option_value_of(args, "--effort"@))->Ok_0
    &&& c.prompt_file@ == non_empty_value(args, "--prompt-file"@)->0
    &&& files_match(c.files@, args)
    &&& (if fake {
        c.provider matches ParsedProviderMode::Fake { provider_bin } && provider_bin@
            == non_empty_value(args, "--provider-bin"@)->0
    } else {
        c.provider matches ParsedProviderMode::Docker { docker_bin, artifact_container_root }
            && docker_bin@ == docker_bin_of(args) && artifact_container_root@ == (match option_value_of(
            args,
            "--artifact-container-root"@,
        ) {
            Some(v) => v,
            None => "/broker-artifacts"@,
        })
    })
    &&& c.runtime_start_timeout_ms == (if fake {
        None
    } else {
        Some(bounded_value(option_value_of(args, "--runtime-start-timeout-ms"@), 30_000))
    })
    &&& c.runtime_stop_timeout_ms == (if fake {
        None
    } else {
        Some(bounded_value(option_value_of(args, "--runtime-stop-timeout-ms"@), 30_000))
    })
    &&& c.live_gates == !fake
    &&& Some(c.artifact_expectation) == expectation_named(
        option_value_of(args, "--artifact-expectation"@)->0,
    )
    &&& c.ttl_ms == 300_000
    &&& c.poll_timeout_seconds == poll
    &&& c.send_process_timeout_ms == (match timeout_override_of(args) {
        Some(t) => t,
        None => 65_000,
    })
    &&& c.poll_process_timeout_ms == (match timeout_override_of(args) {
        Some(t) => t,
        None => (170_000 + poll * 1000 + 30_000) as u64,
    })
    &&& c.max_stdout_bytes == bounded_value(option_value_of(args, "--max-stdout-bytes"@), 1_048_576)
    &&& c.max_stderr_bytes == bounded_value(option_value_of(args, "--max-stderr-bytes"@), 262_144)
    &&& c.legacy_prompt is None
}

// ---------------------------------------------------------------- parsing

/// What `run` knows once its arguments pass the first checks.
struct RunStart {
    fake_mode: bool,
    request_id: String,
    run_id: String,
    fencing_token: String,
    model: String,
    effort: String,
    prompt_file: String,
}

spec fn start_matches(s: RunStart, args: Seq<String>) -> bool {
    let model = non_empty_value(args, "--model"@)->0;
    &&& s.fake_mode == has_arg(args, "--fake-runtime"@)
    &&& s.request_id@ == non_empty_value(args, "--request-id"@)->0
    &&& s.run_id@ == non_empty_value(args, "--run-id"@)->0
    &&& s.fencing_token@ == non_empty_value(args, "--fencing-token"@)->0
    &&& s.model@ == model
    &&& s.effort@ == model_effort_of(model, option_value_of(args, "--effort"@))->Ok_0
    &&& s.prompt_file@ == non_empty_value(args, "--prompt-file"@)->0
}

fn run_start(args: &[String]) -> (r: Result<RunStart, LifecycleError>)
    ensures
        match run_early_problem(args@) {
            Some(m) => is_usage(r, m),
            None => r matches Ok(s) && start_matches(s, args@),
        },
{
    match require_json(args) {
        Ok(_) => {},
        Err(e) => return Err(e),
    }
    match reject_unknown_options(args) {
        Ok(_) => {},
        Err(e) => return Err(e),
    }
    let fake_mode = match provider_mode(args) {
        Ok(f) => f,
        Err(e) => return Err(e),
    };
    let request_id = match required_value(args, "--request-id") {
        Ok(v) => v,
        Err(e) => return Err(e),
    };
    let run_id = match required_value(args, "--run-id") {
        Ok(v) => v,
        Err(e) => return Err(e),
    };
    let fencing_token = match required_value(args, "--fencing-token") {
        Ok(v) => v,
        Err(e) => return Err(e),
    };
    match validate_request_id(request_id.as_str(), "--request-id") {
        Ok(_) => {},
        Err(e) => return Err(e),
    }
    match validate_run_id(run_id.as_str(), "--run-id") {
        Ok(_) => {},
        Err(e) => return Err(e),
    }
    match validate_non_empty_text(fencing_token.as_str(), "--fencing-token") {
        Ok(_) => {},
        Err(e) => return Err(e),
    }
    let (model, effort) = match model_effort(args) {
        Ok(pair) => pair,
        Err(e) => return Err(e),
    };
    let prompt_file = match required_path(args, "--prompt-file") {
        Ok(v) => v,
        Err(e) => return Err(e),
    };
    Ok(RunStart { fake_mode, request_id, run_id, fencing_token, model, effort, prompt_file })
}

/// Asks `check_file` about the prompt file and then about each `--file`.
fn check_run_files<G: Fn(&str, &str) -> Result<(), LifecycleError>>(
    args: &[String],
    prompt_file: &String,
    files: &Vec<String>,
    check_file: &G,
) -> (r: Result<(), LifecycleError>)
    requires
        forall|p: &str, n: &str| #[trigger] check_file.requires((p, n)),
        prompt_file@ == non_empty_value(args@, "--prompt-file"@)->0,
        files_match(files@, args@),
    ensures
        r matches Err(e) ==> file_refused(*check_file, args@, e),
        (forall|p: &str, n: &str, e: LifecycleError|
            #[trigger] check_file.ensures((p, n), Err(e)) ==> !run_file_checked(args@, p@, n@))
            ==> r is Ok,
        r is Ok ==> file_accepted(*check_file, prompt_file@, "--prompt-file") && forall|k: int|
            0 <= k < files@.len() ==> file_accepted(*check_file, (#[trigger] files@[k])@, "--file"),
        r matches Err(e) ==> file_refused_with(*check_file, prompt_file@, "--prompt-file", e) || (
        file_accepted(*check_file, prompt_file@, "--prompt-file") && exists|k: int|
            0 <= k < files@.len() && (forall|j: int|
                0 <= j < k ==> file_accepted(*check_file, (#[trigger] files@[j])@, "--file"))
                && file_refused_with(*check_file, (#[trigger] files@[k])@, "--file", e)),
{
    let path = prompt_file.as_str();
    let answer = check_file(path, "--prompt-file");
    match answer {
        Ok(u) => {
            assert(check_file.ensures((path, "--prompt-file"), answer));
            assert(u == ());
            assert(answer == Ok::<(), LifecycleError>(()));
            assert(file_accepted(*check_file, prompt_file@, "--prompt-file"));
        },
        Err(e) => {
            assert(check_file.ensures((path, "--prompt-file"), Err(e)));
            assert(run_file_checked(args@, path@, "--prompt-file"@));
            assert(file_refused_with(*check_file, prompt_file@, "--prompt-file", e));
            return Err(e);
        },
    }
    let mut k: usize = 0;
    while k < files.len()
        invariant
            forall|p: &str, n: &str| #[trigger] check_file.requires((p, n)),
            files_match(files@, args@),
            k <= files@.len(),
            file_accepted(*check_file, prompt_file@, "--prompt-file"),
            forall|j: int|
                0 <= j < k ==> file_accepted(*check_file, (#[trigger] files@[j])@, "--file"),
        decreases files.len() - k,
    {
        let path = files[k].as_str();
        let answer = check_file(path, "--file");
        match answer {
            Ok(u) => {
                assert(check_file.ensures((path, "--file"), answer));
                assert(u == ());
                assert(answer == Ok::<(), LifecycleError>(()));
                assert(file_accepted(*check_file, files@[k as int]@, "--file"));
            },
            Err(e) => {
                assert(check_file.ensures((path, "--file"), Err(e)));
                assert(values_after_from(args@, "--file"@, 0)[k as int] == path@);
                assert(run_file_checked(args@, path@, "--file"@));
                assert(file_refused_with(*check_file, files@[k as int]@, "--file", e));
                return Err(e);
            },
        }
        k += 1;
    }
    Ok(())
}

/// The poll timeout and the provider timeout override of a run.
fn run_timing(args: &[String]) -> (r: Result<(u64, Option<u64>), LifecycleError>)
    ensures
        ({
            let poll = option_value_of(args@, "--poll-timeout-seconds"@);
            let timeout = option_value_of(args@, "--provider-timeout-ms"@);
            if literal_problem(args@, "--ttl-ms"@, 300_000) is Some {
                is_usage(r, literal_problem(args@, "--ttl-ms"@, 300_000)->0)
            } else if literal_problem(args@, "--send-timeout-ms"@, 30_000) is Some {
                is_usage(r, literal_problem(args@, "--send-timeout-ms"@, 30_000)->0)
            } else if bounded_problem("--poll-timeout-seconds"@, poll, MAX_POLL_SECONDS) is Some {
                is_usage(r, bounded_problem("--poll-timeout-seconds"@, poll, MAX_POLL_SECONDS)->0)
            } else if provider_timeout_problem(
                timeout,
                provider_floor(poll_seconds_of(args@)),
                "run"@,
            ) is Some {
                is_usage(
                    r,
                    provider_timeout_problem(timeout, provider_floor(poll_seconds_of(args@)), "run"@)->0,
                )
            } else {
                r == Ok::<(u64, Option<u64>), LifecycleError>(
                    (poll_seconds_of(args@), timeout_override_of(args@)),
                )
            }
        }),
{
    match validate_compatibility_literal(args, "--ttl-ms", 300_000) {
        Ok(_) => {},
        Err(e) => return Err(e),
    }
    match validate_compatibility_literal(args, "--send-timeout-ms", 30_000) {
        Ok(_) => {},
        Err(e) => return Err(e),
    }
    let poll = match parse_poll_seconds(args, 300) {
        Ok(v) => v,
        Err(e) => return Err(e),
    };
    let deadline = 200_000 + poll * 1000;
    let floor = if deadline > 320_000 {
        deadline
    } else {
        320_000
    };
    let over = match validate_provider_timeout_minimum(args, floor, "run") {
        Ok(v) => v,
        Err(e) => return Err(e),
    };
    Ok((poll, over))
}

/// What `run` settles after its timing: the provider, the runtime timeouts,
/// the artifact expectation and the output caps.
struct RunRest {
    provider: ParsedProviderMode,
    start: Option<u64>,
    stop: Option<u64>,
    expectation: ArtifactExpectation,
    stdout: usize,
    stderr: usize,
}

spec fn provider_gate_problem(args: Seq<String>) -> Option<Seq<char>> {
    let fake = has_arg(args, "--fake-runtime"@);
    if fake && non_empty_value(args, "--provider-bin"@) is None {
        Some("run requires "@ + "--provider-bin"@)
    } else if !fake && !(has_arg(args, "--live-send"@) && has_arg(args, "--require-visual-gate"@)) {
        Some("docker run requires --live-send --require-visual-gate"@)
    } else {
        None
    }
}

spec fn rest_matches(x: RunRest, args: Seq<String>) -> bool {
    let fake = has_arg(args, "--fake-runtime"@);
    &&& (if fake {
        x.provider matches ParsedProviderMode::Fake { provider_bin } && provider_bin@
            == non_empty_value(args, "--provider-bin"@)->0
    } else {
        x.provider matches ParsedProviderMode::Docker { docker_bin, artifact_container_root }
            && docker_bin@ == docker_bin_of(args) && artifact_container_root@ == (match option_value_of(
            args,
            "--artifact-container-root"@,
        ) {
            Some(v) => v,
            None => "/broker-artifacts"@,
        })
    })
    &&& x.start == (if fake {
        None
    } else {
        Some(bounded_value(option_value_of(args, "--runtime-start-timeout-ms"@), 30_000))
    })
    &&& x.stop == (if fake {
        None
    } else {
        Some(bounded_value(option_value_of(args, "--runtime-stop-timeout-ms"@), 30_000))
    })
    &&& Some(x.expectation) == expectation_named(option_value_of(args, "--artifact-expectation"@)->0)
    &&& x.stdout == bounded_value(option_value_of(args, "--max-stdout-bytes"@), 1_048_576)
    &&& x.stderr == bounded_value(option_value_of(args, "--max-stderr-bytes"@), 262_144)
}

fn run_rest<F: Fn(&str, &str) -> Result<(), LifecycleError>>(
    args: &[String],
    fake_mode: bool,
    check_executable: &F,
) -> (r: Result<RunRest, LifecycleError>)
    requires
        forall|p: &str, n: &str| #[trigger] check_executable.requires((p, n)),
        fake_mode == has_arg(args@, "--fake-runtime"@),
    ensures
        match provider_gate_problem(args@) {
            Some(m) => is_usage(r, m),
            None => {
                &&& r matches Ok(x) ==> run_late_problem(args@) is None && rest_matches(x, args@)
                &&& r matches Err(e) ==> run_executable_refused(*check_executable, args@, e) || (
                run_late_problem(args@) matches Some(m) && is_usage(r, m))
                &&& (forall|p: &str, n: &str, e: LifecycleError|
                    #[trigger] check_executable.ensures((p, n), Err(e)) ==> run_executable(args@)
                        != Some((p@, n@))) ==> match run_late_problem(args@) {
                    Some(m) => is_usage(r, m),
                    None => r is Ok,
                }
            },
        },
{
    let provider = if fake_mode {
        let provider_bin = match required_path(args, "--provider-bin") {
            Ok(v) => v,
            Err(e) => return Err(e),
        };
        let path = provider_bin.as_str();
        match check_executable(path, "--provider-bin") {
            Ok(_) => {},
            Err(e) => {
                assert(check_executable.ensures((path, "--provider-bin"), Err(e)));
                return Err(e);
            },
        }
        ParsedProviderMode::Fake { provider_bin }
    } else {
        match require_live_docker_gate(args) {
            Ok(_) => {},
            Err(e) => return Err(e),
        }
        match option_value(args, "--docker-bin") {
            Some(v) => {
                let path = v.as_str();
                match check_executable(path, "--docker-bin") {
                    Ok(_) => {},
                    Err(e) => {
                        assert(check_executable.ensures((path, "--docker-bin"), Err(e)));
                        return Err(e);
                    },
                }
            },
            None => {},
        }
        let root = match option_value(args, "--artifact-container-root") {
            Some(v) => {
                match validate_absolute_container_path(v.as_str(), "--artifact-container-root") {
                    Ok(_) => {},
                    Err(e) => return Err(e),
                }
                v
            },
            None => "/broker-artifacts".to_string(),
        };
        ParsedProviderMode::Docker { docker_bin: docker_bin(args), artifact_container_root: root }
    };
    let start = if fake_mode {
        None
    } else {
        match parse_duration(args, "--runtime-start-timeout-ms", 30_000) {
            Ok(v) => Some(v),
            Err(e) => return Err(e),
        }
    };
    let stop = if fake_mode {
        None
    } else {
        match parse_duration(args, "--runtime-stop-timeout-ms", 30_000) {
            Ok(v) => Some(v),
            Err(e) => return Err(e),
        }
    };
    let expectation = match artifact_expectation(args) {
        Ok(v) => v,
        Err(e) => return Err(e),
    };
    let stdout = match parse_byte_cap(args, "--max-stdout-bytes", 1_048_576) {
        Ok(v) => v,
        Err(e) => return Err(e),
    };
    let stderr = match parse_byte_cap(args, "--max-stderr-bytes", 262_144) {
        Ok(v) => v,
        Err(e) => return Err(e),
    };
    Ok(RunRest { provider, start, stop, expectation, stdout, stderr })
}

/// Parses a `run` command line of the JSON surface. `check_file` checks that
/// a path names an existing regular file (asked about `--prompt-file` and each
/// `--file`); `check_executable` checks an executable (asked about
/// `--provider-bin` in fake mode and about an explicit `--docker-bin`).
pub fn parse_run_command<
    F: Fn(&str, &str) -> Result<(), LifecycleError>,
    G: Fn(&str, &str) -> Result<(), LifecycleError>,
>(args: &[String], check_executable: F, check_file: G) -> (r: Result<RunCommand, LifecycleError>)
    requires
        forall|p: &str, n: &str| #[trigger] check_executable.requires((p, n)),
        forall|p: &str, n: &str| #[trigger] check_file.requires((p, n)),
    ensures
        match run_early_problem(args@) {
            Some(m) => is_usage(r, m),
            None => {
                &&& r matches Ok(c) ==> run_problem_after_files(args@) is None
                    && run_command_matches(c, args@)
                &&& r matches Err(e) ==> file_refused(check_file, args@, e)
                    || run_executable_refused(check_executable, args@, e) || (
                run_problem_after_files(args@) matches Some(m) && is_usage(r, m))
                &&& run_checks_accept(check_executable, check_file, args@) ==> match run_problem_after_files(
                    args@,
                ) {
                    Some(m) => is_usage(r, m),
                    None => r is Ok,
                }
            },
        },
{
    let start = match run_start(args) {
        Ok(s) => s,
        Err(e) => return Err(e),
    };
    let files = values_after(args, "--file");
    match check_run_files(args, &start.prompt_file, &files, &check_file) {
        Ok(_) => {},
        Err(e) => return Err(e),
    }
    let (poll, over) = match run_timing(args) {
        Ok(t) => t,
        Err(e) => return Err(e),
    };
    let rest = match run_rest(args, start.fake_mode, &check_executable) {
        Ok(x) => x,
        Err(e) => return Err(e),
    };
    let send_process_timeout_ms = match over {
        Some(t) => t,
        None => 65_000,
    };
    let poll_process_timeout_ms = match over {
        Some(t) => t,
        None => 170_000 + poll * 1000 + 30_000,
    };
    Ok(
        RunCommand {
            fake_mode: start.fake_mode,
            request_id: start.request_id,
            run_id: start.run_id,
            fencing_token: start.fencing_token,
            model: start.model,
            effort: start.effort,
            prompt_file: start.prompt_file,
            files,
            provider: rest.provider,
            runtime_start_timeout_ms: rest.start,
            runtime_stop_timeout_ms: rest.stop,
            live_gates: !start.fake_mode,
            artifact_expectation: rest.expectation,
            ttl_ms: 300_000,
            send_process_timeout_ms,
            poll_timeout_seconds: poll,
            poll_process_timeout_ms,
            max_stdout_bytes: rest.stdout,
            max_stderr_bytes: rest.stderr,
            legacy_prompt: None,
        },
    )
}

// ---------------------------------------------------------------- the legacy surface

/// The options of the legacy surface; each takes a value.
pub open spec fn legacy_option_names() -> Seq<Seq<char>> {
    seq![
        "--kind"@,
        "--prompt"@,
        "--file"@,
        "--docker-bin"@,
        "--artifact-container-root"@,
        "--artifact-expectation"@,
        "--request-id"@,
        "--run-id"@,
        "--fencing-token"@,
        "--ttl-ms"@,
        "--send-timeout-ms"@,
        "--provider-timeout-ms"@,
        "--poll-timeout-seconds"@,
        "--max-stdout-bytes"@,
        "--max-stderr-bytes"@,
        "--runtime-stop-timeout-ms"@,
        "--runtime-start-timeout-ms"@,
    ]
}

/// An identifier of a legacy run: the option's value, or `prefix` and the
/// run's nonce.
pub open spec fn legacy_id(args: Seq<String>, name: Seq<char>, prefix: Seq<char>, nonce: Seq<char>) -> Seq<char> {
    match option_value_of(args, name) {
        Some(v) => v,
        None => prefix + nonce,
    }
}

/// Why the legacy surface refuses its arguments before it looks at any file.
pub open spec fn legacy_early_problem(args: Seq<String>, nonce: Seq<char>) -> Option<Seq<char>> {
    let unknown = unlisted_option_from(args, legacy_option_names(), legacy_option_names(), 0);
    let kind = option_value_of(args, "--kind"@);
    let prompt = option_value_of(args, "--prompt"@);
    let request = legacy_id(args, "--request-id"@, "req-"@, nonce);
    let run = legacy_id(args, "--run-id"@, "run-"@, nonce);
    let token = legacy_id(args, "--fencing-token"@, "fence-"@, nonce);
    if unknown is Some {
        Some("unknown option: "@ + unknown->0)
    } else if kind is None {
        Some("run requires --kind pro|xhigh"@)
    } else if kind->0 != "pro"@ && kind->0 != "xhigh"@ {
        Some("unsupported run kind: "@ + kind->0)
    } else if prompt is None {
        Some("run requires --prompt PROMPT"@)
    } else if !is_text(prompt->0, 4096) {
        Some("invalid "@ + "--prompt"@ + ": expected 1..4096 UTF-8 bytes without NUL"@)
    } else if !is_general_id(request) {
        Some("invalid "@ + "--request-id"@ + ": "@ + request)
    } else if !is_general_id(run) {
        Some("invalid "@ + "--run-id"@ + ": "@ + run)
    } else if !is_text(token, 4096) {
        Some("invalid "@ + "--fencing-token"@ + ": expected 1..4096 UTF-8 bytes without NUL"@)
    } else if literal_problem(args, "--ttl-ms"@, 300_000) is Some {
        literal_problem(args, "--ttl-ms"@, 300_000)
    } else if literal_problem(args, "--send-timeout-ms"@, 30_000) is Some {
        literal_problem(args, "--send-timeout-ms"@, 30_000)
    } else {
        None
    }
}

/// The poll timeout of a legacy run: `--poll-timeout-seconds`, or the kind's
/// environment value (a positive number) or 300, at most 10800.
pub open spec fn legacy_poll_of(args: Seq<String>, env: Option<Seq<char>>) -> u64 {
    if option_value_of(args, "--poll-timeout-seconds"@) is Some {
        bounded_value(option_value_of(args, "--poll-timeout-seconds"@), 300)
    } else {
        let v = positive_u64_or(env, 300);
        if v > 10_800 {
            10_800u64
        } else {
            v
        }
    }
}

/// Why the legacy surface refuses its container root or poll timeout, once
/// the Docker binary is found.
pub open spec fn legacy_middle_problem(args: Seq<String>) -> Option<Seq<char>> {
    let root = option_value_of(args, "--artifact-container-root"@);
    let poll = option_value_of(args, "--poll-timeout-seconds"@);
    if root is Some && !is_absolute(root->0) {
        Some("--artifact-container-root"@ + " must be an absolute container path: "@ + root->0)
    } else if poll is Some && bounded_problem("--poll-timeout-seconds"@, poll, MAX_POLL_SECONDS) is Some {
        bounded_problem("--poll-timeout-seconds"@, poll, MAX_POLL_SECONDS)
    } else {
        None
    }
}

/// Why the legacy surface refuses the rest of its arguments, once the files
/// are found.
pub open spec fn legacy_late_problem(args: Seq<String>, env: Option<Seq<char>>) -> Option<Seq<char>> {
    let timeout = option_value_of(args, "--provider-timeout-ms"@);
    let floor = provider_floor(legacy_poll_of(args, env));
    let start = option_value_of(args, "--runtime-start-timeout-ms"@);
    let stop = option_value_of(args, "--runtime-stop-timeout-ms"@);
    let expectation = option_value_of(args, "--artifact-expectation"@);
    let stdout = option_value_of(args, "--max-stdout-bytes"@);
    let stderr = option_value_of(args, "--max-stderr-bytes"@);
    if provider_timeout_problem(timeout, floor, "run"@) is Some {
        provider_timeout_problem(timeout, floor, "run"@)
    } else if bounded_problem("--runtime-start-timeout-ms"@, start, MAX_DURATION) is Some {
        bounded_problem("--runtime-start-timeout-ms"@, start, MAX_DURATION)
    } else if bounded_problem("--runtime-stop-timeout-ms"@, stop, MAX_DURATION) is Some {
        bounded_problem("--runtime-stop-timeout-ms"@, stop, MAX_DURATION)
    } else if expectation is Some && expectation_named(expectation->0) is None {
        Some(
            "unsupported --artifact-expectation: "@ + expectation->0
                + "; expected none, optional, required, or claimed"@,
        )
    } else if bounded_problem("--max-stdout-bytes"@, stdout, MAX_BYTE_CAP) is Some {
        bounded_problem("--max-stdout-bytes"@, stdout, MAX_BYTE_CAP)
    } else {
        bounded_problem("--max-stderr-bytes"@, stderr, MAX_BYTE_CAP)
    }
}

struct LegacyStart {
    model: String,
    effort: String,
    prompt: String,
    request_id: String,
    run_id: String,
    fencing_token: String,
}

spec fn legacy_start_matches(x: LegacyStart, args: Seq<String>, nonce: Seq<char>) -> bool {
    let kind = option_value_of(args, "--kind"@)->0;
    &&& x.model@ == kind
    &&& x.effort@ == (if kind == "pro"@ {
        "standard"@
    } else {
        "high"@
    })
    &&& x.prompt@ == option_value_of(args, "--prompt"@)->0
    &&& x.request_id@ == legacy_id(args, "--request-id"@, "req-"@, nonce)
    &&& x.run_id@ == legacy_id(args, "--run-id"@, "run-"@, nonce)
    &&& x.fencing_token@ == legacy_id(args, "--fencing-token"@, "fence-"@, nonce)
}

fn legacy_id_value(args: &[String], name: &str, prefix: &str, nonce: &str) -> (r: String)
    ensures
        r@ == legacy_id(args@, name@, prefix@, nonce@),
{
    match option_value(args, name) {
        Some(v) => v,
        None => concat2(prefix, nonce),
    }
}

fn legacy_start(args: &[String], nonce: &str) -> (r: Result<LegacyStart, LifecycleError>)
    ensures
        match legacy_early_problem(args@, nonce@) {
            Some(m) => is_usage(r, m),
            None => r matches Ok(x) && legacy_start_matches(x, args@, nonce@),
        },
{
    let (allowed, with_value) = legacy_options();
    match reject_unlisted_options(args, &allowed, &with_value) {
        Ok(_) => {},
        Err(e) => return Err(e),
    }
    let kind = match option_value(args, "--kind") {
        Some(k) => k,
        None => return Err(super::usage_error("run requires --kind pro|xhigh".to_string())),
    };
    let (model, effort) = match legacy_model_effort(kind.as_str()) {
        Ok(pair) => pair,
        Err(e) => return Err(e),
    };
    let prompt = match option_value(args, "--prompt") {
        Some(p) => p,
        None => return Err(super::usage_error("run requires --prompt PROMPT".to_string())),
    };
    match validate_non_empty_text(prompt.as_str(), "--prompt") {
        Ok(_) => {},
        Err(e) => return Err(e),
    }
    let request_id = legacy_id_value(args, "--request-id", "req-", nonce);
    let run_id = legacy_id_value(args, "--run-id", "run-", nonce);
    let fencing_token = legacy_id_value(args, "--fencing-token", "fence-", nonce);
    match validate_request_id(request_id.as_str(), "--request-id") {
        Ok(_) => {},
        Err(e) => return Err(e),
    }
    match validate_run_id(run_id.as_str(), "--run-id") {
        Ok(_) => {},
        Err(e) => return Err(e),
    }
    match validate_non_empty_text(fencing_token.as_str(), "--fencing-token") {
        Ok(_) => {},
        Err(e) => return Err(e),
    }
    match validate_compatibility_literal(args, "--ttl-ms", 300_000) {
        Ok(_) => {},
        Err(e) => return Err(e),
    }
    match validate_compatibility_literal(args, "--send-timeout-ms", 30_000) {
        Ok(_) => {},
        Err(e) => return Err(e),
    }
    Ok(LegacyStart { model, effort, prompt, request_id, run_id, fencing_token })
}

/// `e` is what `check_executable` answered for the legacy run's explicit
/// `--docker-bin`.
pub open spec fn legacy_executable_refused<F: Fn(&str, &str) -> Result<(), LifecycleError>>(
    check_executable: F,
    args: Seq<String>,
    e: LifecycleError,
) -> bool {
    exists|p: &str, n: &str|
        #[trigger] check_executable.ensures((p, n), Err(e)) && option_value_of(args, "--docker-bin"@)
            == Some(p@) && n@ == "--docker-bin"@
}

/// `e` is what `check_file` answered for one of the legacy run's `--file`s.
pub open spec fn legacy_file_refused<G: Fn(&str, &str) -> Result<(), LifecycleError>>(
    check_file: G,
    args: Seq<String>,
    e: LifecycleError,
) -> bool {
    exists|p: &str, n: &str|
        #[trigger] check_file.ensures((p, n), Err(e)) && n@ == "--file"@ && values_after_from(
            args,
            "--file"@,
            0,
        ).contains(p@)
}

/// Neither checker can refuse what the legacy surface asks it about.
pub open spec fn legacy_checks_accept<
    F: Fn(&str, &str) -> Result<(), LifecycleError>,
    G: Fn(&str, &str) -> Result<(), LifecycleError>,
>(check_executable: F, check_file: G, args: Seq<String>) -> bool {
    &&& forall|p: &str, n: &str, e: LifecycleError|
        #[trigger] check_executable.ensures((p, n), Err(e)) ==> !(option_value_of(
            args,
            "--docker-bin"@,
        ) == Some(p@) && n@ == "--docker-bin"@)
    &&& forall|p: &str, n: &str, e: LifecycleError|
        #[trigger] check_file.ensures((p, n), Err(e)) ==> !(n@ == "--file"@ && values_after_from(
            args,
            "--file"@,
            0,
        ).contains(p@))
}

/// The first problem after the early checks, passing over the checkers.
pub open spec fn legacy_problem_after_start(args: Seq<String>, env: Option<Seq<char>>) -> Option<
    Seq<char>,
> {
    if legacy_middle_problem(args) is Some {
        legacy_middle_problem(args)
    } else {
        legacy_late_problem(args, env)
    }
}

/// The run a legacy command line describes.
pub open spec fn legacy_command_matches<H: Fn(&str) -> ArtifactExpectation>(
    c: RunCommand,
    args: Seq<String>,
    state_root: Seq<char>,
    nonce: Seq<char>,
    env: Option<Seq<char>>,
    expectation_from_prompt: H,
) -> bool {
    let kind = option_value_of(args, "--kind"@)->0;
    let prompt = option_value_of(args, "--prompt"@)->0;
    let run_id = legacy_id(args, "--run-id"@, "run-"@, nonce);
    let poll = legacy_poll_of(args, env);
    let over = timeout_override_of(args);
    &&& !c.fake_mode
    &&& c.request_id@ == legacy_id(args, "--request-id"@, "req-"@, nonce)
    &&& c.run_id@ == run_id
    &&& c.fencing_token@ == legacy_id(args, "--fencing-token"@, "fence-"@, nonce)
    &&& c.model@ == kind
    &&& c.effort@ == (if kind == "pro"@ {
        "standard"@
    } else {
        "high"@
    })
    &&& c.prompt_file@ == prompt_file_of(state_root, run_id)
    &&& files_match(c.files@, args)
    &&& c.provider matches ParsedProviderMode::Docker { docker_bin, artifact_container_root }
    &&& c.provider->docker_bin@ == docker_bin_of(args)
    &&& c.provider->artifact_container_root@ == (match option_value_of(
        args,
        "--artifact-container-root"@,
    ) {
        Some(v) => v,
        None => "/broker-artifacts"@,
    })
    &&& c.runtime_start_timeout_ms == Some(
        bounded_value(option_value_of(args, "--runtime-start-timeout-ms"@), 30_000),
    )
    &&& c.runtime_stop_timeout_ms == Some(
        bounded_value(option_value_of(args, "--runtime-stop-timeout-ms"@), 30_000),
    )
    &&& c.live_gates
    &&& (match option_value_of(args, "--artifact-expectation"@) {
        Some(v) => Some(c.artifact_expectation) == expectation_named(v),
        None => exists|p: &str|
            p@ == prompt && #[trigger] expectation_from_prompt.ensures((p,), c.artifact_expectation),
    })
    &&& c.ttl_ms == 300_000
    &&& c.poll_timeout_seconds == poll
    &&& c.send_process_timeout_ms == (match over {
        Some(t) => t,
        None => 65_000,
    })
    &&& c.poll_process_timeout_ms == (match over {
        Some(t) => t,
        None => (170_000 + poll * 1000 + 30_000) as u64,
    })
    &&& c.max_stdout_bytes == bounded_value(option_value_of(args, "--max-stdout-bytes"@), 1_048_576)
    &&& c.max_stderr_bytes == bounded_value(option_value_of(args, "--max-stderr-bytes"@), 262_144)
    &&& (c.legacy_prompt matches Some(p) && p@ == prompt)
}

/// Parses a `run` command line of the legacy surface (one without `--json`).
/// A legacy run always uses the Docker provider. `nonce` names the run where
/// its ids are not given; `env_timeout` is the value of the kind's timeout
/// variable, if set; `expectation_from_prompt` reads the artifact expectation
/// from the prompt where none is given. `check_executable` is asked about an
/// explicit `--docker-bin`, `check_file` about each `--file`.
pub fn parse_legacy_run<
    F: Fn(&str, &str) -> Result<(), LifecycleError>,
    G: Fn(&str, &str) -> Result<(), LifecycleError>,
    H: Fn(&str) -> ArtifactExpectation,
>(
    args: &[String],
    state_root: &str,
    nonce: &str,
    env_timeout: Option<&str>,
    expectation_from_prompt: H,
    check_executable: F,
    check_file: G,
) -> (r: Result<RunCommand, LifecycleError>)
    requires
        forall|p: &str, n: &str| #[trigger] check_executable.requires((p, n)),
        forall|p: &str, n: &str| #[trigger] check_file.requires((p, n)),
        forall|p: &str| #[trigger] expectation_from_prompt.requires((p,)),
    ensures
        match legacy_early_problem(args@, nonce@) {
            Some(m) => is_usage(r, m),
            None => {
                &&& r matches Ok(c) ==> legacy_problem_after_start(args@, opt_view(env_timeout)) is None
                    && legacy_command_matches(
                    c,
                    args@,
                    state_root@,
                    nonce@,
                    opt_view(env_timeout),
                    expectation_from_prompt,
                )
                &&& r matches Err(e) ==> legacy_executable_refused(check_executable, args@, e)
                    || legacy_file_refused(check_file, args@, e) || (legacy_problem_after_start(
                    args@,
                    opt_view(env_timeout),
                ) matches Some(m) && is_usage(r, m))
                &&& legacy_checks_accept(check_executable, check_file, args@) ==> match legacy_problem_after_start(
                    args@,
                    opt_view(env_timeout),
                ) {
                    Some(m) => is_usage(r, m),
                    None => r is Ok,
                }
            },
        },
{
    let start = match legacy_start(args, nonce) {
        Ok(x) => x,
        Err(e) => return Err(e),
    };
    match option_value(args, "--docker-bin") {
        Some(v) => {
            let path = v.as_str();
            match check_executable(path, "--docker-bin") {
                Ok(_) => {},
                Err(e) => {
                    assert(check_executable.ensures((path, "--docker-bin"), Err(e)));
                    return Err(e);
                },
            }
        },
        None => {},
    }
    let root = match option_value(args, "--artifact-container-root") {
        Some(v) => {
            match validate_absolute_container_path(v.as_str(), "--artifact-container-root") {
                Ok(_) => {},
                Err(e) => return Err(e),
            }
            v
        },
        None => "/broker-artifacts".to_string(),
    };
    let prompt_file = prompt_file_path(state_root, start.run_id.as_str());
    let poll = match legacy_poll_timeout_seconds(args, env_timeout) {
        Ok(v) => v,
        Err(e) => return Err(e),
    };
    let files = values_after(args, "--file");
    let mut k: usize = 0;
    while k < files.len()
        invariant
            forall|p: &str, n: &str| #[trigger] check_file.requires((p, n)),
            files_match(files@, args@),
            k <= files@.len(),
            legacy_early_problem(args@, nonce@) is None,
        decreases files.len() - k,
    {
        let path = files[k].as_str();
        match check_file(path, "--file") {
            Ok(_) => {},
            Err(e) => {
                assert(check_file.ensures((path, "--file"), Err(e)));
                assert(values_after_from(args@, "--file"@, 0)[k as int] == path@);
                assert(values_after_from(args@, "--file"@, 0).contains(path@));
                return Err(e);
            },
        }
        k += 1;
    }
    let deadline = 200_000 + poll * 1000;
    let floor = if deadline > 320_000 {
        deadline
    } else {
        320_000
    };
    let over = match validate_provider_timeout_minimum(args, floor, "run") {
        Ok(v) => v,
        Err(e) => return Err(e),
    };
    let start_ms = match parse_duration(args, "--runtime-start-timeout-ms", 30_000) {
        Ok(v) => v,
        Err(e) => return Err(e),
    };
    let stop_ms = match parse_duration(args, "--runtime-stop-timeout-ms", 30_000) {
        Ok(v) => v,
        Err(e) => return Err(e),
    };
    let expectation = match option_value(args, "--artifact-expectation") {
        Some(value) => match ArtifactExpectation::parse(value.as_str()) {
            Some(e) => e,
            None => {
                let mut m = concat2("unsupported --artifact-expectation: ", value.as_str());
                push_str(&mut m, "; expected none, optional, required, or claimed");
                return Err(super::usage_error(m));
            },
        },
        None => {
            let p = start.prompt.as_str();
            let e = expectation_from_prompt(p);
            assert(expectation_from_prompt.ensures((p,), e));
            e
        },
    };
    let stdout = match parse_byte_cap(args, "--max-stdout-bytes", 1_048_576) {
        Ok(v) => v,
        Err(e) => return Err(e),
    };
    let stderr = match parse_byte_cap(args, "--max-stderr-bytes", 262_144) {
        Ok(v) => v,
        Err(e) => return Err(e),
    };
    let send_process_timeout_ms = match over {
        Some(t) => t,
        None => 65_000,
    };
    let poll_process_timeout_ms = match over {
        Some(t) => t,
        None => 170_000 + poll * 1000 + 30_000,
    };
    Ok(
        RunCommand {
            fake_mode: false,
            request_id: start.request_id,
            run_id: start.run_id,
            fencing_token: start.fencing_token,
            model: start.model,
            effort: start.effort,
            prompt_file,
            files,
            provider: ParsedProviderMode::Docker { docker_bin: docker_bin(args), artifact_container_root: root },
            runtime_start_timeout_ms: Some(start_ms),
            runtime_stop_timeout_ms: Some(stop_ms),
            live_gates: true,
            artifact_expectation: expectation,
            ttl_ms: 300_000,
            send_process_timeout_ms,
            poll_timeout_seconds: poll,
            poll_process_timeout_ms,
            max_stdout_bytes: stdout,
            max_stderr_bytes: stderr,
            legacy_prompt: Some(start.prompt),
        },
    )
}

} // verus!
