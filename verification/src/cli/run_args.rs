use vstd::prelude::*;

use crate::artifact_claims::{expectation_named, ArtifactExpectation};
use crate::text::{concat2, push_str, str_eq};

use crate::artifacts::{safe_key, safe_key_of};
use crate::config::{join_path, path_join};
use crate::text::opt_view;

use super::options::{
    any_arg, bounded_problem, bounded_value, has_arg, non_empty_value, option_value,
    option_value_of, parse_poll_seconds, parse_u64, positive_u64_or, required_value,
    MAX_POLL_SECONDS,
};
use super::{is_usage, usage_error, usage_result, LifecycleError};

verus! {

/// Why the provider flags of `run` are refused, if they are; otherwise
/// `run` is in fake mode exactly when `--fake-runtime` is given.
pub open spec fn run_mode_problem(args: Seq<String>) -> Option<Seq<char>> {
    let fake_runtime = has_arg(args, "--fake-runtime"@);
    let fake_provider = has_arg(args, "--fake-provider"@);
    let provider_bin = has_arg(args, "--provider-bin"@);
    if !(fake_runtime == fake_provider && fake_provider == provider_bin) {
        Some("fake run requires the exact bundle --fake-runtime --fake-provider --provider-bin"@)
    } else if fake_runtime == has_arg(args, "--docker-slot-provider"@) {
        Some(
            "run requires exactly one provider mode: --fake-runtime --fake-provider or --docker-slot-provider"@,
        )
    } else if fake_runtime && (has_arg(args, "--docker-bin"@) || has_arg(
        args,
        "--artifact-container-root"@,
    ) || has_arg(args, "--live-send"@) || has_arg(args, "--require-visual-gate"@)) {
        Some("fake run forbids Docker options and live-send gates"@)
    } else {
        None
    }
}

/// Whether `run` uses the fake runtime and provider.
pub fn provider_mode(args: &[String]) -> (r: Result<bool, LifecycleError>)
    ensures
        match run_mode_problem(args@) {
            Some(m) => is_usage(r, m),
            None => r == Ok::<bool, LifecycleError>(has_arg(args@, "--fake-runtime"@)),
        },
{
    let fake_runtime = any_arg(args, "--fake-runtime");
    let fake_provider = any_arg(args, "--fake-provider");
    let provider_bin = any_arg(args, "--provider-bin");
    if !(fake_runtime == fake_provider && fake_provider == provider_bin) {
        return Err(
            usage_error(
                "fake run requires the exact bundle --fake-runtime --fake-provider --provider-bin".to_string(),
            ),
        );
    }
    let fake_mode = fake_runtime;
    let docker_mode = any_arg(args, "--docker-slot-provider");
    if fake_mode == docker_mode {
        return Err(
            usage_error(
                "run requires exactly one provider mode: --fake-runtime --fake-provider or --docker-slot-provider".to_string(),
            ),
        );
    }
    if fake_mode && (any_arg(args, "--docker-bin") || any_arg(args, "--artifact-container-root")
        || any_arg(args, "--live-send") || any_arg(args, "--require-visual-gate")) {
        return Err(usage_error("fake run forbids Docker options and live-send gates".to_string()));
    }
    Ok(fake_mode)
}

pub fn require_json(args: &[String]) -> (r: Result<(), LifecycleError>)
    ensures
        usage_result(
            r,
            if has_arg(args@, "--json"@) {
                None
            } else {
                Some("run requires --json"@)
            },
        ),
{
    if any_arg(args, "--json") {
        Ok(())
    } else {
        Err(usage_error("run requires --json".to_string()))
    }
}

pub fn require_live_docker_gate(args: &[String]) -> (r: Result<(), LifecycleError>)
    ensures
        usage_result(
            r,
            if has_arg(args@, "--live-send"@) && has_arg(args@, "--require-visual-gate"@) {
                None
            } else {
                Some("docker run requires --live-send --require-visual-gate"@)
            },
        ),
{
    if any_arg(args, "--live-send") && any_arg(args, "--require-visual-gate") {
        Ok(())
    } else {
        Err(usage_error("docker run requires --live-send --require-visual-gate".to_string()))
    }
}

/// The Docker binary: `--docker-bin`, or `docker`.
pub fn docker_bin(args: &[String]) -> (r: String)
    ensures
        r@ == (match option_value_of(args@, "--docker-bin"@) {
            Some(v) => v,
            None => "docker"@,
        }),
{
    match option_value(args, "--docker-bin") {
        Some(v) => v,
        None => "docker".to_string(),
    }
}

pub fn artifact_expectation(args: &[String]) -> (r: Result<ArtifactExpectation, LifecycleError>)
    ensures
        match option_value_of(args@, "--artifact-expectation"@) {
            None => is_usage(r, "run requires --artifact-expectation"@),
            Some(v) => match expectation_named(v) {
                Some(e) => r == Ok::<ArtifactExpectation, LifecycleError>(e),
                None => is_usage(
                    r,
                    "unsupported --artifact-expectation: "@ + v
                        + "; expected none, optional, required, or claimed"@,
                ),
            },
        },
{
    match option_value(args, "--artifact-expectation") {
        Some(value) => match ArtifactExpectation::parse(value.as_str()) {
            Some(e) => Ok(e),
            None => {
                let mut m = concat2("unsupported --artifact-expectation: ", value.as_str());
                push_str(&mut m, "; expected none, optional, required, or claimed");
                Err(usage_error(m))
            },
        },
        None => Err(usage_error("run requires --artifact-expectation".to_string())),
    }
}

/// The effort a model takes, or why the pair is refused.
pub open spec fn model_effort_of(model: Seq<char>, effort: Option<Seq<char>>) -> Result<
    Seq<char>,
    Seq<char>,
> {
    if model == "pro"@ {
        match effort {
            None => Ok("standard"@),
            Some(e) => if e == "standard"@ {
                Ok("standard"@)
            } else {
                Err("model pro accepts only effort standard, got "@ + e)
            },
        }
    } else if model == "xhigh"@ {
        match effort {
            None => Ok("high"@),
            Some(e) => if e == "high"@ {
                Ok("high"@)
            } else {
                Err("model xhigh accepts only effort high, got "@ + e)
            },
        }
    } else {
        Err("unsupported --model: "@ + model + "; expected pro or xhigh"@)
    }
}

/// The `--model` and its effort: `pro` takes `standard`, `xhigh` takes
/// `high`; an absent `--effort` means the model's own.
pub fn model_effort(args: &[String]) -> (r: Result<(String, String), LifecycleError>)
    ensures
        match non_empty_value(args@, "--model"@) {
            None => is_usage(r, "run requires "@ + "--model"@),
            Some(model) => match model_effort_of(model, option_value_of(args@, "--effort"@)) {
                Ok(effort) => r matches Ok((m, e)) && m@ == model && e@ == effort,
                Err(message) => is_usage(r, message),
            },
        },
{
    let model = match required_value(args, "--model") {
        Ok(m) => m,
        Err(e) => {
            return Err(e);
        },
    };
    let effort = option_value(args, "--effort");
    let chosen: &str = if str_eq(model.as_str(), "pro") {
        match &effort {
            None => "standard",
            Some(e) => {
                if str_eq(e.as_str(), "standard") {
                    "standard"
                } else {
                    return Err(
                        usage_error(
                            concat2("model pro accepts only effort standard, got ", e.as_str()),
                        ),
                    );
                }
            },
        }
    } else if str_eq(model.as_str(), "xhigh") {
        match &effort {
            None => "high",
            Some(e) => {
                if str_eq(e.as_str(), "high") {
                    "high"
                } else {
                    return Err(
                        usage_error(concat2("model xhigh accepts only effort high, got ", e.as_str())),
                    );
                }
            },
        }
    } else {
        let mut m = concat2("unsupported --model: ", model.as_str());
        push_str(&mut m, "; expected pro or xhigh");
        return Err(usage_error(m));
    };
    Ok((model, chosen.to_string()))
}

// ---------------------------------------------------------------- the legacy `run` surface

/// A `run` command line without `--json` uses the legacy surface.
pub fn is_legacy_surface(args: &[String]) -> (r: bool)
    ensures
        r == !has_arg(args@, "--json"@),
{
    !any_arg(args, "--json")
}

/// The model and effort of a legacy run kind.
pub fn legacy_model_effort(kind: &str) -> (r: Result<(String, String), LifecycleError>)
    ensures
        kind@ == "pro"@ ==> (r matches Ok((m, e)) && m@ == "pro"@ && e@ == "standard"@),
        kind@ == "xhigh"@ ==> (r matches Ok((m, e)) && m@ == "xhigh"@ && e@ == "high"@),
        kind@ != "pro"@ && kind@ != "xhigh"@ ==> is_usage(r, "unsupported run kind: "@ + kind@),
{
    proof {
        reveal_strlit("pro");
        reveal_strlit("xhigh");
        assert("pro"@.len() != "xhigh"@.len());
    }
    if str_eq(kind, "pro") {
        Ok(("pro".to_string(), "standard".to_string()))
    } else if str_eq(kind, "xhigh") {
        Ok(("xhigh".to_string(), "high".to_string()))
    } else {
        Err(usage_error(concat2("unsupported run kind: ", kind)))
    }
}

/// The environment variable that holds a legacy kind's poll timeout.
pub open spec fn timeout_variable(kind: Seq<char>) -> Option<Seq<char>> {
    if kind == "pro"@ || kind == "gptpro"@ {
        Some("GPTPRO_TIMEOUT"@)
    } else if kind == "xhigh"@ || kind == "gptxhigh"@ {
        Some("GPTXHIGH_TIMEOUT"@)
    } else {
        None
    }
}

pub fn timeout_env_name(kind: &str) -> (r: Option<&'static str>)
    ensures
        match timeout_variable(kind@) {
            Some(v) => r matches Some(x) && x@ == v,
            None => r is None,
        },
{
    if str_eq(kind, "pro") || str_eq(kind, "gptpro") {
        Some("GPTPRO_TIMEOUT")
    } else if str_eq(kind, "xhigh") || str_eq(kind, "gptxhigh") {
        Some("GPTXHIGH_TIMEOUT")
    } else {
        None
    }
}

/// The poll timeout of a legacy run: `--poll-timeout-seconds` where given;
/// otherwise the kind's environment value (a positive number) or 300,
/// clamped to 1..=10800.
pub fn legacy_poll_timeout_seconds(args: &[String], env_value: Option<&str>) -> (r: Result<
    u64,
    LifecycleError,
>)
    ensures
        option_value_of(args@, "--poll-timeout-seconds"@) is Some ==> match bounded_problem(
            "--poll-timeout-seconds"@,
            option_value_of(args@, "--poll-timeout-seconds"@),
            MAX_POLL_SECONDS,
        ) {
            Some(m) => is_usage(r, m),
            None => r == Ok::<u64, LifecycleError>(
                bounded_value(option_value_of(args@, "--poll-timeout-seconds"@), 300),
            ),
        },
        option_value_of(args@, "--poll-timeout-seconds"@) is None ==> r == Ok::<u64, LifecycleError>(
            {
                let v = positive_u64_or(opt_view(env_value), 300);
                if v > 10_800 {
                    10_800u64
                } else {
                    v
                }
            },
        ),
{
    if option_value(args, "--poll-timeout-seconds").is_some() {
        return parse_poll_seconds(args, 300);
    }
    let v = match env_value {
        Some(text) => match parse_u64(text) {
            Some(n) => if n > 0 {
                n
            } else {
                300
            },
            None => 300,
        },
        None => 300,
    };
    if v > 10_800 {
        Ok(10_800)
    } else {
        Ok(v)
    }
}

/// Where a legacy run's prompt is written: under the state root,
/// `requests/legacy-inputs/<safe run id>/prompt.md`.
pub open spec fn prompt_file_of(state_root: Seq<char>, run_id: Seq<char>) -> Seq<char> {
    path_join(
        path_join(path_join(path_join(state_root, "requests"@), "legacy-inputs"@), safe_key_of(run_id)),
        "prompt.md"@,
    )
}

pub fn prompt_file_path(state_root: &str, run_id: &str) -> (r: String)
    ensures
        r@ == prompt_file_of(state_root@, run_id@),
{
    let requests = join_path(state_root, "requests");
    let inputs = join_path(requests.as_str(), "legacy-inputs");
    let key = safe_key(run_id);
    let dir = join_path(inputs.as_str(), key.as_str());
    join_path(dir.as_str(), "prompt.md")
}

} // verus!
