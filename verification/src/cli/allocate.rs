use vstd::prelude::*;

use crate::contracts::cli::{lemma_builder_kinds_known, outcome_error, CommandOutcome, CommandOutcomeError};
use crate::contracts::ids::{is_general_id, is_text};
use crate::contracts::payload_keys::views;

use super::options::{
    allocate_options, any_arg, docker_bin_of, executable_refused, has_arg, non_empty_value,
    option_value, option_value_of, reject_unlisted_options, require_flag, required_command_value,
    unlisted_option_from, validate_compatibility_literal, validate_non_empty_text,
    validate_request_id, validate_run_id, decimal_problem,
};
use super::{is_usage, usage_error, LifecycleError};
use crate::text::{decimal, decimal_value};

verus! {

/// What `allocate` is asked to preview.
#[derive(Clone, Debug, PartialEq, Eq)]
pub struct AllocateArgs {
    pub request_id: String,
    pub run_id: String,
    pub fencing_token: String,
    pub docker_bin: String,
}

/// Why `allocate` refuses its arguments before any file is looked at.
pub open spec fn allocate_problem(args: Seq<String>) -> Option<Seq<char>> {
    let allowed = seq!["--json"@, "--dry-run"@, "--request-id"@, "--run-id"@, "--fencing-token"@, "--ttl-ms"@, "--docker-bin"@, "--runtime-start-timeout-ms"@];
    let with_value = seq!["--request-id"@, "--run-id"@, "--fencing-token"@, "--ttl-ms"@, "--docker-bin"@, "--runtime-start-timeout-ms"@];
    let request = non_empty_value(args, "--request-id"@);
    let run = non_empty_value(args, "--run-id"@);
    let token = non_empty_value(args, "--fencing-token"@);
    let ttl = option_value_of(args, "--ttl-ms"@);
    if unlisted_option_from(args, allowed, with_value, 0) is Some {
        Some("unknown option: "@ + unlisted_option_from(args, allowed, with_value, 0)->0)
    } else if !has_arg(args, "--json"@) {
        Some("allocate"@ + " requires "@ + "--json"@)
    } else if has_arg(args, "--runtime-start-timeout-ms"@) {
        Some("allocate rejects --runtime-start-timeout-ms in read-only R13"@)
    } else if request is None {
        Some("allocate"@ + " requires "@ + "--request-id"@)
    } else if run is None {
        Some("allocate"@ + " requires "@ + "--run-id"@)
    } else if token is None {
        Some("allocate"@ + " requires "@ + "--fencing-token"@)
    } else if !is_general_id(request->0) {
        Some("invalid "@ + "--request-id"@ + ": "@ + request->0)
    } else if !is_general_id(run->0) {
        Some("invalid "@ + "--run-id"@ + ": "@ + run->0)
    } else if !is_text(token->0, 4096) {
        Some("invalid "@ + "--fencing-token"@ + ": expected 1..4096 UTF-8 bytes without NUL"@)
    } else if ttl is Some && decimal_problem("--ttl-ms"@, ttl->0) is Some {
        decimal_problem("--ttl-ms"@, ttl->0)
    } else if ttl is Some && decimal_value(ttl->0) != 300_000 {
        Some("--ttl-ms"@ + " accepts only the compatibility literal "@ + decimal(300_000))
    } else {
        None
    }
}

/// Parses the arguments of `allocate`, a read-only preview.
/// `check_executable` is asked about an explicit `--docker-bin`.
pub fn parse_allocate_args<F: Fn(&str, &str) -> Result<(), LifecycleError>>(
    args: &[String],
    check_executable: F,
) -> (r: Result<AllocateArgs, LifecycleError>)
    requires
        forall|p: &str, n: &str| #[trigger] check_executable.requires((p, n)),
    ensures
        match allocate_problem(args@) {
            Some(m) => is_usage(r, m),
            None => {
                &&& r matches Ok(a) ==> {
                    &&& a.request_id@ == non_empty_value(args@, "--request-id"@)->0
                    &&& a.run_id@ == non_empty_value(args@, "--run-id"@)->0
                    &&& a.fencing_token@ == non_empty_value(args@, "--fencing-token"@)->0
                    &&& a.docker_bin@ == docker_bin_of(args@)
                }
                &&& r matches Err(e) ==> executable_refused(
                    check_executable,
                    docker_bin_of(args@),
                    "--docker-bin",
                    e,
                )
                &&& option_value_of(args@, "--docker-bin"@) is None ==> r is Ok
            },
        },
{
    let (allowed, with_value) = allocate_options();
    match reject_unlisted_options(args, &allowed, &with_value) {
        Ok(()) => {},
        Err(e) => {
            return Err(e);
        },
    }
    match require_flag(args, "--json", "allocate") {
        Ok(()) => {},
        Err(e) => {
            return Err(e);
        },
    }
    if any_arg(args, "--runtime-start-timeout-ms") {
        return Err(
            usage_error("allocate rejects --runtime-start-timeout-ms in read-only R13".to_string()),
        );
    }
    let request_id = match required_command_value(args, "--request-id", "allocate") {
        Ok(v) => v,
        Err(e) => {
            return Err(e);
        },
    };
    let run_id = match required_command_value(args, "--run-id", "allocate") {
        Ok(v) => v,
        Err(e) => {
            return Err(e);
        },
    };
    let fencing_token = match required_command_value(args, "--fencing-token", "allocate") {
        Ok(v) => v,
        Err(e) => {
            return Err(e);
        },
    };
    match validate_request_id(request_id.as_str(), "--request-id") {
        Ok(()) => {},
        Err(e) => {
            return Err(e);
        },
    }
    match validate_run_id(run_id.as_str(), "--run-id") {
        Ok(()) => {},
        Err(e) => {
            return Err(e);
        },
    }
    match validate_non_empty_text(fencing_token.as_str(), "--fencing-token") {
        Ok(()) => {},
        Err(e) => {
            return Err(e);
        },
    }
    match validate_compatibility_literal(args, "--ttl-ms", 300_000) {
        Ok(()) => {},
        Err(e) => {
            return Err(e);
        },
    }
    let docker_bin = match option_value(args, "--docker-bin") {
        Some(v) => v,
        None => "docker".to_string(),
    };
    if option_value(args, "--docker-bin").is_some() {
        let path = docker_bin.as_str();
        let checked = check_executable(path, "--docker-bin");
        match checked {
            Ok(()) => {},
            Err(e) => {
                assert(check_executable.ensures((path, "--docker-bin"), Err(e)));
                return Err(e);
            },
        }
    }
    Ok(AllocateArgs { request_id, run_id, fencing_token, docker_bin })
}

/// Stamps an allocation's request, run, slot and cohort on its outcome.
pub fn with_allocation_identity(
    outcome: CommandOutcome,
    request_id: String,
    run_id: String,
    slot_id: Option<String>,
    cohort: Option<String>,
) -> (r: CommandOutcome)
    ensures
        r == (CommandOutcome {
            envelope: crate::contracts::cli::LifecycleEnvelope {
                request_id: Some(request_id),
                run_id: Some(run_id),
                slot_id: slot_id,
                cohort: cohort,
                ..outcome.envelope
            },
            ..outcome
        }),
{
    let mut outcome = outcome;
    outcome.envelope.request_id = Some(request_id);
    outcome.envelope.run_id = Some(run_id);
    outcome.envelope.slot_id = slot_id;
    outcome.envelope.cohort = cohort;
    outcome
}

/// What the read-only allocation preview found.
#[derive(Clone, Debug, PartialEq, Eq)]
pub enum AllocationPreview {
    /// The slot status or the allocator cursors could not be read.
    StateInvalid(String),
    /// No slot can be allocated.
    PoolBusy,
    /// The slot and cohort the allocator would pick.
    Candidate { slot_id: String, cohort: String },
}

/// The result kind and message of each preview.
pub open spec fn preview_kind(p: AllocationPreview) -> Seq<char> {
    match p {
        AllocationPreview::StateInvalid(_) => "allocate.state_invalid"@,
        AllocationPreview::PoolBusy => "allocate.pool_busy"@,
        AllocationPreview::Candidate { .. } => "allocate.dry_run_candidate"@,
    }
}

/// The message of each preview.
pub open spec fn preview_message(p: AllocationPreview) -> Seq<char> {
    match p {
        AllocationPreview::StateInvalid(m) => m@,
        AllocationPreview::PoolBusy => "read-only allocation preview found no allocatable slot"@,
        AllocationPreview::Candidate { .. } => "read-only allocation preview; no cursor, lock, journal, or runtime mutation"@,
    }
}

/// The outcome `allocate` prints for a preview: the state is invalid (with
/// the error as message and reason), the pool is busy, or a candidate slot
/// is named; each carries the request and run.
pub fn allocate_outcome(
    operation_id: &str,
    preview: AllocationPreview,
    request_id: String,
    run_id: String,
) -> (r: Result<CommandOutcome, CommandOutcomeError>)
    ensures
        r matches Ok(o) ==> {
            &&& o.envelope.result_kind@ == preview_kind(preview)
            &&& o.envelope.operation_id@ == operation_id@
            &&& o.envelope.request_id == Some(request_id)
            &&& o.envelope.run_id == Some(run_id)
            &&& match preview {
                AllocationPreview::Candidate { slot_id, cohort } => o.envelope.slot_id == Some(slot_id)
                    && o.envelope.cohort == Some(cohort) && o.envelope.reason is None,
                AllocationPreview::StateInvalid(m) => o.envelope.slot_id is None
                    && o.envelope.cohort is None && o.envelope.message == m && (o.envelope.reason
                    matches Some(reason) && reason@ == "allocate.state_invalid"@),
                AllocationPreview::PoolBusy => o.envelope.slot_id is None && o.envelope.cohort is None
                    && o.envelope.reason is None,
            }
        },
        r matches Err(e) ==> outcome_error(
            "allocate"@,
            operation_id@,
            preview_kind(preview),
            preview_message(preview),
            preview is StateInvalid,
        ) == Some(e),
        r is Ok <==> outcome_error(
            "allocate"@,
            operation_id@,
            preview_kind(preview),
            preview_message(preview),
            preview is StateInvalid,
        ) is None,
{
    proof {
        lemma_builder_kinds_known();
    }
    match preview {
        AllocationPreview::StateInvalid(message) => {
            let outcome = CommandOutcome::select(
                "allocate",
                operation_id,
                "allocate.state_invalid",
                message,
                Some("allocate.state_invalid".to_string()),
            )?;
            Ok(with_allocation_identity(outcome, request_id, run_id, None, None))
        },
        AllocationPreview::PoolBusy => {
            let outcome = CommandOutcome::select(
                "allocate",
                operation_id,
                "allocate.pool_busy",
                "read-only allocation preview found no allocatable slot".to_string(),
                None,
            )?;
            Ok(with_allocation_identity(outcome, request_id, run_id, None, None))
        },
        AllocationPreview::Candidate { slot_id, cohort } => {
            let outcome = CommandOutcome::select(
                "allocate",
                operation_id,
                "allocate.dry_run_candidate",
                "read-only allocation preview; no cursor, lock, journal, or runtime mutation".to_string(),
                None,
            )?;
            Ok(with_allocation_identity(outcome, request_id, run_id, Some(slot_id), Some(cohort)))
        },
    }
}

} // verus!
