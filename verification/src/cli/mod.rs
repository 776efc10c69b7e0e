pub mod allocate;
pub mod download_args;
pub mod options;
pub mod preflight;
pub mod release;
pub mod run_args;
pub mod run_command;
pub mod show_args;
pub mod state_rebuild;

use vstd::prelude::*;

use crate::failpoint::{known, validate_requested};
use crate::cleanup::{CleanupMode, CleanupOutput};
use crate::journal::head::{head_error_text, HeadError};
use crate::text::{
    concat2, contains_char, decimal, has_char, is_prefix, opt_view, push_char, push_decimal, push_str,
    starts_with, str_chars, str_eq,
};

use options::{any_arg, has_arg};

verus! {

/// A failure of a command, with the exit code it maps to.
#[derive(Debug)]
pub enum LifecycleError {
    Usage(String),
    Io(String),
    Json(String),
}

impl LifecycleError {
    pub fn exit_code(&self) -> (r: u8)
        ensures
            r == (if self is Usage {
                2u8
            } else {
                70u8
            }),
    {
        match self {
            LifecycleError::Usage(_) => 2,
            LifecycleError::Io(_) | LifecycleError::Json(_) => 70,
        }
    }
}

/// `r` is the usage error with message `m`.
pub open spec fn is_usage<T>(r: Result<T, LifecycleError>, m: Seq<char>) -> bool {
    r matches Err(LifecycleError::Usage(s)) && s@ == m
}

/// `r` succeeds where `e` is `None`, and is the usage error `e` names otherwise.
pub open spec fn usage_result(r: Result<(), LifecycleError>, e: Option<Seq<char>>) -> bool {
    match e {
        None => r is Ok,
        Some(m) => is_usage(r, m),
    }
}

/// The options, over all commands, that are followed by a value.
pub open spec fn is_value_option(arg: Seq<char>) -> bool {
    arg == "--artifact-container-root"@
        || arg == "--artifact-expectation"@
        || arg == "--docker-bin"@
        || arg == "--effort"@
        || arg == "--fencing-token"@
        || arg == "--file"@
        || arg == "--kind"@
        || arg == "--max-stderr-bytes"@
        || arg == "--max-stdout-bytes"@
        || arg == "--model"@
        || arg == "--poll-timeout-seconds"@
        || arg == "--prompt"@
        || arg == "--prompt-file"@
        || arg == "--provider-bin"@
        || arg == "--provider-timeout-ms"@
        || arg == "--request-id"@
        || arg == "--run-id"@
        || arg == "--runtime-start-timeout-ms"@
        || arg == "--runtime-stop-timeout-ms"@
        || arg == "--send-timeout-ms"@
        || arg == "--session"@
        || arg == "--slot"@
        || arg == "--ttl-ms"@
}

pub fn value_option(arg: &str) -> (r: bool)
    ensures
        r == is_value_option(arg@),
{
    str_eq(arg, "--artifact-container-root")
        || str_eq(arg, "--artifact-expectation")
        || str_eq(arg, "--docker-bin")
        || str_eq(arg, "--effort")
        || str_eq(arg, "--fencing-token")
        || str_eq(arg, "--file")
        || str_eq(arg, "--kind")
        || str_eq(arg, "--max-stderr-bytes")
        || str_eq(arg, "--max-stdout-bytes")
        || str_eq(arg, "--model")
        || str_eq(arg, "--poll-timeout-seconds")
        || str_eq(arg, "--prompt")
        || str_eq(arg, "--prompt-file")
        || str_eq(arg, "--provider-bin")
        || str_eq(arg, "--provider-timeout-ms")
        || str_eq(arg, "--request-id")
        || str_eq(arg, "--run-id")
        || str_eq(arg, "--runtime-start-timeout-ms")
        || str_eq(arg, "--runtime-stop-timeout-ms")
        || str_eq(arg, "--send-timeout-ms")
        || str_eq(arg, "--session")
        || str_eq(arg, "--slot")
        || str_eq(arg, "--ttl-ms")
}

/// The first lexical problem of the command's arguments from `index` on,
/// given the singleton options already seen and the number of `--file`s.
pub open spec fn lexical_error_from(
    args: Seq<String>,
    index: int,
    seen: Seq<Seq<char>>,
    files: nat,
) -> Option<Seq<char>>
    decreases args.len() - index,
{
    if index < 0 || index >= args.len() {
        None
    } else {
        let t = args[index]@;
        let is_file = t == "--file"@;
        if t == "--"@ {
            Some("the Rust lifecycle CLI does not accept --"@)
        } else if is_prefix("--"@, t) && has_char(t, '=') {
            Some("Rust lifecycle options require separate tokens: "@ + t)
        } else if !is_prefix("--"@, t) {
            Some("unexpected positional argument: "@ + t)
        } else if is_file && files + 1 > 64 {
            Some("no more than 64 --file options are allowed"@)
        } else if !is_file && seen.contains(t) {
            Some("duplicate singleton option: "@ + t)
        } else {
            let seen2 = if is_file {
                seen
            } else {
                seen.push(t)
            };
            let files2: nat = if is_file {
                files + 1
            } else {
                files
            };
            if is_value_option(t) {
                if index + 1 >= args.len() || args[index + 1]@.len() == 0 || is_prefix(
                    "--"@,
                    args[index + 1]@,
                ) {
                    Some("missing value for "@ + t)
                } else {
                    lexical_error_from(args, index + 2, seen2, files2)
                }
            } else {
                lexical_error_from(args, index + 1, seen2, files2)
            }
        }
    }
}

/// The first lexical problem of a command line: the tokens after the
/// command must be separate `--option` tokens, each singleton at most once,
/// `--file` at most 64 times, and each value option followed by a value.
pub open spec fn lexical_error(args: Seq<String>) -> Option<Seq<char>> {
    if args.len() == 0 {
        None
    } else {
        lexical_error_from(args.skip(1), 0, Seq::empty(), 0)
    }
}

fn seen_contains(seen: &Vec<String>, token: &str) -> (r: bool)
    ensures
        r == exists|j: int| 0 <= j < seen@.len() && #[trigger] seen@[j]@ == token@,
{
    let mut i: usize = 0;
    while i < seen.len()
        invariant
            i <= seen@.len(),
            forall|j: int| 0 <= j < i ==> #[trigger] seen@[j]@ != token@,
        decreases seen.len() - i,
    {
        if str_eq(seen[i].as_str(), token) {
            return true;
        }
        i += 1;
    }
    false
}

pub(crate) fn usage_error(message: String) -> (r: LifecycleError)
    ensures
        r == LifecycleError::Usage(message),
{
    LifecycleError::Usage(message)
}

pub fn validate_lexical_args(args: &[String]) -> (r: Result<(), LifecycleError>)
    ensures
        usage_result(r, lexical_error(args@)),
{
    if args.len() == 0 {
        return Ok(());
    }
    let ghost cmd = args@.skip(1);
    let ghost mut gseen: Seq<Seq<char>> = Seq::empty();
    let mut seen: Vec<String> = Vec::new();
    let mut file_count: usize = 0;
    let mut index: usize = 1;
    while index < args.len()
        invariant
            1 <= index <= args@.len(),
            cmd == args@.skip(1),
            file_count <= 64,
            seen@.len() == gseen.len(),
            forall|j: int| 0 <= j < gseen.len() ==> #[trigger] seen@[j]@ == gseen[j],
            lexical_error(args@) == lexical_error_from(cmd, index - 1, gseen, file_count as nat),
        decreases args.len() - index,
    {
        let token = args[index].as_str();
        assert(cmd[index - 1] == args@[index as int]);
        if str_eq(token, "--") {
            return Err(usage_error("the Rust lifecycle CLI does not accept --".to_string()));
        }
        let option = starts_with(token, "--");
        if option && contains_char(token, '=') {
            return Err(
                usage_error(concat2("Rust lifecycle options require separate tokens: ", token)),
            );
        }
        if !option {
            return Err(usage_error(concat2("unexpected positional argument: ", token)));
        }
        if str_eq(token, "--file") {
            if file_count + 1 > 64 {
                return Err(usage_error("no more than 64 --file options are allowed".to_string()));
            }
            file_count += 1;
        } else {
            let present = seen_contains(&seen, token);
            proof {
                if present {
                    let j = choose|j: int| 0 <= j < seen@.len() && #[trigger] seen@[j]@ == token@;
                    assert(gseen[j] == token@);
                } else {
                    assert forall|j: int| 0 <= j < gseen.len() implies gseen[j] != token@ by {
                        assert(seen@[j]@ == gseen[j]);
                    }
                }
            }
            if present {
                return Err(usage_error(concat2("duplicate singleton option: ", token)));
            }
            seen.push(token.to_string());
            proof {
                gseen = gseen.push(token@);
            }
        }
        if value_option(token) {
            if index + 1 >= args.len() {
                return Err(usage_error(concat2("missing value for ", token)));
            }
            let value = args[index + 1].as_str();
            assert(cmd[index as int] == args@[index + 1]);
            if value.unicode_len() == 0 || starts_with(value, "--") {
                return Err(usage_error(concat2("missing value for ", token)));
            }
            index += 2;
        } else {
            index += 1;
        }
    }
    Ok(())
}

/// The command a command line names.
#[derive(Clone, Copy, Debug, PartialEq, Eq, Structural)]
pub enum Command {
    Status,
    Allocate,
    Preflight,
    Run,
    Show,
    Resume,
    Download,
    Release,
    Cleanup,
    StateRebuild,
    Constants,
    Help,
}

pub const USAGE: &'static str = "usage: gpt-webai-lifecycle <status [--json|--legacy-kv]|cleanup --json (--dry-run|--apply)|state-rebuild --json --check-only|allocate --json [--dry-run]|preflight --json --docker-slot-provider --run-id RUN|run --kind pro|xhigh [--file PATH ...] --prompt PROMPT|show [--kind pro|xhigh] --session SESSION|resume [--kind pro|xhigh] --session SESSION|download [--kind pro|xhigh] --session SESSION|release (--slot SLOT|--session SESSION) [--fencing-token TOKEN] [--stop-runtime]|constants>";

pub fn usage() -> (r: String)
    ensures
        r@ == USAGE@,
{
    USAGE.to_string()
}

/// The command named by `name`, if any.
pub open spec fn command_of(name: Seq<char>) -> Option<Command> {
    if name == "status"@ {
        Some(Command::Status)
    } else if name == "allocate"@ {
        Some(Command::Allocate)
    } else if name == "preflight"@ {
        Some(Command::Preflight)
    } else if name == "run"@ {
        Some(Command::Run)
    } else if name == "show"@ {
        Some(Command::Show)
    } else if name == "resume"@ {
        Some(Command::Resume)
    } else if name == "download"@ {
        Some(Command::Download)
    } else if name == "release"@ {
        Some(Command::Release)
    } else if name == "cleanup"@ {
        Some(Command::Cleanup)
    } else if name == "state-rebuild"@ {
        Some(Command::StateRebuild)
    } else if name == "constants"@ {
        Some(Command::Constants)
    } else if name == "--help"@ || name == "-h"@ || name == "help"@ {
        Some(Command::Help)
    } else {
        None
    }
}

fn command_named(name: &str) -> (r: Option<Command>)
    ensures
        r == command_of(name@),
{
    if str_eq(name, "status") {
        Some(Command::Status)
    } else if str_eq(name, "allocate") {
        Some(Command::Allocate)
    } else if str_eq(name, "preflight") {
        Some(Command::Preflight)
    } else if str_eq(name, "run") {
        Some(Command::Run)
    } else if str_eq(name, "show") {
        Some(Command::Show)
    } else if str_eq(name, "resume") {
        Some(Command::Resume)
    } else if str_eq(name, "download") {
        Some(Command::Download)
    } else if str_eq(name, "release") {
        Some(Command::Release)
    } else if str_eq(name, "cleanup") {
        Some(Command::Cleanup)
    } else if str_eq(name, "state-rebuild") {
        Some(Command::StateRebuild)
    } else if str_eq(name, "constants") {
        Some(Command::Constants)
    } else if str_eq(name, "--help") || str_eq(name, "-h") || str_eq(name, "help") {
        Some(Command::Help)
    } else {
        None
    }
}

/// What a command line asks for, before any command runs.
pub open spec fn selection_error(args: Seq<String>, failpoint: Option<Seq<char>>) -> Option<Seq<char>> {
    if failpoint is Some && failpoint->0.len() != 0 && !known(failpoint->0) {
        Some("unrecognised GPT_WEBAI_FAILPOINT: "@ + failpoint->0)
    } else if lexical_error(args) is Some {
        lexical_error(args)
    } else if args.len() == 0 {
        Some(USAGE@)
    } else if command_of(args[0]@) is None {
        Some("unknown command: "@ + args[0]@ + "\n"@ + USAGE@)
    } else {
        None
    }
}

/// Checks the requested failpoint (the value of `GPT_WEBAI_FAILPOINT`) and
/// the command line's tokens, and names the command to run.
pub fn select_command(args: &[String], failpoint: Option<&str>) -> (r: Result<Command, LifecycleError>)
    ensures
        match selection_error(args@, opt_view(failpoint)) {
            Some(m) => is_usage(r, m),
            None => r == Ok::<Command, LifecycleError>(command_of(args@[0]@)->0),
        },
{
    match validate_requested(failpoint) {
        Ok(()) => {},
        Err(m) => {
            return Err(usage_error(m));
        },
    }
    match validate_lexical_args(args) {
        Ok(()) => {},
        Err(e) => {
            return Err(e);
        },
    }
    if args.len() == 0 {
        return Err(usage_error(usage()));
    }
    let name = args[0].as_str();
    match command_named(name) {
        Some(c) => Ok(c),
        None => {
            let mut m = concat2("unknown command: ", name);
            push_str(&mut m, "\n");
            push_str(&mut m, USAGE);
            Err(usage_error(m))
        },
    }
}

// ---------------------------------------------------------------- small commands

/// The mode of `cleanup`: exactly `--json` then `--dry-run` or `--apply`.
pub fn cleanup_mode(args: &[String]) -> (r: Result<CleanupMode, LifecycleError>)
    ensures
        if args@.len() == 2 && args@[0]@ == "--json"@ && args@[1]@ == "--dry-run"@ {
            r == Ok::<CleanupMode, LifecycleError>(CleanupMode::DryRun)
        } else if args@.len() == 2 && args@[0]@ == "--json"@ && args@[1]@ == "--apply"@ {
            r == Ok::<CleanupMode, LifecycleError>(CleanupMode::Apply)
        } else {
            is_usage(
                r,
                "cleanup requires --json followed by exactly one mode: --dry-run or --apply"@,
            )
        },
{
    if args.len() == 2 && str_eq(args[0].as_str(), "--json") {
        if str_eq(args[1].as_str(), "--dry-run") {
            return Ok(CleanupMode::DryRun);
        }
        if str_eq(args[1].as_str(), "--apply") {
            return Ok(CleanupMode::Apply);
        }
    }
    Err(
        usage_error(
            "cleanup requires --json followed by exactly one mode: --dry-run or --apply".to_string(),
        ),
    )
}

/// The result kind of a cleanup: a plan for a dry run; applied, or a
/// partial failure when something was skipped.
pub open spec fn cleanup_kind(mode: CleanupMode, skipped: usize) -> Seq<char> {
    match mode {
        CleanupMode::DryRun => "cleanup.plan"@,
        CleanupMode::Apply => if skipped == 0 {
            "cleanup.applied"@
        } else {
            "cleanup.partial_failure"@
        },
    }
}

pub fn cleanup_result_kind(mode: CleanupMode, skipped: usize) -> (r: &'static str)
    ensures
        r@ == cleanup_kind(mode, skipped),
{
    match mode {
        CleanupMode::DryRun => "cleanup.plan",
        CleanupMode::Apply => if skipped == 0 {
            "cleanup.applied"
        } else {
            "cleanup.partial_failure"
        },
    }
}

/// The one-line summary of a cleanup.
pub open spec fn cleanup_summary(o: CleanupOutput) -> Seq<char> {
    "cleanup mode="@ + o.mode@ + " stale_holders="@ + decimal(o.stale_holders as nat)
        + " stale_locks="@ + decimal(o.stale_locks as nat) + " removed_holders="@ + decimal(
        o.removed_holders as nat,
    ) + " removed_locks="@ + decimal(o.removed_locks as nat) + " skipped="@ + decimal(
        o.skipped as nat,
    )
}

pub fn cleanup_message(o: &CleanupOutput) -> (r: String)
    ensures
        r@ == cleanup_summary(*o),
{
    let mut m = concat2("cleanup mode=", o.mode.as_str());
    push_str(&mut m, " stale_holders=");
    push_decimal(&mut m, o.stale_holders as u64);
    push_str(&mut m, " stale_locks=");
    push_decimal(&mut m, o.stale_locks as u64);
    push_str(&mut m, " removed_holders=");
    push_decimal(&mut m, o.removed_holders as u64);
    push_str(&mut m, " removed_locks=");
    push_decimal(&mut m, o.removed_locks as u64);
    push_str(&mut m, " skipped=");
    push_decimal(&mut m, o.skipped as u64);
    m
}

/// How `status` reports.
#[derive(Clone, Copy, Debug, PartialEq, Eq, Structural)]
pub enum StatusFormat {
    Json,
    LegacyKv,
}

pub open spec fn status_args_ok(args: Seq<String>) -> bool {
    forall|i: int| 0 <= i < args.len() ==> (#[trigger] args[i]@ == "--json"@ || args[i]@ == "--legacy-kv"@)
}

/// The format `status` reports in: only `--json` and `--legacy-kv` are
/// accepted, not both; without `--json` the report is key-value lines.
pub fn status_format(args: &[String]) -> (r: Result<StatusFormat, LifecycleError>)
    ensures
        !status_args_ok(args@) ==> is_usage(r, "status accepts only --json or --legacy-kv"@),
        status_args_ok(args@) && has_arg(args@, "--json"@) && has_arg(args@, "--legacy-kv"@)
            ==> is_usage(r, "status accepts at most one of --json or --legacy-kv"@),
        status_args_ok(args@) && !(has_arg(args@, "--json"@) && has_arg(args@, "--legacy-kv"@))
            ==> r == Ok::<StatusFormat, LifecycleError>(
            if has_arg(args@, "--json"@) {
                StatusFormat::Json
            } else {
                StatusFormat::LegacyKv
            },
        ),
{
    let json = any_arg(args, "--json");
    let legacy_kv = any_arg(args, "--legacy-kv");
    let mut i: usize = 0;
    while i < args.len()
        invariant
            i <= args@.len(),
            forall|k: int|
                0 <= k < i ==> (#[trigger] args@[k]@ == "--json"@ || args@[k]@ == "--legacy-kv"@),
        decreases args.len() - i,
    {
        let a = args[i].as_str();
        if !str_eq(a, "--json") && !str_eq(a, "--legacy-kv") {
            return Err(usage_error("status accepts only --json or --legacy-kv".to_string()));
        }
        i += 1;
    }
    if json && legacy_kv {
        return Err(usage_error("status accepts at most one of --json or --legacy-kv".to_string()));
    }
    if json {
        Ok(StatusFormat::Json)
    } else {
        Ok(StatusFormat::LegacyKv)
    }
}

/// `constants` takes no arguments.
pub fn constants_args(args: &[String]) -> (r: Result<(), LifecycleError>)
    ensures
        usage_result(
            r,
            if args@.len() == 0 {
                None
            } else {
                Some("constants takes no arguments"@)
            },
        ),
{
    if args.len() == 0 {
        Ok(())
    } else {
        Err(usage_error("constants takes no arguments".to_string()))
    }
}

/// The lines `constants` prints: the process exit codes.
pub const CONSTANTS: &'static str = "EX_OK=0\nEX_USAGE=2\nEX_HARD=70\nEX_LOCK=75";

/// An operation id for a command: the command, the process id and the time.
pub fn new_operation_id(command: &str, process_id: u32, now_ms: u64) -> (r: String)
    ensures
        r@ == command@ + "-"@ + decimal(process_id as nat) + "-"@ + decimal(now_ms as nat),
{
    let mut r = concat2(command, "-");
    push_decimal(&mut r, process_id as u64);
    push_str(&mut r, "-");
    push_decimal(&mut r, now_ms);
    r
}

/// `command` with each `-` turned into `_`.
pub open spec fn underscored(command: Seq<char>) -> Seq<char> {
    Seq::new(command.len(), |i: int| if command[i] == '-' { '_' } else { command[i] })
}

/// The result kind of a command that found the state-store lock held.
pub fn lock_contended_kind(command: &str) -> (r: String)
    ensures
        r@ == underscored(command@) + ".lock_contended"@,
{
    let cs = str_chars(command);
    let mut r = String::new();
    let mut i: usize = 0;
    while i < cs.len()
        invariant
            i <= cs@.len(),
            cs@ == command@,
            r@ == underscored(command@).take(i as int),
        decreases cs.len() - i,
    {
        let c = if cs[i] == '-' {
            '_'
        } else {
            cs[i]
        };
        push_char(&mut r, c);
        assert(underscored(command@).take(i as int + 1) =~= underscored(command@).take(i as int).push(c));
        i += 1;
    }
    assert(underscored(command@).take(cs@.len() as int) =~= underscored(command@));
    push_str(&mut r, ".lock_contended");
    r
}

/// What a command does when the state-store guard cannot be taken: report an
/// outcome, or fail with the guard's error text.
#[derive(Clone, Debug, PartialEq, Eq)]
pub enum GuardRefusal {
    Outcome { result_kind: String, message: String, reason: String },
    Fail(String),
}

/// A held lock is reported as contended by every command. Any other guard
/// error is reported by `status` as an invalid state (a CAS conflict under
/// its own reason, anything else as an immutable collision) and by `cleanup`
/// and `allocate` as their invalid state; other commands fail with it.
pub open spec fn guard_refusal_of(command: Seq<char>, error: HeadError) -> GuardRefusalView {
    let text = "the lifecycle state-store command guard is invalid: "@ + head_error_text(error);
    if error is LockContended {
        GuardRefusalView::Outcome(
            underscored(command) + ".lock_contended"@,
            "the lifecycle state-store mutation lock is contended"@,
            "lock.contended"@,
        )
    } else if command == "status"@ {
        GuardRefusalView::Outcome(
            "status.state_invalid"@,
            text,
            if error is CasConflict {
                "journal.head_cas_conflict"@
            } else {
                "journal.immutable_collision"@
            },
        )
    } else if command == "cleanup"@ || command == "allocate"@ {
        GuardRefusalView::Outcome(command + ".state_invalid"@, text, command + ".state_invalid"@)
    } else {
        GuardRefusalView::Fail(head_error_text(error))
    }
}

/// A guard refusal in terms of character sequences.
pub enum GuardRefusalView {
    Outcome(Seq<char>, Seq<char>, Seq<char>),
    Fail(Seq<char>),
}

pub open spec fn guard_refusal_view(g: GuardRefusal) -> GuardRefusalView {
    match g {
        GuardRefusal::Outcome { result_kind, message, reason } => GuardRefusalView::Outcome(
            result_kind@,
            message@,
            reason@,
        ),
        GuardRefusal::Fail(m) => GuardRefusalView::Fail(m@),
    }
}

pub fn guard_refusal(command: &str, error: &HeadError) -> (r: GuardRefusal)
    ensures
        guard_refusal_view(r) == guard_refusal_of(command@, *error),
{
    if let HeadError::LockContended(_) = error {
        return GuardRefusal::Outcome {
            result_kind: lock_contended_kind(command),
            message: "the lifecycle state-store mutation lock is contended".to_string(),
            reason: "lock.contended".to_string(),
        };
    }
    let text = concat2("the lifecycle state-store command guard is invalid: ", error.message().as_str());
    if str_eq(command, "status") {
        let reason = if let HeadError::CasConflict = error {
            "journal.head_cas_conflict"
        } else {
            "journal.immutable_collision"
        };
        GuardRefusal::Outcome {
            result_kind: "status.state_invalid".to_string(),
            message: text,
            reason: reason.to_string(),
        }
    } else if str_eq(command, "cleanup") || str_eq(command, "allocate") {
        let kind = concat2(command, ".state_invalid");
        GuardRefusal::Outcome { result_kind: kind.clone(), message: text, reason: kind }
    } else {
        GuardRefusal::Fail(error.message())
    }
}

} // verus!
