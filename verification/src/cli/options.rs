use vstd::prelude::*;

use crate::contracts::ids::{
    is_general_id, is_session_id, is_slot_id, is_text, validate_non_empty_text as id_text,
    validate_request_id as id_request, validate_run_id as id_run, validate_session_id as id_session,
    validate_slot_id as id_slot,
};
use crate::text::{concat2, concat3, decimal, decimal_value, digit_value, is_digit, is_prefix,
    push_decimal, push_str, starts_with, str_chars, str_eq, all_digits};

use crate::contracts::payload_keys::views;

use super::{is_usage, usage_error, usage_result, LifecycleError};

verus! {

pub const MAX_DURATION: u64 = 12_000_000;

pub const MAX_BYTE_CAP: u64 = 16_777_216;

pub const MAX_POLL_SECONDS: u64 = 10_800;

/// The options that `run` accepts.
pub open spec fn is_run_option(arg: Seq<char>) -> bool {
    arg == "--json"@
        || arg == "--kind"@
        || arg == "--prompt"@
        || arg == "--fake-runtime"@
        || arg == "--fake-provider"@
        || arg == "--docker-slot-provider"@
        || arg == "--live-send"@
        || arg == "--require-visual-gate"@
        || arg == "--provider-bin"@
        || arg == "--docker-bin"@
        || arg == "--artifact-container-root"@
        || arg == "--artifact-expectation"@
        || arg == "--prompt-file"@
        || arg == "--file"@
        || arg == "--request-id"@
        || arg == "--run-id"@
        || arg == "--fencing-token"@
        || arg == "--model"@
        || arg == "--effort"@
        || arg == "--ttl-ms"@
        || arg == "--provider-timeout-ms"@
        || arg == "--send-timeout-ms"@
        || arg == "--poll-timeout-seconds"@
        || arg == "--max-stdout-bytes"@
        || arg == "--max-stderr-bytes"@
        || arg == "--runtime-stop-timeout-ms"@
        || arg == "--runtime-start-timeout-ms"@
}

/// The `run` options that are followed by a value.
pub open spec fn takes_value(arg: Seq<char>) -> bool {
    arg == "--kind"@
        || arg == "--prompt"@
        || arg == "--provider-bin"@
        || arg == "--docker-bin"@
        || arg == "--artifact-container-root"@
        || arg == "--artifact-expectation"@
        || arg == "--prompt-file"@
        || arg == "--file"@
        || arg == "--request-id"@
        || arg == "--run-id"@
        || arg == "--fencing-token"@
        || arg == "--model"@
        || arg == "--effort"@
        || arg == "--ttl-ms"@
        || arg == "--provider-timeout-ms"@
        || arg == "--send-timeout-ms"@
        || arg == "--poll-timeout-seconds"@
        || arg == "--max-stdout-bytes"@
        || arg == "--max-stderr-bytes"@
        || arg == "--runtime-stop-timeout-ms"@
        || arg == "--runtime-start-timeout-ms"@
}

pub fn run_option_known(arg: &str) -> (r: bool)
    ensures
        r == is_run_option(arg@),
{
    str_eq(arg, "--json")
        || str_eq(arg, "--kind")
        || str_eq(arg, "--prompt")
        || str_eq(arg, "--fake-runtime")
        || str_eq(arg, "--fake-provider")
        || str_eq(arg, "--docker-slot-provider")
        || str_eq(arg, "--live-send")
        || str_eq(arg, "--require-visual-gate")
        || str_eq(arg, "--provider-bin")
        || str_eq(arg, "--docker-bin")
        || str_eq(arg, "--artifact-container-root")
        || str_eq(arg, "--artifact-expectation")
        || str_eq(arg, "--prompt-file")
        || str_eq(arg, "--file")
        || str_eq(arg, "--request-id")
        || str_eq(arg, "--run-id")
        || str_eq(arg, "--fencing-token")
        || str_eq(arg, "--model")
        || str_eq(arg, "--effort")
        || str_eq(arg, "--ttl-ms")
        || str_eq(arg, "--provider-timeout-ms")
        || str_eq(arg, "--send-timeout-ms")
        || str_eq(arg, "--poll-timeout-seconds")
        || str_eq(arg, "--max-stdout-bytes")
        || str_eq(arg, "--max-stderr-bytes")
        || str_eq(arg, "--runtime-stop-timeout-ms")
        || str_eq(arg, "--runtime-start-timeout-ms")
}

pub fn option_takes_value(arg: &str) -> (r: bool)
    ensures
        r == takes_value(arg@),
{
    str_eq(arg, "--kind")
        || str_eq(arg, "--prompt")
        || str_eq(arg, "--provider-bin")
        || str_eq(arg, "--docker-bin")
        || str_eq(arg, "--artifact-container-root")
        || str_eq(arg, "--artifact-expectation")
        || str_eq(arg, "--prompt-file")
        || str_eq(arg, "--file")
        || str_eq(arg, "--request-id")
        || str_eq(arg, "--run-id")
        || str_eq(arg, "--fencing-token")
        || str_eq(arg, "--model")
        || str_eq(arg, "--effort")
        || str_eq(arg, "--ttl-ms")
        || str_eq(arg, "--provider-timeout-ms")
        || str_eq(arg, "--send-timeout-ms")
        || str_eq(arg, "--poll-timeout-seconds")
        || str_eq(arg, "--max-stdout-bytes")
        || str_eq(arg, "--max-stderr-bytes")
        || str_eq(arg, "--runtime-stop-timeout-ms")
        || str_eq(arg, "--runtime-start-timeout-ms")
}

// ---------------------------------------------------------------- lookups

/// The index of the first argument equal to `name`, from `i` on.
pub open spec fn position_from(args: Seq<String>, name: Seq<char>, i: int) -> Option<int>
    decreases args.len() - i,
{
    if i < 0 || i >= args.len() {
        None
    } else if args[i]@ == name {
        Some(i)
    } else {
        position_from(args, name, i + 1)
    }
}

pub open spec fn has_arg(args: Seq<String>, name: Seq<char>) -> bool {
    exists|i: int| 0 <= i < args.len() && #[trigger] args[i]@ == name
}

/// The argument after the first `name`, unless it is missing or an option.
pub open spec fn option_value_of(args: Seq<String>, name: Seq<char>) -> Option<Seq<char>> {
    match position_from(args, name, 0) {
        Some(i) => if i + 1 < args.len() && !is_prefix("--"@, args[i + 1]@) {
            Some(args[i + 1]@)
        } else {
            None
        },
        None => None,
    }
}

/// The arguments after each `name` from index `i` on, skipping missing
/// values and options.
pub open spec fn values_after_from(args: Seq<String>, name: Seq<char>, i: int) -> Seq<Seq<char>>
    decreases args.len() - i,
{
    if i < 0 || i >= args.len() {
        Seq::empty()
    } else {
        let here = if args[i]@ == name && i + 1 < args.len() && !is_prefix("--"@, args[i + 1]@) {
            seq![args[i + 1]@]
        } else {
            Seq::empty()
        };
        here + values_after_from(args, name, i + 1)
    }
}

/// The first unknown `--` option of a `run` command line from index `i` on;
/// the value of a value option is skipped.
pub open spec fn unknown_option_from(args: Seq<String>, i: int) -> Option<Seq<char>>
    decreases args.len() + 1 - i,
{
    if i < 0 || i >= args.len() {
        None
    } else if is_prefix("--"@, args[i]@) && !is_run_option(args[i]@) {
        Some(args[i]@)
    } else if takes_value(args[i]@) {
        unknown_option_from(args, i + 2)
    } else {
        unknown_option_from(args, i + 1)
    }
}

pub fn any_arg(args: &[String], name: &str) -> (r: bool)
    ensures
        r == has_arg(args@, name@),
{
    let mut i: usize = 0;
    while i < args.len()
        invariant
            i <= args@.len(),
            forall|j: int| 0 <= j < i ==> #[trigger] args@[j]@ != name@,
        decreases args.len() - i,
    {
        if str_eq(args[i].as_str(), name) {
            return true;
        }
        i += 1;
    }
    false
}

fn position(args: &[String], name: &str) -> (r: Option<usize>)
    ensures
        r matches Some(i) ==> position_from(args@, name@, 0) == Some(i as int) && i < args@.len(),
        r is None ==> position_from(args@, name@, 0) is None,
{
    let mut i: usize = 0;
    while i < args.len()
        invariant
            i <= args@.len(),
            position_from(args@, name@, 0) == position_from(args@, name@, i as int),
        decreases args.len() - i,
    {
        if str_eq(args[i].as_str(), name) {
            return Some(i);
        }
        i += 1;
    }
    None
}

pub fn option_value(args: &[String], name: &str) -> (r: Option<String>)
    ensures
        r matches Some(v) ==> option_value_of(args@, name@) == Some(v@),
        r is None ==> option_value_of(args@, name@) is None,
{
    match position(args, name) {
        Some(i) => {
            if args.len() - i > 1 && !starts_with(args[i + 1].as_str(), "--") {
                Some(args[i + 1].clone())
            } else {
                None
            }
        },
        None => None,
    }
}

pub fn values_after(args: &[String], name: &str) -> (r: Vec<String>)
    ensures
        r@.len() == values_after_from(args@, name@, 0).len(),
        forall|k: int| 0 <= k < r@.len() ==> #[trigger] r@[k]@ == values_after_from(args@, name@, 0)[k],
{
    let mut out: Vec<String> = Vec::new();
    let ghost mut acc: Seq<Seq<char>> = Seq::empty();
    let mut i: usize = 0;
    while i < args.len()
        invariant
            i <= args@.len(),
            out@.len() == acc.len(),
            forall|k: int| 0 <= k < acc.len() ==> #[trigger] out@[k]@ == acc[k],
            acc + values_after_from(args@, name@, i as int) == values_after_from(args@, name@, 0),
        decreases args.len() - i,
    {
        let ghost rest = values_after_from(args@, name@, i as int + 1);
        if str_eq(args[i].as_str(), name) && args.len() - i > 1 && !starts_with(
            args[i + 1].as_str(),
            "--",
        ) {
            out.push(args[i + 1].clone());
            proof {
                assert(values_after_from(args@, name@, i as int) == seq![args@[i + 1]@] + rest);
                assert(acc + (seq![args@[i + 1]@] + rest) =~= acc.push(args@[i + 1]@) + rest);
                acc = acc.push(args@[i + 1]@);
            }
        } else {
            proof {
                assert(values_after_from(args@, name@, i as int) =~= Seq::<Seq<char>>::empty() + rest);
                assert(Seq::<Seq<char>>::empty() + rest =~= rest);
            }
        }
        i += 1;
    }
    proof {
        assert(acc + Seq::<Seq<char>>::empty() =~= acc);
    }
    out
}

// ---------------------------------------------------------------- checks

pub fn reject_unknown_options(args: &[String]) -> (r: Result<(), LifecycleError>)
    ensures
        usage_result(
            r,
            match unknown_option_from(args@, 0) {
                Some(a) => Some("unknown option: "@ + a),
                None => None,
            },
        ),
{
    let mut index: usize = 0;
    while index < args.len()
        invariant
            unknown_option_from(args@, 0) == unknown_option_from(args@, index as int),
        decreases args.len() - index,
    {
        let arg = args[index].as_str();
        if starts_with(arg, "--") && !run_option_known(arg) {
            return Err(usage_error(concat2("unknown option: ", arg)));
        }
        if option_takes_value(arg) {
            if args.len() - index < 2 {
                assert(unknown_option_from(args@, index + 2) is None);
                return Ok(());
            }
            index += 2;
        } else {
            index += 1;
        }
    }
    Ok(())
}

pub fn required_value(args: &[String], name: &str) -> (r: Result<String, LifecycleError>)
    ensures
        match non_empty_value(args@, name@) {
            Some(v) => r matches Ok(s) && s@ == v,
            None => is_usage(r, "run requires "@ + name@),
        },
{
    match option_value(args, name) {
        Some(v) => {
            if v.unicode_len() > 0 {
                Ok(v)
            } else {
                Err(usage_error(concat2("run requires ", name)))
            }
        },
        None => Err(usage_error(concat2("run requires ", name))),
    }
}

/// Like `required_value`; the value names a path.
pub fn required_path(args: &[String], name: &str) -> (r: Result<String, LifecycleError>)
    ensures
        match non_empty_value(args@, name@) {
            Some(v) => r matches Ok(s) && s@ == v,
            None => is_usage(r, "run requires "@ + name@),
        },
{
    required_value(args, name)
}

pub fn require_flag(args: &[String], name: &str, command: &str) -> (r: Result<(), LifecycleError>)
    ensures
        usage_result(
            r,
            if has_arg(args@, name@) {
                None
            } else {
                Some(command@ + " requires "@ + name@)
            },
        ),
{
    if any_arg(args, name) {
        Ok(())
    } else {
        Err(usage_error(concat3(command, " requires ", name)))
    }
}

pub fn required_command_value(args: &[String], name: &str, command: &str) -> (r: Result<
    String,
    LifecycleError,
>)
    ensures
        match non_empty_value(args@, name@) {
            Some(v) => r matches Ok(s) && s@ == v,
            None => is_usage(r, command@ + " requires "@ + name@),
        },
{
    match option_value(args, name) {
        Some(v) => {
            if v.unicode_len() > 0 {
                Ok(v)
            } else {
                Err(usage_error(concat3(command, " requires ", name)))
            }
        },
        None => Err(usage_error(concat3(command, " requires ", name))),
    }
}

fn invalid_value(ok: bool, value: &str, name: &str) -> (r: Result<(), LifecycleError>)
    ensures
        usage_result(
            r,
            if ok {
                None
            } else {
                Some("invalid "@ + name@ + ": "@ + value@)
            },
        ),
{
    if ok {
        Ok(())
    } else {
        let mut m = concat3("invalid ", name, ": ");
        push_str(&mut m, value);
        Err(usage_error(m))
    }
}

pub fn validate_request_id(value: &str, name: &str) -> (r: Result<(), LifecycleError>)
    ensures
        usage_result(
            r,
            if is_general_id(value@) {
                None
            } else {
                Some("invalid "@ + name@ + ": "@ + value@)
            },
        ),
{
    invalid_value(id_request(value).is_ok(), value, name)
}

pub fn validate_run_id(value: &str, name: &str) -> (r: Result<(), LifecycleError>)
    ensures
        usage_result(
            r,
            if is_general_id(value@) {
                None
            } else {
                Some("invalid "@ + name@ + ": "@ + value@)
            },
        ),
{
    invalid_value(id_run(value).is_ok(), value, name)
}

pub fn validate_session_id(value: &str, name: &str) -> (r: Result<(), LifecycleError>)
    ensures
        usage_result(
            r,
            if is_session_id(value@) {
                None
            } else {
                Some("invalid "@ + name@ + ": "@ + value@)
            },
        ),
{
    invalid_value(id_session(value).is_ok(), value, name)
}

pub fn validate_slot_id(value: &str, name: &str) -> (r: Result<(), LifecycleError>)
    ensures
        usage_result(
            r,
            if is_slot_id(value@) {
                None
            } else {
                Some("invalid "@ + name@ + ": "@ + value@)
            },
        ),
{
    invalid_value(id_slot(value).is_ok(), value, name)
}

pub fn validate_non_empty_text(value: &str, name: &str) -> (r: Result<(), LifecycleError>)
    ensures
        usage_result(
            r,
            if is_text(value@, 4096) {
                None
            } else {
                Some("invalid "@ + name@ + ": expected 1..4096 UTF-8 bytes without NUL"@)
            },
        ),
{
    if id_text(value).is_ok() {
        Ok(())
    } else {
        Err(usage_error(concat3("invalid ", name, ": expected 1..4096 UTF-8 bytes without NUL")))
    }
}

// ---------------------------------------------------------------- numbers

/// A prefix of a digit string has at most the value of the whole.
proof fn lemma_decimal_prefix_le(s: Seq<char>, j: int)
    requires
        0 <= j <= s.len(),
    ensures
        decimal_value(s.take(j)) <= decimal_value(s),
    decreases s.len(),
{
    if j < s.len() {
        assert(s.drop_last().take(j) =~= s.take(j));
        lemma_decimal_prefix_le(s.drop_last(), j);
    } else {
        assert(s.take(j) =~= s);
    }
}

pub open spec fn decimal_problem(name: Seq<char>, raw: Seq<char>) -> Option<Seq<char>> {
    if raw.len() == 0 || !all_digits(raw) {
        Some("invalid "@ + name + ": expected a decimal integer"@)
    } else if decimal_value(raw) > u64::MAX {
        Some("invalid "@ + name + ": numeric overflow"@)
    } else {
        None
    }
}

/// Reads a non-empty string of ASCII digits as a `u64`.
pub fn parse_decimal(name: &str, raw: &str) -> (r: Result<u64, LifecycleError>)
    ensures
        match decimal_problem(name@, raw@) {
            Some(m) => is_usage(r, m),
            None => r == Ok::<u64, LifecycleError>(decimal_value(raw@) as u64),
        },
{
    let cs = str_chars(raw);
    let mut i: usize = 0;
    while i < cs.len()
        invariant
            i <= cs@.len(),
            cs@ == raw@,
            forall|j: int| 0 <= j < i ==> is_digit(#[trigger] cs@[j]),
        decreases cs.len() - i,
    {
        if !(cs[i] >= '0' && cs[i] <= '9') {
            return Err(usage_error(concat3("invalid ", name, ": expected a decimal integer")));
        }
        i += 1;
    }
    if cs.len() == 0 {
        return Err(usage_error(concat3("invalid ", name, ": expected a decimal integer")));
    }
    let mut value: u64 = 0;
    let mut k: usize = 0;
    while k < cs.len()
        invariant
            k <= cs@.len(),
            cs@ == raw@,
            all_digits(raw@),
            value == decimal_value(raw@.take(k as int)),
        decreases cs.len() - k,
    {
        assert(raw@.take(k as int + 1).drop_last() =~= raw@.take(k as int));
        let d = (cs[k] as u32 - '0' as u32) as u64;
        assert(is_digit(raw@[k as int]));
        let next = match value.checked_mul(10) {
            Some(t) => t.checked_add(d),
            None => None,
        };
        match next {
            Some(n) => {
                value = n;
            },
            None => {
                proof {
                    lemma_decimal_prefix_le(raw@, k as int + 1);
                }
                return Err(usage_error(concat3("invalid ", name, ": numeric overflow")));
            },
        }
        k += 1;
    }
    assert(raw@.take(cs@.len() as int) =~= raw@);
    Ok(value)
}

/// Why a bounded numeric option is refused, if it is.
pub open spec fn bounded_problem(name: Seq<char>, raw: Option<Seq<char>>, maximum: u64) -> Option<
    Seq<char>,
> {
    match raw {
        None => None,
        Some(v) => if decimal_problem(name, v) is Some {
            decimal_problem(name, v)
        } else if !(1 <= decimal_value(v) <= maximum) {
            Some("invalid "@ + name + ": expected 1..="@ + decimal(maximum as nat))
        } else {
            None
        },
    }
}

/// The value of a bounded numeric option: the given one, or the fallback.
pub open spec fn bounded_value(raw: Option<Seq<char>>, fallback: u64) -> u64 {
    match raw {
        None => fallback,
        Some(v) => decimal_value(v) as u64,
    }
}

pub fn parse_bounded(args: &[String], name: &str, fallback: u64, maximum: u64) -> (r: Result<
    u64,
    LifecycleError,
>)
    ensures
        match bounded_problem(name@, option_value_of(args@, name@), maximum) {
            Some(m) => is_usage(r, m),
            None => r == Ok::<u64, LifecycleError>(
                bounded_value(option_value_of(args@, name@), fallback),
            ),
        },
{
    let raw = match option_value(args, name) {
        Some(raw) => raw,
        None => {
            return Ok(fallback);
        },
    };
    let value = parse_decimal(name, raw.as_str())?;
    if !(1 <= value && value <= maximum) {
        let mut m = concat3("invalid ", name, ": expected 1..=");
        push_decimal(&mut m, maximum);
        return Err(usage_error(m));
    }
    Ok(value)
}

pub fn parse_duration(args: &[String], name: &str, fallback: u64) -> (r: Result<u64, LifecycleError>)
    ensures
        match bounded_problem(name@, option_value_of(args@, name@), MAX_DURATION) {
            Some(m) => is_usage(r, m),
            None => r == Ok::<u64, LifecycleError>(
                bounded_value(option_value_of(args@, name@), fallback),
            ),
        },
{
    parse_bounded(args, name, fallback, MAX_DURATION)
}

pub fn parse_byte_cap(args: &[String], name: &str, fallback: usize) -> (r: Result<
    usize,
    LifecycleError,
>)
    ensures
        match bounded_problem(name@, option_value_of(args@, name@), MAX_BYTE_CAP) {
            Some(m) => is_usage(r, m),
            None => r matches Ok(v) && v == bounded_value(
                option_value_of(args@, name@),
                fallback as u64,
            ),
        },
{
    let value = parse_bounded(args, name, fallback as u64, MAX_BYTE_CAP)?;
    Ok(value as usize)
}

pub fn parse_poll_seconds(args: &[String], fallback: u64) -> (r: Result<u64, LifecycleError>)
    ensures
        match bounded_problem(
            "--poll-timeout-seconds"@,
            option_value_of(args@, "--poll-timeout-seconds"@),
            MAX_POLL_SECONDS,
        ) {
            Some(m) => is_usage(r, m),
            None => r == Ok::<u64, LifecycleError>(
                bounded_value(option_value_of(args@, "--poll-timeout-seconds"@), fallback),
            ),
        },
{
    parse_bounded(args, "--poll-timeout-seconds", fallback, MAX_POLL_SECONDS)
}

/// A retired option may only carry its one compatibility value.
pub fn validate_compatibility_literal(args: &[String], name: &str, expected: u64) -> (r: Result<
    (),
    LifecycleError,
>)
    ensures
        usage_result(
            r,
            match option_value_of(args@, name@) {
                None => None,
                Some(v) => if decimal_problem(name@, v) is Some {
                    decimal_problem(name@, v)
                } else if decimal_value(v) != expected {
                    Some(
                        name@ + " accepts only the compatibility literal "@ + decimal(
                            expected as nat,
                        ),
                    )
                } else {
                    None
                },
            },
        ),
{
    let raw = match option_value(args, name) {
        Some(raw) => raw,
        None => {
            return Ok(());
        },
    };
    let actual = parse_decimal(name, raw.as_str())?;
    if actual != expected {
        let mut m = concat2(name, " accepts only the compatibility literal ");
        push_decimal(&mut m, expected);
        return Err(usage_error(m));
    }
    Ok(())
}

/// A container path is absolute: it starts at the root.
pub open spec fn is_absolute(path: Seq<char>) -> bool {
    path.len() > 0 && path[0] == '/'
}

pub fn validate_absolute_container_path(path: &str, name: &str) -> (r: Result<(), LifecycleError>)
    ensures
        usage_result(
            r,
            if is_absolute(path@) {
                None
            } else {
                Some(name@ + " must be an absolute container path: "@ + path@)
            },
        ),
{
    proof {
        reveal_strlit("/");
        assert("/"@ =~= seq!['/']);
    }
    if !starts_with(path, "/") {
        proof {
            if is_absolute(path@) {
                assert(path@.subrange(0, 1) =~= "/"@);
            }
        }
        let mut m = concat2(name, " must be an absolute container path: ");
        push_str(&mut m, path);
        return Err(usage_error(m));
    }
    assert(path@.subrange(0, 1)[0] == path@[0]);
    Ok(())
}

/// Why a `--provider-timeout-ms` override is refused, if it is.
pub open spec fn provider_timeout_problem(
    raw: Option<Seq<char>>,
    minimum_ms: u64,
    command: Seq<char>,
) -> Option<Seq<char>> {
    match raw {
        None => None,
        Some(v) => if decimal_problem("--provider-timeout-ms"@, v) is Some {
            decimal_problem("--provider-timeout-ms"@, v)
        } else if !(1 <= decimal_value(v) <= MAX_DURATION) {
            Some("invalid --provider-timeout-ms: expected 1..=12000000"@)
        } else if decimal_value(v) < minimum_ms {
            Some(
                "--provider-timeout-ms for "@ + command + " must be at least "@ + decimal(
                    minimum_ms as nat,
                ),
            )
        } else {
            None
        },
    }
}

pub fn validate_provider_timeout_minimum(args: &[String], minimum_ms: u64, command: &str) -> (r:
    Result<Option<u64>, LifecycleError>)
    ensures
        match provider_timeout_problem(
            option_value_of(args@, "--provider-timeout-ms"@),
            minimum_ms,
            command@,
        ) {
            Some(m) => is_usage(r, m),
            None => r == Ok::<Option<u64>, LifecycleError>(
                match option_value_of(args@, "--provider-timeout-ms"@) {
                    None => None,
                    Some(v) => Some(decimal_value(v) as u64),
                },
            ),
        },
{
    let raw = match option_value(args, "--provider-timeout-ms") {
        Some(raw) => raw,
        None => {
            return Ok(None);
        },
    };
    let value = parse_decimal("--provider-timeout-ms", raw.as_str())?;
    if !(1 <= value && value <= MAX_DURATION) {
        return Err(usage_error("invalid --provider-timeout-ms: expected 1..=12000000".to_string()));
    }
    if value < minimum_ms {
        let mut m = concat3("--provider-timeout-ms for ", command, " must be at least ");
        push_decimal(&mut m, minimum_ms);
        return Err(usage_error(m));
    }
    Ok(Some(value))
}

// ---------------------------------------------------------------- provider mode

/// The provider a command runs against: a fake provider binary on the host,
/// or the slot's provider inside Docker.
#[derive(Clone, Debug, PartialEq, Eq)]
pub enum ParsedProviderMode {
    Fake { provider_bin: String },
    Docker { docker_bin: String, artifact_container_root: String },
}

pub open spec fn fake_bundle(args: Seq<String>) -> bool {
    has_arg(args, "--fake-runtime"@) && has_arg(args, "--fake-provider"@) && has_arg(
        args,
        "--provider-bin"@,
    )
}

pub open spec fn any_fake_flag(args: Seq<String>) -> bool {
    has_arg(args, "--fake-runtime"@) || has_arg(args, "--fake-provider"@) || has_arg(
        args,
        "--provider-bin"@,
    )
}

/// The option's value where it is given and not empty.
pub open spec fn non_empty_value(args: Seq<String>, name: Seq<char>) -> Option<Seq<char>> {
    match option_value_of(args, name) {
        Some(v) => if v.len() > 0 {
            Some(v)
        } else {
            None
        },
        None => None,
    }
}

/// Why a provider mode is refused before any file is looked at.
pub open spec fn provider_mode_problem(args: Seq<String>, command: Seq<char>) -> Option<Seq<char>> {
    if fake_bundle(args) == has_arg(args, "--docker-slot-provider"@) {
        Some(command + " requires exactly one provider mode"@)
    } else if any_fake_flag(args) {
        if !fake_bundle(args) {
            Some(
                command
                    + " fake mode requires the exact bundle --fake-runtime --fake-provider --provider-bin"@,
            )
        } else if has_arg(args, "--docker-bin"@) || has_arg(args, "--artifact-container-root"@) {
            Some(command + " fake mode forbids Docker options"@)
        } else if non_empty_value(args, "--provider-bin"@) is None {
            Some(command + " requires "@ + "--provider-bin"@)
        } else {
            None
        }
    } else {
        None
    }
}

pub open spec fn docker_bin_of(args: Seq<String>) -> Seq<char> {
    match option_value_of(args, "--docker-bin"@) {
        Some(v) => v,
        None => "docker"@,
    }
}

pub open spec fn container_root_of(args: Seq<String>) -> Seq<char> {
    match option_value_of(args, "--artifact-container-root"@) {
        Some(v) => v,
        None => "/broker-artifacts"@,
    }
}

/// `e` is what `check_executable` answered for some path with view `path`
/// under the option name `name`.
pub open spec fn executable_refused<F: Fn(&str, &str) -> Result<(), LifecycleError>>(
    check_executable: F,
    path: Seq<char>,
    name: &str,
    e: LifecycleError,
) -> bool {
    exists|p: &str| p@ == path && #[trigger] check_executable.ensures((p, name), Err(e))
}

/// The executable a command checks for its provider mode, with the option
/// it came from, if any.
pub open spec fn provider_executable(args: Seq<String>) -> Option<(Seq<char>, Seq<char>)> {
    if has_arg(args, "--fake-runtime"@) {
        Some((non_empty_value(args, "--provider-bin"@)->0, "--provider-bin"@))
    } else if option_value_of(args, "--docker-bin"@) is Some {
        Some((docker_bin_of(args), "--docker-bin"@))
    } else {
        None
    }
}

/// `check_executable` cannot refuse the executable of the provider mode.
pub open spec fn executable_accepted<F: Fn(&str, &str) -> Result<(), LifecycleError>>(
    check_executable: F,
    args: Seq<String>,
) -> bool {
    forall|p: &str, n: &str, e: LifecycleError|
        #[trigger] check_executable.ensures((p, n), Err(e)) ==> provider_executable(args) != Some(
            (p@, n@),
        )
}

/// `e` is what `check_executable` answered for the executable of the
/// provider mode.
pub open spec fn provider_executable_refused<F: Fn(&str, &str) -> Result<(), LifecycleError>>(
    check_executable: F,
    args: Seq<String>,
    e: LifecycleError,
) -> bool {
    exists|p: &str, n: &str|
        #[trigger] check_executable.ensures((p, n), Err(e)) && provider_executable(args) == Some(
            (p@, n@),
        )
}

/// Chooses the provider mode of a command. `check_executable` checks that a
/// path names an existing non-symlink executable file; it is asked about
/// `--provider-bin` in fake mode and about an explicit `--docker-bin`.
pub fn parse_provider_mode<F: Fn(&str, &str) -> Result<(), LifecycleError>>(
    args: &[String],
    command: &str,
    check_executable: F,
) -> (r: Result<ParsedProviderMode, LifecycleError>)
    requires
        forall|p: &str, n: &str| #[trigger] check_executable.requires((p, n)),
    ensures
        match provider_mode_problem(args@, command@) {
            Some(m) => is_usage(r, m),
            None => if any_fake_flag(args@) {
                &&& r matches Ok(mode) ==> mode matches ParsedProviderMode::Fake { provider_bin }
                    && provider_bin@ == non_empty_value(args@, "--provider-bin"@)->0
                &&& r matches Err(e) ==> executable_refused(
                    check_executable,
                    non_empty_value(args@, "--provider-bin"@)->0,
                    "--provider-bin",
                    e,
                )
            } else {
                let root = container_root_of(args@);
                &&& r matches Ok(mode) ==> mode matches ParsedProviderMode::Docker {
                    docker_bin,
                    artifact_container_root,
                } && docker_bin@ == docker_bin_of(args@) && artifact_container_root@ == root
                    && is_absolute(root)
                &&& r matches Err(e) ==> (option_value_of(args@, "--docker-bin"@) is Some
                    && executable_refused(check_executable, docker_bin_of(args@), "--docker-bin", e))
                    || (!is_absolute(root) && is_usage(
                    r,
                    "--artifact-container-root"@ + " must be an absolute container path: "@ + root,
                ))
                &&& option_value_of(args@, "--docker-bin"@) is None ==> (r is Ok <==> is_absolute(
                    root,
                ))
            },
        },
{
    let fake_runtime = any_arg(args, "--fake-runtime");
    let fake_provider = any_arg(args, "--fake-provider");
    let provider_bin_present = any_arg(args, "--provider-bin");
    let docker_mode = any_arg(args, "--docker-slot-provider");
    let complete_fake = fake_runtime && fake_provider && provider_bin_present;
    if complete_fake == docker_mode {
        return Err(usage_error(concat2(command, " requires exactly one provider mode")));
    }
    if fake_runtime || fake_provider || provider_bin_present {
        if !complete_fake {
            return Err(
                usage_error(
                    concat2(
                        command,
                        " fake mode requires the exact bundle --fake-runtime --fake-provider --provider-bin",
                    ),
                ),
            );
        }
        if any_arg(args, "--docker-bin") || any_arg(args, "--artifact-container-root") {
            return Err(usage_error(concat2(command, " fake mode forbids Docker options")));
        }
        let provider_bin = match required_command_value(args, "--provider-bin", command) {
            Ok(v) => v,
            Err(e) => {
                return Err(e);
            },
        };
        let path = provider_bin.as_str();
        let checked = check_executable(path, "--provider-bin");
        match checked {
            Ok(()) => {},
            Err(e) => {
                assert(check_executable.ensures((path, "--provider-bin"), Err(e)));
                return Err(e);
            },
        }
        return Ok(ParsedProviderMode::Fake { provider_bin });
    }
    let explicit = option_value(args, "--docker-bin");
    let docker_bin = match explicit {
        Some(v) => v,
        None => "docker".to_string(),
    };
    if option_value(args, "--docker-bin").is_some() {
        let path = docker_bin.as_str();
        let checked = check_executable(path, "--docker-bin");
        match checked {
            Ok(()) => {},
            Err(e) => {
                assert(check_executable.ensures((path, "--docker-bin"), Err(e)));
                return Err(e);
            },
        }
    }
    let artifact_container_root = match option_value(args, "--artifact-container-root") {
        Some(v) => v,
        None => "/broker-artifacts".to_string(),
    };
    match validate_absolute_container_path(
        artifact_container_root.as_str(),
        "--artifact-container-root",
    ) {
        Ok(()) => {},
        Err(e) => {
            return Err(e);
        },
    }
    Ok(ParsedProviderMode::Docker { docker_bin, artifact_container_root })
}

// ---------------------------------------------------------------- option lists per command

/// The first `--` option not in `allowed`, from index `i` on; the value of
/// an option in `with_value` is skipped.
pub open spec fn unlisted_option_from(
    args: Seq<String>,
    allowed: Seq<Seq<char>>,
    with_value: Seq<Seq<char>>,
    i: int,
) -> Option<Seq<char>>
    decreases args.len() + 1 - i,
{
    if i < 0 || i >= args.len() {
        None
    } else if is_prefix("--"@, args[i]@) && !allowed.contains(args[i]@) {
        Some(args[i]@)
    } else if with_value.contains(args[i]@) {
        unlisted_option_from(args, allowed, with_value, i + 2)
    } else {
        unlisted_option_from(args, allowed, with_value, i + 1)
    }
}

fn listed(values: &Vec<&'static str>, key: &str) -> (r: bool)
    ensures
        r == views(values@).contains(key@),
{
    let mut j: usize = 0;
    while j < values.len()
        invariant
            j <= values@.len(),
            forall|k: int| 0 <= k < j ==> #[trigger] values@[k]@ != key@,
        decreases values.len() - j,
    {
        if str_eq(values[j], key) {
            assert(views(values@)[j as int] == key@);
            return true;
        }
        j += 1;
    }
    proof {
        if views(values@).contains(key@) {
            let k = choose|k: int| 0 <= k < views(values@).len() && views(values@)[k] == key@;
            assert(values@[k]@ == key@);
        }
    }
    false
}

/// Refuses the first option that `allowed` does not list.
pub fn reject_unlisted_options(
    args: &[String],
    allowed: &Vec<&'static str>,
    with_value: &Vec<&'static str>,
) -> (r: Result<(), LifecycleError>)
    ensures
        usage_result(
            r,
            match unlisted_option_from(args@, views(allowed@), views(with_value@), 0) {
                Some(a) => Some("unknown option: "@ + a),
                None => None,
            },
        ),
{
    let mut index: usize = 0;
    while index < args.len()
        invariant
            unlisted_option_from(args@, views(allowed@), views(with_value@), 0)
                == unlisted_option_from(args@, views(allowed@), views(with_value@), index as int),
        decreases args.len() - index,
    {
        let arg = args[index].as_str();
        if starts_with(arg, "--") && !listed(allowed, arg) {
            return Err(usage_error(concat2("unknown option: ", arg)));
        }
        if listed(with_value, arg) {
            if args.len() - index < 2 {
                assert(unlisted_option_from(args@, views(allowed@), views(with_value@), index + 2) is None);
                return Ok(());
            }
            index += 2;
        } else {
            index += 1;
        }
    }
    Ok(())
}

/// The options `release` accepts, and those that take a value.
pub fn release_options() -> (r: (Vec<&'static str>, Vec<&'static str>))
    ensures
        views(r.0@) == seq!["--json"@, "--slot"@, "--session"@, "--fencing-token"@, "--stop-runtime"@, "--docker-bin"@, "--runtime-stop-timeout-ms"@],
        views(r.1@) == seq!["--slot"@, "--session"@, "--fencing-token"@, "--docker-bin"@, "--runtime-stop-timeout-ms"@],
{
    let allowed = vec!["--json", "--slot", "--session", "--fencing-token", "--stop-runtime", "--docker-bin", "--runtime-stop-timeout-ms"];
    let with_value = vec!["--slot", "--session", "--fencing-token", "--docker-bin", "--runtime-stop-timeout-ms"];
    assert(views(allowed@) =~= seq!["--json"@, "--slot"@, "--session"@, "--fencing-token"@, "--stop-runtime"@, "--docker-bin"@, "--runtime-stop-timeout-ms"@]);
    assert(views(with_value@) =~= seq!["--slot"@, "--session"@, "--fencing-token"@, "--docker-bin"@, "--runtime-stop-timeout-ms"@]);
    (allowed, with_value)
}

/// The options `allocate` accepts, and those that take a value.
pub fn allocate_options() -> (r: (Vec<&'static str>, Vec<&'static str>))
    ensures
        views(r.0@) == seq!["--json"@, "--dry-run"@, "--request-id"@, "--run-id"@, "--fencing-token"@, "--ttl-ms"@, "--docker-bin"@, "--runtime-start-timeout-ms"@],
        views(r.1@) == seq!["--request-id"@, "--run-id"@, "--fencing-token"@, "--ttl-ms"@, "--docker-bin"@, "--runtime-start-timeout-ms"@],
{
    let allowed = vec!["--json", "--dry-run", "--request-id", "--run-id", "--fencing-token", "--ttl-ms", "--docker-bin", "--runtime-start-timeout-ms"];
    let with_value = vec!["--request-id", "--run-id", "--fencing-token", "--ttl-ms", "--docker-bin", "--runtime-start-timeout-ms"];
    assert(views(allowed@) =~= seq!["--json"@, "--dry-run"@, "--request-id"@, "--run-id"@, "--fencing-token"@, "--ttl-ms"@, "--docker-bin"@, "--runtime-start-timeout-ms"@]);
    assert(views(with_value@) =~= seq!["--request-id"@, "--run-id"@, "--fencing-token"@, "--ttl-ms"@, "--docker-bin"@, "--runtime-start-timeout-ms"@]);
    (allowed, with_value)
}

/// The options `download` accepts, and those that take a value.
pub fn download_options() -> (r: (Vec<&'static str>, Vec<&'static str>))
    ensures
        views(r.0@) == seq!["--json"@, "--fake-runtime"@, "--fake-provider"@, "--docker-slot-provider"@, "--provider-bin"@, "--docker-bin"@, "--artifact-container-root"@, "--artifact-expectation"@, "--session"@, "--fencing-token"@, "--provider-timeout-ms"@, "--poll-timeout-seconds"@, "--max-stdout-bytes"@, "--max-stderr-bytes"@, "--runtime-start-timeout-ms"@, "--runtime-stop-timeout-ms"@],
        views(r.1@) == seq!["--provider-bin"@, "--docker-bin"@, "--artifact-container-root"@, "--artifact-expectation"@, "--session"@, "--fencing-token"@, "--provider-timeout-ms"@, "--poll-timeout-seconds"@, "--max-stdout-bytes"@, "--max-stderr-bytes"@, "--runtime-start-timeout-ms"@, "--runtime-stop-timeout-ms"@],
{
    let allowed = vec!["--json", "--fake-runtime", "--fake-provider", "--docker-slot-provider", "--provider-bin", "--docker-bin", "--artifact-container-root", "--artifact-expectation", "--session", "--fencing-token", "--provider-timeout-ms", "--poll-timeout-seconds", "--max-stdout-bytes", "--max-stderr-bytes", "--runtime-start-timeout-ms", "--runtime-stop-timeout-ms"];
    let with_value = vec!["--provider-bin", "--docker-bin", "--artifact-container-root", "--artifact-expectation", "--session", "--fencing-token", "--provider-timeout-ms", "--poll-timeout-seconds", "--max-stdout-bytes", "--max-stderr-bytes", "--runtime-start-timeout-ms", "--runtime-stop-timeout-ms"];
    assert(views(allowed@) =~= seq!["--json"@, "--fake-runtime"@, "--fake-provider"@, "--docker-slot-provider"@, "--provider-bin"@, "--docker-bin"@, "--artifact-container-root"@, "--artifact-expectation"@, "--session"@, "--fencing-token"@, "--provider-timeout-ms"@, "--poll-timeout-seconds"@, "--max-stdout-bytes"@, "--max-stderr-bytes"@, "--runtime-start-timeout-ms"@, "--runtime-stop-timeout-ms"@]);
    assert(views(with_value@) =~= seq!["--provider-bin"@, "--docker-bin"@, "--artifact-container-root"@, "--artifact-expectation"@, "--session"@, "--fencing-token"@, "--provider-timeout-ms"@, "--poll-timeout-seconds"@, "--max-stdout-bytes"@, "--max-stderr-bytes"@, "--runtime-start-timeout-ms"@, "--runtime-stop-timeout-ms"@]);
    (allowed, with_value)
}

/// The options `show` accepts, and those that take a value.
pub fn show_options() -> (r: (Vec<&'static str>, Vec<&'static str>))
    ensures
        views(r.0@) == seq!["--json"@, "--session"@, "--fencing-token"@, "--fake-runtime"@, "--fake-provider"@, "--provider-bin"@, "--docker-slot-provider"@, "--docker-bin"@, "--artifact-container-root"@, "--provider-timeout-ms"@, "--max-stdout-bytes"@, "--max-stderr-bytes"@, "--poll-timeout-seconds"@, "--runtime-start-timeout-ms"@, "--runtime-stop-timeout-ms"@],
        views(r.1@) == seq!["--session"@, "--fencing-token"@, "--provider-bin"@, "--docker-bin"@, "--artifact-container-root"@, "--provider-timeout-ms"@, "--max-stdout-bytes"@, "--max-stderr-bytes"@, "--poll-timeout-seconds"@, "--runtime-start-timeout-ms"@, "--runtime-stop-timeout-ms"@],
{
    let allowed = vec!["--json", "--session", "--fencing-token", "--fake-runtime", "--fake-provider", "--provider-bin", "--docker-slot-provider", "--docker-bin", "--artifact-container-root", "--provider-timeout-ms", "--max-stdout-bytes", "--max-stderr-bytes", "--poll-timeout-seconds", "--runtime-start-timeout-ms", "--runtime-stop-timeout-ms"];
    let with_value = vec!["--session", "--fencing-token", "--provider-bin", "--docker-bin", "--artifact-container-root", "--provider-timeout-ms", "--max-stdout-bytes", "--max-stderr-bytes", "--poll-timeout-seconds", "--runtime-start-timeout-ms", "--runtime-stop-timeout-ms"];
    assert(views(allowed@) =~= seq!["--json"@, "--session"@, "--fencing-token"@, "--fake-runtime"@, "--fake-provider"@, "--provider-bin"@, "--docker-slot-provider"@, "--docker-bin"@, "--artifact-container-root"@, "--provider-timeout-ms"@, "--max-stdout-bytes"@, "--max-stderr-bytes"@, "--poll-timeout-seconds"@, "--runtime-start-timeout-ms"@, "--runtime-stop-timeout-ms"@]);
    assert(views(with_value@) =~= seq!["--session"@, "--fencing-token"@, "--provider-bin"@, "--docker-bin"@, "--artifact-container-root"@, "--provider-timeout-ms"@, "--max-stdout-bytes"@, "--max-stderr-bytes"@, "--poll-timeout-seconds"@, "--runtime-start-timeout-ms"@, "--runtime-stop-timeout-ms"@]);
    (allowed, with_value)
}

/// The options `preflight` accepts, and those that take a value.
pub fn preflight_options() -> (r: (Vec<&'static str>, Vec<&'static str>))
    ensures
        views(r.0@) == seq!["--json"@, "--fake-runtime"@, "--fake-provider"@, "--docker-slot-provider"@, "--provider-bin"@, "--docker-bin"@, "--artifact-container-root"@, "--slot"@, "--run-id"@, "--provider-timeout-ms"@, "--max-stdout-bytes"@, "--max-stderr-bytes"@],
        views(r.1@) == seq!["--provider-bin"@, "--docker-bin"@, "--artifact-container-root"@, "--slot"@, "--run-id"@, "--provider-timeout-ms"@, "--max-stdout-bytes"@, "--max-stderr-bytes"@],
{
    let allowed = vec!["--json", "--fake-runtime", "--fake-provider", "--docker-slot-provider", "--provider-bin", "--docker-bin", "--artifact-container-root", "--slot", "--run-id", "--provider-timeout-ms", "--max-stdout-bytes", "--max-stderr-bytes"];
    let with_value = vec!["--provider-bin", "--docker-bin", "--artifact-container-root", "--slot", "--run-id", "--provider-timeout-ms", "--max-stdout-bytes", "--max-stderr-bytes"];
    assert(views(allowed@) =~= seq!["--json"@, "--fake-runtime"@, "--fake-provider"@, "--docker-slot-provider"@, "--provider-bin"@, "--docker-bin"@, "--artifact-container-root"@, "--slot"@, "--run-id"@, "--provider-timeout-ms"@, "--max-stdout-bytes"@, "--max-stderr-bytes"@]);
    assert(views(with_value@) =~= seq!["--provider-bin"@, "--docker-bin"@, "--artifact-container-root"@, "--slot"@, "--run-id"@, "--provider-timeout-ms"@, "--max-stdout-bytes"@, "--max-stderr-bytes"@]);
    (allowed, with_value)
}

/// The options `run` accepts in its legacy form, and those that take a value.
pub fn legacy_options() -> (r: (Vec<&'static str>, Vec<&'static str>))
    ensures
        views(r.0@) == seq!["--kind"@, "--prompt"@, "--file"@, "--docker-bin"@, "--artifact-container-root"@, "--artifact-expectation"@, "--request-id"@, "--run-id"@, "--fencing-token"@, "--ttl-ms"@, "--send-timeout-ms"@, "--provider-timeout-ms"@, "--poll-timeout-seconds"@, "--max-stdout-bytes"@, "--max-stderr-bytes"@, "--runtime-stop-timeout-ms"@, "--runtime-start-timeout-ms"@],
        views(r.1@) == seq!["--kind"@, "--prompt"@, "--file"@, "--docker-bin"@, "--artifact-container-root"@, "--artifact-expectation"@, "--request-id"@, "--run-id"@, "--fencing-token"@, "--ttl-ms"@, "--send-timeout-ms"@, "--provider-timeout-ms"@, "--poll-timeout-seconds"@, "--max-stdout-bytes"@, "--max-stderr-bytes"@, "--runtime-stop-timeout-ms"@, "--runtime-start-timeout-ms"@],
{
    let allowed = vec!["--kind", "--prompt", "--file", "--docker-bin", "--artifact-container-root", "--artifact-expectation", "--request-id", "--run-id", "--fencing-token", "--ttl-ms", "--send-timeout-ms", "--provider-timeout-ms", "--poll-timeout-seconds", "--max-stdout-bytes", "--max-stderr-bytes", "--runtime-stop-timeout-ms", "--runtime-start-timeout-ms"];
    let with_value = vec!["--kind", "--prompt", "--file", "--docker-bin", "--artifact-container-root", "--artifact-expectation", "--request-id", "--run-id", "--fencing-token", "--ttl-ms", "--send-timeout-ms", "--provider-timeout-ms", "--poll-timeout-seconds", "--max-stdout-bytes", "--max-stderr-bytes", "--runtime-stop-timeout-ms", "--runtime-start-timeout-ms"];
    assert(views(allowed@) =~= seq!["--kind"@, "--prompt"@, "--file"@, "--docker-bin"@, "--artifact-container-root"@, "--artifact-expectation"@, "--request-id"@, "--run-id"@, "--fencing-token"@, "--ttl-ms"@, "--send-timeout-ms"@, "--provider-timeout-ms"@, "--poll-timeout-seconds"@, "--max-stdout-bytes"@, "--max-stderr-bytes"@, "--runtime-stop-timeout-ms"@, "--runtime-start-timeout-ms"@]);
    assert(views(with_value@) =~= seq!["--kind"@, "--prompt"@, "--file"@, "--docker-bin"@, "--artifact-container-root"@, "--artifact-expectation"@, "--request-id"@, "--run-id"@, "--fencing-token"@, "--ttl-ms"@, "--send-timeout-ms"@, "--provider-timeout-ms"@, "--poll-timeout-seconds"@, "--max-stdout-bytes"@, "--max-stderr-bytes"@, "--runtime-stop-timeout-ms"@, "--runtime-start-timeout-ms"@]);
    (allowed, with_value)
}

// ---------------------------------------------------------------- release and allocate

/// What `release` is asked to do.
#[derive(Clone, Debug, PartialEq, Eq)]
pub struct ReleaseArgs {
    pub fencing_token: Option<String>,
    pub slot_id: Option<String>,
    pub session_id: Option<String>,
    pub docker_bin: String,
    pub runtime_stop_timeout_ms: u64,
}

pub open spec fn opt_string_view(v: Option<String>) -> Option<Seq<char>> {
    match v {
        Some(s) => Some(s@),
        None => None,
    }
}

/// Why `release` refuses its arguments before any file is looked at.
pub open spec fn release_problem(args: Seq<String>) -> Option<Seq<char>> {
    let allowed = seq!["--json"@, "--slot"@, "--session"@, "--fencing-token"@, "--stop-runtime"@, "--docker-bin"@, "--runtime-stop-timeout-ms"@];
    let with_value = seq!["--slot"@, "--session"@, "--fencing-token"@, "--docker-bin"@, "--runtime-stop-timeout-ms"@];
    let token = option_value_of(args, "--fencing-token"@);
    let slot = option_value_of(args, "--slot"@);
    let session = option_value_of(args, "--session"@);
    if unlisted_option_from(args, allowed, with_value, 0) is Some {
        Some("unknown option: "@ + unlisted_option_from(args, allowed, with_value, 0)->0)
    } else if !has_arg(args, "--json"@) {
        Some("release"@ + " requires "@ + "--json"@)
    } else if token is Some && !is_text(token->0, 4096) {
        Some("invalid "@ + "--fencing-token"@ + ": expected 1..4096 UTF-8 bytes without NUL"@)
    } else if (slot is Some) == (session is Some) {
        Some("release requires exactly one of --slot or --session"@)
    } else if slot is Some && !is_slot_id(slot->0) {
        Some("invalid "@ + "--slot"@ + ": "@ + slot->0)
    } else if session is Some && !is_session_id(session->0) {
        Some("invalid "@ + "--session"@ + ": "@ + session->0)
    } else {
        None
    }
}

/// Parses the arguments of `release`. `check_executable` is asked about an
/// explicit `--docker-bin`.
pub fn parse_release_args<F: Fn(&str, &str) -> Result<(), LifecycleError>>(
    args: &[String],
    check_executable: F,
) -> (r: Result<ReleaseArgs, LifecycleError>)
    requires
        forall|p: &str, n: &str| #[trigger] check_executable.requires((p, n)),
    ensures
        match release_problem(args@) {
            Some(m) => is_usage(r, m),
            None => {
                let stop = option_value_of(args@, "--runtime-stop-timeout-ms"@);
                &&& r matches Ok(a) ==> {
                    &&& opt_string_view(a.fencing_token) == option_value_of(args@, "--fencing-token"@)
                    &&& opt_string_view(a.slot_id) == option_value_of(args@, "--slot"@)
                    &&& opt_string_view(a.session_id) == option_value_of(args@, "--session"@)
                    &&& a.docker_bin@ == docker_bin_of(args@)
                    &&& bounded_problem("--runtime-stop-timeout-ms"@, stop, MAX_DURATION) is None
                    &&& a.runtime_stop_timeout_ms == bounded_value(stop, 30_000)
                }
                &&& r matches Err(e) ==> executable_refused(
                    check_executable,
                    docker_bin_of(args@),
                    "--docker-bin",
                    e,
                ) || (bounded_problem("--runtime-stop-timeout-ms"@, stop, MAX_DURATION) matches Some(
                    m,
                ) && is_usage(r, m))
                &&& option_value_of(args@, "--docker-bin"@) is None ==> match bounded_problem(
                    "--runtime-stop-timeout-ms"@,
                    stop,
                    MAX_DURATION,
                ) {
                    Some(m) => is_usage(r, m),
                    None => r is Ok,
                }
            },
        },
{
    let (allowed, with_value) = release_options();
    match reject_unlisted_options(args, &allowed, &with_value) {
        Ok(()) => {},
        Err(e) => {
            return Err(e);
        },
    }
    match require_flag(args, "--json", "release") {
        Ok(()) => {},
        Err(e) => {
            return Err(e);
        },
    }
    let fencing_token = option_value(args, "--fencing-token");
    match &fencing_token {
        Some(token) => match validate_non_empty_text(token.as_str(), "--fencing-token") {
            Ok(()) => {},
            Err(e) => {
                return Err(e);
            },
        },
        None => {},
    }
    let slot_id = option_value(args, "--slot");
    let session_id = option_value(args, "--session");
    if slot_id.is_some() == session_id.is_some() {
        return Err(usage_error("release requires exactly one of --slot or --session".to_string()));
    }
    match &slot_id {
        Some(v) => match validate_slot_id(v.as_str(), "--slot") {
            Ok(()) => {},
            Err(e) => {
                return Err(e);
            },
        },
        None => {},
    }
    match &session_id {
        Some(v) => match validate_session_id(v.as_str(), "--session") {
            Ok(()) => {},
            Err(e) => {
                return Err(e);
            },
        },
        None => {},
    }
    let docker_bin = match option_value(args, "--docker-bin") {
        Some(v) => v,
        None => "docker".to_string(),
    };
    if option_value(args, "--docker-bin").is_some() {
        let path = docker_bin.as_str();
        let checked = check_executable(path, "--docker-bin");
        match checked {
            Ok(()) => {},
            Err(e) => {
                assert(check_executable.ensures((path, "--docker-bin"), Err(e)));
                return Err(e);
            },
        }
    }
    let runtime_stop_timeout_ms = match parse_duration(args, "--runtime-stop-timeout-ms", 30_000) {
        Ok(v) => v,
        Err(e) => {
            return Err(e);
        },
    };
    Ok(ReleaseArgs { fencing_token, slot_id, session_id, docker_bin, runtime_stop_timeout_ms })
}

/// The value of an unsigned decimal as `str::parse::<u64>` reads it: an
/// optional `+`, then at least one ASCII digit.
pub open spec fn u64_text_value(s: Seq<char>) -> Option<nat> {
    let digits = if s.len() > 0 && s[0] == '+' {
        s.skip(1)
    } else {
        s
    };
    if digits.len() > 0 && all_digits(digits) && decimal_value(digits) <= u64::MAX {
        Some(decimal_value(digits))
    } else {
        None
    }
}

pub fn parse_u64(s: &str) -> (r: Option<u64>)
    ensures
        match u64_text_value(s@) {
            Some(v) => r == Some(v as u64),
            None => r is None,
        },
{
    let cs = str_chars(s);
    let start: usize = if cs.len() > 0 && cs[0] == '+' {
        1
    } else {
        0
    };
    let ghost digits = if s@.len() > 0 && s@[0] == '+' {
        s@.skip(1)
    } else {
        s@
    };
    assert(digits =~= s@.skip(start as int));
    if start >= cs.len() {
        return None;
    }
    let mut value: u64 = 0;
    let mut k: usize = start;
    while k < cs.len()
        invariant
            start <= k <= cs@.len(),
            cs@ == s@,
            digits == s@.skip(start as int),
            digits == (if s@.len() > 0 && s@[0] == '+' {
                s@.skip(1)
            } else {
                s@
            }),
            all_digits(digits.take(k - start)),
            value == decimal_value(digits.take(k - start)),
        decreases cs.len() - k,
    {
        let c = cs[k];
        assert(digits.take(k - start + 1).drop_last() =~= digits.take(k - start));
        assert(digits[k - start] == c);
        if !('0' <= c && c <= '9') {
            assert(!is_digit(digits[k - start]));
            assert(!all_digits(digits));
            return None;
        }
        let d = (c as u32 - '0' as u32) as u64;
        let next = match value.checked_mul(10) {
            Some(t) => t.checked_add(d),
            None => None,
        };
        match next {
            Some(n) => {
                value = n;
            },
            None => {
                proof {
                    lemma_decimal_prefix_le(digits, k - start + 1);
                    assert(digits.take(k - start + 1).last() == c);
                    assert(decimal_value(digits.take(k - start + 1)) == value * 10 + d);
                }
                return None;
            },
        }
        assert(all_digits(digits.take(k - start + 1)));
        k += 1;
    }
    assert(digits.take(k - start) =~= digits);
    Some(value)
}

/// The value of an optional positive number option, or the fallback.
pub open spec fn positive_u64_or(raw: Option<Seq<char>>, fallback: u64) -> u64 {
    match raw {
        Some(v) => match u64_text_value(v) {
            Some(n) => if n > 0 {
                n as u64
            } else {
                fallback
            },
            None => fallback,
        },
        None => fallback,
    }
}

pub fn optional_u64(args: &[String], name: &str, fallback: u64) -> (r: u64)
    ensures
        r == positive_u64_or(option_value_of(args@, name@), fallback),
{
    match option_value(args, name) {
        Some(v) => match parse_u64(v.as_str()) {
            Some(n) => if n > 0 {
                n
            } else {
                fallback
            },
            None => fallback,
        },
        None => fallback,
    }
}

} // verus!
