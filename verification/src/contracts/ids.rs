use sha2::{Digest, Sha256};
use vstd::prelude::*;

use crate::journal::canonical::{
    canonical_array, canonical_array_text, scalars_view, CanonicalScalar, ScalarView,
};
use crate::text::{
    all_lower_hex, chars_all_lower_hex, concat2, decimal, digit_value, has_char, is_alnum,
    is_alnum_char, is_control, is_control_char, is_digit, is_digit_char, is_lower_hex,
    is_lower_hex_char, is_prefix, push_char, push_str, str_chars, str_eq, strip_prefix, u64_to_string,
    utf8_len,
};

verus! {

pub const MAX_TIMESTAMP_MS: u64 = 9_007_199_254_740_991;

pub const MAX_DURATION_MS: u64 = 12_000_000;

pub const MAX_BYTE_COUNT: u64 = 10_737_418_240;

/// A value that failed its identifier or scalar contract.
#[derive(Clone, Debug, PartialEq, Eq)]
pub enum IdError {
    Invalid { kind: &'static str, value: String },
}

/// `r` is `Ok` exactly when `ok` holds, and otherwise names `kind` and `value`.
pub open spec fn id_result(r: Result<(), IdError>, ok: bool, kind: Seq<char>, value: Seq<char>) -> bool {
    match r {
        Ok(_) => ok,
        Err(IdError::Invalid { kind: k, value: v }) => !ok && k@ == kind && v@ == value,
    }
}

// ---------------------------------------------------------------- predicates

pub open spec fn is_prefixed_hex(s: Seq<char>, prefix: Seq<char>, digits: nat) -> bool {
    is_prefix(prefix, s) && s.len() == prefix.len() + digits && all_lower_hex(
        s.skip(prefix.len() as int),
    )
}

pub open spec fn general_id_char(c: char, index: int) -> bool {
    is_alnum(c) || (index > 0 && (c == '.' || c == '_' || c == ':' || c == '-'))
}

/// Request, run and operation identifiers: 1..=128 ASCII characters, alphanumeric
/// first, then alphanumerics or `. _ : -`.
pub open spec fn is_general_id(s: Seq<char>) -> bool {
    1 <= s.len() <= 128 && forall|i: int| 0 <= i < s.len() ==> general_id_char(#[trigger] s[i], i)
}

pub open spec fn session_id_char(c: char, index: int) -> bool {
    is_alnum(c) || (index > 0 && (c == '_' || c == '-'))
}

/// Session identifiers: 1..=128 ASCII characters, alphanumeric first, then
/// alphanumerics or `_ -`.
pub open spec fn is_session_id(s: Seq<char>) -> bool {
    1 <= s.len() <= 128 && forall|i: int| 0 <= i < s.len() ==> session_id_char(#[trigger] s[i], i)
}

/// The two characters after `slot-` parse as an unsigned byte in `1..=10`
/// (an unsigned parse accepts one leading `+`).
pub open spec fn slot_number_ok(a: char, b: char) -> bool {
    (is_digit(a) && is_digit(b) && 1 <= digit_value(a) * 10 + digit_value(b) <= 10) || (a == '+'
        && '1' <= b && b <= '9')
}

pub open spec fn is_slot_id(s: Seq<char>) -> bool {
    s.len() == 7 && is_prefix("slot-"@, s) && slot_number_ok(s[5], s[6])
}

pub open spec fn is_cohort(s: Seq<char>) -> bool {
    s == "cohort-a"@ || s == "cohort-b"@ || s == "cohort-c"@
}

pub open spec fn is_h256(s: Seq<char>) -> bool {
    is_prefixed_hex(s, "sha256:"@, 64)
}

pub open spec fn is_timestamp_ms(v: u64) -> bool {
    1 <= v <= MAX_TIMESTAMP_MS
}

pub open spec fn is_request_key(s: Seq<char>) -> bool {
    (is_prefix("r-"@, s) && is_general_id(s.skip(2))) || (is_prefix("s-"@, s) && is_session_id(
        s.skip(2),
    )) || (is_prefix("d-"@, s) && is_general_id(s.skip(2)))
}

pub open spec fn conversation_url_of(session_id: Seq<char>) -> Seq<char> {
    "https://chatgpt.com/c/"@ + session_id
}

/// Character-level rules of a safe relative path at position `i`: no NUL,
/// backslash or control character; a separator is neither first, last nor
/// doubled; no component is `.` or `..`.
pub open spec fn rel_path_ok_at(s: Seq<char>, i: int) -> bool {
    let c = s[i];
    &&& c != '\0' && c != '\\' && !is_control(c)
    &&& (c == '/' ==> (i > 0 && i + 1 < s.len() && s[i + 1] != '/'))
    &&& !(c == '.' && (i == 0 || s[i - 1] == '/') && (i + 1 == s.len() || s[i + 1] == '/'))
    &&& !(c == '.' && i + 1 < s.len() && s[i + 1] == '.' && (i == 0 || s[i - 1] == '/') && (i + 2
        == s.len() || s[i + 2] == '/'))
}

/// A relative path of 1..=240 UTF-8 bytes whose `/`-separated components are
/// all non-empty and neither `.` nor `..`.
pub open spec fn is_safe_rel_path(s: Seq<char>) -> bool {
    &&& s.len() > 0
    &&& 1 <= utf8_len(s) <= 240
    &&& forall|i: int| 0 <= i < s.len() ==> #[trigger] rel_path_ok_at(s, i)
}

pub open spec fn is_text(s: Seq<char>, max_bytes: nat) -> bool {
    s.len() > 0 && utf8_len(s) <= max_bytes && !has_char(s, '\0')
}

pub open spec fn is_raw_string(s: Seq<char>, empty_legal: bool) -> bool {
    (empty_legal || s.len() > 0) && !has_char(s, '\0')
}

pub open spec fn browser_guid_char(c: char, index: int) -> bool {
    if index == 8 || index == 13 || index == 18 || index == 23 {
        c == '-'
    } else {
        is_lower_hex(c)
    }
}

pub open spec fn is_browser_guid(s: Seq<char>) -> bool {
    s.len() == 36 && forall|i: int| 0 <= i < s.len() ==> browser_guid_char(#[trigger] s[i], i)
}

// ---------------------------------------------------------------- helpers

pub fn invalid(kind: &'static str, value: &str) -> (e: IdError)
    ensures
        e == (IdError::Invalid { kind, value: e->value }),
        e->value@ == value@,
{
    IdError::Invalid { kind, value: value.to_owned() }
}

fn check(ok: bool, kind: &'static str, value: &str) -> (r: Result<(), IdError>)
    ensures
        id_result(r, ok, kind@, value@),
{
    if ok {
        Ok(())
    } else {
        Err(invalid(kind, value))
    }
}

fn general_id_ok(value: &str) -> (r: bool)
    ensures
        r == is_general_id(value@),
{
    let v = str_chars(value);
    if v.len() < 1 || v.len() > 128 {
        return false;
    }
    let mut i: usize = 0;
    while i < v.len()
        invariant
            v@ == value@,
            i <= v@.len(),
            forall|j: int| 0 <= j < i ==> general_id_char(#[trigger] v@[j], j),
        decreases v.len() - i,
    {
        let c = v[i];
        if !(is_alnum_char(c) || (i > 0 && (c == '.' || c == '_' || c == ':' || c == '-'))) {
            assert(!general_id_char(v@[i as int], i as int));
            return false;
        }
        i += 1;
    }
    true
}

fn session_id_ok(value: &str) -> (r: bool)
    ensures
        r == is_session_id(value@),
{
    let v = str_chars(value);
    if v.len() < 1 || v.len() > 128 {
        return false;
    }
    let mut i: usize = 0;
    while i < v.len()
        invariant
            v@ == value@,
            i <= v@.len(),
            forall|j: int| 0 <= j < i ==> session_id_char(#[trigger] v@[j], j),
        decreases v.len() - i,
    {
        let c = v[i];
        if !(is_alnum_char(c) || (i > 0 && (c == '_' || c == '-'))) {
            assert(!session_id_char(v@[i as int], i as int));
            return false;
        }
        i += 1;
    }
    true
}

fn prefixed_hex_ok(value: &str, prefix: &str, digits: usize) -> (r: bool)
    ensures
        r == is_prefixed_hex(value@, prefix@, digits as nat),
{
    match strip_prefix(value, prefix) {
        None => false,
        Some(rest) => {
            let v = str_chars(rest.as_str());
            v.len() == digits && chars_all_lower_hex(&v)
        },
    }
}

fn lower_hex_ok(value: &str, digits: usize) -> (r: bool)
    ensures
        r == (value@.len() == digits && all_lower_hex(value@)),
{
    let v = str_chars(value);
    v.len() == digits && chars_all_lower_hex(&v)
}

fn text_ok(value: &str, max_bytes: usize) -> (r: bool)
    ensures
        r == is_text(value@, max_bytes as nat),
{
    !value.is_empty() && value.as_bytes().len() <= max_bytes && !crate::text::contains_char(value, '\0')
}

// ---------------------------------------------------------------- validators

fn validate_browser_guid(value: &str) -> (r: Result<(), IdError>)
    ensures
        id_result(r, is_browser_guid(value@), "browserGuid"@, value@),
{
    let v = str_chars(value);
    let mut ok = v.len() == 36;
    if ok {
        let mut i: usize = 0;
        while i < v.len()
            invariant
                v@ == value@,
                v@.len() == 36,
                i <= v@.len(),
                ok,
                forall|j: int| 0 <= j < i ==> browser_guid_char(#[trigger] v@[j], j),
            decreases v.len() - i,
        {
            let c = v[i];
            let good = if i == 8 || i == 13 || i == 18 || i == 23 {
                c == '-'
            } else {
                is_lower_hex_char(c)
            };
            if !good {
                assert(!browser_guid_char(v@[i as int], i as int));
                return check(false, "browserGuid", value);
            }
            i += 1;
        }
    }
    check(ok, "browserGuid", value)
}

fn validate_raw_string(kind: &'static str, value: &str, empty_legal: bool) -> (r: Result<(), IdError>)
    ensures
        id_result(r, is_raw_string(value@, empty_legal), kind@, value@),
{
    let ok = (empty_legal || !value.is_empty()) && !crate::text::contains_char(value, '\0');
    check(ok, kind, value)
}

fn validate_lower_hex(kind: &'static str, value: &str, digits: usize) -> (r: Result<(), IdError>)
    ensures
        id_result(r, value@.len() == digits && all_lower_hex(value@), kind@, value@),
{
    check(lower_hex_ok(value, digits), kind, value)
}

pub fn validate_request_id(value: &str) -> (r: Result<(), IdError>)
    ensures
        id_result(r, is_general_id(value@), "requestId"@, value@),
{
    check(general_id_ok(value), "requestId", value)
}

/// `host_` followed by 32 lowercase hexadecimal digits. A bad suffix is
/// reported with the suffix alone.
pub fn validate_host_id(value: &str) -> (r: Result<(), IdError>)
    ensures
        !is_prefix("host_"@, value@) ==> id_result(r, false, "hostId"@, value@),
        is_prefix("host_"@, value@) ==> id_result(
            r,
            value@.len() == 37 && all_lower_hex(value@.skip(5)),
            "hostId"@,
            value@.skip(5),
        ),
{
    proof {
        reveal_strlit("host_");
    }
    match strip_prefix(value, "host_") {
        None => Err(invalid("hostId", value)),
        Some(hex) => validate_lower_hex("hostId", hex.as_str(), 32),
    }
}

pub fn validate_run_id(value: &str) -> (r: Result<(), IdError>)
    ensures
        id_result(r, is_general_id(value@), "runId"@, value@),
{
    check(general_id_ok(value), "runId", value)
}

pub fn validate_operation_id(value: &str) -> (r: Result<(), IdError>)
    ensures
        id_result(r, is_general_id(value@), "operationId"@, value@),
{
    check(general_id_ok(value), "operationId", value)
}

pub fn validate_session_id(value: &str) -> (r: Result<(), IdError>)
    ensures
        id_result(r, is_session_id(value@), "sessionId"@, value@),
{
    check(session_id_ok(value), "sessionId", value)
}

fn slot_id_ok(value: &str) -> (r: bool)
    ensures
        r == is_slot_id(value@),
{
    proof {
        reveal_strlit("slot-");
    }
    match strip_prefix(value, "slot-") {
        None => false,
        Some(rest) => {
            let v = str_chars(rest.as_str());
            if v.len() != 2 {
                return false;
            }
            let a = v[0];
            let b = v[1];
            assert(a == value@[5] && b == value@[6]);
            if is_digit_char(a) && is_digit_char(b) {
                let n = ((a as u32) - 48) * 10 + ((b as u32) - 48);
                1 <= n && n <= 10
            } else {
                a == '+' && '1' <= b && b <= '9'
            }
        },
    }
}

/// `slot-` followed by two characters that parse as a slot number in `1..=10`.
pub fn validate_slot_id(value: &str) -> (r: Result<(), IdError>)
    ensures
        id_result(r, is_slot_id(value@), "slotId"@, value@),
{
    check(slot_id_ok(value), "slotId", value)
}

pub fn validate_prefixed_hex(kind: &'static str, value: &str, prefix: &str, digits: usize) -> (r:
    Result<(), IdError>)
    ensures
        id_result(r, is_prefixed_hex(value@, prefix@, digits as nat), kind@, value@),
{
    check(prefixed_hex_ok(value, prefix, digits), kind, value)
}

pub fn validate_h256(value: &str) -> (r: Result<(), IdError>)
    ensures
        id_result(r, is_h256(value@), "H256"@, value@),
{
    validate_prefixed_hex("H256", value, "sha256:", 64)
}

pub fn validate_event_id(value: &str) -> (r: Result<(), IdError>)
    ensures
        id_result(r, is_prefixed_hex(value@, "evt_"@, 64), "eventId"@, value@),
{
    validate_prefixed_hex("eventId", value, "evt_", 64)
}

pub fn validate_claim_id(value: &str) -> (r: Result<(), IdError>)
    ensures
        id_result(r, is_prefixed_hex(value@, "claim_"@, 64), "claimId"@, value@),
{
    validate_prefixed_hex("claimId", value, "claim_", 64)
}

pub fn validate_lease_id(value: &str) -> (r: Result<(), IdError>)
    ensures
        id_result(r, is_prefixed_hex(value@, "lease_"@, 64), "leaseId"@, value@),
{
    validate_prefixed_hex("leaseId", value, "lease_", 64)
}

pub fn validate_owner_id(value: &str) -> (r: Result<(), IdError>)
    ensures
        id_result(r, is_prefixed_hex(value@, "owner_"@, 64), "ownerId"@, value@),
{
    validate_prefixed_hex("ownerId", value, "owner_", 64)
}

pub fn validate_release_id(value: &str) -> (r: Result<(), IdError>)
    ensures
        id_result(r, is_prefixed_hex(value@, "release_"@, 64), "releaseId"@, value@),
{
    validate_prefixed_hex("releaseId", value, "release_", 64)
}

pub fn validate_receipt_id(value: &str) -> (r: Result<(), IdError>)
    ensures
        id_result(r, is_prefixed_hex(value@, "receipt_"@, 64), "receiptId"@, value@),
{
    validate_prefixed_hex("receiptId", value, "receipt_", 64)
}

pub fn validate_artifact_claim_id(value: &str) -> (r: Result<(), IdError>)
    ensures
        id_result(r, is_prefixed_hex(value@, "artifact_claim_"@, 64), "artifactClaimId"@, value@),
{
    validate_prefixed_hex("artifactClaimId", value, "artifact_claim_", 64)
}

pub fn validate_artifact_id(value: &str) -> (r: Result<(), IdError>)
    ensures
        id_result(r, is_prefixed_hex(value@, "artifact_"@, 64), "artifactId"@, value@),
{
    validate_prefixed_hex("artifactId", value, "artifact_", 64)
}

pub fn validate_binding_id(value: &str) -> (r: Result<(), IdError>)
    ensures
        id_result(r, is_prefixed_hex(value@, "binding_"@, 64), "bindingId"@, value@),
{
    validate_prefixed_hex("bindingId", value, "binding_", 64)
}

pub fn validate_root_id(value: &str) -> (r: Result<(), IdError>)
    ensures
        id_result(r, is_prefixed_hex(value@, "root_"@, 64), "rootId"@, value@),
{
    validate_prefixed_hex("rootId", value, "root_", 64)
}

pub fn validate_control_id(value: &str) -> (r: Result<(), IdError>)
    ensures
        id_result(r, is_prefixed_hex(value@, "control_"@, 64), "controlId"@, value@),
{
    validate_prefixed_hex("controlId", value, "control_", 64)
}

pub fn validate_turn_id(value: &str) -> (r: Result<(), IdError>)
    ensures
        id_result(r, is_prefixed_hex(value@, "turn_"@, 64), "turnId"@, value@),
{
    validate_prefixed_hex("turnId", value, "turn_", 64)
}

pub fn validate_runtime_incarnation_id(value: &str) -> (r: Result<(), IdError>)
    ensures
        id_result(r, is_prefixed_hex(value@, "runtime_"@, 64), "runtimeIncarnationId"@, value@),
{
    validate_prefixed_hex("runtimeIncarnationId", value, "runtime_", 64)
}

pub fn validate_browser_context_id(value: &str) -> (r: Result<(), IdError>)
    ensures
        id_result(r, is_prefixed_hex(value@, "ctx_"@, 64), "browserContextId"@, value@),
{
    validate_prefixed_hex("browserContextId", value, "ctx_", 64)
}

pub fn validate_target_id(value: &str) -> (r: Result<(), IdError>)
    ensures
        id_result(r, is_prefixed_hex(value@, "target_"@, 64), "targetId"@, value@),
{
    validate_prefixed_hex("targetId", value, "target_", 64)
}

pub fn validate_page_incarnation_id(value: &str) -> (r: Result<(), IdError>)
    ensures
        id_result(r, is_prefixed_hex(value@, "page_"@, 64), "pageIncarnationId"@, value@),
{
    validate_prefixed_hex("pageIncarnationId", value, "page_", 64)
}

pub fn validate_download_event_id(value: &str) -> (r: Result<(), IdError>)
    ensures
        id_result(r, is_prefixed_hex(value@, "download_"@, 64), "downloadEventId"@, value@),
{
    validate_prefixed_hex("downloadEventId", value, "download_", 64)
}

pub fn validate_cohort(value: &str) -> (r: Result<(), IdError>)
    ensures
        id_result(r, is_cohort(value@), "cohort"@, value@),
{
    let ok = str_eq(value, "cohort-a") || str_eq(value, "cohort-b") || str_eq(value, "cohort-c");
    check(ok, "cohort", value)
}

fn check_number(ok: bool, kind: &'static str, value: u64) -> (r: Result<(), IdError>)
    ensures
        id_result(r, ok, kind@, decimal(value as nat)),
{
    if ok {
        Ok(())
    } else {
        let text = u64_to_string(value);
        Err(invalid(kind, text.as_str()))
    }
}

pub fn validate_timestamp_ms(value: u64) -> (r: Result<(), IdError>)
    ensures
        id_result(r, is_timestamp_ms(value), "TimestampMs"@, decimal(value as nat)),
{
    check_number(1 <= value && value <= MAX_TIMESTAMP_MS, "TimestampMs", value)
}

pub fn validate_duration_ms(value: u64) -> (r: Result<(), IdError>)
    ensures
        id_result(r, value <= MAX_DURATION_MS, "DurationMs"@, decimal(value as nat)),
{
    check_number(value <= MAX_DURATION_MS, "DurationMs", value)
}

pub fn validate_byte_count(value: u64) -> (r: Result<(), IdError>)
    ensures
        id_result(r, value <= MAX_BYTE_COUNT, "ByteCount"@, decimal(value as nat)),
{
    check_number(value <= MAX_BYTE_COUNT, "ByteCount", value)
}

pub fn validate_generation(value: u16) -> (r: Result<(), IdError>)
    ensures
        id_result(r, value > 0, "generation"@, decimal(value as nat)),
{
    check_number(value > 0, "generation", value as u64)
}

/// `r-` and a request id, `s-` and a session id, or `d-` and an operation id.
pub fn validate_request_key(value: &str) -> (r: Result<(), IdError>)
    ensures
        id_result(r, is_request_key(value@), "RequestKey"@, value@),
{
    proof {
        reveal_strlit("r-");
        reveal_strlit("s-");
        reveal_strlit("d-");
    }
    let ok_r = match strip_prefix(value, "r-") {
        Some(id) => general_id_ok(id.as_str()),
        None => false,
    };
    let ok_s = match strip_prefix(value, "s-") {
        Some(id) => session_id_ok(id.as_str()),
        None => false,
    };
    let ok_d = match strip_prefix(value, "d-") {
        Some(id) => general_id_ok(id.as_str()),
        None => false,
    };
    check(ok_r || ok_s || ok_d, "RequestKey", value)
}

/// The session id must be valid (else it is reported), and the URL must be
/// `https://chatgpt.com/c/` followed by it.
pub fn validate_conversation_url(value: &str, session_id: &str) -> (r: Result<(), IdError>)
    ensures
        !is_session_id(session_id@) ==> id_result(r, false, "sessionId"@, session_id@),
        is_session_id(session_id@) ==> id_result(
            r,
            value@ == conversation_url_of(session_id@),
            "conversationUrl"@,
            value@,
        ),
{
    validate_session_id(session_id)?;
    let expected = concat2("https://chatgpt.com/c/", session_id);
    check(str_eq(value, expected.as_str()), "conversationUrl", value)
}

fn safe_rel_path_ok(value: &str) -> (r: bool)
    ensures
        r == is_safe_rel_path(value@),
{
    let bytes = value.as_bytes().len();
    let v = str_chars(value);
    if v.len() == 0 || bytes < 1 || bytes > 240 {
        return false;
    }
    let n = v.len();
    let mut i: usize = 0;
    while i < n
        invariant
            v@ == value@,
            n == v@.len(),
            i <= n,
            forall|j: int| 0 <= j < i ==> #[trigger] rel_path_ok_at(v@, j),
        decreases n - i,
    {
        let c = v[i];
        let starts = i == 0 || v[i - 1] == '/';
        let ok_char = c != '\0' && c != '\\' && !is_control_char(c);
        let ok_sep = c != '/' || (i > 0 && i + 1 < n && v[i + 1] != '/');
        let dot = c == '.' && starts && (i + 1 == n || v[i + 1] == '/');
        let dotdot = c == '.' && i + 1 < n && v[i + 1] == '.' && starts && (i + 2 == n || v[i
            + 2] == '/');
        if !(ok_char && ok_sep && !dot && !dotdot) {
            assert(!rel_path_ok_at(v@, i as int));
            return false;
        }
        assert(rel_path_ok_at(v@, i as int));
        i += 1;
    }
    true
}

pub fn validate_safe_rel_path(value: &str) -> (r: Result<(), IdError>)
    ensures
        id_result(r, is_safe_rel_path(value@), "SafeRelPath"@, value@),
{
    check(safe_rel_path_ok(value), "SafeRelPath", value)
}

pub fn validate_non_empty_text(value: &str) -> (r: Result<(), IdError>)
    ensures
        id_result(r, is_text(value@, 4096), "NonEmptyText"@, value@),
{
    check(text_ok(value, 4096), "NonEmptyText", value)
}

pub fn validate_answer_text(value: &str) -> (r: Result<(), IdError>)
    ensures
        id_result(r, is_text(value@, 65536), "AnswerText"@, value@),
{
    check(text_ok(value, 65536), "AnswerText", value)
}


// ---------------------------------------------------------------- digests

/// The lowercase hexadecimal SHA-256 digest of `bytes`: a name for what
/// `sha2` computes.
pub uninterp spec fn sha256_hex_of(bytes: Seq<u8>) -> Seq<char>;

/// Calls `sha2::Sha256::digest` on `bytes` and formats the 32-byte digest with
/// `{:x}`. Claimed: the text is the named digest of exactly these bytes, and it
/// is 64 lowercase hexadecimal digits (two per digest byte).
#[verifier::external_body]
pub fn sha256_hex(bytes: &[u8]) -> (r: String)
    ensures
        r@ == sha256_hex_of(bytes@),
        r@.len() == 64,
        all_lower_hex(r@),
{
    format!("{:x}", Sha256::digest(bytes))
}

/// `sha256:` followed by the hexadecimal digest of `bytes`.
pub fn h256(bytes: &[u8]) -> (r: String)
    ensures
        r@ == "sha256:"@ + sha256_hex_of(bytes@),
        is_h256(r@),
{
    let hex = sha256_hex(bytes);
    let r = concat2("sha256:", hex.as_str());
    proof {
        reveal_strlit("sha256:");
        assert(r@.skip(7) =~= hex@);
        assert(r@.subrange(0, 7) =~= "sha256:"@);
    }
    r
}

/// The bytes that are hashed for a preimage array: its compact JSON text and a
/// newline, UTF-8 encoded.
pub open spec fn preimage_bytes(items: Seq<ScalarView>) -> Seq<u8> {
    vstd::utf8::encode_utf8(canonical_array(items) + seq!['\n'])
}

pub open spec fn derived_id_of(prefix: Seq<char>, items: Seq<ScalarView>) -> Seq<char> {
    prefix + "_"@ + sha256_hex_of(preimage_bytes(items))
}

fn canonical_array_sha256(items: &Vec<CanonicalScalar>) -> (r: String)
    ensures
        r@ == sha256_hex_of(preimage_bytes(scalars_view(items@))),
        r@.len() == 64,
        all_lower_hex(r@),
{
    let mut text = canonical_array_text(items);
    push_char(&mut text, '\n');
    let ghost items_text = canonical_array(scalars_view(items@));
    assert(text@ =~= items_text + seq!['\n']);
    let t = text.as_str();
    let bytes = t.as_bytes();
    assert(bytes@ == preimage_bytes(scalars_view(items@)));
    sha256_hex(bytes)
}

fn derived_id(prefix: &str, items: &Vec<CanonicalScalar>) -> (r: String)
    ensures
        r@ == derived_id_of(prefix@, scalars_view(items@)),
        is_prefixed_hex(r@, prefix@ + "_"@, 64),
{
    let hex = canonical_array_sha256(items);
    let r = crate::text::concat3(prefix, "_", hex.as_str());
    proof {
        reveal_strlit("_");
        let p = prefix@ + "_"@;
        assert(r@ =~= p + hex@);
        assert(r@.subrange(0, p.len() as int) =~= p);
        assert(r@.skip(p.len() as int) =~= hex@);
    }
    r
}

fn text(s: &str) -> (x: CanonicalScalar)
    ensures
        x@ == ScalarView::Text(s@),
{
    CanonicalScalar::Text(s.to_owned())
}

/// `r` failed with `kind` naming `value`.
pub open spec fn id_err<T>(r: Result<T, IdError>, kind: Seq<char>, value: Seq<char>) -> bool {
    r matches Err(IdError::Invalid { kind: k, value: v }) && k@ == kind && v@ == value
}

/// `r` succeeded with the text `s`.
pub open spec fn ok_text(r: Result<String, IdError>, s: Seq<char>) -> bool {
    r matches Ok(t) && t@ == s
}

pub fn derive_browser_context_id(browser_guid: &str, cdp_browser_context_id: &str) -> (r: Result<
    String,
    IdError,
>)
    ensures
        !is_browser_guid(browser_guid@) ==> id_err(r, "browserGuid"@, browser_guid@),
        is_browser_guid(browser_guid@) && !is_raw_string(cdp_browser_context_id@, true) ==> id_err(
            r,
            "cdpBrowserContextId"@,
            cdp_browser_context_id@,
        ),
        is_browser_guid(browser_guid@) && is_raw_string(cdp_browser_context_id@, true) ==> ok_text(
            r,
            derived_id_of(
                "ctx"@,
                seq![
                    ScalarView::Text("pr72.ctx.r13.v1"@),
                    ScalarView::Text(browser_guid@),
                    ScalarView::Text(cdp_browser_context_id@),
                ],
            ),
        ),
{
    validate_browser_guid(browser_guid)?;
    validate_raw_string("cdpBrowserContextId", cdp_browser_context_id, true)?;
    let items = vec![text("pr72.ctx.r13.v1"), text(browser_guid), text(cdp_browser_context_id)];
    assert(scalars_view(items@) =~= seq![
        ScalarView::Text("pr72.ctx.r13.v1"@),
        ScalarView::Text(browser_guid@),
        ScalarView::Text(cdp_browser_context_id@),
    ]);
    Ok(derived_id("ctx", &items))
}

pub fn derive_target_id(browser_guid: &str, cdp_target_id: &str) -> (r: Result<String, IdError>)
    ensures
        !is_browser_guid(browser_guid@) ==> id_err(r, "browserGuid"@, browser_guid@),
        is_browser_guid(browser_guid@) && !is_raw_string(cdp_target_id@, false) ==> id_err(
            r,
            "cdpTargetId"@,
            cdp_target_id@,
        ),
        is_browser_guid(browser_guid@) && is_raw_string(cdp_target_id@, false) ==> ok_text(
            r,
            derived_id_of(
                "target"@,
                seq![
                    ScalarView::Text("pr72.target.r13.v1"@),
                    ScalarView::Text(browser_guid@),
                    ScalarView::Text(cdp_target_id@),
                ],
            ),
        ),
{
    validate_browser_guid(browser_guid)?;
    validate_raw_string("cdpTargetId", cdp_target_id, false)?;
    let items = vec![text("pr72.target.r13.v1"), text(browser_guid), text(cdp_target_id)];
    assert(scalars_view(items@) =~= seq![
        ScalarView::Text("pr72.target.r13.v1"@),
        ScalarView::Text(browser_guid@),
        ScalarView::Text(cdp_target_id@),
    ]);
    Ok(derived_id("target", &items))
}

pub fn derive_page_incarnation_id(
    browser_guid: &str,
    cdp_target_id: &str,
    main_frame_id: &str,
    loader_id: &str,
) -> (r: Result<String, IdError>)
    ensures
        !is_browser_guid(browser_guid@) ==> id_err(r, "browserGuid"@, browser_guid@),
        is_browser_guid(browser_guid@) && !is_raw_string(cdp_target_id@, false) ==> id_err(
            r,
            "cdpTargetId"@,
            cdp_target_id@,
        ),
        is_browser_guid(browser_guid@) && is_raw_string(cdp_target_id@, false) && !is_raw_string(
            main_frame_id@,
            false,
        ) ==> id_err(r, "mainFrameId"@, main_frame_id@),
        is_browser_guid(browser_guid@) && is_raw_string(cdp_target_id@, false) && is_raw_string(
            main_frame_id@,
            false,
        ) && !is_raw_string(loader_id@, false) ==> id_err(r, "loaderId"@, loader_id@),
        is_browser_guid(browser_guid@) && is_raw_string(cdp_target_id@, false) && is_raw_string(
            main_frame_id@,
            false,
        ) && is_raw_string(loader_id@, false) ==> ok_text(
            r,
            derived_id_of(
                "page"@,
                seq![
                    ScalarView::Text("pr72.page.r13.v1"@),
                    ScalarView::Text(browser_guid@),
                    ScalarView::Text(cdp_target_id@),
                    ScalarView::Text(main_frame_id@),
                    ScalarView::Text(loader_id@),
                ],
            ),
        ),
{
    validate_browser_guid(browser_guid)?;
    validate_raw_string("cdpTargetId", cdp_target_id, false)?;
    validate_raw_string("mainFrameId", main_frame_id, false)?;
    validate_raw_string("loaderId", loader_id, false)?;
    let items = vec![
        text("pr72.page.r13.v1"),
        text(browser_guid),
        text(cdp_target_id),
        text(main_frame_id),
        text(loader_id),
    ];
    assert(scalars_view(items@) =~= seq![
        ScalarView::Text("pr72.page.r13.v1"@),
        ScalarView::Text(browser_guid@),
        ScalarView::Text(cdp_target_id@),
        ScalarView::Text(main_frame_id@),
        ScalarView::Text(loader_id@),
    ]);
    Ok(derived_id("page", &items))
}

pub fn derive_page_binding_id(page_incarnation_id: &str, root_binding_hash: &str) -> (r: Result<
    String,
    IdError,
>)
    ensures
        !is_prefixed_hex(page_incarnation_id@, "page_"@, 64) ==> id_err(
            r,
            "pageIncarnationId"@,
            page_incarnation_id@,
        ),
        is_prefixed_hex(page_incarnation_id@, "page_"@, 64) && !is_h256(root_binding_hash@)
            ==> id_err(r, "H256"@, root_binding_hash@),
        is_prefixed_hex(page_incarnation_id@, "page_"@, 64) && is_h256(root_binding_hash@)
            ==> ok_text(
            r,
            derived_id_of(
                "binding"@,
                seq![
                    ScalarView::Text("pr72.page-binding.r13.v1"@),
                    ScalarView::Text(page_incarnation_id@),
                    ScalarView::Text(root_binding_hash@),
                ],
            ),
        ),
{
    validate_page_incarnation_id(page_incarnation_id)?;
    validate_h256(root_binding_hash)?;
    let items = vec![
        text("pr72.page-binding.r13.v1"),
        text(page_incarnation_id),
        text(root_binding_hash),
    ];
    assert(scalars_view(items@) =~= seq![
        ScalarView::Text("pr72.page-binding.r13.v1"@),
        ScalarView::Text(page_incarnation_id@),
        ScalarView::Text(root_binding_hash@),
    ]);
    Ok(derived_id("binding", &items))
}

pub fn derive_session_binding_id(session_id: &str, slot_id: &str, cohort: &str) -> (r: Result<
    String,
    IdError,
>)
    ensures
        !is_session_id(session_id@) ==> id_err(r, "sessionId"@, session_id@),
        is_session_id(session_id@) && !is_slot_id(slot_id@) ==> id_err(r, "slotId"@, slot_id@),
        is_session_id(session_id@) && is_slot_id(slot_id@) && !is_cohort(cohort@) ==> id_err(
            r,
            "cohort"@,
            cohort@,
        ),
        is_session_id(session_id@) && is_slot_id(slot_id@) && is_cohort(cohort@) ==> ok_text(
            r,
            derived_id_of(
                "binding"@,
                seq![
                    ScalarView::Text("pr72.session-binding.r13.v1"@),
                    ScalarView::Text(session_id@),
                    ScalarView::Text(slot_id@),
                    ScalarView::Text(cohort@),
                ],
            ),
        ),
{
    validate_session_id(session_id)?;
    validate_slot_id(slot_id)?;
    validate_cohort(cohort)?;
    let items = vec![
        text("pr72.session-binding.r13.v1"),
        text(session_id),
        text(slot_id),
        text(cohort),
    ];
    assert(scalars_view(items@) =~= seq![
        ScalarView::Text("pr72.session-binding.r13.v1"@),
        ScalarView::Text(session_id@),
        ScalarView::Text(slot_id@),
        ScalarView::Text(cohort@),
    ]);
    Ok(derived_id("binding", &items))
}

pub open spec fn is_author_role(s: Seq<char>) -> bool {
    s == "user"@ || s == "assistant"@
}

pub fn derive_turn_id(session_id: &str, author_role: &str, data_message_id: &str) -> (r: Result<
    String,
    IdError,
>)
    ensures
        !is_session_id(session_id@) ==> id_err(r, "sessionId"@, session_id@),
        is_session_id(session_id@) && !is_author_role(author_role@) ==> id_err(
            r,
            "authorRole"@,
            author_role@,
        ),
        is_session_id(session_id@) && is_author_role(author_role@) && !is_raw_string(
            data_message_id@,
            false,
        ) ==> id_err(r, "dataMessageId"@, data_message_id@),
        is_session_id(session_id@) && is_author_role(author_role@) && is_raw_string(
            data_message_id@,
            false,
        ) ==> ok_text(
            r,
            derived_id_of(
                "turn"@,
                seq![
                    ScalarView::Text("pr72.turn.r13.v1"@),
                    ScalarView::Text(session_id@),
                    ScalarView::Text(author_role@),
                    ScalarView::Text(data_message_id@),
                ],
            ),
        ),
{
    validate_session_id(session_id)?;
    if !(str_eq(author_role, "user") || str_eq(author_role, "assistant")) {
        return Err(invalid("authorRole", author_role));
    }
    validate_raw_string("dataMessageId", data_message_id, false)?;
    let items = vec![
        text("pr72.turn.r13.v1"),
        text(session_id),
        text(author_role),
        text(data_message_id),
    ];
    assert(scalars_view(items@) =~= seq![
        ScalarView::Text("pr72.turn.r13.v1"@),
        ScalarView::Text(session_id@),
        ScalarView::Text(author_role@),
        ScalarView::Text(data_message_id@),
    ]);
    Ok(derived_id("turn", &items))
}

/// The hexadecimal digest of a normalized chip stem.
pub fn chip_stem_hash(normalized_stem: &str) -> (r: Result<String, IdError>)
    ensures
        !is_raw_string(normalized_stem@, true) ==> id_err(r, "normalizedStem"@, normalized_stem@),
        is_raw_string(normalized_stem@, true) ==> ok_text(
            r,
            sha256_hex_of(vstd::utf8::encode_utf8(normalized_stem@)),
        ),
{
    validate_raw_string("normalizedStem", normalized_stem, true)?;
    Ok(sha256_hex(normalized_stem.as_bytes()))
}

pub fn derive_chip_stable_key(
    page_incarnation_id: &str,
    normalized_stem: &str,
    duplicate_ordinal: u8,
) -> (r: Result<String, IdError>)
    ensures
        !is_prefixed_hex(page_incarnation_id@, "page_"@, 64) ==> id_err(
            r,
            "pageIncarnationId"@,
            page_incarnation_id@,
        ),
        is_prefixed_hex(page_incarnation_id@, "page_"@, 64) && duplicate_ordinal > 63 ==> id_err(
            r,
            "dupOrdinal"@,
            decimal(duplicate_ordinal as nat),
        ),
        is_prefixed_hex(page_incarnation_id@, "page_"@, 64) && duplicate_ordinal <= 63
            && !is_raw_string(normalized_stem@, true) ==> id_err(
            r,
            "normalizedStem"@,
            normalized_stem@,
        ),
        is_prefixed_hex(page_incarnation_id@, "page_"@, 64) && duplicate_ordinal <= 63
            && is_raw_string(normalized_stem@, true) ==> ok_text(
            r,
            "sha256:"@ + sha256_hex_of(
                preimage_bytes(
                    seq![
                        ScalarView::Text("pr72.chip.r13.v1"@),
                        ScalarView::Text(page_incarnation_id@),
                        ScalarView::Text(
                            sha256_hex_of(vstd::utf8::encode_utf8(normalized_stem@)),
                        ),
                        ScalarView::Number(duplicate_ordinal as nat),
                    ],
                ),
            ),
        ),
{
    validate_page_incarnation_id(page_incarnation_id)?;
    if duplicate_ordinal > 63 {
        let shown = u64_to_string(duplicate_ordinal as u64);
        return Err(invalid("dupOrdinal", shown.as_str()));
    }
    let stem_hash = chip_stem_hash(normalized_stem)?;
    let items = vec![
        text("pr72.chip.r13.v1"),
        text(page_incarnation_id),
        CanonicalScalar::Text(stem_hash),
        CanonicalScalar::Number(duplicate_ordinal as u64),
    ];
    let hex = canonical_array_sha256(&items);
    let r = concat2("sha256:", hex.as_str());
    assert(scalars_view(items@) =~= seq![
        ScalarView::Text("pr72.chip.r13.v1"@),
        ScalarView::Text(page_incarnation_id@),
        ScalarView::Text(sha256_hex_of(vstd::utf8::encode_utf8(normalized_stem@))),
        ScalarView::Number(duplicate_ordinal as nat),
    ]);
    Ok(r)
}

pub fn derive_download_event_id(
    page_incarnation_id: &str,
    cdp_download_guid: &str,
    suggested_filename: &str,
) -> (r: Result<String, IdError>)
    ensures
        !is_prefixed_hex(page_incarnation_id@, "page_"@, 64) ==> id_err(
            r,
            "pageIncarnationId"@,
            page_incarnation_id@,
        ),
        is_prefixed_hex(page_incarnation_id@, "page_"@, 64) && !is_raw_string(
            cdp_download_guid@,
            false,
        ) ==> id_err(r, "cdpDownloadGuid"@, cdp_download_guid@),
        is_prefixed_hex(page_incarnation_id@, "page_"@, 64) && is_raw_string(
            cdp_download_guid@,
            false,
        ) && !is_raw_string(suggested_filename@, true) ==> id_err(
            r,
            "suggestedFilename"@,
            suggested_filename@,
        ),
        is_prefixed_hex(page_incarnation_id@, "page_"@, 64) && is_raw_string(
            cdp_download_guid@,
            false,
        ) && is_raw_string(suggested_filename@, true) ==> ok_text(
            r,
            derived_id_of(
                "download"@,
                seq![
                    ScalarView::Text("pr72.download-event.r13.v1"@),
                    ScalarView::Text(page_incarnation_id@),
                    ScalarView::Text(cdp_download_guid@),
                    ScalarView::Text(suggested_filename@),
                ],
            ),
        ),
{
    validate_page_incarnation_id(page_incarnation_id)?;
    validate_raw_string("cdpDownloadGuid", cdp_download_guid, false)?;
    validate_raw_string("suggestedFilename", suggested_filename, true)?;
    let items = vec![
        text("pr72.download-event.r13.v1"),
        text(page_incarnation_id),
        text(cdp_download_guid),
        text(suggested_filename),
    ];
    assert(scalars_view(items@) =~= seq![
        ScalarView::Text("pr72.download-event.r13.v1"@),
        ScalarView::Text(page_incarnation_id@),
        ScalarView::Text(cdp_download_guid@),
        ScalarView::Text(suggested_filename@),
    ]);
    Ok(derived_id("download", &items))
}

pub fn derive_artifact_id(artifact_claim_id: &str, control_id: &str, download_event_id: &str) -> (r:
    Result<String, IdError>)
    ensures
        !is_prefixed_hex(artifact_claim_id@, "artifact_claim_"@, 64) ==> id_err(
            r,
            "artifactClaimId"@,
            artifact_claim_id@,
        ),
        is_prefixed_hex(artifact_claim_id@, "artifact_claim_"@, 64) && !is_prefixed_hex(
            control_id@,
            "control_"@,
            64,
        ) ==> id_err(r, "controlId"@, control_id@),
        is_prefixed_hex(artifact_claim_id@, "artifact_claim_"@, 64) && is_prefixed_hex(
            control_id@,
            "control_"@,
            64,
        ) && !is_prefixed_hex(download_event_id@, "download_"@, 64) ==> id_err(
            r,
            "downloadEventId"@,
            download_event_id@,
        ),
        is_prefixed_hex(artifact_claim_id@, "artifact_claim_"@, 64) && is_prefixed_hex(
            control_id@,
            "control_"@,
            64,
        ) && is_prefixed_hex(download_event_id@, "download_"@, 64) ==> ok_text(
            r,
            derived_id_of(
                "artifact"@,
                seq![
                    ScalarView::Text("pr72.artifact.r13.v1"@),
                    ScalarView::Text(artifact_claim_id@),
                    ScalarView::Text(control_id@),
                    ScalarView::Text(download_event_id@),
                ],
            ),
        ),
{
    validate_artifact_claim_id(artifact_claim_id)?;
    validate_control_id(control_id)?;
    validate_download_event_id(download_event_id)?;
    let items = vec![
        text("pr72.artifact.r13.v1"),
        text(artifact_claim_id),
        text(control_id),
        text(download_event_id),
    ];
    assert(scalars_view(items@) =~= seq![
        ScalarView::Text("pr72.artifact.r13.v1"@),
        ScalarView::Text(artifact_claim_id@),
        ScalarView::Text(control_id@),
        ScalarView::Text(download_event_id@),
    ]);
    Ok(derived_id("artifact", &items))
}

pub open spec fn host_saved_rel_path_of(
    request_key: Seq<char>,
    artifact_claim_id: Seq<char>,
    artifact_id: Seq<char>,
) -> Seq<char> {
    "artifacts/"@ + request_key + "/"@ + artifact_claim_id + "/"@ + artifact_id + ".download"@
}

/// `artifacts/<requestKey>/<artifactClaimId>/<artifactId>.download`, when each
/// part is valid and the whole is a safe relative path.
pub fn artifact_host_saved_rel_path(request_key: &str, artifact_claim_id: &str, artifact_id: &str) -> (r:
    Result<String, IdError>)
    ensures
        !is_request_key(request_key@) ==> id_err(r, "RequestKey"@, request_key@),
        is_request_key(request_key@) && !is_prefixed_hex(artifact_claim_id@, "artifact_claim_"@, 64)
            ==> id_err(r, "artifactClaimId"@, artifact_claim_id@),
        is_request_key(request_key@) && is_prefixed_hex(artifact_claim_id@, "artifact_claim_"@, 64)
            && !is_prefixed_hex(artifact_id@, "artifact_"@, 64) ==> id_err(
            r,
            "artifactId"@,
            artifact_id@,
        ),
        is_request_key(request_key@) && is_prefixed_hex(artifact_claim_id@, "artifact_claim_"@, 64)
            && is_prefixed_hex(artifact_id@, "artifact_"@, 64) ==> {
            let path = host_saved_rel_path_of(request_key@, artifact_claim_id@, artifact_id@);
            if is_safe_rel_path(path) {
                ok_text(r, path)
            } else {
                id_err(r, "SafeRelPath"@, path)
            }
        },
{
    validate_request_key(request_key)?;
    validate_artifact_claim_id(artifact_claim_id)?;
    validate_artifact_id(artifact_id)?;
    let mut value = String::from_str("artifacts/");
    push_str(&mut value, request_key);
    push_str(&mut value, "/");
    push_str(&mut value, artifact_claim_id);
    push_str(&mut value, "/");
    push_str(&mut value, artifact_id);
    push_str(&mut value, ".download");
    validate_safe_rel_path(value.as_str())?;
    Ok(value)
}

pub fn derive_writer_id(host_id: &str, process_id: u32, process_start_ms: u64) -> (r: Result<
    String,
    IdError,
>)
    ensures
        !is_prefix("host_"@, host_id@) ==> id_err(r, "hostId"@, host_id@),
        is_prefix("host_"@, host_id@) && !(host_id@.len() == 37 && all_lower_hex(host_id@.skip(5)))
            ==> id_err(r, "hostId"@, host_id@.skip(5)),
        is_prefixed_hex(host_id@, "host_"@, 32) && process_id == 0 ==> id_err(
            r,
            "processId"@,
            "0"@,
        ),
        is_prefixed_hex(host_id@, "host_"@, 32) && process_id != 0 && !is_timestamp_ms(
            process_start_ms,
        ) ==> id_err(r, "TimestampMs"@, decimal(process_start_ms as nat)),
        is_prefixed_hex(host_id@, "host_"@, 32) && process_id != 0 && is_timestamp_ms(
            process_start_ms,
        ) ==> ok_text(
            r,
            derived_id_of(
                "writer"@,
                seq![
                    ScalarView::Text("pr72.writer.r13.v1"@),
                    ScalarView::Text(host_id@),
                    ScalarView::Number(process_id as nat),
                    ScalarView::Number(process_start_ms as nat),
                ],
            ),
        ),
{
    proof {
        reveal_strlit("host_");
        reveal_strlit("0");
    }
    validate_host_id(host_id)?;
    assert(is_prefixed_hex(host_id@, "host_"@, 32));
    if process_id == 0 {
        let shown = u64_to_string(0);
        assert(decimal(0) =~= "0"@);
        return Err(invalid("processId", shown.as_str()));
    }
    validate_timestamp_ms(process_start_ms)?;
    let items = vec![
        text("pr72.writer.r13.v1"),
        text(host_id),
        CanonicalScalar::Number(process_id as u64),
        CanonicalScalar::Number(process_start_ms),
    ];
    assert(scalars_view(items@) =~= seq![
        ScalarView::Text("pr72.writer.r13.v1"@),
        ScalarView::Text(host_id@),
        ScalarView::Number(process_id as nat),
        ScalarView::Number(process_start_ms as nat),
    ]);
    Ok(derived_id("writer", &items))
}

pub fn derive_runtime_incarnation_id(slot_id: &str, incarnation_nonce: &str) -> (r: Result<
    String,
    IdError,
>)
    ensures
        !is_slot_id(slot_id@) ==> id_err(r, "slotId"@, slot_id@),
        is_slot_id(slot_id@) && !(incarnation_nonce@.len() == 32 && all_lower_hex(
            incarnation_nonce@,
        )) ==> id_err(r, "incarnationNonce"@, incarnation_nonce@),
        is_slot_id(slot_id@) && incarnation_nonce@.len() == 32 && all_lower_hex(incarnation_nonce@)
            ==> ok_text(
            r,
            derived_id_of(
                "runtime"@,
                seq![
                    ScalarView::Text("pr72.runtime-incarnation.r13.v1"@),
                    ScalarView::Text(slot_id@),
                    ScalarView::Text(incarnation_nonce@),
                ],
            ),
        ),
{
    validate_slot_id(slot_id)?;
    validate_lower_hex("incarnationNonce", incarnation_nonce, 32)?;
    let items = vec![
        text("pr72.runtime-incarnation.r13.v1"),
        text(slot_id),
        text(incarnation_nonce),
    ];
    assert(scalars_view(items@) =~= seq![
        ScalarView::Text("pr72.runtime-incarnation.r13.v1"@),
        ScalarView::Text(slot_id@),
        ScalarView::Text(incarnation_nonce@),
    ]);
    Ok(derived_id("runtime", &items))
}

} // verus!
