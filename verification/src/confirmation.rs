use vstd::prelude::*;

use crate::contracts::decode::name_views;
use crate::contracts::ids::{is_prefixed_hex, sha256_hex, sha256_hex_of, validate_turn_id};
use crate::contracts::projection::get_entry;
use crate::contracts::semantics::JsonValue;
use crate::journal::sources::field_of;
use crate::text::{concat2, push_char, str_chars, str_eq, utf8_len};

verus! {

// ---------------------------------------------------------------- records

/// What the provider-envelope check reports of a reply: its status and the
/// session and conversation it names.
#[derive(Clone, Debug, PartialEq, Eq)]
pub struct EnvelopeSummary {
    pub status: String,
    pub session_id: Option<String>,
    pub conversation_url: Option<String>,
}

/// The proof that a send reached the provider: the session, the page and both
/// server-assigned turn identities.
#[derive(Clone, Debug, PartialEq, Eq)]
pub struct SendStartConfirmation {
    pub session_id: String,
    pub conversation_url: String,
    pub target_id: String,
    pub active_turn: bool,
    pub user_turn_id: String,
    pub assistant_turn_id: String,
}

/// The proof of a terminal answer: the session, the page, the trimmed answer
/// with its length in bytes and digest, and the digest the provider gave for
/// the assistant turn.
#[derive(Clone, Debug, PartialEq, Eq)]
pub struct TerminalAnswerConfirmation {
    pub session_id: String,
    pub conversation_url: String,
    pub target_id: String,
    pub answer_text: String,
    pub answer_text_len: usize,
    pub answer_text_sha256: String,
    pub assistant_turn_text_sha256: String,
}

#[derive(Clone, Debug, PartialEq, Eq)]
pub enum ConfirmationError {
    ProviderContract(String),
    NotSent(String),
    NotDone(String),
    MissingEvidence(&'static str),
    UrlSessionMismatch,
    NoRealTurnEvidence,
    EmptyAnswer,
}

// ---------------------------------------------------------------- trimming

/// Unicode `White_Space`, the characters `str::trim` removes.
pub open spec fn is_white_space(c: char) -> bool {
    let n = c as u32;
    (0x9 <= n <= 0xd) || n == 0x20 || n == 0x85 || n == 0xa0 || n == 0x1680 || (0x2000 <= n
        <= 0x200a) || n == 0x2028 || n == 0x2029 || n == 0x202f || n == 0x205f || n == 0x3000
}

pub open spec fn trim_front(s: Seq<char>) -> Seq<char>
    decreases s.len(),
{
    if s.len() > 0 && is_white_space(s[0]) {
        trim_front(s.skip(1))
    } else {
        s
    }
}

pub open spec fn trim_back(s: Seq<char>) -> Seq<char>
    decreases s.len(),
{
    if s.len() > 0 && is_white_space(s.last()) {
        trim_back(s.drop_last())
    } else {
        s
    }
}

/// The text without its leading and trailing white space.
pub open spec fn trimmed(s: Seq<char>) -> Seq<char> {
    trim_back(trim_front(s))
}

fn white_space(c: char) -> (r: bool)
    ensures
        r == is_white_space(c),
{
    let n = c as u32;
    (0x9 <= n && n <= 0xd) || n == 0x20 || n == 0x85 || n == 0xa0 || n == 0x1680 || (0x2000 <= n
        && n <= 0x200a) || n == 0x2028 || n == 0x2029 || n == 0x202f || n == 0x205f || n == 0x3000
}

/// `s` without its leading and trailing white space.
pub fn trim(s: &str) -> (r: String)
    ensures
        r@ == trimmed(s@),
{
    let v = str_chars(s);
    let n = v.len();
    let mut lo: usize = 0;
    assert(s@.skip(0) =~= s@);
    while lo < n && white_space(v[lo])
        invariant
            lo <= n,
            n == s@.len(),
            v@ == s@,
            trim_front(s@) == trim_front(s@.skip(lo as int)),
        decreases n - lo,
    {
        assert(s@.skip(lo as int).skip(1) =~= s@.skip(lo as int + 1));
        lo += 1;
    }
    let ghost front = s@.skip(lo as int);
    assert(trim_front(front) == front);
    let mut hi: usize = n;
    assert(s@.subrange(lo as int, n as int) =~= front);
    while hi > lo && white_space(v[hi - 1])
        invariant
            lo <= hi <= n,
            n == s@.len(),
            v@ == s@,
            front == s@.skip(lo as int),
            trim_back(front) == trim_back(s@.subrange(lo as int, hi as int)),
        decreases hi - lo,
    {
        assert(s@.subrange(lo as int, hi as int).drop_last() =~= s@.subrange(lo as int, hi as int - 1));
        hi -= 1;
    }
    let ghost t = s@.subrange(lo as int, hi as int);
    assert(trim_back(t) == t);
    let mut r = String::new();
    let mut j: usize = lo;
    while j < hi
        invariant
            lo <= j <= hi <= n,
            n == s@.len(),
            v@ == s@,
            r@ == s@.subrange(lo as int, j as int),
        decreases hi - j,
    {
        push_char(&mut r, v[j]);
        assert(s@.subrange(lo as int, j + 1) =~= s@.subrange(lo as int, j as int).push(s@[j as int]));
        j += 1;
    }
    r
}

// ---------------------------------------------------------------- reply fields

/// The page address that belongs to a session.
pub open spec fn session_url(session_id: Seq<char>) -> Seq<char> {
    "https://chatgpt.com/c/"@ + session_id
}

/// The text of field `key` of an object reply.
pub open spec fn text_field(v: JsonValue, key: Seq<char>) -> Option<Seq<char>> {
    match field_of(v, key) {
        Some(JsonValue::Text(s)) => Some(s@),
        _ => None,
    }
}

/// The field `key` of an object reply, where it is an object itself.
pub open spec fn object_field(v: JsonValue, key: Seq<char>) -> Option<JsonValue> {
    match field_of(v, key) {
        Some(JsonValue::Object(es)) => Some(JsonValue::Object(es)),
        _ => None,
    }
}

/// A non-empty `targetId`.
pub open spec fn target_field(v: JsonValue) -> Option<Seq<char>> {
    match text_field(v, "targetId"@) {
        Some(t) => if t.len() > 0 {
            Some(t)
        } else {
            None
        },
        None => None,
    }
}

/// The check that both confirmations share, in order: the envelope, the
/// status, the session, the conversation URL and its agreement with the
/// session, the reply being an object and its `targetId`.
pub open spec fn common_error(
    v: JsonValue,
    env: Result<EnvelopeSummary, String>,
    status_ok: bool,
    done: bool,
) -> Option<ConfirmationError> {
    match env {
        Err(m) => Some(ConfirmationError::ProviderContract(m)),
        Ok(s) => if !status_ok {
            if done {
                Some(ConfirmationError::NotDone(s.status))
            } else {
                Some(ConfirmationError::NotSent(s.status))
            }
        } else if s.session_id is None {
            Some(ConfirmationError::MissingEvidence("sessionId"))
        } else if s.conversation_url is None {
            Some(ConfirmationError::MissingEvidence("conversationUrl"))
        } else if s.conversation_url->0@ != session_url(s.session_id->0@) {
            Some(ConfirmationError::UrlSessionMismatch)
        } else if !(v is Object) {
            Some(ConfirmationError::MissingEvidence("object"))
        } else if target_field(v) is None {
            Some(ConfirmationError::MissingEvidence("targetId"))
        } else {
            None
        },
    }
}

/// Whether a turn identity of the evidence is a real one.
pub open spec fn real_turn(evidence: JsonValue, key: Seq<char>) -> bool {
    text_field(evidence, key) matches Some(t) && is_prefixed_hex(t, "turn_"@, 64)
}

/// Why a reply does not confirm that a send started, if it does not.
pub open spec fn send_started_error(v: JsonValue, env: Result<EnvelopeSummary, String>) -> Option<
    ConfirmationError,
> {
    let status_ok = env matches Ok(s) && s.status@ == "sent"@;
    if common_error(v, env, status_ok, false) is Some {
        common_error(v, env, status_ok, false)
    } else if object_field(v, "turnEvidence"@) is None {
        Some(ConfirmationError::MissingEvidence("turnEvidence"))
    } else if !real_turn(object_field(v, "turnEvidence"@)->0, "userTurnId"@) || !real_turn(
        object_field(v, "turnEvidence"@)->0,
        "assistantTurnId"@,
    ) {
        Some(ConfirmationError::NoRealTurnEvidence)
    } else {
        None
    }
}

/// Why a reply does not confirm a terminal answer in one of the `accepted`
/// statuses, if it does not.
pub open spec fn terminal_answer_error(
    v: JsonValue,
    env: Result<EnvelopeSummary, String>,
    accepted: Seq<Seq<char>>,
) -> Option<ConfirmationError> {
    let status_ok = env matches Ok(s) && accepted.contains(s.status@);
    if common_error(v, env, status_ok, true) is Some {
        common_error(v, env, status_ok, true)
    } else if text_field(v, "answerText"@) is None {
        Some(ConfirmationError::MissingEvidence("answerText"))
    } else if trimmed(text_field(v, "answerText"@)->0).len() == 0 {
        Some(ConfirmationError::EmptyAnswer)
    } else if object_field(v, "assistantTurn"@) is None {
        Some(ConfirmationError::MissingEvidence("assistantTurn"))
    } else if !(text_field(object_field(v, "assistantTurn"@)->0, "textSha256"@) matches Some(t)
        && utf8_len(t) == 64) {
        Some(ConfirmationError::MissingEvidence("assistantTurn.textSha256"))
    } else {
        None
    }
}

fn field<'a>(v: &'a JsonValue, key: &str) -> (r: Option<&'a JsonValue>)
    ensures
        match field_of(*v, key@) {
            Some(x) => r matches Some(y) && *y == x,
            None => r is None,
        },
{
    match v {
        JsonValue::Object(es) => get_entry(es, key),
        _ => None,
    }
}

fn text<'a>(v: &'a JsonValue, key: &str) -> (r: Option<&'a str>)
    ensures
        match text_field(*v, key@) {
            Some(t) => r matches Some(s) && s@ == t,
            None => r is None,
        },
{
    match field(v, key) {
        Some(JsonValue::Text(s)) => Some(s.as_str()),
        _ => None,
    }
}

fn object<'a>(v: &'a JsonValue, key: &str) -> (r: Option<&'a JsonValue>)
    ensures
        match object_field(*v, key@) {
            Some(x) => r matches Some(y) && *y == x,
            None => r is None,
        },
{
    match field(v, key) {
        Some(x) => match x {
            JsonValue::Object(_) => Some(x),
            _ => None,
        },
        None => None,
    }
}

/// The envelope's session, URL and the reply's target, after the checks
/// both confirmations share.
fn common(
    v: &JsonValue,
    env: Result<EnvelopeSummary, String>,
    status_ok: bool,
    done: bool,
) -> (r: Result<(String, String, String), ConfirmationError>)
    ensures
        match common_error(*v, env, status_ok, done) {
            Some(e) => r == Err::<(String, String, String), ConfirmationError>(e),
            None => r matches Ok((session, url, target)) && env matches Ok(s) && Some(session)
                == s.session_id && Some(url) == s.conversation_url && Some(target@) == target_field(
                *v,
            ),
        },
{
    let s = match env {
        Err(m) => return Err(ConfirmationError::ProviderContract(m)),
        Ok(s) => s,
    };
    if !status_ok {
        if done {
            return Err(ConfirmationError::NotDone(s.status));
        } else {
            return Err(ConfirmationError::NotSent(s.status));
        }
    }
    let session = match s.session_id {
        Some(x) => x,
        None => return Err(ConfirmationError::MissingEvidence("sessionId")),
    };
    let url = match s.conversation_url {
        Some(x) => x,
        None => return Err(ConfirmationError::MissingEvidence("conversationUrl")),
    };
    let expected = concat2("https://chatgpt.com/c/", session.as_str());
    if !str_eq(url.as_str(), expected.as_str()) {
        return Err(ConfirmationError::UrlSessionMismatch);
    }
    if !matches!(v, JsonValue::Object(_)) {
        return Err(ConfirmationError::MissingEvidence("object"));
    }
    let target = match text(v, "targetId") {
        Some(t) => if t.unicode_len() > 0 {
            t.to_owned()
        } else {
            return Err(ConfirmationError::MissingEvidence("targetId"));
        },
        None => return Err(ConfirmationError::MissingEvidence("targetId")),
    };
    Ok((session, url, target))
}

// ---------------------------------------------------------------- confirmations

fn real_turn_id(evidence: &JsonValue, key: &str) -> (r: Option<String>)
    ensures
        match r {
            Some(t) => real_turn(*evidence, key@) && text_field(*evidence, key@) == Some(t@),
            None => !real_turn(*evidence, key@),
        },
{
    match text(evidence, key) {
        Some(t) => if validate_turn_id(t).is_ok() {
            Some(t.to_owned())
        } else {
            None
        },
        None => None,
    }
}

/// Confirms from a provider reply, and the envelope check's verdict on it,
/// that a send started: status `sent`, a session whose page is the
/// conversation URL, a non-empty target and both real turn identities.
pub fn confirm_send_started(value: &JsonValue, envelope: Result<EnvelopeSummary, String>) -> (r:
    Result<SendStartConfirmation, ConfirmationError>)
    ensures
        match send_started_error(*value, envelope) {
            Some(e) => r == Err::<SendStartConfirmation, ConfirmationError>(e),
            None => r matches Ok(c) && envelope matches Ok(s) && Some(c.session_id)
                == s.session_id && Some(c.conversation_url) == s.conversation_url && Some(
                c.target_id@,
            ) == target_field(*value) && c.active_turn == (field_of(
                object_field(*value, "turnEvidence"@)->0,
                "activeTurn"@,
            ) == Some(JsonValue::Bool(true))) && text_field(
                object_field(*value, "turnEvidence"@)->0,
                "userTurnId"@,
            ) == Some(c.user_turn_id@) && text_field(
                object_field(*value, "turnEvidence"@)->0,
                "assistantTurnId"@,
            ) == Some(c.assistant_turn_id@),
        },
        r matches Ok(c) ==> is_prefixed_hex(c.user_turn_id@, "turn_"@, 64) && is_prefixed_hex(
            c.assistant_turn_id@,
            "turn_"@,
            64,
        ) && c.conversation_url@ == session_url(c.session_id@) && c.target_id@.len() > 0,
{
    let status_ok = match &envelope {
        Ok(s) => str_eq(s.status.as_str(), "sent"),
        Err(_) => false,
    };
    proof {
        reveal_strlit("sent");
    }
    let (session_id, conversation_url, target_id) = match common(value, envelope, status_ok, false) {
        Ok(x) => x,
        Err(e) => return Err(e),
    };
    let evidence = match object(value, "turnEvidence") {
        Some(x) => x,
        None => return Err(ConfirmationError::MissingEvidence("turnEvidence")),
    };
    let active_turn = match field(evidence, "activeTurn") {
        Some(JsonValue::Bool(b)) => *b,
        _ => false,
    };
    let user_turn_id = match real_turn_id(evidence, "userTurnId") {
        Some(t) => t,
        None => return Err(ConfirmationError::NoRealTurnEvidence),
    };
    let assistant_turn_id = match real_turn_id(evidence, "assistantTurnId") {
        Some(t) => t,
        None => return Err(ConfirmationError::NoRealTurnEvidence),
    };
    Ok(
        SendStartConfirmation {
            session_id,
            conversation_url,
            target_id,
            active_turn,
            user_turn_id,
            assistant_turn_id,
        },
    )
}

fn status_listed(accepted: &[&str], status: &str) -> (r: bool)
    ensures
        r == name_views(accepted@).contains(status@),
{
    let mut j: usize = 0;
    while j < accepted.len()
        invariant
            j <= accepted@.len(),
            forall|m: int| 0 <= m < j ==> accepted@[m]@ != status@,
        decreases accepted.len() - j,
    {
        if str_eq(accepted[j], status) {
            assert(name_views(accepted@)[j as int] == status@);
            return true;
        }
        j += 1;
    }
    proof {
        if name_views(accepted@).contains(status@) {
            let m = choose|m: int|
                0 <= m < name_views(accepted@).len() && name_views(accepted@)[m] == status@;
            assert(accepted@[m]@ == status@);
        }
    }
    false
}

/// Confirms from a provider reply, and the envelope check's verdict on it, a
/// terminal answer in one of the `accepted_statuses`: a session whose page is
/// the conversation URL, a non-empty target, an answer that is not empty once
/// trimmed, and the assistant turn's 64-byte text digest. The answer is kept
/// trimmed, with its length in bytes and its SHA-256.
pub fn confirm_terminal_answer_for_statuses(
    value: &JsonValue,
    envelope: Result<EnvelopeSummary, String>,
    accepted_statuses: &[&str],
) -> (r: Result<TerminalAnswerConfirmation, ConfirmationError>)
    ensures
        match terminal_answer_error(*value, envelope, name_views(accepted_statuses@)) {
            Some(e) => r == Err::<TerminalAnswerConfirmation, ConfirmationError>(e),
            None => r matches Ok(c) && envelope matches Ok(s) && Some(c.session_id)
                == s.session_id && Some(c.conversation_url) == s.conversation_url && Some(
                c.target_id@,
            ) == target_field(*value) && c.answer_text@ == trimmed(
                text_field(*value, "answerText"@)->0,
            ) && c.answer_text_len == utf8_len(c.answer_text@) && c.answer_text_sha256@
                == sha256_hex_of(vstd::utf8::encode_utf8(c.answer_text@)) && text_field(
                object_field(*value, "assistantTurn"@)->0,
                "textSha256"@,
            ) == Some(c.assistant_turn_text_sha256@),
        },
        r matches Ok(c) ==> c.answer_text@.len() > 0 && !is_white_space(c.answer_text@[0])
            && !is_white_space(c.answer_text@.last()) && utf8_len(c.assistant_turn_text_sha256@) == 64 && c.conversation_url@ == session_url(
            c.session_id@,
        ) && c.target_id@.len() > 0,
{
    let status_ok = match &envelope {
        Ok(s) => status_listed(accepted_statuses, s.status.as_str()),
        Err(_) => false,
    };
    let (session_id, conversation_url, target_id) = match common(value, envelope, status_ok, true) {
        Ok(x) => x,
        Err(e) => return Err(e),
    };
    let answer = match text(value, "answerText") {
        Some(t) => trim(t),
        None => return Err(ConfirmationError::MissingEvidence("answerText")),
    };
    if answer.as_str().unicode_len() == 0 {
        return Err(ConfirmationError::EmptyAnswer);
    }
    let turn = match object(value, "assistantTurn") {
        Some(x) => x,
        None => return Err(ConfirmationError::MissingEvidence("assistantTurn")),
    };
    let turn_sha = match text(turn, "textSha256") {
        Some(t) => if t.as_bytes().len() == 64 {
            t.to_owned()
        } else {
            return Err(ConfirmationError::MissingEvidence("assistantTurn.textSha256"));
        },
        None => return Err(ConfirmationError::MissingEvidence("assistantTurn.textSha256")),
    };
    proof {
        lemma_trimmed_ends(text_field(*value, "answerText"@)->0);
    }
    let answer_text_len = answer.as_str().as_bytes().len();
    let answer_text_sha256 = sha256_hex(answer.as_str().as_bytes());
    Ok(
        TerminalAnswerConfirmation {
            session_id,
            conversation_url,
            target_id,
            answer_text: answer,
            answer_text_len,
            answer_text_sha256,
            assistant_turn_text_sha256: turn_sha,
        },
    )
}

/// Confirms a terminal answer with status `done`.
pub fn confirm_terminal_answer(value: &JsonValue, envelope: Result<EnvelopeSummary, String>) -> (r:
    Result<TerminalAnswerConfirmation, ConfirmationError>)
    ensures
        match terminal_answer_error(*value, envelope, seq!["done"@]) {
            Some(e) => r == Err::<TerminalAnswerConfirmation, ConfirmationError>(e),
            None => r matches Ok(c) && envelope matches Ok(s) && Some(c.session_id)
                == s.session_id && Some(c.conversation_url) == s.conversation_url && Some(
                c.target_id@,
            ) == target_field(*value) && c.answer_text@ == trimmed(
                text_field(*value, "answerText"@)->0,
            ) && c.answer_text_len == utf8_len(c.answer_text@) && c.answer_text_sha256@
                == sha256_hex_of(vstd::utf8::encode_utf8(c.answer_text@)) && text_field(
                object_field(*value, "assistantTurn"@)->0,
                "textSha256"@,
            ) == Some(c.assistant_turn_text_sha256@),
        },
        r matches Ok(c) ==> c.answer_text@.len() > 0 && !is_white_space(c.answer_text@[0])
            && !is_white_space(c.answer_text@.last()) && utf8_len(c.assistant_turn_text_sha256@) == 64 && c.conversation_url@ == session_url(
            c.session_id@,
        ) && c.target_id@.len() > 0,
{
    let accepted: [&str; 1] = ["done"];
    let r = confirm_terminal_answer_for_statuses(value, envelope, accepted.as_slice());
    assert(name_views(accepted@) =~= seq!["done"@]);
    r
}

// ---------------------------------------------------------------- laws

/// A send is confirmed only with status `sent`, a conversation URL that is
/// the session's page, a non-empty target, and turn evidence whose user and
/// assistant turn ids are both real: `turn_` and 64 lowercase hex digits.
pub proof fn confirmed_sends_carry_real_turns(v: JsonValue, env: Result<EnvelopeSummary, String>)
    requires
        send_started_error(v, env) is None,
    ensures
        env is Ok,
        env->Ok_0.status@ == "sent"@,
        env->Ok_0.session_id is Some,
        env->Ok_0.conversation_url is Some,
        env->Ok_0.conversation_url->0@ == "https://chatgpt.com/c/"@ + env->Ok_0.session_id->0@,
        text_field(v, "targetId"@) is Some,
        text_field(v, "targetId"@)->0.len() > 0,
        field_of(v, "turnEvidence"@) matches Some(JsonValue::Object(es)),
        text_field(field_of(v, "turnEvidence"@)->0, "userTurnId"@) is Some,
        is_prefixed_hex(text_field(field_of(v, "turnEvidence"@)->0, "userTurnId"@)->0, "turn_"@, 64),
        text_field(field_of(v, "turnEvidence"@)->0, "assistantTurnId"@) is Some,
        is_prefixed_hex(
            text_field(field_of(v, "turnEvidence"@)->0, "assistantTurnId"@)->0,
            "turn_"@,
            64,
        ),
{
}

/// Once the envelope, page, target and turn evidence are in order, a reply
/// whose user or assistant turn id is not a real turn id is refused for
/// want of real turn evidence.
pub proof fn unreal_turns_are_refused(v: JsonValue, env: Result<EnvelopeSummary, String>)
    requires
        common_error(v, env, env matches Ok(s) && s.status@ == "sent"@, false) is None,
        field_of(v, "turnEvidence"@) matches Some(JsonValue::Object(es)) && !(text_field(
            JsonValue::Object(es),
            "assistantTurnId"@,
        ) matches Some(a) && is_prefixed_hex(a, "turn_"@, 64)),
    ensures
        send_started_error(v, env) == Some(ConfirmationError::NoRealTurnEvidence),
{
}

/// A well-formed envelope whose status is not among the accepted ones is
/// refused as not done, with that status.
pub proof fn unaccepted_status_is_not_done(
    v: JsonValue,
    s: EnvelopeSummary,
    accepted: Seq<Seq<char>>,
)
    requires
        !accepted.contains(s.status@),
    ensures
        terminal_answer_error(v, Ok(s), accepted) == Some(ConfirmationError::NotDone(s.status)),
{
}

/// A terminal answer is confirmed only in an accepted status, with an answer
/// that is not empty once trimmed and an assistant-turn digest of 64 bytes.
pub proof fn confirmed_answers_are_not_empty(
    v: JsonValue,
    env: Result<EnvelopeSummary, String>,
    accepted: Seq<Seq<char>>,
)
    requires
        terminal_answer_error(v, env, accepted) is None,
    ensures
        env is Ok,
        accepted.contains(env->Ok_0.status@),
        env->Ok_0.session_id is Some,
        env->Ok_0.conversation_url is Some,
        env->Ok_0.conversation_url->0@ == "https://chatgpt.com/c/"@ + env->Ok_0.session_id->0@,
        text_field(v, "answerText"@) is Some,
        exists|i: int|
            0 <= i < text_field(v, "answerText"@)->0.len() && !is_white_space(
                #[trigger] text_field(v, "answerText"@)->0[i],
            ),
{
    let t = text_field(v, "answerText"@)->0;
    let tf = trim_front(t);
    lemma_trim_front_suffix(t);
    lemma_trim_back_prefix(tf);
    let k = t.len() - tf.len();
    assert(tf.len() > 0);
    assert(t[k] == tf[0]);
    assert(!is_white_space(t[k]));
}

/// Trimmed text neither starts nor ends with white space.
proof fn lemma_trimmed_ends(t: Seq<char>)
    ensures
        trimmed(t).len() > 0 ==> !is_white_space(trimmed(t)[0]) && !is_white_space(
            trimmed(t).last(),
        ),
{
    lemma_trim_front_suffix(t);
    lemma_trim_back_prefix(trim_front(t));
}

proof fn lemma_trim_front_suffix(s: Seq<char>)
    ensures
        trim_front(s).len() <= s.len(),
        trim_front(s) == s.skip(s.len() - trim_front(s).len()),
        trim_front(s).len() > 0 ==> !is_white_space(trim_front(s)[0]),
    decreases s.len(),
{
    if s.len() > 0 && is_white_space(s[0]) {
        lemma_trim_front_suffix(s.skip(1));
        assert(s.skip(1).skip(s.len() - 1 - trim_front(s.skip(1)).len()) =~= s.skip(
            s.len() - trim_front(s.skip(1)).len(),
        ));
    } else {
        assert(s.skip(0) =~= s);
    }
}

proof fn lemma_trim_back_prefix(s: Seq<char>)
    ensures
        trim_back(s).len() <= s.len(),
        trim_back(s).len() > 0 ==> trim_back(s)[0] == s[0],
        trim_back(s).len() > 0 ==> !is_white_space(trim_back(s).last()),
    decreases s.len(),
{
    if s.len() > 0 && is_white_space(s.last()) {
        lemma_trim_back_prefix(s.drop_last());
    }
}

} // verus!
