use gpt_webai_lifecycle::confirmation::{
    confirm_send_started, confirm_terminal_answer, confirm_terminal_answer_for_statuses, trim,
    ConfirmationError, EnvelopeSummary,
};
use gpt_webai_lifecycle::contracts::semantics::JsonValue;
use sha2::{Digest, Sha256};

fn hex(c: char, n: usize) -> String {
    std::iter::repeat(c).take(n).collect()
}

fn from_json(v: &serde_json::Value) -> JsonValue {
    match v {
        serde_json::Value::Null => JsonValue::Null,
        serde_json::Value::Bool(b) => JsonValue::Bool(*b),
        serde_json::Value::Number(n) => match n.as_u64() {
            Some(u) => JsonValue::Unsigned(u),
            None => JsonValue::OtherNumber,
        },
        serde_json::Value::String(s) => JsonValue::Text(s.clone()),
        serde_json::Value::Array(vs) => JsonValue::Array(vs.iter().map(from_json).collect()),
        serde_json::Value::Object(m) => {
            JsonValue::Object(m.iter().map(|(k, v)| (k.clone(), from_json(v))).collect())
        }
    }
}

fn reply(text: &str) -> JsonValue {
    from_json(&serde_json::from_str::<serde_json::Value>(text).unwrap())
}

fn summary(status: &str) -> Result<EnvelopeSummary, String> {
    Ok(EnvelopeSummary {
        status: status.to_string(),
        session_id: Some("abc-123".to_string()),
        conversation_url: Some("https://chatgpt.com/c/abc-123".to_string()),
    })
}

fn sent_reply() -> JsonValue {
    reply(&format!(
        r#"{{"targetId":"T1","turnEvidence":{{"activeTurn":true,"userTurnId":"turn_{}","assistantTurnId":"turn_{}"}}}}"#,
        hex('a', 64),
        hex('b', 64)
    ))
}

fn done_reply(answer: &str, digest: &str) -> JsonValue {
    let mut m = serde_json::Map::new();
    m.insert("targetId".to_string(), serde_json::Value::from("T1"));
    m.insert("answerText".to_string(), serde_json::Value::from(answer));
    let mut turn = serde_json::Map::new();
    turn.insert("textSha256".to_string(), serde_json::Value::from(digest));
    m.insert("assistantTurn".to_string(), serde_json::Value::Object(turn));
    from_json(&serde_json::Value::Object(m))
}

#[test]
fn a_sent_reply_with_both_turns_confirms_the_send() {
    let c = confirm_send_started(&sent_reply(), summary("sent")).unwrap();
    assert_eq!(c.session_id, "abc-123");
    assert_eq!(c.conversation_url, "https://chatgpt.com/c/abc-123");
    assert_eq!(c.target_id, "T1");
    assert!(c.active_turn);
    assert_eq!(c.user_turn_id, format!("turn_{}", hex('a', 64)));
    assert_eq!(c.assistant_turn_id, format!("turn_{}", hex('b', 64)));
}

#[test]
fn a_send_is_refused_for_each_missing_proof() {
    assert_eq!(
        confirm_send_started(&sent_reply(), Err("bad envelope".to_string())),
        Err(ConfirmationError::ProviderContract("bad envelope".to_string()))
    );
    assert_eq!(
        confirm_send_started(&sent_reply(), summary("done")),
        Err(ConfirmationError::NotSent("done".to_string()))
    );
    let mut s = summary("sent").unwrap();
    s.conversation_url = Some("https://chatgpt.com/c/other".to_string());
    assert_eq!(confirm_send_started(&sent_reply(), Ok(s)), Err(ConfirmationError::UrlSessionMismatch));
    let mut s = summary("sent").unwrap();
    s.session_id = None;
    assert_eq!(
        confirm_send_started(&sent_reply(), Ok(s)),
        Err(ConfirmationError::MissingEvidence("sessionId"))
    );
    assert_eq!(
        confirm_send_started(&reply("[]"), summary("sent")),
        Err(ConfirmationError::MissingEvidence("object"))
    );
    assert_eq!(
        confirm_send_started(&reply(r#"{"targetId":"","turnEvidence":{}}"#), summary("sent")),
        Err(ConfirmationError::MissingEvidence("targetId"))
    );
    assert_eq!(
        confirm_send_started(&reply(r#"{"targetId":"T1"}"#), summary("sent")),
        Err(ConfirmationError::MissingEvidence("turnEvidence"))
    );
    assert_eq!(
        confirm_send_started(&reply(r#"{"targetId":"T1","turnEvidence":{"userTurnId":"turn_x"}}"#), summary("sent")),
        Err(ConfirmationError::NoRealTurnEvidence)
    );
}

#[test]
fn an_absent_active_turn_reads_as_false() {
    let r = reply(&format!(
        r#"{{"targetId":"T1","turnEvidence":{{"userTurnId":"turn_{}","assistantTurnId":"turn_{}"}}}}"#,
        hex('a', 64),
        hex('b', 64)
    ));
    assert!(!confirm_send_started(&r, summary("sent")).unwrap().active_turn);
}

#[test]
fn a_done_reply_confirms_the_trimmed_answer_and_its_digest() {
    let digest = hex('e', 64);
    let c = confirm_terminal_answer(&done_reply("  Hello, world.\n", &digest), summary("done")).unwrap();
    assert_eq!(c.answer_text, "Hello, world.");
    assert_eq!(c.answer_text_len, 13);
    assert_eq!(c.answer_text_sha256, format!("{:x}", Sha256::digest(b"Hello, world.")));
    assert_eq!(c.assistant_turn_text_sha256, digest);
    assert_eq!(c.target_id, "T1");
    assert_eq!(c.session_id, "abc-123");
}

#[test]
fn an_answer_is_refused_for_each_missing_proof() {
    let digest = hex('e', 64);
    assert_eq!(
        confirm_terminal_answer(&done_reply("x", &digest), summary("sent")),
        Err(ConfirmationError::NotDone("sent".to_string()))
    );
    assert_eq!(
        confirm_terminal_answer(&done_reply(" \t\n", &digest), summary("done")),
        Err(ConfirmationError::EmptyAnswer)
    );
    assert_eq!(
        confirm_terminal_answer(&done_reply("x", "short"), summary("done")),
        Err(ConfirmationError::MissingEvidence("assistantTurn.textSha256"))
    );
    assert_eq!(
        confirm_terminal_answer(&reply(r#"{"targetId":"T1"}"#), summary("done")),
        Err(ConfirmationError::MissingEvidence("answerText"))
    );
    assert_eq!(
        confirm_terminal_answer(&reply(r#"{"targetId":"T1","answerText":"x"}"#), summary("done")),
        Err(ConfirmationError::MissingEvidence("assistantTurn"))
    );
}

#[test]
fn other_statuses_can_be_accepted() {
    let digest = hex('e', 64);
    let r = confirm_terminal_answer_for_statuses(&done_reply("ok", &digest), summary("partial"), &["done", "partial"]);
    assert_eq!(r.unwrap().answer_text, "ok");
    let r = confirm_terminal_answer_for_statuses(&done_reply("ok", &digest), summary("partial"), &["done"]);
    assert_eq!(r, Err(ConfirmationError::NotDone("partial".to_string())));
}

#[test]
fn trimming_matches_str_trim() {
    for s in ["", "  ", "a", " a b ", "\u{3000}x\u{85}", "\u{a0}\u{2009}y\u{200b}"] {
        assert_eq!(trim(s), s.trim());
    }
}
