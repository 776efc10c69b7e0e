use gpt_webai_lifecycle::contracts::events::{Aggregate, AggregateKind, EventError, EventType, Writer, EVENT_SCHEMA};
use gpt_webai_lifecycle::contracts::integrity::{compute_event_id, compute_payload_hash, create_event, validate_event};
use gpt_webai_lifecycle::contracts::semantics::JsonValue;
use sha2::{Digest, Sha256};

fn hex(c: char, n: usize) -> String {
    std::iter::repeat(c).take(n).collect()
}

fn from_json(v: &serde_json::Value) -> JsonValue {
    match v {
        serde_json::Value::Null => JsonValue::Null,
        serde_json::Value::Bool(b) => JsonValue::Bool(*b),
        serde_json::Value::Number(n) => match (n.as_u64(), n.as_i64()) {
            (Some(u), _) => JsonValue::Unsigned(u),
            (None, Some(i)) => JsonValue::Negative(i),
            _ => JsonValue::OtherNumber,
        },
        serde_json::Value::String(s) => JsonValue::Text(s.clone()),
        serde_json::Value::Array(vs) => JsonValue::Array(vs.iter().map(from_json).collect()),
        serde_json::Value::Object(m) => {
            JsonValue::Object(m.iter().map(|(k, v)| (k.clone(), from_json(v))).collect())
        }
    }
}

fn payload_json() -> serde_json::Value {
    serde_json::from_str(&format!(
        r#"{{"requestId":"req_1","kind":"pro","promptSha256":"sha256:{}","promptSizeBytes":12,
            "attachmentCount":0,"artifactExpectation":"optional","acceptedAtMs":1000}}"#,
        hex('a', 64)
    ))
    .unwrap()
}

fn writer() -> Writer {
    Writer {
        host_id: format!("host_{}", hex('a', 32)),
        process_id: 9,
        process_start_ms: 5,
        writer_id: format!("writer_{}", hex('b', 64)),
    }
}

fn digest(bytes: &[u8]) -> String {
    format!("{:x}", Sha256::digest(bytes))
}

fn canonical(v: &serde_json::Value) -> Vec<u8> {
    let mut bytes = serde_json::to_vec(v).unwrap();
    bytes.push(b'\n');
    bytes
}

fn create() -> Result<(gpt_webai_lifecycle::contracts::envelope::EventHeader, JsonValue, String), EventError> {
    create_event(
        Aggregate { id: "req_1".to_string(), kind: AggregateKind::Request },
        1_000,
        EventType::RequestAccepted,
        "op-1".to_string(),
        from_json(&payload_json()),
        None,
        Some("req_1".to_string()),
        None,
        vec![],
        writer(),
        &vec![],
    )
}

#[test]
fn payload_hash_is_the_digest_of_the_canonical_payload() {
    let expected = format!("sha256:{}", digest(&canonical(&payload_json())));
    assert_eq!(compute_payload_hash(&from_json(&payload_json())), expected);
}

#[test]
fn a_created_event_carries_both_digests_and_validates() {
    let (header, payload, hash) = create().unwrap();
    assert_eq!(hash, format!("sha256:{}", digest(&canonical(&payload_json()))));
    assert_eq!(header.schema_version, EVENT_SCHEMA);

    let mut envelope = serde_json::Map::new();
    let mut aggregate = serde_json::Map::new();
    aggregate.insert("id".to_string(), serde_json::Value::from("req_1"));
    aggregate.insert("kind".to_string(), serde_json::Value::from("request"));
    envelope.insert("aggregate".to_string(), serde_json::Value::Object(aggregate));
    envelope.insert("createdAtMs".to_string(), serde_json::Value::from(1_000u64));
    envelope.insert("eventId".to_string(), serde_json::Value::from(""));
    envelope.insert("eventType".to_string(), serde_json::Value::from("RequestAccepted"));
    envelope.insert("operationId".to_string(), serde_json::Value::from("op-1"));
    envelope.insert("payload".to_string(), payload_json());
    envelope.insert("payloadHash".to_string(), serde_json::Value::from(hash.clone()));
    envelope.insert("predecessorEventId".to_string(), serde_json::Value::Null);
    envelope.insert("requestId".to_string(), serde_json::Value::from("req_1"));
    envelope.insert("runId".to_string(), serde_json::Value::Null);
    envelope.insert("schemaVersion".to_string(), serde_json::Value::from(EVENT_SCHEMA));
    envelope.insert("sourceEventIds".to_string(), serde_json::Value::Array(vec![]));
    let w = writer();
    let mut wm = serde_json::Map::new();
    wm.insert("hostId".to_string(), serde_json::Value::from(w.host_id.clone()));
    wm.insert("processId".to_string(), serde_json::Value::from(9u64));
    wm.insert("processStartMs".to_string(), serde_json::Value::from(5u64));
    wm.insert("writerId".to_string(), serde_json::Value::from(w.writer_id.clone()));
    envelope.insert("writer".to_string(), serde_json::Value::Object(wm));
    let expected_id = format!("evt_{}", digest(&canonical(&serde_json::Value::Object(envelope))));
    assert_eq!(header.event_id, expected_id);
    assert_eq!(compute_event_id(&header, &payload, &hash), expected_id);

    assert_eq!(validate_event(&header, &payload, &hash, &vec![]), Ok(()));
}

#[test]
fn a_wrong_payload_hash_is_refused() {
    let (header, payload, _) = create().unwrap();
    let wrong = format!("sha256:{}", hex('c', 64));
    assert_eq!(validate_event(&header, &payload, &wrong, &vec![]), Err(EventError::Invalid("payloadHash")));
}

#[test]
fn a_wrong_event_id_is_refused() {
    let (mut header, payload, hash) = create().unwrap();
    header.event_id = format!("evt_{}", hex('d', 64));
    assert_eq!(validate_event(&header, &payload, &hash, &vec![]), Err(EventError::Invalid("eventId")));
}

#[test]
fn a_changed_payload_breaks_the_hash() {
    let (header, _, hash) = create().unwrap();
    let mut changed = payload_json();
    changed["promptSizeBytes"] = serde_json::Value::from(13u64);
    assert_eq!(
        validate_event(&header, &from_json(&changed), &hash, &vec![]),
        Err(EventError::Invalid("payloadHash"))
    );
}

#[test]
fn a_header_that_does_not_describe_its_payload_is_refused() {
    let (header, _, hash) = create().unwrap();
    assert_eq!(
        validate_event(&header, &JsonValue::Array(vec![]), &hash, &vec![]),
        Err(EventError::Invalid("payload record"))
    );
}

#[test]
fn a_payload_outside_the_rules_is_not_created() {
    let mut bad = payload_json();
    bad["kind"] = serde_json::Value::from("mini");
    let r = create_event(
        Aggregate { id: "req_1".to_string(), kind: AggregateKind::Request },
        1_000,
        EventType::RequestAccepted,
        "op-1".to_string(),
        from_json(&bad),
        None,
        Some("req_1".to_string()),
        None,
        vec![],
        writer(),
        &vec![],
    );
    assert_eq!(r.map(|_| ()), Err(EventError::Invalid("kind")));
}
