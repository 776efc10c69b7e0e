use gpt_webai_lifecycle::contracts::semantics::JsonValue;
use gpt_webai_lifecycle::journal::canonical::{parse_canonical, parse_strict_value, CanonicalError};
use gpt_webai_lifecycle::journal::head::{head_from_bytes, HeadError};

fn strict(text: &str) -> Result<JsonValue, CanonicalError> {
    parse_strict_value(text.as_bytes())
}

fn ok(text: &str) -> bool {
    strict(text).is_ok()
}

#[test]
fn strict_json_reads_values_with_whitespace_around_tokens() {
    match strict(" { \"a\" : [1, -2, true, null, \"x\\u00e9\\n\"] }\n").unwrap() {
        JsonValue::Object(es) => {
            assert_eq!(es.len(), 1);
            assert_eq!(es[0].0, "a");
            match &es[0].1 {
                JsonValue::Array(vs) => {
                    assert_eq!(vs.len(), 5);
                    assert!(matches!(vs[0], JsonValue::Unsigned(1)));
                    assert!(matches!(vs[1], JsonValue::Negative(-2)));
                    assert!(matches!(vs[2], JsonValue::Bool(true)));
                    assert!(matches!(vs[3], JsonValue::Null));
                    assert!(matches!(&vs[4], JsonValue::Text(s) if s == "x\u{e9}\n"));
                }
                _ => panic!("array expected"),
            }
        }
        _ => panic!("object expected"),
    }
    assert!(matches!(strict("\"\\ud83d\\ude00\"").unwrap(), JsonValue::Text(s) if s == "\u{1f600}"));
}

#[test]
fn strict_json_refuses_what_the_journal_forbids() {
    assert_eq!(parse_strict_value(b"\xef\xbb\xbf{}").err(), Some(CanonicalError::ForbiddenByte));
    assert_eq!(parse_strict_value(b"{\"a\":\"\x00\"}").err(), Some(CanonicalError::ForbiddenByte));
    assert_eq!(parse_strict_value(b"\"\xff\"").err(), Some(CanonicalError::NotUtf8));
    for bad in [
        "", "1.5", "1e3", "-0", "01", "18446744073709551616", "-9223372036854775809", "{\"a\":1,\"a\":2}",
        "\"\\u0000\"", "[1,]", "[1 2]", "{\"a\" 1}", "nul", "1 2", "\"\\ud800\"", "\"\\udc00\"", "\"a\nb\"",
        "\"\\x\"", "{1:2}", "[",
    ] {
        assert!(!ok(bad), "accepted {bad:?}");
    }
    for good in ["18446744073709551615", "-9223372036854775808", "[]", "{}", "\"\\/\"", "0", "-1"] {
        assert!(ok(good), "refused {good:?}");
    }
}

#[test]
fn strict_json_allows_127_nested_containers() {
    let deep = |n: usize| format!("{}{}", "[".repeat(n), "]".repeat(n));
    assert!(ok(&deep(127)));
    assert!(!ok(&deep(128)));
}

#[test]
fn canonical_json_is_its_own_compact_sorted_text() {
    assert!(parse_canonical(b"{\"a\":1,\"b\":[true,null,\"x\"]}\n").is_ok());
    assert_eq!(parse_canonical(b"{\"b\":1,\"a\":2}\n").err(), Some(CanonicalError::NotCanonical));
    assert_eq!(parse_canonical(b"{\"a\": 1}\n").err(), Some(CanonicalError::NotCanonical));
    assert_eq!(parse_canonical(b"{\"a\":1}").err(), Some(CanonicalError::NotCanonical));
    assert_eq!(parse_canonical(b"\"\\u00e9\"\n").err(), Some(CanonicalError::NotCanonical));
    assert!(parse_canonical("\"\u{e9}\\u0001\"\n".as_bytes()).is_ok());
    assert_eq!(parse_canonical(b"[1.0]\n").err(), Some(CanonicalError::Syntax));
}

fn evt(c: char) -> String {
    format!("evt_{}", std::iter::repeat(c).take(64).collect::<String>())
}

fn h256(c: char) -> String {
    format!("sha256:{}", std::iter::repeat(c).take(64).collect::<String>())
}

#[test]
fn head_json_must_be_canonical_and_well_formed() {
    let text = format!(
        "{{\"headGeneration\":3,\"lastEventId\":\"{}\",\"projectionDigest\":\"{}\",\"schemaVersion\":\"pr72.head.r13.v1\",\"snapshotEventId\":null,\"snapshotSha256\":null,\"updatedAtMs\":1000}}\n",
        evt('a'),
        h256('b')
    );
    let head = head_from_bytes(text.as_bytes()).unwrap();
    assert_eq!(head.head_generation, 3);
    assert_eq!(head.last_event_id, Some(evt('a')));
    assert_eq!(head.updated_at_ms, 1000);
    let spaced = text.replace(":3,", ": 3,");
    assert_eq!(
        head_from_bytes(spaced.as_bytes()),
        Err(HeadError::Json("HEAD is not canonical JSON".to_string()))
    );
    let zero = text.replace(":3,", ":0,");
    assert_eq!(head_from_bytes(zero.as_bytes()), Err(HeadError::Invalid("fields")));
    let extra = text.replace("{\"headGeneration\"", "{\"extra\":1,\"headGeneration\"");
    assert_eq!(head_from_bytes(extra.as_bytes()), Err(HeadError::Json("HEAD record".to_string())));
}
