use vstd::prelude::*;

use crate::contracts::decode::{
    artifact_verdicts, artifact_verdicts_are, capture_verdicts, capture_verdicts_are,
    model_selection_verdicts, model_selection_verdicts_are,
};
use crate::contracts::envelope::{
    aggregate_error, fields_error, validate_event_aggregate, validate_event_fields, EventHeader,
};
use crate::contracts::events::{
    aggregate_kind_name, aggregate_kind_text, event_type_name, event_type_text, Aggregate,
    EventError, EventType, Writer, EVENT_SCHEMA,
};
use crate::contracts::ids::{h256, sha256_hex, sha256_hex_of};
use crate::contracts::projection::lookup;
use crate::contracts::semantics::{
    check_error, checks_of, first_failure, opt_text, semantics_error, validate_payload_semantics,
    Check, JsonValue,
};
use crate::journal::canonical::{
    canonical_bytes_of, canonical_string, json_view, members_of, sort_json, sorted_copy, views_of,
    JsonView,
};
use crate::text::{concat2, copy_opt_string, str_eq};

verus! {

// ---------------------------------------------------------------- the header a payload implies

/// The views of a sequence of strings.
pub open spec fn string_views(s: Seq<String>) -> Seq<Seq<char>> {
    Seq::new(s.len(), |i: int| s[i]@)
}

/// The views of a sequence of string pairs.
pub open spec fn pair_views(s: Seq<(String, String)>) -> Seq<(Seq<char>, Seq<char>)> {
    Seq::new(s.len(), |i: int| (s[i].0@, s[i].1@))
}

/// The text members of an object, in order, as (name, text).
pub open spec fn text_members(es: Seq<(String, JsonValue)>) -> Seq<(Seq<char>, Seq<char>)>
    decreases es.len(),
{
    if es.len() == 0 {
        Seq::empty()
    } else {
        let rest = text_members(es.drop_last());
        match es.last().1 {
            JsonValue::Text(t) => rest.push((es.last().0@, t@)),
            _ => rest,
        }
    }
}

/// The header's record of its payload is the payload's own: the field
/// names of an object payload, in order (none for another payload), and its
/// text members, in order.
pub open spec fn header_describes(h: EventHeader, p: JsonValue) -> bool {
    match p {
        JsonValue::Object(es) => {
            &&& h.payload_keys matches Some(k) && string_views(k@) == Seq::new(
                es@.len(),
                |i: int| es@[i].0@,
            )
            &&& pair_views(h.payload_texts@) == text_members(es@)
        },
        _ => h.payload_keys is None && h.payload_texts@.len() == 0,
    }
}

fn describes(h: &EventHeader, p: &JsonValue) -> (r: bool)
    ensures
        r == header_describes(*h, *p),
{
    match p {
        JsonValue::Object(es) => {
            let keys = match &h.payload_keys {
                Some(k) => k,
                None => return false,
            };
            if keys.len() != es.len() {
                proof {
                    assert(string_views(keys@).len() != es@.len());
                }
                return false;
            }
            let mut i: usize = 0;
            while i < es.len()
                invariant
                    *p == JsonValue::Object(*es),
                    h.payload_keys == Some(*keys),
                    keys@.len() == es@.len(),
                    i <= es@.len(),
                    forall|j: int| 0 <= j < i ==> keys@[j]@ == es@[j].0@,
                decreases es.len() - i,
            {
                if !str_eq(keys[i].as_str(), es[i].0.as_str()) {
                    proof {
                        assert(string_views(keys@)[i as int] != es@[i as int].0@);
                        assert(Seq::new(es@.len(), |j: int| es@[j].0@)[i as int] == es@[i as int].0@);
                    }
                    return false;
                }
                i += 1;
            }
            assert(string_views(keys@) =~= Seq::new(es@.len(), |j: int| es@[j].0@));
            let texts = &h.payload_texts;
            let mut k: usize = 0;
            let mut t: usize = 0;
            assert(es@.take(0) =~= Seq::<(String, JsonValue)>::empty());
            while k < es.len()
                invariant
                    *p == JsonValue::Object(*es),
                    *texts == h.payload_texts,
                    h.payload_keys == Some(*keys),
                    string_views(keys@) == Seq::new(es@.len(), |j: int| es@[j].0@),
                    k <= es@.len(),
                    t <= texts@.len(),
                    text_members(es@.take(k as int)) == pair_views(texts@.take(t as int)),
                decreases es.len() - k,
            {
                proof {
                    assert(es@.take(k + 1).drop_last() =~= es@.take(k as int));
                    assert(es@.take(k + 1).last() == es@[k as int]);
                }
                match &es[k].1 {
                    JsonValue::Text(v) => {
                        if t >= texts.len() || !str_eq(texts[t].0.as_str(), es[k].0.as_str())
                            || !str_eq(texts[t].1.as_str(), v.as_str()) {
                            proof {
                                let full = text_members(es@);
                                let pre = text_members(es@.take(k + 1));
                                text_members_prefix(es@, k + 1);
                                assert(pre.len() == t + 1);
                                assert(pre[t as int] == (es@[k as int].0@, v@));
                                if pair_views(texts@) == full {
                                    assert(full[t as int] == pre[t as int]);
                                    assert(pair_views(texts@)[t as int] == (texts@[t as int].0@, texts@[t as int].1@));
                                }
                            }
                            return false;
                        }
                        assert(pair_views(texts@.take(t + 1)) =~= pair_views(texts@.take(t as int)).push(
                            (texts@[t as int].0@, texts@[t as int].1@),
                        ));
                        t += 1;
                    },
                    _ => {},
                }
                k += 1;
            }
            assert(es@.take(es@.len() as int) =~= es@);
            if t != texts.len() {
                proof {
                    assert(pair_views(texts@).len() != pair_views(texts@.take(t as int)).len());
                }
                return false;
            }
            assert(texts@.take(t as int) =~= texts@);
            true
        },
        _ => h.payload_keys.is_none() && h.payload_texts.len() == 0,
    }
}

proof fn text_members_prefix(es: Seq<(String, JsonValue)>, k: int)
    requires
        0 <= k <= es.len(),
    ensures
        text_members(es.take(k)).len() <= text_members(es).len(),
        forall|j: int|
            0 <= j < text_members(es.take(k)).len() ==> #[trigger] text_members(es)[j] == text_members(
                es.take(k),
            )[j],
    decreases es.len() - k,
{
    if k < es.len() {
        text_members_prefix(es, k + 1);
        assert(es.take(k + 1).drop_last() =~= es.take(k));
    } else {
        assert(es.take(k) =~= es);
    }
}

// ---------------------------------------------------------------- digests

/// The payload hash: `sha256:` and the SHA-256 of the payload's canonical
/// bytes.
pub open spec fn payload_hash_of(w: JsonView) -> Seq<char> {
    "sha256:"@ + sha256_hex_of(canonical_bytes_of(w))
}

pub open spec fn opt_text_view(o: Option<String>) -> JsonView {
    match o {
        Some(s) => JsonView::Text(s@),
        None => JsonView::Null,
    }
}

pub open spec fn ids_view(ids: Seq<String>) -> JsonView {
    JsonView::Array(Seq::new(ids.len(), |i: int| JsonView::Text(ids[i]@)))
}

/// An event envelope as a JSON object, members in key order.
pub open spec fn envelope_view(
    h: EventHeader,
    payload: JsonView,
    payload_hash: Seq<char>,
    event_id: Seq<char>,
) -> JsonView {
    JsonView::Object(
        seq![
            (
                "aggregate"@,
                JsonView::Object(
                    seq![
                        ("id"@, JsonView::Text(h.aggregate.id@)),
                        ("kind"@, JsonView::Text(aggregate_kind_text(h.aggregate.kind))),
                    ],
                ),
            ),
            ("createdAtMs"@, JsonView::Unsigned(h.created_at_ms)),
            ("eventId"@, JsonView::Text(event_id)),
            ("eventType"@, JsonView::Text(event_type_text(h.event_type))),
            ("operationId"@, JsonView::Text(h.operation_id@)),
            ("payload"@, payload),
            ("payloadHash"@, JsonView::Text(payload_hash)),
            ("predecessorEventId"@, opt_text_view(h.predecessor_event_id)),
            ("requestId"@, opt_text_view(h.request_id)),
            ("runId"@, opt_text_view(h.run_id)),
            ("schemaVersion"@, JsonView::Text(h.schema_version@)),
            ("sourceEventIds"@, ids_view(h.source_event_ids@)),
            (
                "writer"@,
                JsonView::Object(
                    seq![
                        ("hostId"@, JsonView::Text(h.writer.host_id@)),
                        ("processId"@, JsonView::Unsigned(h.writer.process_id as u64)),
                        ("processStartMs"@, JsonView::Unsigned(h.writer.process_start_ms)),
                        ("writerId"@, JsonView::Text(h.writer.writer_id@)),
                    ],
                ),
            ),
        ],
    )
}

/// The event id: `evt_` and the SHA-256 of the canonical bytes of the
/// envelope with an empty event id.
pub open spec fn event_id_of(h: EventHeader, payload: JsonView, payload_hash: Seq<char>) -> Seq<char> {
    "evt_"@ + sha256_hex_of(canonical_bytes_of(envelope_view(h, sort_json(payload), payload_hash, Seq::empty())))
}

fn text_value(s: &str) -> (r: JsonValue)
    ensures
        json_view(r) == JsonView::Text(s@),
{
    JsonValue::Text(s.to_owned())
}

fn opt_text_value(o: &Option<String>) -> (r: JsonValue)
    ensures
        json_view(r) == opt_text_view(*o),
{
    match o {
        Some(s) => JsonValue::Text(s.clone()),
        None => JsonValue::Null,
    }
}

fn named(k: &str, v: JsonValue) -> (r: (String, JsonValue))
    ensures
        r.0@ == k@,
        r.1 == v,
{
    (k.to_owned(), v)
}

fn ids_value(ids: &Vec<String>) -> (r: JsonValue)
    ensures
        json_view(r) == ids_view(ids@),
{
    let mut out: Vec<JsonValue> = Vec::new();
    let mut i: usize = 0;
    while i < ids.len()
        invariant
            i <= ids@.len(),
            out@.len() == i,
            forall|j: int| 0 <= j < i ==> #[trigger] json_view(out@[j]) == JsonView::Text(ids@[j]@),
        decreases ids.len() - i,
    {
        out.push(JsonValue::Text(ids[i].clone()));
        i += 1;
    }
    let ghost outs = out@;
    let r = JsonValue::Array(out);
    assert(json_view(r)->Array_0 =~= ids_view(ids@)->Array_0) by {
        assert forall|j: int| 0 <= j < outs.len() implies json_view(r)->Array_0[j] == ids_view(ids@)->Array_0[j] by {
            assert(json_view(r)->Array_0[j] == json_view(outs[j]));
        }
    }
    r
}

fn object_value(es: Vec<(String, JsonValue)>) -> (r: JsonValue)
    ensures
        json_view(r) == JsonView::Object(members_of(es@)),
{
    let r = JsonValue::Object(es);
    assert(json_view(r)->Object_0 =~= members_of(es@));
    r
}

fn envelope_value(h: &EventHeader, payload: JsonValue, payload_hash: &str, event_id: &str) -> (r: JsonValue)
    ensures
        json_view(r) == envelope_view(*h, json_view(payload), payload_hash@, event_id@),
{
    let aggregate = object_value(
        vec![
            named("id", text_value(h.aggregate.id.as_str())),
            named("kind", text_value(aggregate_kind_name(h.aggregate.kind))),
        ],
    );
    let writer = object_value(
        vec![
            named("hostId", text_value(h.writer.host_id.as_str())),
            named("processId", JsonValue::Unsigned(h.writer.process_id as u64)),
            named("processStartMs", JsonValue::Unsigned(h.writer.process_start_ms)),
            named("writerId", text_value(h.writer.writer_id.as_str())),
        ],
    );
    let ghost pv = json_view(payload);
    assert(json_view(aggregate)->Object_0 =~= seq![
        ("id"@, JsonView::Text(h.aggregate.id@)),
        ("kind"@, JsonView::Text(aggregate_kind_text(h.aggregate.kind))),
    ]);
    assert(json_view(writer)->Object_0 =~= seq![
        ("hostId"@, JsonView::Text(h.writer.host_id@)),
        ("processId"@, JsonView::Unsigned(h.writer.process_id as u64)),
        ("processStartMs"@, JsonView::Unsigned(h.writer.process_start_ms)),
        ("writerId"@, JsonView::Text(h.writer.writer_id@)),
    ]);
    let es = vec![
        named("aggregate", aggregate),
        named("createdAtMs", JsonValue::Unsigned(h.created_at_ms)),
        named("eventId", text_value(event_id)),
        named("eventType", text_value(event_type_name(h.event_type))),
        named("operationId", text_value(h.operation_id.as_str())),
        named("payload", payload),
        named("payloadHash", text_value(payload_hash)),
        named("predecessorEventId", opt_text_value(&h.predecessor_event_id)),
        named("requestId", opt_text_value(&h.request_id)),
        named("runId", opt_text_value(&h.run_id)),
        named("schemaVersion", text_value(h.schema_version.as_str())),
        named("sourceEventIds", ids_value(&h.source_event_ids)),
        named("writer", writer),
    ];
    proof {
        let target = envelope_view(*h, pv, payload_hash@, event_id@);
        assert(members_of(es@) =~= target->Object_0);
    }
    object_value(es)
}

/// The event id of an envelope (see `event_id_of`).
pub fn compute_event_id(h: &EventHeader, payload: &JsonValue, payload_hash: &str) -> (r: String)
    ensures
        r@ == event_id_of(*h, json_view(*payload), payload_hash@),
{
    let envelope = envelope_value(h, sorted_copy(payload), payload_hash, "");
    let text = canonical_string(&envelope);
    let hex = sha256_hex(text.as_str().as_bytes());
    let r = concat2("evt_", hex.as_str());
    proof {
        reveal_strlit("");
        assert(""@ =~= Seq::<char>::empty());
    }
    r
}

/// The payload hash of a payload (see `payload_hash_of`).
pub fn compute_payload_hash(payload: &JsonValue) -> (r: String)
    ensures
        r@ == payload_hash_of(json_view(*payload)),
{
    let text = canonical_string(payload);
    h256(text.as_str().as_bytes())
}

// ---------------------------------------------------------------- checking an event

/// The verdicts on the payload's typed sub-objects that this library
/// computes, followed by those given from outside (for the records whose
/// rules this library does not hold). A computed verdict comes first, so a
/// verdict from outside cannot replace it.
pub open spec fn event_verdicts(
    t: EventType,
    p: JsonValue,
    outside: Seq<(String, bool)>,
    v: Seq<(String, bool)>,
) -> bool {
    exists|a: Seq<(String, bool)>, b: Seq<(String, bool)>, c: Seq<(String, bool)>|
        #![trigger model_selection_verdicts_are(t, p, a), artifact_verdicts_are(t, p, b), capture_verdicts_are(t, p, c)]
        model_selection_verdicts_are(t, p, a) && artifact_verdicts_are(t, p, b)
            && capture_verdicts_are(t, p, c) && v == a + b + c + outside
}

/// The first check a journal event fails, in the order they are made: the
/// header must describe its payload; the envelope's fields and payload field
/// names; the payload's rules, with `verdicts` on its typed sub-objects; the
/// aggregate; the payload hash; the event id.
pub open spec fn event_error(
    h: EventHeader,
    p: JsonValue,
    payload_hash: Seq<char>,
    verdicts: Seq<(String, bool)>,
) -> Option<&'static str> {
    if !header_describes(h, p) {
        Some("payload record")
    } else if fields_error(h) is Some {
        fields_error(h)
    } else if semantics_error(h, p, verdicts) is Some {
        semantics_error(h, p, verdicts)
    } else if aggregate_error(h) is Some {
        aggregate_error(h)
    } else if payload_hash != payload_hash_of(json_view(p)) {
        Some("payloadHash")
    } else if h.event_id@ != event_id_of(h, json_view(p), payload_hash) {
        Some("eventId")
    } else {
        None
    }
}

pub open spec fn error_outcome(e: Option<&'static str>) -> Result<(), EventError> {
    match e {
        Some(f) => Err(EventError::Invalid(f)),
        None => Ok(()),
    }
}

/// Checks a journal event: its header, its payload and their two digests.
/// `outside` holds the verdicts on typed sub-objects whose records this
/// library does not hold (uploads, send receipts, session rebinds and
/// hydration, polls, runtime proofs); the others are computed here.
pub fn validate_event(
    header: &EventHeader,
    payload: &JsonValue,
    payload_hash: &str,
    outside: &Vec<(String, bool)>,
) -> (r: Result<(), EventError>)
    ensures
        exists|v: Seq<(String, bool)>|
            event_verdicts(header.event_type, *payload, outside@, v) && r == error_outcome(
                #[trigger] event_error(*header, *payload, payload_hash@, v),
            ),
{
    let mut verdicts = model_selection_verdicts(header.event_type, payload);
    let ghost a = verdicts@;
    let mut b = artifact_verdicts(header.event_type, payload);
    let ghost bv = b@;
    let mut c = capture_verdicts(header.event_type, payload);
    let ghost cv = c@;
    verdicts.append(&mut b);
    verdicts.append(&mut c);
    let mut i: usize = 0;
    let ghost base = verdicts@;
    while i < outside.len()
        invariant
            base == a + bv + cv,
            i <= outside@.len(),
            verdicts@ == base + outside@.take(i as int),
        decreases outside.len() - i,
    {
        verdicts.push((outside[i].0.clone(), outside[i].1));
        assert(verdicts@ =~= base + outside@.take(i + 1));
        i += 1;
    }
    assert(outside@.take(outside@.len() as int) =~= outside@);
    let ghost v = verdicts@;
    assert(v == a + bv + cv + outside@);
    assert(event_verdicts(header.event_type, *payload, outside@, v));
    let r = if !describes(header, payload) {
        Err(EventError::Invalid("payload record"))
    } else if let Err(e) = validate_event_fields(header) {
        Err(e)
    } else if let Err(e) = validate_payload_semantics(header, payload, &verdicts) {
        Err(e)
    } else if let Err(e) = validate_event_aggregate(header) {
        Err(e)
    } else if !str_eq(compute_payload_hash(payload).as_str(), payload_hash) {
        Err(EventError::Invalid("payloadHash"))
    } else if !str_eq(compute_event_id(header, payload, payload_hash).as_str(), header.event_id.as_str()) {
        Err(EventError::Invalid("eventId"))
    } else {
        Ok(())
    };
    assert(r == error_outcome(event_error(*header, *payload, payload_hash@, v)));
    r
}

// ---------------------------------------------------------------- one verdict list

/// The verdicts by the views of their names.
pub open spec fn verdict_views(v: Seq<(String, bool)>) -> Seq<(Seq<char>, bool)> {
    Seq::new(v.len(), |i: int| (v[i].0@, v[i].1))
}

proof fn lookup_by_views(v1: Seq<(String, bool)>, v2: Seq<(String, bool)>, k: Seq<char>)
    requires
        verdict_views(v1) == verdict_views(v2),
    ensures
        lookup(v1, k) == lookup(v2, k),
    decreases v1.len(),
{
    assert(v1.len() == verdict_views(v1).len());
    if v1.len() > 0 {
        assert(verdict_views(v1)[0] == verdict_views(v2)[0]);
        assert(verdict_views(v1.skip(1)) =~= verdict_views(v1).skip(1));
        assert(verdict_views(v2.skip(1)) =~= verdict_views(v2).skip(1));
        lookup_by_views(v1.skip(1), v2.skip(1), k);
    }
}

proof fn failure_by_views(
    cs: Seq<Check>,
    p: Seq<(String, JsonValue)>,
    req: Option<Seq<char>>,
    run: Option<Seq<char>>,
    v1: Seq<(String, bool)>,
    v2: Seq<(String, bool)>,
    i: int,
)
    requires
        verdict_views(v1) == verdict_views(v2),
    ensures
        first_failure(cs, p, req, run, v1, i) == first_failure(cs, p, req, run, v2, i),
    decreases cs.len() - i,
{
    if 0 <= i < cs.len() {
        if let Check::Typed(label, m) = cs[i] {
            lookup_by_views(v1, v2, label@);
        }
        assert(check_error(cs[i], p, req, run, v1) == check_error(cs[i], p, req, run, v2));
        failure_by_views(cs, p, req, run, v1, v2, i + 1);
    }
}

proof fn verdicts_determined(t: EventType, p: JsonValue, outside: Seq<(String, bool)>, v1: Seq<(String, bool)>, v2: Seq<(String, bool)>)
    requires
        event_verdicts(t, p, outside, v1),
        event_verdicts(t, p, outside, v2),
    ensures
        verdict_views(v1) == verdict_views(v2),
{
    let (a1, b1, c1) = choose|a: Seq<(String, bool)>, b: Seq<(String, bool)>, c: Seq<(String, bool)>|
        model_selection_verdicts_are(t, p, a) && artifact_verdicts_are(t, p, b)
            && capture_verdicts_are(t, p, c) && v1 == a + b + c + outside;
    let (a2, b2, c2) = choose|a: Seq<(String, bool)>, b: Seq<(String, bool)>, c: Seq<(String, bool)>|
        model_selection_verdicts_are(t, p, a) && artifact_verdicts_are(t, p, b)
            && capture_verdicts_are(t, p, c) && v2 == a + b + c + outside;
    assert(verdict_views(a1) =~= verdict_views(a2));
    assert(verdict_views(b1) =~= verdict_views(b2));
    assert(verdict_views(c1) =~= verdict_views(c2));
    assert(verdict_views(v1) =~= verdict_views(a1) + verdict_views(b1) + verdict_views(c1)
        + verdict_views(outside));
    assert(verdict_views(v2) =~= verdict_views(a2) + verdict_views(b2) + verdict_views(c2)
        + verdict_views(outside));
}

/// The check of an event does not depend on which verdict list it is given,
/// among those that `event_verdicts` allows for the same outside verdicts:
/// checking an event has one outcome.
pub proof fn event_check_is_determined(
    h: EventHeader,
    p: JsonValue,
    payload_hash: Seq<char>,
    outside: Seq<(String, bool)>,
    v1: Seq<(String, bool)>,
    v2: Seq<(String, bool)>,
)
    requires
        event_verdicts(h.event_type, p, outside, v1),
        event_verdicts(h.event_type, p, outside, v2),
    ensures
        event_error(h, p, payload_hash, v1) == event_error(h, p, payload_hash, v2),
{
    verdicts_determined(h.event_type, p, outside, v1, v2);
    if let JsonValue::Object(es) = p {
        failure_by_views(
            checks_of(h.event_type),
            es@,
            opt_text(h.request_id),
            opt_text(h.run_id),
            v1,
            v2,
            0,
        );
    }
}

/// An event that `create_event` made passes `validate_event` given the same
/// outside verdicts: what creating an event accepts, checking it accepts.
pub proof fn created_events_validate(
    h: EventHeader,
    p: JsonValue,
    payload_hash: Seq<char>,
    outside: Seq<(String, bool)>,
    v_create: Seq<(String, bool)>,
    v_check: Seq<(String, bool)>,
)
    requires
        event_verdicts(h.event_type, p, outside, v_create),
        event_error(h, p, payload_hash, v_create) is None,
        event_verdicts(h.event_type, p, outside, v_check),
    ensures
        error_outcome(event_error(h, p, payload_hash, v_check)) == Ok::<(), EventError>(()),
{
    event_check_is_determined(h, p, payload_hash, outside, v_create, v_check);
}

/// An event passes its check only with a payload hash that is `sha256:` and
/// the digest of its canonical payload, and an event id that is `evt_` and
/// the digest of its canonical envelope with the id left empty; any other
/// hash or id is refused.
pub proof fn checked_events_carry_their_digests(
    h: EventHeader,
    p: JsonValue,
    payload_hash: Seq<char>,
    v: Seq<(String, bool)>,
)
    ensures
        event_error(h, p, payload_hash, v) is None ==> payload_hash == "sha256:"@ + sha256_hex_of(
            canonical_bytes_of(json_view(p)),
        ) && h.event_id@ == "evt_"@ + sha256_hex_of(
            canonical_bytes_of(envelope_view(h, sort_json(json_view(p)), payload_hash, Seq::empty())),
        ),
        payload_hash != "sha256:"@ + sha256_hex_of(canonical_bytes_of(json_view(p))) ==> event_error(
            h,
            p,
            payload_hash,
            v,
        ) is Some,
{
}

// ---------------------------------------------------------------- creating an event

/// The record of a payload that a header keeps: the field names of an
/// object payload, in order, and its text members.
pub open spec fn payload_record(
    p: JsonValue,
    keys: Option<Vec<String>>,
    texts: Seq<(String, String)>,
) -> bool {
    match p {
        JsonValue::Object(es) => {
            &&& keys matches Some(k) && string_views(k@) == Seq::new(es@.len(), |i: int| es@[i].0@)
            &&& pair_views(texts) == text_members(es@)
        },
        _ => keys is None && texts.len() == 0,
    }
}

fn record_of(p: &JsonValue) -> (r: (Option<Vec<String>>, Vec<(String, String)>))
    ensures
        payload_record(*p, r.0, r.1@),
{
    match p {
        JsonValue::Object(es) => {
            let mut keys: Vec<String> = Vec::new();
            let mut texts: Vec<(String, String)> = Vec::new();
            let mut i: usize = 0;
            assert(es@.take(0) =~= Seq::<(String, JsonValue)>::empty());
            while i < es.len()
                invariant
                    i <= es@.len(),
                    keys@.len() == i,
                    forall|j: int| 0 <= j < i ==> #[trigger] keys@[j]@ == es@[j].0@,
                    pair_views(texts@) == text_members(es@.take(i as int)),
                decreases es.len() - i,
            {
                proof {
                    assert(es@.take(i + 1).drop_last() =~= es@.take(i as int));
                    assert(es@.take(i + 1).last() == es@[i as int]);
                }
                keys.push(es[i].0.clone());
                match &es[i].1 {
                    JsonValue::Text(t) => {
                        let ghost before = texts@;
                        texts.push((es[i].0.clone(), t.clone()));
                        assert(pair_views(texts@) =~= pair_views(before).push((es@[i as int].0@, t@)));
                    },
                    _ => {},
                }
                i += 1;
            }
            assert(es@.take(es@.len() as int) =~= es@);
            assert(string_views(keys@) =~= Seq::new(es@.len(), |j: int| es@[j].0@));
            (Some(keys), texts)
        },
        _ => (None, Vec::new()),
    }
}

/// The header of a new event: the given fields, the event schema, the
/// payload's record, and `event_id`.
pub open spec fn header_built(
    h: EventHeader,
    aggregate: Aggregate,
    created_at_ms: u64,
    event_type: EventType,
    operation_id: String,
    p: JsonValue,
    predecessor_event_id: Option<String>,
    request_id: Option<String>,
    run_id: Option<String>,
    source_event_ids: Vec<String>,
    writer: Writer,
) -> bool {
    &&& h.aggregate == aggregate
    &&& h.created_at_ms == created_at_ms
    &&& h.event_type == event_type
    &&& h.operation_id == operation_id
    &&& h.predecessor_event_id == predecessor_event_id
    &&& h.request_id == request_id
    &&& h.run_id == run_id
    &&& h.schema_version@ == EVENT_SCHEMA@
    &&& h.source_event_ids == source_event_ids
    &&& h.writer == writer
    &&& payload_record(p, h.payload_keys, h.payload_texts@)
}

/// Creates a journal event: computes the payload hash and the event id and
/// checks the result as `validate_event` does.
pub fn create_event(
    aggregate: Aggregate,
    created_at_ms: u64,
    event_type: EventType,
    operation_id: String,
    payload: JsonValue,
    predecessor_event_id: Option<String>,
    request_id: Option<String>,
    run_id: Option<String>,
    source_event_ids: Vec<String>,
    writer: Writer,
    outside: &Vec<(String, bool)>,
) -> (r: Result<(EventHeader, JsonValue, String), EventError>)
    ensures
        exists|h: EventHeader, v: Seq<(String, bool)>|
            #![trigger event_error(h, payload, payload_hash_of(json_view(payload)), v)]
            header_built(
                h,
                aggregate,
                created_at_ms,
                event_type,
                operation_id,
                payload,
                predecessor_event_id,
                request_id,
                run_id,
                source_event_ids,
                writer,
            ) && h.event_id@ == event_id_of(h, json_view(payload), payload_hash_of(json_view(payload)))
                && event_verdicts(event_type, payload, outside@, v) && match r {
                Ok((e, p, hash)) => e == h && p == payload && hash@ == payload_hash_of(json_view(payload))
                    && event_error(h, payload, hash@, v) is None,
                Err(x) => Err::<(), EventError>(x) == error_outcome(
                    event_error(h, payload, payload_hash_of(json_view(payload)), v),
                ),
            },
{
    let hash = compute_payload_hash(&payload);
    let (payload_keys, payload_texts) = record_of(&payload);
    let mut header = EventHeader {
        aggregate,
        created_at_ms,
        event_id: String::new(),
        event_type,
        operation_id,
        predecessor_event_id,
        request_id,
        run_id,
        schema_version: EVENT_SCHEMA.to_owned(),
        source_event_ids,
        writer,
        payload_keys,
        payload_texts,
    };
    let id = compute_event_id(&header, &payload, hash.as_str());
    header.event_id = id;
    match validate_event(&header, &payload, hash.as_str(), outside) {
        Ok(()) => Ok((header, payload, hash)),
        Err(e) => Err(e),
    }
}

} // verus!
