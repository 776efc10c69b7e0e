use vstd::prelude::*;

use crate::contracts::events::{
    aggregate_kind, aggregate_of, validate_writer, writer_error, Aggregate, AggregateKind,
    EventError, EventType, Writer, EVENT_SCHEMA,
};
use crate::contracts::ids::{
    is_general_id, is_timestamp_ms, validate_operation_id, validate_request_id, validate_run_id,
    validate_timestamp_ms,
};
use crate::contracts::payload_keys::{payload_keys_of, same_keys, validate_payload_keys};
use crate::contracts::projection::{event_id_ok, get_entry, lookup};
use crate::text::str_eq;

verus! {

/// What the envelope checks read of a journal event: its own fields, the
/// field names of its payload (`None` where the payload is not an object),
/// and the payload's text fields as (name, value) pairs.
pub struct EventHeader {
    pub aggregate: Aggregate,
    pub created_at_ms: u64,
    pub event_id: String,
    pub event_type: EventType,
    pub operation_id: String,
    pub predecessor_event_id: Option<String>,
    pub request_id: Option<String>,
    pub run_id: Option<String>,
    pub schema_version: String,
    pub source_event_ids: Vec<String>,
    pub writer: Writer,
    pub payload_keys: Option<Vec<String>>,
    pub payload_texts: Vec<(String, String)>,
}

/// The ids an event depends on: its sources, then its predecessor.
pub open spec fn dependency_ids(h: EventHeader) -> Seq<Seq<char>> {
    h.source_event_ids@.map_values(|s: String| s@) + match h.predecessor_event_id {
        Some(p) => seq![p@],
        None => Seq::empty(),
    }
}

/// The first dependency, from index `i` on, that is not an event id or is
/// the event's own id.
pub open spec fn dependency_error_from(ids: Seq<Seq<char>>, own: Seq<char>, i: int) -> Option<
    &'static str,
>
    decreases ids.len() - i,
{
    if i < 0 || i >= ids.len() {
        None
    } else if !event_id_ok(ids[i]) {
        Some("event dependency id")
    } else if ids[i] == own {
        Some("self dependency")
    } else {
        dependency_error_from(ids, own, i + 1)
    }
}

pub open spec fn sources_distinct(h: EventHeader) -> bool {
    forall|i: int, j: int|
        0 <= i < j < h.source_event_ids@.len() ==> h.source_event_ids@[i]@
            != h.source_event_ids@[j]@
}

/// The payload's text field `key`, if it has one.
pub open spec fn payload_text(h: EventHeader, key: Seq<char>) -> Option<Seq<char>> {
    match lookup(h.payload_texts@, key) {
        Some(v) => Some(v@),
        None => None,
    }
}

/// The id an event's aggregate must carry: the request id for a request,
/// the payload's own id field for the other kinds, fixed for the allocator
/// and QA streams.
pub open spec fn expected_aggregate_id(h: EventHeader) -> Option<Seq<char>> {
    match h.aggregate.kind {
        AggregateKind::Request => match h.request_id {
            Some(r) => Some(r@),
            None => None,
        },
        AggregateKind::Session => payload_text(h, "sessionId"@),
        AggregateKind::Slot => payload_text(h, "slotId"@),
        AggregateKind::Allocator => Some("allocator"@),
        AggregateKind::Claim => payload_text(h, "claimId"@),
        AggregateKind::Lease => payload_text(h, "leaseId"@),
        AggregateKind::RuntimeOwner => if payload_text(h, "runtimeOwnerId"@) is Some {
            payload_text(h, "runtimeOwnerId"@)
        } else {
            payload_text(h, "newOwnerId"@)
        },
        AggregateKind::ArtifactClaim => payload_text(h, "artifactClaimId"@),
        AggregateKind::Release => payload_text(h, "releaseId"@),
        AggregateKind::Qa => Some("qa"@),
    }
}

/// The first field among an event envelope's own fields and payload field
/// names that its checks refuse, in the order they are made.
pub open spec fn fields_error(h: EventHeader) -> Option<&'static str> {
    if h.schema_version@ != EVENT_SCHEMA@ {
        Some("schemaVersion")
    } else if !event_id_ok(h.event_id@) {
        Some("eventId")
    } else if !is_general_id(h.operation_id@) {
        Some("operationId")
    } else if !is_timestamp_ms(h.created_at_ms) {
        Some("createdAtMs")
    } else if writer_error(h.writer) is Some {
        writer_error(h.writer)
    } else if h.request_id matches Some(r) && !is_general_id(r@) {
        Some("requestId")
    } else if h.run_id matches Some(r) && !is_general_id(r@) {
        Some("runId")
    } else if h.run_id is Some && h.request_id is None {
        Some("runId without requestId")
    } else if h.source_event_ids@.len() > 80 || !sources_distinct(h) {
        Some("sourceEventIds")
    } else if dependency_error_from(dependency_ids(h), h.event_id@, 0) is Some {
        dependency_error_from(dependency_ids(h), h.event_id@, 0)
    } else if h.payload_keys is None {
        Some("payload")
    } else if !same_keys(h.payload_keys->0@, payload_keys_of(h.event_type)) {
        Some("payload fields")
    } else {
        None
    }
}

/// What the aggregate check refuses: an id other than the one the event
/// names, or a kind other than its event type's.
pub open spec fn aggregate_error(h: EventHeader) -> Option<&'static str> {
    if expected_aggregate_id(h) != Some(h.aggregate.id@) {
        Some("aggregate.id")
    } else if aggregate_of(h.event_type) != h.aggregate.kind {
        Some("aggregate.kind")
    } else {
        None
    }
}

/// The first field of an event envelope that its checks refuse, in the order
/// they are made.
pub open spec fn header_error(h: EventHeader) -> Option<&'static str> {
    if fields_error(h) is Some {
        fields_error(h)
    } else {
        aggregate_error(h)
    }
}

fn event_id_valid(s: &str) -> (r: bool)
    ensures
        r == event_id_ok(s@),
{
    crate::contracts::ids::validate_event_id(s).is_ok()
}

fn distinct_sources(h: &EventHeader) -> (r: bool)
    ensures
        r == sources_distinct(*h),
{
    let v = &h.source_event_ids;
    let mut i: usize = 0;
    while i < v.len()
        invariant
            *v == h.source_event_ids,
            i <= v@.len(),
            forall|a: int, b: int| 0 <= a < i && a < b < v@.len() ==> v@[a]@ != v@[b]@,
        decreases v.len() - i,
    {
        let mut j: usize = i + 1;
        while j < v.len()
            invariant
                *v == h.source_event_ids,
                i < v@.len(),
                i + 1 <= j <= v@.len(),
                forall|a: int, b: int| 0 <= a < i && a < b < v@.len() ==> v@[a]@ != v@[b]@,
                forall|b: int| i < b < j ==> v@[i as int]@ != v@[b]@,
            decreases v.len() - j,
        {
            if str_eq(v[i].as_str(), v[j].as_str()) {
                return false;
            }
            j += 1;
        }
        i += 1;
    }
    true
}

fn check_dependency(id: &str, own: &str) -> (r: Option<&'static str>)
    ensures
        r == (if !event_id_ok(id@) {
            Some("event dependency id")
        } else if id@ == own@ {
            Some("self dependency")
        } else {
            None::<&'static str>
        }),
{
    if !event_id_valid(id) {
        Some("event dependency id")
    } else if str_eq(id, own) {
        Some("self dependency")
    } else {
        None
    }
}

fn dependency_error(h: &EventHeader) -> (r: Option<&'static str>)
    ensures
        r == dependency_error_from(dependency_ids(*h), h.event_id@, 0),
{
    let ghost ids = dependency_ids(*h);
    let ghost own = h.event_id@;
    let n = h.source_event_ids.len();
    let mut i: usize = 0;
    while i < n
        invariant
            ids == dependency_ids(*h),
            own == h.event_id@,
            n == h.source_event_ids@.len(),
            i <= n,
            dependency_error_from(ids, own, 0) == dependency_error_from(ids, own, i as int),
        decreases n - i,
    {
        assert(ids[i as int] == h.source_event_ids@[i as int]@);
        match check_dependency(h.source_event_ids[i].as_str(), h.event_id.as_str()) {
            Some(e) => return Some(e),
            None => {},
        }
        i += 1;
    }
    match &h.predecessor_event_id {
        Some(p) => {
            assert(ids[n as int] == p@);
            match check_dependency(p.as_str(), h.event_id.as_str()) {
                Some(e) => Some(e),
                None => {
                    assert(dependency_error_from(ids, own, n as int + 1) is None);
                    None
                },
            }
        },
        None => {
            assert(ids.len() == n);
            None
        },
    }
}

fn payload_text_of<'a>(h: &'a EventHeader, key: &str) -> (r: Option<&'a String>)
    ensures
        match payload_text(*h, key@) {
            Some(v) => r matches Some(x) && x@ == v,
            None => r is None,
        },
{
    get_entry(&h.payload_texts, key)
}

fn same_text(expected: Option<&String>, actual: &str) -> (r: bool)
    ensures
        r == (match expected {
            Some(x) => Some(x@),
            None => None::<Seq<char>>,
        } == Some(actual@)),
{
    match expected {
        Some(x) => str_eq(x.as_str(), actual),
        None => false,
    }
}

fn aggregate_id_matches(h: &EventHeader) -> (r: bool)
    ensures
        r == (expected_aggregate_id(*h) == Some(h.aggregate.id@)),
{
    let actual = h.aggregate.id.as_str();
    match h.aggregate.kind {
        AggregateKind::Request => same_text(h.request_id.as_ref(), actual),
        AggregateKind::Session => same_text(payload_text_of(h, "sessionId"), actual),
        AggregateKind::Slot => same_text(payload_text_of(h, "slotId"), actual),
        AggregateKind::Allocator => str_eq("allocator", actual),
        AggregateKind::Claim => same_text(payload_text_of(h, "claimId"), actual),
        AggregateKind::Lease => same_text(payload_text_of(h, "leaseId"), actual),
        AggregateKind::RuntimeOwner => match payload_text_of(h, "runtimeOwnerId") {
            Some(x) => str_eq(x.as_str(), actual),
            None => same_text(payload_text_of(h, "newOwnerId"), actual),
        },
        AggregateKind::ArtifactClaim => same_text(payload_text_of(h, "artifactClaimId"), actual),
        AggregateKind::Release => same_text(payload_text_of(h, "releaseId"), actual),
        AggregateKind::Qa => str_eq("qa", actual),
    }
}

/// The envelope's own fields and payload field names (see `fields_error`).
pub fn validate_event_fields(h: &EventHeader) -> (r: Result<(), EventError>)
    ensures
        match fields_error(*h) {
            Some(f) => r == Err::<(), EventError>(EventError::Invalid(f)),
            None => r is Ok,
        },
{
    if !str_eq(h.schema_version.as_str(), EVENT_SCHEMA) {
        return Err(EventError::Invalid("schemaVersion"));
    }
    if !event_id_valid(h.event_id.as_str()) {
        return Err(EventError::Invalid("eventId"));
    }
    if validate_operation_id(h.operation_id.as_str()).is_err() {
        return Err(EventError::Invalid("operationId"));
    }
    if validate_timestamp_ms(h.created_at_ms).is_err() {
        return Err(EventError::Invalid("createdAtMs"));
    }
    match validate_writer(&h.writer) {
        Ok(_) => {},
        Err(e) => return Err(e),
    }
    match &h.request_id {
        Some(r) => if validate_request_id(r.as_str()).is_err() {
            return Err(EventError::Invalid("requestId"));
        },
        None => {},
    }
    match &h.run_id {
        Some(r) => if validate_run_id(r.as_str()).is_err() {
            return Err(EventError::Invalid("runId"));
        },
        None => {},
    }
    if h.run_id.is_some() && h.request_id.is_none() {
        return Err(EventError::Invalid("runId without requestId"));
    }
    if h.source_event_ids.len() > 80 || !distinct_sources(h) {
        return Err(EventError::Invalid("sourceEventIds"));
    }
    match dependency_error(h) {
        Some(e) => return Err(EventError::Invalid(e)),
        None => {},
    }
    let keys = match &h.payload_keys {
        Some(k) => k,
        None => return Err(EventError::Invalid("payload")),
    };
    match validate_payload_keys(h.event_type, keys.as_slice()) {
        Ok(_) => {},
        Err(e) => return Err(e),
    }
    Ok(())
}

/// The aggregate's id and kind (see `aggregate_error`).
pub fn validate_event_aggregate(h: &EventHeader) -> (r: Result<(), EventError>)
    ensures
        match aggregate_error(*h) {
            Some(f) => r == Err::<(), EventError>(EventError::Invalid(f)),
            None => r is Ok,
        },
{
    if !aggregate_id_matches(h) {
        return Err(EventError::Invalid("aggregate.id"));
    }
    if aggregate_kind(h.event_type) != h.aggregate.kind {
        return Err(EventError::Invalid("aggregate.kind"));
    }
    Ok(())
}

/// The envelope checks of a journal event, in order: schema, ids, time,
/// writer, request and run ids, sources and dependencies, payload field
/// names, and the aggregate's id and kind. The payload's own rules and its
/// digests are not among them.
pub fn validate_event_header(h: &EventHeader) -> (r: Result<(), EventError>)
    ensures
        match header_error(*h) {
            Some(f) => r == Err::<(), EventError>(EventError::Invalid(f)),
            None => r is Ok,
        },
{
    validate_event_fields(h)?;
    validate_event_aggregate(h)
}

} // verus!
