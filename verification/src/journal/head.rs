use vstd::prelude::*;

use crate::contracts::ids::{
    is_h256, is_prefixed_hex, is_timestamp_ms, validate_event_id, validate_h256,
    validate_timestamp_ms,
};
use crate::contracts::decode::{
    decode_opt_text, decode_text, decode_unsigned, member, member_of, name_views, opt_text_in,
    record_shape, shape_ok, text_in, unsigned_in,
};
use crate::contracts::semantics::JsonValue;
use crate::journal::canonical::{
    canonical_text, json_view, keys_sorted, parse_canonical, strict_json,
};
use crate::text::{concat2, copy_opt_string, str_eq};

verus! {

pub const HEAD_SCHEMA: &'static str = "pr72.head.r13.v1";

/// The journal's HEAD: the newest published generation of the projection.
#[derive(Clone, Debug, PartialEq, Eq)]
pub struct Head {
    pub head_generation: u64,
    pub last_event_id: Option<String>,
    pub projection_digest: String,
    pub schema_version: String,
    pub snapshot_event_id: Option<String>,
    pub snapshot_sha256: Option<String>,
    pub updated_at_ms: u64,
}

#[derive(Clone, Debug, PartialEq, Eq)]
pub enum HeadError {
    Io(String),
    Json(String),
    CasConflict,
    LockContended(&'static str),
    Invalid(&'static str),
}

pub open spec fn opt_event_id_ok(v: Option<String>) -> bool {
    match v {
        Some(s) => is_prefixed_hex(s@, "evt_"@, 64),
        None => true,
    }
}

pub open spec fn opt_h256_ok(v: Option<String>) -> bool {
    match v {
        Some(s) => is_h256(s@),
        None => true,
    }
}

/// A HEAD is well formed: its schema, a positive generation, valid digests,
/// time and event ids, and a snapshot named by both its event and its
/// digest or by neither.
pub open spec fn head_ok(h: Head) -> bool {
    &&& h.schema_version@ == HEAD_SCHEMA@
    &&& h.head_generation > 0
    &&& is_h256(h.projection_digest@)
    &&& is_timestamp_ms(h.updated_at_ms)
    &&& opt_event_id_ok(h.last_event_id)
    &&& opt_event_id_ok(h.snapshot_event_id)
    &&& opt_h256_ok(h.snapshot_sha256)
    &&& (h.snapshot_event_id is None) == (h.snapshot_sha256 is None)
}

impl Head {
    pub fn validate(&self) -> (r: Result<(), HeadError>)
        ensures
            r is Ok <==> head_ok(*self),
            r is Err ==> r == Err::<(), HeadError>(HeadError::Invalid("fields")),
    {
        let last_ok = match &self.last_event_id {
            Some(v) => validate_event_id(v.as_str()).is_ok(),
            None => true,
        };
        let snapshot_id_ok = match &self.snapshot_event_id {
            Some(v) => validate_event_id(v.as_str()).is_ok(),
            None => true,
        };
        let snapshot_sha_ok = match &self.snapshot_sha256 {
            Some(v) => validate_h256(v.as_str()).is_ok(),
            None => true,
        };
        let valid = str_eq(self.schema_version.as_str(), HEAD_SCHEMA) && self.head_generation > 0
            && validate_h256(self.projection_digest.as_str()).is_ok() && validate_timestamp_ms(
            self.updated_at_ms,
        ).is_ok() && last_ok && snapshot_id_ok && snapshot_sha_ok && (self.snapshot_event_id.is_none()
            == self.snapshot_sha256.is_none());
        if valid {
            Ok(())
        } else {
            Err(HeadError::Invalid("fields"))
        }
    }
}

/// The generation of the current HEAD; `0` where none was published.
pub open spec fn generation_of(current: Option<Head>) -> u64 {
    match current {
        Some(h) => h.head_generation,
        None => 0,
    }
}

/// Whether `head` may replace `current`: the caller saw the current
/// generation, the new one is the next, and `head` is well formed.
pub fn check_publish(current: &Option<Head>, expected_generation: u64, head: &Head) -> (r: Result<
    (),
    HeadError,
>)
    ensures
        generation_of(*current) != expected_generation || head.head_generation
            != generation_of(*current) + 1 ==> r == Err::<(), HeadError>(HeadError::CasConflict),
        generation_of(*current) == expected_generation && head.head_generation == generation_of(
            *current,
        ) + 1 ==> (r is Ok <==> head_ok(*head)),
        r is Err && generation_of(*current) == expected_generation && head.head_generation
            == generation_of(*current) + 1 ==> r == Err::<(), HeadError>(HeadError::Invalid("fields")),
{
    let generation = match current {
        Some(h) => h.head_generation,
        None => 0,
    };
    if generation != expected_generation || generation == u64::MAX || head.head_generation
        != generation + 1 {
        return Err(HeadError::CasConflict);
    }
    head.validate()
}

/// The generation a retried publish proposes after seeing `expected`.
pub fn next_generation(expected: u64) -> (r: Result<u64, HeadError>)
    ensures
        expected < u64::MAX ==> r == Ok::<u64, HeadError>((expected + 1) as u64),
        expected == u64::MAX ==> r == Err::<u64, HeadError>(
            HeadError::Invalid("headGeneration overflow"),
        ),
{
    match expected.checked_add(1) {
        Some(g) => Ok(g),
        None => Err(HeadError::Invalid("headGeneration overflow")),
    }
}

/// After a replay the HEAD starts again at generation one.
pub fn replay_head(head: &Head) -> (r: Result<Head, HeadError>)
    ensures
        match r {
            Ok(h) => h == (Head { head_generation: 1, ..*head }) && head_ok(h),
            Err(e) => e == HeadError::Invalid("fields") && !head_ok(Head { head_generation: 1, ..*head }),
        },
{
    let candidate = Head {
        head_generation: 1,
        last_event_id: crate::text::copy_opt_string(&head.last_event_id),
        projection_digest: head.projection_digest.clone(),
        schema_version: head.schema_version.clone(),
        snapshot_event_id: crate::text::copy_opt_string(&head.snapshot_event_id),
        snapshot_sha256: crate::text::copy_opt_string(&head.snapshot_sha256),
        updated_at_ms: head.updated_at_ms,
    };
    match candidate.validate() {
        Ok(()) => Ok(candidate),
        Err(e) => Err(e),
    }
}

/// The text of a HEAD error.
pub open spec fn head_error_text(e: HeadError) -> Seq<char> {
    match e {
        HeadError::Io(m) => "io error: "@ + m@,
        HeadError::Json(m) => "json error: "@ + m@,
        HeadError::CasConflict => "journal.head_cas_conflict"@,
        HeadError::LockContended(name) => "journal lock contended: "@ + name@,
        HeadError::Invalid(what) => "HEAD contract invalid: "@ + what@,
    }
}

impl HeadError {
    pub fn message(&self) -> (r: String)
        ensures
            r@ == head_error_text(*self),
    {
        match self {
            HeadError::Io(m) => concat2("io error: ", m.as_str()),
            HeadError::Json(m) => concat2("json error: ", m.as_str()),
            HeadError::CasConflict => "journal.head_cas_conflict".to_string(),
            HeadError::LockContended(name) => concat2("journal lock contended: ", name),
            HeadError::Invalid(what) => concat2("HEAD contract invalid: ", what),
        }
    }
}

// ---------------------------------------------------------------- publishing with retries

/// A publish of HEAD that, after a compare-and-swap conflict, reads the
/// current generation and tries again, at most three times.
#[derive(Clone, Debug, PartialEq, Eq)]
pub struct PublishRetry {
    pub candidate: Head,
    pub expected: u64,
    pub conflicts: u8,
}

/// What a retried publish asks for next.
#[derive(Clone, Debug, PartialEq, Eq)]
pub enum PublishAction {
    Publish { expected: u64, candidate: Head },
    ReadCurrent,
    Done(Head),
    Fail(HeadError),
}

/// What the last step of a retried publish gave back: the publish's result,
/// or the current HEAD's generation (`None` where there is no HEAD yet).
#[derive(Debug, PartialEq, Eq)]
pub enum PublishEvent {
    Published(Result<(), HeadError>),
    CurrentRead(Result<Option<u64>, HeadError>),
}

impl Head {
    /// A field-by-field copy.
    pub fn copy(&self) -> (r: Head)
        ensures
            r == *self,
    {
        Head {
            head_generation: self.head_generation,
            last_event_id: copy_opt_string(&self.last_event_id),
            projection_digest: self.projection_digest.clone(),
            schema_version: self.schema_version.clone(),
            snapshot_event_id: copy_opt_string(&self.snapshot_event_id),
            snapshot_sha256: copy_opt_string(&self.snapshot_sha256),
            updated_at_ms: self.updated_at_ms,
        }
    }
}

/// Starts a publish of `head` over the generation `expected`.
pub fn start_publish(expected: u64, head: Head) -> (r: (PublishRetry, PublishAction))
    ensures
        expected < u64::MAX ==> {
            &&& r.0 == (PublishRetry {
                candidate: Head { head_generation: (expected + 1) as u64, ..head },
                expected,
                conflicts: 0,
            })
            &&& r.1 == (PublishAction::Publish { expected, candidate: r.0.candidate })
        },
        expected == u64::MAX ==> r.1 == PublishAction::Fail(HeadError::Invalid("headGeneration overflow")),
{
    match next_generation(expected) {
        Ok(g) => {
            let candidate = Head { head_generation: g, ..head };
            let action = PublishAction::Publish { expected, candidate: candidate.copy() };
            (PublishRetry { candidate, expected, conflicts: 0 }, action)
        },
        Err(e) => (PublishRetry { candidate: head, expected, conflicts: 0 }, PublishAction::Fail(e)),
    }
}

/// One step of a retried publish.
pub open spec fn publish_step(m: PublishRetry, e: PublishEvent, next: PublishRetry, action: PublishAction) -> bool {
    match e {
        PublishEvent::Published(Ok(_)) => action == PublishAction::Done(m.candidate),
        PublishEvent::Published(Err(HeadError::CasConflict)) => if m.conflicts < 3 {
            next == (PublishRetry { conflicts: (m.conflicts + 1) as u8, ..m }) && action
                == PublishAction::ReadCurrent
        } else {
            action == PublishAction::Fail(HeadError::CasConflict)
        },
        PublishEvent::Published(Err(err)) => action == PublishAction::Fail(err),
        PublishEvent::CurrentRead(Ok(current)) => {
            let expected = match current {
                Some(g) => g,
                None => 0,
            };
            if expected < u64::MAX {
                &&& next == (PublishRetry {
                    candidate: Head { head_generation: (expected + 1) as u64, ..m.candidate },
                    expected,
                    conflicts: m.conflicts,
                })
                &&& action == (PublishAction::Publish { expected, candidate: next.candidate })
            } else {
                action == PublishAction::Fail(HeadError::Invalid("headGeneration overflow"))
            }
        },
        PublishEvent::CurrentRead(Err(err)) => action == PublishAction::Fail(err),
    }
}

impl PublishRetry {
    pub fn step(self, event: PublishEvent) -> (r: (PublishRetry, PublishAction))
        requires
            self.conflicts <= 3,
        ensures
            publish_step(self, event, r.0, r.1),
            r.0.conflicts <= 3,
    {
        match event {
            PublishEvent::Published(Ok(_)) => {
                let done = PublishAction::Done(self.candidate.copy());
                (self, done)
            },
            PublishEvent::Published(Err(HeadError::CasConflict)) => {
                if self.conflicts < 3 {
                    (PublishRetry { conflicts: self.conflicts + 1, ..self }, PublishAction::ReadCurrent)
                } else {
                    (self, PublishAction::Fail(HeadError::CasConflict))
                }
            },
            PublishEvent::Published(Err(err)) => (self, PublishAction::Fail(err)),
            PublishEvent::CurrentRead(Ok(current)) => {
                let expected = match current {
                    Some(g) => g,
                    None => 0,
                };
                match next_generation(expected) {
                    Ok(g) => {
                        let candidate = Head { head_generation: g, ..self.candidate };
                        let action = PublishAction::Publish { expected, candidate: candidate.copy() };
                        (PublishRetry { candidate, expected, conflicts: self.conflicts }, action)
                    },
                    Err(e) => (self, PublishAction::Fail(e)),
                }
            },
            PublishEvent::CurrentRead(Err(err)) => (self, PublishAction::Fail(err)),
        }
    }
}

/// A retried publish asks to publish at most four times: a conflict leads to
/// a new attempt only while fewer than three conflicts have been seen.
pub proof fn publish_retries_are_bounded(
    m: PublishRetry,
    e: PublishEvent,
    next: PublishRetry,
    action: PublishAction,
)
    requires
        m.conflicts <= 3,
        publish_step(m, e, next, action),
    ensures
        action is ReadCurrent ==> m.conflicts < 3 && next.conflicts == m.conflicts + 1,
        action is Publish ==> next.conflicts == m.conflicts,
{
}

/// Publishing over the current generation succeeds at once: the published
/// HEAD is the caller's with the next generation.
pub proof fn publish_over_current_generation(
    expected: u64,
    head: Head,
    started: PublishRetry,
    first: PublishAction,
    next: PublishRetry,
    action: PublishAction,
)
    requires
        expected < u64::MAX,
        started == (PublishRetry {
            candidate: Head { head_generation: (expected + 1) as u64, ..head },
            expected,
            conflicts: 0,
        }),
        first == (PublishAction::Publish { expected, candidate: started.candidate }),
        publish_step(started, PublishEvent::Published(Ok(())), next, action),
    ensures
        action == PublishAction::Done(Head { head_generation: (expected + 1) as u64, ..head }),
{
}

/// A stale expected generation costs one retry: after the conflict the
/// current generation is read, the next publish is over it, and its success
/// publishes the caller's HEAD with the generation after the current one.
pub proof fn stale_expectation_costs_one_retry(
    m: PublishRetry,
    current: u64,
    m1: PublishRetry,
    a1: PublishAction,
    m2: PublishRetry,
    a2: PublishAction,
    m3: PublishRetry,
    a3: PublishAction,
)
    requires
        m.conflicts < 3,
        current < u64::MAX,
        publish_step(m, PublishEvent::Published(Err(HeadError::CasConflict)), m1, a1),
        publish_step(m1, PublishEvent::CurrentRead(Ok(Some(current))), m2, a2),
        publish_step(m2, PublishEvent::Published(Ok(())), m3, a3),
    ensures
        a1 == PublishAction::ReadCurrent,
        a2 == (PublishAction::Publish {
            expected: current,
            candidate: Head { head_generation: (current + 1) as u64, ..m.candidate },
        }),
        a3 == PublishAction::Done(Head { head_generation: (current + 1) as u64, ..m.candidate }),
        m2.conflicts == m.conflicts + 1,
{
}

/// A publish that meets four compare-and-swap conflicts in a row, with the
/// current generation read between them, fails with the conflict.
pub proof fn fourth_conflict_fails(
    m0: PublishRetry,
    g1: u64,
    g2: u64,
    g3: u64,
    m1: PublishRetry,
    a1: PublishAction,
    m2: PublishRetry,
    a2: PublishAction,
    m3: PublishRetry,
    a3: PublishAction,
    m4: PublishRetry,
    a4: PublishAction,
    m5: PublishRetry,
    a5: PublishAction,
    m6: PublishRetry,
    a6: PublishAction,
    m7: PublishRetry,
    a7: PublishAction,
)
    requires
        m0.conflicts == 0,
        g1 < u64::MAX,
        g2 < u64::MAX,
        g3 < u64::MAX,
        publish_step(m0, PublishEvent::Published(Err(HeadError::CasConflict)), m1, a1),
        publish_step(m1, PublishEvent::CurrentRead(Ok(Some(g1))), m2, a2),
        publish_step(m2, PublishEvent::Published(Err(HeadError::CasConflict)), m3, a3),
        publish_step(m3, PublishEvent::CurrentRead(Ok(Some(g2))), m4, a4),
        publish_step(m4, PublishEvent::Published(Err(HeadError::CasConflict)), m5, a5),
        publish_step(m5, PublishEvent::CurrentRead(Ok(Some(g3))), m6, a6),
        publish_step(m6, PublishEvent::Published(Err(HeadError::CasConflict)), m7, a7),
    ensures
        a1 == PublishAction::ReadCurrent,
        a3 == PublishAction::ReadCurrent,
        a5 == PublishAction::ReadCurrent,
        a2 is Publish && a4 is Publish && a6 is Publish,
        a7 == PublishAction::Fail(HeadError::CasConflict),
{
}

// ---------------------------------------------------------------- reading HEAD.json

pub open spec fn head_names() -> Seq<Seq<char>> {
    seq![
        "headGeneration"@,
        "lastEventId"@,
        "projectionDigest"@,
        "schemaVersion"@,
        "snapshotEventId"@,
        "snapshotSha256"@,
        "updatedAtMs"@,
    ]
}

/// A HEAD record, by its seven fields.
pub open spec fn head_in(v: JsonValue) -> Option<Head> {
    if !record_shape(v, head_names()) {
        None
    } else {
        match (
            unsigned_in(member_of(v, "headGeneration"@, 0)),
            opt_text_in(member_of(v, "lastEventId"@, 1)),
            text_in(member_of(v, "projectionDigest"@, 2)),
            text_in(member_of(v, "schemaVersion"@, 3)),
            opt_text_in(member_of(v, "snapshotEventId"@, 4)),
            opt_text_in(member_of(v, "snapshotSha256"@, 5)),
            unsigned_in(member_of(v, "updatedAtMs"@, 6)),
        ) {
            (
                Some(head_generation),
                Some(last_event_id),
                Some(projection_digest),
                Some(schema_version),
                Some(snapshot_event_id),
                Some(snapshot_sha256),
                Some(updated_at_ms),
            ) => Some(
                Head {
                    head_generation,
                    last_event_id,
                    projection_digest,
                    schema_version,
                    snapshot_event_id,
                    snapshot_sha256,
                    updated_at_ms,
                },
            ),
            _ => None,
        }
    }
}

/// What a HEAD value reads as: a HEAD record that is well formed.
pub open spec fn head_read(v: JsonValue, r: Result<Head, HeadError>) -> bool {
    match head_in(v) {
        None => r matches Err(HeadError::Json(m)) && m@ == "HEAD record"@,
        Some(h) => if head_ok(h) {
            r == Ok::<Head, HeadError>(h)
        } else {
            r == Err::<Head, HeadError>(HeadError::Invalid("fields"))
        },
    }
}

/// Reads a HEAD record out of a JSON value and checks it.
pub fn head_from_value(v: &JsonValue) -> (r: Result<Head, HeadError>)
    ensures
        head_read(*v, r),
{
    let names = vec![
        "headGeneration",
        "lastEventId",
        "projectionDigest",
        "schemaVersion",
        "snapshotEventId",
        "snapshotSha256",
        "updatedAtMs",
    ];
    proof {
        assert(name_views(names@) =~= head_names());
    }
    let record = if !shape_ok(v, &names) {
        None
    } else {
        let head_generation = decode_unsigned(member(v, "headGeneration", 0));
        let last_event_id = decode_opt_text(member(v, "lastEventId", 1));
        let projection_digest = decode_text(member(v, "projectionDigest", 2));
        let schema_version = decode_text(member(v, "schemaVersion", 3));
        let snapshot_event_id = decode_opt_text(member(v, "snapshotEventId", 4));
        let snapshot_sha256 = decode_opt_text(member(v, "snapshotSha256", 5));
        let updated_at_ms = decode_unsigned(member(v, "updatedAtMs", 6));
        match (
            head_generation,
            last_event_id,
            projection_digest,
            schema_version,
            snapshot_event_id,
            snapshot_sha256,
            updated_at_ms,
        ) {
            (
                Some(head_generation),
                Some(last_event_id),
                Some(projection_digest),
                Some(schema_version),
                Some(snapshot_event_id),
                Some(snapshot_sha256),
                Some(updated_at_ms),
            ) => Some(
                Head {
                    head_generation,
                    last_event_id,
                    projection_digest,
                    schema_version,
                    snapshot_event_id,
                    snapshot_sha256,
                    updated_at_ms,
                },
            ),
            _ => None,
        }
    };
    match record {
        None => Err(HeadError::Json("HEAD record".to_string())),
        Some(h) => match h.validate() {
            Ok(()) => Ok(h),
            Err(e) => Err(e),
        },
    }
}

/// Whether bytes are canonical JSON (see `parse_canonical`).
pub open spec fn canonical_ok(b: Seq<u8>) -> bool {
    strict_json(b) matches Some(w) && keys_sorted(w) && canonical_text(w) == b
}

/// Reads the HEAD that the bytes of HEAD.json hold: they must be canonical
/// JSON, and the value they hold must read as a well-formed HEAD.
pub fn head_from_bytes(bytes: &[u8]) -> (r: Result<Head, HeadError>)
    ensures
        !canonical_ok(bytes@) ==> (r matches Err(HeadError::Json(m)) && m@ == "HEAD is not canonical JSON"@),
        canonical_ok(bytes@) ==> exists|v: JsonValue|
            strict_json(bytes@) == Some(json_view(v)) && #[trigger] head_read(v, r),
{
    match parse_canonical(bytes) {
        Ok(v) => {
            let r = head_from_value(&v);
            assert(head_read(v, r));
            r
        },
        Err(_) => Err(HeadError::Json("HEAD is not canonical JSON".to_string())),
    }
}

} // verus!
