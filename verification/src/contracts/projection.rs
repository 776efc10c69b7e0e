use vstd::prelude::*;

use crate::allocator::{cohort_of, cohort_of_spec};
use crate::contracts::events::{docker_status, is_docker_status, Writer};
use crate::contracts::health::{health_parse, HealthStatus};
use crate::contracts::ids::{
    conversation_url_of, is_cohort, is_general_id, is_h256, is_prefixed_hex, is_session_id,
    is_slot_id, is_text, is_timestamp_ms, validate_artifact_claim_id, validate_binding_id,
    validate_claim_id, validate_cohort, validate_conversation_url, validate_event_id,
    validate_generation, validate_h256, validate_lease_id, validate_non_empty_text,
    validate_owner_id, validate_release_id, validate_request_id, validate_runtime_incarnation_id,
    validate_session_id, validate_slot_id, validate_timestamp_ms, IdError,
};
use crate::text::{
    concat3, copy_opt_string, lex_lt, lex_lt_irreflexive, lex_lt_transitive, push_str, str_eq, str_lt,
};

verus! {

pub const PROJECTION_SCHEMA: &'static str = "pr72.projection.r13.v1";

#[derive(Clone, Debug, PartialEq, Eq)]
pub struct RequestRecord {
    pub request_id: String,
    pub kind: String,
    pub state: String,
    pub session_id: Option<String>,
    pub last_event_id: String,
}

#[derive(Clone, Debug, PartialEq, Eq)]
pub struct SessionRecord {
    pub session_id: String,
    pub session_binding_id: Option<String>,
    pub conversation_url: Option<String>,
    pub slot_id: String,
    pub cohort: String,
    pub page_binding_generation: u16,
    pub last_operation_kind: Option<String>,
    pub terminal_answer_sha256: Option<String>,
    pub last_event_id: String,
}

#[derive(Clone, Debug, PartialEq, Eq)]
pub struct SlotRecord {
    pub slot_id: String,
    pub cohort: String,
    pub health_status: String,
    pub docker_status: String,
    pub allocatable: bool,
    pub cooldown_until_ms: Option<u64>,
    pub standby: bool,
    pub last_event_id: String,
}

#[derive(Clone, Debug, PartialEq, Eq)]
pub struct WithinCursors {
    pub cohort_a: u8,
    pub cohort_b: u8,
    pub cohort_c: u8,
}

#[derive(Clone, Debug, PartialEq, Eq)]
pub struct AllocatorRecord {
    pub cohort_cursor: u8,
    pub within_cursors: WithinCursors,
    pub last_scan_ordinal: Option<u8>,
    pub last_event_id: String,
}

/// A compare-and-swap resource record: a claim, a lease or a runtime owner.
#[derive(Clone, Debug, PartialEq, Eq)]
pub struct CasRecord {
    pub id: String,
    pub kind: String,
    pub subject_id: String,
    pub owner: Writer,
    pub generation: u16,
    pub renewal_revision: u16,
    pub fencing_token_sha256: Option<String>,
    pub granted_at_ms: u64,
    pub renew_at_ms: u64,
    pub expires_at_ms: u64,
    pub status: String,
    pub released_at_ms: Option<u64>,
    pub release_event_id: Option<String>,
    pub last_event_id: String,
}

impl CasRecord {
    /// A field-by-field copy.
    pub fn copy(&self) -> (r: CasRecord)
        ensures
            r == *self,
    {
        CasRecord {
            id: self.id.clone(),
            kind: self.kind.clone(),
            subject_id: self.subject_id.clone(),
            owner: self.owner.copy(),
            generation: self.generation,
            renewal_revision: self.renewal_revision,
            fencing_token_sha256: copy_opt_string(&self.fencing_token_sha256),
            granted_at_ms: self.granted_at_ms,
            renew_at_ms: self.renew_at_ms,
            expires_at_ms: self.expires_at_ms,
            status: self.status.clone(),
            released_at_ms: self.released_at_ms,
            release_event_id: copy_opt_string(&self.release_event_id),
            last_event_id: self.last_event_id.clone(),
        }
    }
}

#[derive(Clone, Debug, PartialEq, Eq)]
pub struct RuntimeOwnerRecord {
    pub cas: CasRecord,
    pub runtime_incarnation_id: String,
    pub docker_status: String,
}

#[derive(Clone, Debug, PartialEq, Eq)]
pub struct ArtifactClaimRecord {
    pub artifact_claim_id: String,
    pub session_id: String,
    pub request_id: Option<String>,
    pub expectation: String,
    pub control_count: Option<u8>,
    pub attempts_consumed: u8,
    pub completed: bool,
    pub result: Option<String>,
    pub last_event_id: String,
}

#[derive(Clone, Debug, PartialEq, Eq)]
pub struct ReleaseRecord {
    pub release_id: String,
    pub subject_kind: String,
    pub subject_id: String,
    pub reason: String,
    pub started_at_ms: u64,
    pub evidence_preserved_event_id: Option<String>,
    pub runtime_outcome: String,
    pub request_claim_release: String,
    pub session_claim_release: String,
    pub slot_lease_release: String,
    pub runtime_owner_release: String,
    pub standby_written: bool,
    pub final_status: Option<String>,
    pub finalized_at_ms: Option<u64>,
    pub last_event_id: String,
}

/// QA counters; `repeat_counts` holds (case, count) pairs in key order.
#[derive(Clone, Debug, PartialEq, Eq)]
pub struct QaCounterRecord {
    pub matrix_iterations_passed: u8,
    pub repeat_counts: Vec<(String, u8)>,
    pub source_fingerprint: Option<String>,
    pub last_reset_event_id: Option<String>,
    pub last_event_id: String,
}

/// The reduced lifecycle state. Each projection holds its (key, record)
/// entries in key order.
#[derive(Clone, Debug)]
pub struct ProjectionState {
    pub allocator: Vec<(String, AllocatorRecord)>,
    pub artifact_claims: Vec<(String, ArtifactClaimRecord)>,
    pub claims: Vec<(String, CasRecord)>,
    pub last_event_created_at_ms: u64,
    pub last_event_id: Option<String>,
    pub leases: Vec<(String, CasRecord)>,
    pub projection_digest: String,
    pub qa_counters: Vec<(String, QaCounterRecord)>,
    pub releases: Vec<(String, ReleaseRecord)>,
    pub requests: Vec<(String, RequestRecord)>,
    pub runtime_owners: Vec<(String, RuntimeOwnerRecord)>,
    pub schema_version: String,
    pub sessions: Vec<(String, SessionRecord)>,
    pub slots: Vec<(String, SlotRecord)>,
}


/// The keys of `entries` rise strictly, as the keys of an ordered map do.
pub open spec fn keys_ordered<T>(entries: Seq<(String, T)>) -> bool {
    forall|i: int| 0 <= i < entries.len() - 1 ==> lex_lt(#[trigger] entries[i].0@, entries[i + 1].0@)
}

/// Keys that rise step by step rise across any two positions, so no key
/// occurs twice.
pub proof fn ordered_keys_are_unique<T>(entries: Seq<(String, T)>, i: int, j: int)
    requires
        keys_ordered(entries),
        0 <= i < j < entries.len(),
    ensures
        lex_lt(entries[i].0@, entries[j].0@),
        entries[i].0@ != entries[j].0@,
    decreases j - i,
{
    if j == i + 1 {
        assert(lex_lt(entries[i].0@, entries[i + 1].0@));
    } else {
        ordered_keys_are_unique(entries, i, j - 1);
        assert(lex_lt(entries[j - 1].0@, entries[j].0@));
        lex_lt_transitive(entries[i].0@, entries[j - 1].0@, entries[j].0@);
    }
    if entries[i].0@ == entries[j].0@ {
        lex_lt_irreflexive(entries[i].0@);
    }
}

/// Whether the keys of `entries` rise strictly.
pub fn entries_ordered<T>(entries: &Vec<(String, T)>) -> (r: bool)
    ensures
        r == keys_ordered(entries@),
{
    let n = entries.len();
    if n < 2 {
        return true;
    }
    let mut i: usize = 0;
    while i + 1 < n
        invariant
            n == entries@.len(),
            n >= 2,
            i + 1 <= n,
            forall|j: int| 0 <= j < i ==> lex_lt(#[trigger] entries@[j].0@, entries@[j + 1].0@),
        decreases n - i,
    {
        if !str_lt(entries[i].0.as_str(), entries[i + 1].0.as_str()) {
            assert(!lex_lt(entries@[i as int].0@, entries@[i as int + 1].0@));
            return false;
        }
        i += 1;
    }
    true
}

impl ProjectionState {
    /// Each projection holds its entries in strictly rising key order, so each
    /// key names at most one record.
    pub open spec fn wf(&self) -> bool {
        &&& keys_ordered(self.allocator@)
        &&& keys_ordered(self.artifact_claims@)
        &&& keys_ordered(self.claims@)
        &&& keys_ordered(self.leases@)
        &&& keys_ordered(self.qa_counters@)
        &&& keys_ordered(self.releases@)
        &&& keys_ordered(self.requests@)
        &&& keys_ordered(self.runtime_owners@)
        &&& keys_ordered(self.sessions@)
        &&& keys_ordered(self.slots@)
    }

    /// Whether every projection holds its entries in strictly rising key
    /// order.
    pub fn keys_in_order(&self) -> (r: bool)
        ensures
            r == self.wf(),
    {
        entries_ordered(&self.allocator) && entries_ordered(&self.artifact_claims)
            && entries_ordered(&self.claims) && entries_ordered(&self.leases) && entries_ordered(
            &self.qa_counters,
        ) && entries_ordered(&self.releases) && entries_ordered(&self.requests) && entries_ordered(
            &self.runtime_owners,
        ) && entries_ordered(&self.sessions) && entries_ordered(&self.slots)
    }
}

/// The record of the first entry whose key is `key`.
pub open spec fn lookup<T>(entries: Seq<(String, T)>, key: Seq<char>) -> Option<T>
    decreases entries.len(),
{
    if entries.len() == 0 {
        None
    } else if entries[0].0@ == key {
        Some(entries[0].1)
    } else {
        lookup(entries.skip(1), key)
    }
}

proof fn lookup_step<T>(entries: Seq<(String, T)>, key: Seq<char>, i: int)
    requires
        0 <= i < entries.len(),
        entries[i].0@ != key,
    ensures
        lookup(entries.skip(i), key) == lookup(entries.skip(i + 1), key),
{
    assert(entries.skip(i).skip(1) =~= entries.skip(i + 1));
}

/// In a projection whose keys rise strictly, looking up the key of any entry
/// gives that entry's record: each key names exactly one record.
pub proof fn ordered_lookup_finds_entry<T>(entries: Seq<(String, T)>, i: int)
    requires
        keys_ordered(entries),
        0 <= i < entries.len(),
    ensures
        lookup(entries, entries[i].0@) == Some(entries[i].1),
    decreases i,
{
    if i > 0 {
        ordered_keys_are_unique(entries, 0, i);
        let rest = entries.skip(1);
        assert forall|j: int| 0 <= j < rest.len() - 1 implies lex_lt(
            #[trigger] rest[j].0@,
            rest[j + 1].0@,
        ) by {
            assert(lex_lt(entries[j + 1].0@, entries[j + 2].0@));
        }
        ordered_lookup_finds_entry(rest, i - 1);
    }
}

/// The record stored under `key`, if any.
pub fn get_entry<'a, T>(entries: &'a Vec<(String, T)>, key: &str) -> (r: Option<&'a T>)
    ensures
        r matches Some(x) ==> lookup(entries@, key@) == Some(*x),
        r is None ==> lookup(entries@, key@) is None,
{
    let mut i: usize = 0;
    assert(entries@.skip(0) =~= entries@);
    while i < entries.len()
        invariant
            i <= entries@.len(),
            lookup(entries@, key@) == lookup(entries@.skip(i as int), key@),
        decreases entries.len() - i,
    {
        if str_eq(entries[i].0.as_str(), key) {
            assert(entries@.skip(i as int)[0] == entries@[i as int]);
            return Some(&entries[i].1);
        }
        proof {
            lookup_step(entries@, key@, i as int);
        }
        i += 1;
    }
    assert(entries@.skip(i as int).len() == 0);
    None
}

// ---------------------------------------------------------------- record rules

#[derive(Clone, Debug, PartialEq, Eq)]
pub enum ProjectionContractError {
    Unknown(String),
    Invalid(String),
}

pub open spec fn event_id_ok(s: Seq<char>) -> bool {
    is_prefixed_hex(s, "evt_"@, 64)
}

pub open spec fn opt_event_id_ok(o: Option<String>) -> bool {
    o matches Some(s) ==> event_id_ok(s@)
}

pub open spec fn opt_h256_ok(o: Option<String>) -> bool {
    o matches Some(s) ==> is_h256(s@)
}

pub open spec fn opt_text_ok(o: Option<String>) -> bool {
    o matches Some(s) ==> is_text(s@, 4096)
}

pub open spec fn opt_timestamp_ok(o: Option<u64>) -> bool {
    o matches Some(v) ==> is_timestamp_ms(v)
}

fn event_id_valid(s: &str) -> (r: bool)
    ensures
        r == event_id_ok(s@),
{
    validate_event_id(s).is_ok()
}

fn opt_event_id_valid(o: &Option<String>) -> (r: bool)
    ensures
        r == opt_event_id_ok(*o),
{
    match o {
        Some(s) => event_id_valid(s.as_str()),
        None => true,
    }
}

fn opt_h256_valid(o: &Option<String>) -> (r: bool)
    ensures
        r == opt_h256_ok(*o),
{
    match o {
        Some(s) => validate_h256(s.as_str()).is_ok(),
        None => true,
    }
}

fn opt_text_valid(o: &Option<String>) -> (r: bool)
    ensures
        r == opt_text_ok(*o),
{
    match o {
        Some(s) => validate_non_empty_text(s.as_str()).is_ok(),
        None => true,
    }
}

fn opt_timestamp_valid(o: Option<u64>) -> (r: bool)
    ensures
        r == opt_timestamp_ok(o),
{
    match o {
        Some(v) => validate_timestamp_ms(v).is_ok(),
        None => true,
    }
}

fn invalid(message: &str) -> (r: ProjectionContractError)
    ensures
        r matches ProjectionContractError::Invalid(m) && m@ == message@,
{
    ProjectionContractError::Invalid(message.to_string())
}

/// The result of a record check: `Ok` exactly when `ok` holds, else the
/// record type's name.
pub open spec fn record_result(r: Result<(), ProjectionContractError>, ok: bool, name: Seq<char>) -> bool {
    match r {
        Ok(_) => ok,
        Err(ProjectionContractError::Invalid(m)) => !ok && m@ == name,
        Err(_) => false,
    }
}

fn record_check(ok: bool, name: &str) -> (r: Result<(), ProjectionContractError>)
    ensures
        record_result(r, ok, name@),
{
    if ok {
        Ok(())
    } else {
        Err(invalid(name))
    }
}

pub open spec fn request_state_ok(s: Seq<char>) -> bool {
    ||| s == "accepted"@
    ||| s == "claimed"@
    ||| s == "allocated"@
    ||| s == "binding"@
    ||| s == "model_verified"@
    ||| s == "uploading"@
    ||| s == "send_armed"@
    ||| s == "sent"@
    ||| s == "running"@
    ||| s == "polling"@
    ||| s == "terminal"@
    ||| s == "output_published"@
    ||| s == "failed"@
    ||| s == "released"@
}

fn request_state_valid(s: &str) -> (r: bool)
    ensures
        r == request_state_ok(s@),
{
    str_eq(s, "accepted") || str_eq(s, "claimed") || str_eq(s, "allocated") || str_eq(s, "binding")
        || str_eq(s, "model_verified") || str_eq(s, "uploading") || str_eq(s, "send_armed")
        || str_eq(s, "sent") || str_eq(s, "running") || str_eq(s, "polling") || str_eq(
        s,
        "terminal",
    ) || str_eq(s, "output_published") || str_eq(s, "failed") || str_eq(s, "released")
}

/// A request record is stored under its own id and holds known values.
pub open spec fn request_ok(key: Seq<char>, r: RequestRecord) -> bool {
    &&& key == r.request_id@
    &&& is_general_id(key)
    &&& (r.kind@ == "pro"@ || r.kind@ == "xhigh"@)
    &&& request_state_ok(r.state@)
    &&& (r.session_id matches Some(s) ==> is_session_id(s@))
    &&& event_id_ok(r.last_event_id@)
}

pub fn validate_request(key: &str, record: &RequestRecord) -> (r: Result<(), ProjectionContractError>)
    ensures
        record_result(r, request_ok(key@, *record), "RequestRecord"@),
{
    let session_ok = match &record.session_id {
        Some(s) => validate_session_id(s.as_str()).is_ok(),
        None => true,
    };
    let ok = str_eq(key, record.request_id.as_str()) && validate_request_id(key).is_ok() && (str_eq(
        record.kind.as_str(),
        "pro",
    ) || str_eq(record.kind.as_str(), "xhigh")) && request_state_valid(record.state.as_str())
        && session_ok && event_id_valid(record.last_event_id.as_str());
    record_check(ok, "RequestRecord")
}

/// A session record is stored under its own id, carries the conversation URL
/// of that id, and holds well-formed identities.
pub open spec fn session_ok(key: Seq<char>, r: SessionRecord) -> bool {
    &&& key == r.session_id@
    &&& is_session_id(key)
    &&& (r.session_binding_id matches Some(b) ==> is_prefixed_hex(b@, "binding_"@, 64))
    &&& (r.conversation_url matches Some(u) && is_session_id(r.session_id@) && u@
        == conversation_url_of(r.session_id@))
    &&& is_slot_id(r.slot_id@)
    &&& is_cohort(r.cohort@)
    &&& r.page_binding_generation > 0
    &&& opt_text_ok(r.last_operation_kind)
    &&& opt_h256_ok(r.terminal_answer_sha256)
    &&& event_id_ok(r.last_event_id@)
}

pub fn validate_session(key: &str, record: &SessionRecord) -> (r: Result<(), ProjectionContractError>)
    ensures
        record_result(r, session_ok(key@, *record), "SessionRecord"@),
{
    let binding_ok = match &record.session_binding_id {
        Some(b) => validate_binding_id(b.as_str()).is_ok(),
        None => true,
    };
    let url_ok = match &record.conversation_url {
        Some(u) => validate_conversation_url(u.as_str(), record.session_id.as_str()).is_ok(),
        None => false,
    };
    let ok = str_eq(key, record.session_id.as_str()) && validate_session_id(key).is_ok()
        && binding_ok && url_ok && validate_slot_id(record.slot_id.as_str()).is_ok()
        && validate_cohort(record.cohort.as_str()).is_ok() && validate_generation(
        record.page_binding_generation,
    ).is_ok() && opt_text_valid(&record.last_operation_kind) && opt_h256_valid(
        &record.terminal_answer_sha256,
    ) && event_id_valid(record.last_event_id.as_str());
    record_check(ok, "SessionRecord")
}

/// A slot record is stored under its own id, in the slot's own cohort, with
/// known health and Docker states.
pub open spec fn slot_ok(key: Seq<char>, r: SlotRecord) -> bool {
    &&& key == r.slot_id@
    &&& is_slot_id(key)
    &&& is_cohort(r.cohort@)
    &&& cohort_of_spec(key) == Some(r.cohort@)
    &&& health_parse(r.health_status@) is Some
    &&& is_docker_status(r.docker_status@)
    &&& opt_timestamp_ok(r.cooldown_until_ms)
    &&& event_id_ok(r.last_event_id@)
}

pub fn validate_slot(key: &str, record: &SlotRecord) -> (r: Result<(), ProjectionContractError>)
    ensures
        record_result(r, slot_ok(key@, *record), "SlotRecord"@),
{
    let cohort_matches = match cohort_of(key) {
        Some(c) => str_eq(c, record.cohort.as_str()),
        None => false,
    };
    let ok = str_eq(key, record.slot_id.as_str()) && validate_slot_id(key).is_ok() && validate_cohort(
        record.cohort.as_str(),
    ).is_ok() && cohort_matches && HealthStatus::parse(record.health_status.as_str()).is_some()
        && docker_status(record.docker_status.as_str()) && opt_timestamp_valid(
        record.cooldown_until_ms,
    ) && event_id_valid(record.last_event_id.as_str());
    record_check(ok, "SlotRecord")
}

/// The allocator record lives under `allocator` and keeps its cursors within
/// the cohort sizes.
pub open spec fn allocator_ok(key: Seq<char>, r: AllocatorRecord) -> bool {
    &&& key == "allocator"@
    &&& r.cohort_cursor <= 2
    &&& r.within_cursors.cohort_a <= 2
    &&& r.within_cursors.cohort_b <= 3
    &&& r.within_cursors.cohort_c <= 2
    &&& (r.last_scan_ordinal matches Some(v) ==> v <= 9)
    &&& event_id_ok(r.last_event_id@)
}

pub fn validate_allocator(key: &str, record: &AllocatorRecord) -> (r: Result<
    (),
    ProjectionContractError,
>)
    ensures
        record_result(r, allocator_ok(key@, *record), "AllocatorRecord"@),
{
    let scan_ok = match record.last_scan_ordinal {
        Some(v) => v <= 9,
        None => true,
    };
    let ok = str_eq(key, "allocator") && record.cohort_cursor <= 2 && record.within_cursors.cohort_a
        <= 2 && record.within_cursors.cohort_b <= 3 && record.within_cursors.cohort_c <= 2
        && scan_ok && event_id_valid(record.last_event_id.as_str());
    record_check(ok, "AllocatorRecord")
}

/// The record kind each compare-and-swap projection holds.
pub open spec fn projection_kind_of(projection: Seq<char>) -> Seq<char> {
    if projection == "claims"@ {
        "claim"@
    } else if projection == "leases"@ {
        "lease"@
    } else if projection == "runtime_owners"@ {
        "runtime_owner"@
    } else {
        "invalid"@
    }
}

pub fn projection_kind(projection: &str) -> (r: &'static str)
    ensures
        r@ == projection_kind_of(projection@),
{
    if str_eq(projection, "claims") {
        "claim"
    } else if str_eq(projection, "leases") {
        "lease"
    } else if str_eq(projection, "runtime_owners") {
        "runtime_owner"
    } else {
        "invalid"
    }
}

pub open spec fn cas_projection(projection: Seq<char>) -> bool {
    projection == "claims"@ || projection == "leases"@ || projection == "runtime_owners"@
}

pub open spec fn cas_identity_ok(projection: Seq<char>, key: Seq<char>) -> bool {
    if projection == "claims"@ {
        is_prefixed_hex(key, "claim_"@, 64)
    } else if projection == "leases"@ {
        is_prefixed_hex(key, "lease_"@, 64)
    } else {
        is_prefixed_hex(key, "owner_"@, 64)
    }
}

/// A claim, lease or runtime-owner record: stored under its own id, of its
/// projection's kind, renewed 200 s before it expires, granted no later than
/// its renewal time, and carrying release data exactly when released. Only
/// runtime owners may lack a fencing-token hash.
pub open spec fn cas_ok(projection: Seq<char>, key: Seq<char>, r: CasRecord) -> bool {
    let released = r.status@ == "released"@;
    &&& cas_identity_ok(projection, key)
    &&& key == r.id@
    &&& r.kind@ == projection_kind_of(projection)
    &&& r.generation > 0
    &&& r.renewal_revision != 0
    &&& is_timestamp_ms(r.granted_at_ms)
    &&& is_timestamp_ms(r.renew_at_ms)
    &&& is_timestamp_ms(r.expires_at_ms)
    &&& r.renew_at_ms + 200_000 == r.expires_at_ms
    &&& r.granted_at_ms <= r.renew_at_ms
    &&& (r.status@ == "active"@ || released)
    &&& (r.released_at_ms is Some) == released
    &&& (r.release_event_id is Some) == released
    &&& opt_timestamp_ok(r.released_at_ms)
    &&& opt_event_id_ok(r.release_event_id)
    &&& opt_h256_ok(r.fencing_token_sha256)
    &&& (projection != "runtime_owners"@ ==> r.fencing_token_sha256 is Some)
    &&& event_id_ok(r.last_event_id@)
}

pub open spec fn cas_result(r: Result<(), ProjectionContractError>, projection: Seq<char>, key: Seq<char>, record: CasRecord) -> bool {
    if cas_projection(projection) {
        record_result(r, cas_ok(projection, key, record), "CasRecord"@)
    } else {
        record_result(r, false, "CAS projection"@)
    }
}

fn cas_times_valid(record: &CasRecord) -> (r: bool)
    ensures
        r == (is_timestamp_ms(record.granted_at_ms) && is_timestamp_ms(record.renew_at_ms)
            && is_timestamp_ms(record.expires_at_ms) && record.renew_at_ms + 200_000
            == record.expires_at_ms && record.granted_at_ms <= record.renew_at_ms),
{
    validate_timestamp_ms(record.granted_at_ms).is_ok() && validate_timestamp_ms(record.renew_at_ms).is_ok()
        && validate_timestamp_ms(record.expires_at_ms).is_ok() && record.renew_at_ms + 200_000
        == record.expires_at_ms && record.granted_at_ms <= record.renew_at_ms
}

fn cas_release_valid(record: &CasRecord) -> (r: bool)
    ensures
        r == ({
            let released = record.status@ == "released"@;
            &&& (record.status@ == "active"@ || released)
            &&& (record.released_at_ms is Some) == released
            &&& (record.release_event_id is Some) == released
            &&& opt_timestamp_ok(record.released_at_ms)
            &&& opt_event_id_ok(record.release_event_id)
        }),
{
    let released = str_eq(record.status.as_str(), "released");
    (str_eq(record.status.as_str(), "active") || released) && record.released_at_ms.is_some()
        == released && record.release_event_id.is_some() == released && opt_timestamp_valid(
        record.released_at_ms,
    ) && opt_event_id_valid(&record.release_event_id)
}

pub fn validate_cas(projection: &str, key: &str, record: &CasRecord) -> (r: Result<
    (),
    ProjectionContractError,
>)
    ensures
        cas_result(r, projection@, key@, *record),
{
    let identity = if str_eq(projection, "claims") {
        validate_claim_id(key).is_ok()
    } else if str_eq(projection, "leases") {
        validate_lease_id(key).is_ok()
    } else if str_eq(projection, "runtime_owners") {
        validate_owner_id(key).is_ok()
    } else {
        return Err(invalid("CAS projection"));
    };
    let ok = identity && str_eq(key, record.id.as_str()) && str_eq(
        record.kind.as_str(),
        projection_kind(projection),
    ) && validate_generation(record.generation).is_ok() && record.renewal_revision != 0
        && cas_times_valid(record) && cas_release_valid(record) && opt_h256_valid(
        &record.fencing_token_sha256,
    ) && (str_eq(projection, "runtime_owners") || record.fencing_token_sha256.is_some())
        && event_id_valid(record.last_event_id.as_str());
    record_check(ok, "CasRecord")
}

/// What a runtime-owner record is refused for, if anything: its CAS part
/// first, then the owner's slot, runtime incarnation and Docker state.
pub open spec fn owner_error(key: Seq<char>, r: RuntimeOwnerRecord) -> Option<Seq<char>> {
    if !cas_ok("runtime_owners"@, key, r.cas) {
        Some("CasRecord"@)
    } else if !(is_slot_id(r.cas.subject_id@) && is_prefixed_hex(
        r.runtime_incarnation_id@,
        "runtime_"@,
        64,
    ) && is_docker_status(r.docker_status@)) {
        Some("RuntimeOwnerRecord"@)
    } else {
        None
    }
}

pub open spec fn error_result(r: Result<(), ProjectionContractError>, e: Option<Seq<char>>) -> bool {
    match r {
        Ok(_) => e is None,
        Err(ProjectionContractError::Invalid(m)) => e == Some(m@),
        Err(_) => false,
    }
}

pub fn validate_owner(key: &str, record: &RuntimeOwnerRecord) -> (r: Result<
    (),
    ProjectionContractError,
>)
    ensures
        error_result(r, owner_error(key@, *record)),
{
    proof {
        reveal_strlit("runtime_owners");
        reveal_strlit("claims");
        reveal_strlit("leases");
    }
    match validate_cas("runtime_owners", key, &record.cas) {
        Ok(_) => {},
        Err(e) => return Err(e),
    }
    let ok = validate_slot_id(record.cas.subject_id.as_str()).is_ok() && validate_runtime_incarnation_id(
        record.runtime_incarnation_id.as_str(),
    ).is_ok() && docker_status(record.docker_status.as_str());
    record_check(ok, "RuntimeOwnerRecord")
}

pub open spec fn expectation_name_ok(s: Seq<char>) -> bool {
    s == "none"@ || s == "optional"@ || s == "required"@ || s == "claimed"@
}

/// An artifact-claim record is stored under its own id, counts at most 64
/// controls and attempts, and has a result only once completed.
pub open spec fn artifact_claim_ok(key: Seq<char>, r: ArtifactClaimRecord) -> bool {
    &&& key == r.artifact_claim_id@
    &&& is_prefixed_hex(key, "artifact_claim_"@, 64)
    &&& is_session_id(r.session_id@)
    &&& (r.request_id matches Some(q) ==> is_general_id(q@))
    &&& expectation_name_ok(r.expectation@)
    &&& (r.control_count matches Some(v) ==> v <= 64)
    &&& r.attempts_consumed <= 64
    &&& (r.result is Some ==> r.completed)
    &&& opt_text_ok(r.result)
    &&& event_id_ok(r.last_event_id@)
}

pub fn validate_artifact_claim(key: &str, record: &ArtifactClaimRecord) -> (r: Result<
    (),
    ProjectionContractError,
>)
    ensures
        record_result(r, artifact_claim_ok(key@, *record), "ArtifactClaimRecord"@),
{
    let request_ok = match &record.request_id {
        Some(q) => validate_request_id(q.as_str()).is_ok(),
        None => true,
    };
    let e = record.expectation.as_str();
    let expectation_ok = str_eq(e, "none") || str_eq(e, "optional") || str_eq(e, "required")
        || str_eq(e, "claimed");
    let count_ok = match record.control_count {
        Some(v) => v <= 64,
        None => true,
    };
    let ok = str_eq(key, record.artifact_claim_id.as_str()) && validate_artifact_claim_id(key).is_ok()
        && validate_session_id(record.session_id.as_str()).is_ok() && request_ok && expectation_ok
        && count_ok && record.attempts_consumed <= 64 && !(record.completed
        != record.result.is_some() && record.result.is_some()) && opt_text_valid(&record.result)
        && event_id_valid(record.last_event_id.as_str());
    record_check(ok, "ArtifactClaimRecord")
}

pub open spec fn release_mode_ok(s: Seq<char>) -> bool {
    s == "not_applicable"@ || s == "pending"@ || s == "released"@
}

pub fn release_mode(value: &str) -> (r: bool)
    ensures
        r == release_mode_ok(value@),
{
    str_eq(value, "not_applicable") || str_eq(value, "pending") || str_eq(value, "released")
}

pub open spec fn final_status_ok(s: Seq<char>) -> bool {
    ||| s == "allocatable"@
    ||| s == "cooldown_blocked"@
    ||| s == "cleanup_failed"@
    ||| s == "stop_skipped_owner_alive"@
    ||| s == "resources_released_no_slot"@
}

/// A release record is stored under its own id, names a known subject kind,
/// runtime outcome and release modes, and has a final status exactly when it
/// has a finalization time.
pub open spec fn release_ok(key: Seq<char>, r: ReleaseRecord) -> bool {
    &&& key == r.release_id@
    &&& is_prefixed_hex(key, "release_"@, 64)
    &&& (r.subject_kind@ == "request"@ || r.subject_kind@ == "session_operation"@
        || r.subject_kind@ == "slot"@)
    &&& is_text(r.subject_id@, 4096)
    &&& is_text(r.reason@, 4096)
    &&& is_timestamp_ms(r.started_at_ms)
    &&& opt_event_id_ok(r.evidence_preserved_event_id)
    &&& (r.runtime_outcome@ == "pending"@ || r.runtime_outcome@ == "stopped"@
        || r.runtime_outcome@ == "skipped"@ || r.runtime_outcome@ == "failed"@)
    &&& release_mode_ok(r.request_claim_release@)
    &&& release_mode_ok(r.session_claim_release@)
    &&& release_mode_ok(r.slot_lease_release@)
    &&& release_mode_ok(r.runtime_owner_release@)
    &&& (r.final_status is Some) == (r.finalized_at_ms is Some)
    &&& (r.final_status matches Some(f) ==> final_status_ok(f@))
    &&& opt_timestamp_ok(r.finalized_at_ms)
    &&& event_id_ok(r.last_event_id@)
}

fn release_words_valid(record: &ReleaseRecord) -> (r: bool)
    ensures
        r == ((record.subject_kind@ == "request"@ || record.subject_kind@ == "session_operation"@
            || record.subject_kind@ == "slot"@) && (record.runtime_outcome@ == "pending"@
            || record.runtime_outcome@ == "stopped"@ || record.runtime_outcome@ == "skipped"@
            || record.runtime_outcome@ == "failed"@) && release_mode_ok(record.request_claim_release@)
            && release_mode_ok(record.session_claim_release@) && release_mode_ok(
            record.slot_lease_release@,
        ) && release_mode_ok(record.runtime_owner_release@)),
{
    let k = record.subject_kind.as_str();
    let o = record.runtime_outcome.as_str();
    (str_eq(k, "request") || str_eq(k, "session_operation") || str_eq(k, "slot")) && (str_eq(
        o,
        "pending",
    ) || str_eq(o, "stopped") || str_eq(o, "skipped") || str_eq(o, "failed")) && release_mode(
        record.request_claim_release.as_str(),
    ) && release_mode(record.session_claim_release.as_str()) && release_mode(
        record.slot_lease_release.as_str(),
    ) && release_mode(record.runtime_owner_release.as_str())
}

pub fn validate_release(key: &str, record: &ReleaseRecord) -> (r: Result<(), ProjectionContractError>)
    ensures
        record_result(r, release_ok(key@, *record), "ReleaseRecord"@),
{
    let final_pair = record.final_status.is_some() == record.finalized_at_ms.is_some();
    let final_ok = match &record.final_status {
        Some(f) => {
            let v = f.as_str();
            str_eq(v, "allocatable") || str_eq(v, "cooldown_blocked") || str_eq(v, "cleanup_failed")
                || str_eq(v, "stop_skipped_owner_alive") || str_eq(v, "resources_released_no_slot")
        },
        None => true,
    };
    let ok = str_eq(key, record.release_id.as_str()) && validate_release_id(key).is_ok()
        && validate_non_empty_text(record.subject_id.as_str()).is_ok() && validate_non_empty_text(
        record.reason.as_str(),
    ).is_ok() && validate_timestamp_ms(record.started_at_ms).is_ok() && opt_event_id_valid(
        &record.evidence_preserved_event_id,
    ) && release_words_valid(record) && final_pair && final_ok && opt_timestamp_valid(
        record.finalized_at_ms,
    ) && event_id_valid(record.last_event_id.as_str());
    record_check(ok, "ReleaseRecord")
}

pub open spec fn repeat_count_ok(e: (String, u8)) -> bool {
    is_text(e.0@, 4096) && e.1 <= 10
}

/// The QA counters live under `qa`: at most 3 matrix passes, repeat counts of
/// at most 10 under non-empty case names.
pub open spec fn qa_ok(key: Seq<char>, r: QaCounterRecord) -> bool {
    &&& key == "qa"@
    &&& r.matrix_iterations_passed <= 3
    &&& forall|i: int| 0 <= i < r.repeat_counts@.len() ==> #[trigger] repeat_count_ok(r.repeat_counts@[i])
    &&& opt_h256_ok(r.source_fingerprint)
    &&& opt_event_id_ok(r.last_reset_event_id)
    &&& event_id_ok(r.last_event_id@)
}

fn repeat_counts_valid(counts: &Vec<(String, u8)>) -> (r: bool)
    ensures
        r == forall|i: int| 0 <= i < counts@.len() ==> #[trigger] repeat_count_ok(counts@[i]),
{
    let mut i: usize = 0;
    while i < counts.len()
        invariant
            i <= counts@.len(),
            forall|j: int| 0 <= j < i ==> #[trigger] repeat_count_ok(counts@[j]),
        decreases counts.len() - i,
    {
        let entry = &counts[i];
        proof {
            assert(*entry == counts@[i as int]);
        }
        if !(validate_non_empty_text(entry.0.as_str()).is_ok() && entry.1 <= 10) {
            assert(!repeat_count_ok(counts@[i as int]));
            return false;
        }
        i += 1;
    }
    true
}

pub fn validate_qa(key: &str, record: &QaCounterRecord) -> (r: Result<(), ProjectionContractError>)
    ensures
        record_result(r, qa_ok(key@, *record), "QaCounterRecord"@),
{
    let ok = str_eq(key, "qa") && record.matrix_iterations_passed <= 3 && repeat_counts_valid(
        &record.repeat_counts,
    ) && opt_h256_valid(&record.source_fingerprint) && opt_event_id_valid(
        &record.last_reset_event_id,
    ) && event_id_valid(record.last_event_id.as_str());
    record_check(ok, "QaCounterRecord")
}

/// The text of an identifier error: `invalid <kind>: <value>`.
pub open spec fn id_error_text(e: IdError) -> Seq<char> {
    match e {
        IdError::Invalid { kind, value } => "invalid "@ + kind@ + ": "@ + value@,
    }
}

/// A projection digest is a `sha256:` hash.
pub fn validate_projection_digest(value: &str) -> (r: Result<(), ProjectionContractError>)
    ensures
        r is Ok <==> is_h256(value@),
        r matches Err(e) ==> (e matches ProjectionContractError::Invalid(m) && m@ == "invalid "@ + "H256"@
            + ": "@ + value@),
{
    match validate_h256(value) {
        Ok(_) => Ok(()),
        Err(IdError::Invalid { kind, value: v }) => {
            let mut m = concat3("invalid ", kind, ": ");
            push_str(&mut m, v.as_str());
            Err(ProjectionContractError::Invalid(m))
        },
    }
}

// ---------------------------------------------------------------- the whole state

pub open spec fn all_requests_ok(e: Seq<(String, RequestRecord)>) -> bool {
    forall|i: int| 0 <= i < e.len() ==> #[trigger] request_ok(e[i].0@, e[i].1)
}

fn requests_valid(entries: &Vec<(String, RequestRecord)>) -> (r: bool)
    ensures
        r == all_requests_ok(entries@),
{
    let mut i: usize = 0;
    while i < entries.len()
        invariant
            i <= entries@.len(),
            forall|j: int| 0 <= j < i ==> #[trigger] request_ok(entries@[j].0@, entries@[j].1),
        decreases entries.len() - i,
    {
        let entry = &entries[i];
        proof {
            assert(*entry == entries@[i as int]);
        }
        if validate_request(entry.0.as_str(), &entry.1).is_err() {
            return false;
        }
        i += 1;
    }
    true
}

pub open spec fn all_sessions_ok(e: Seq<(String, SessionRecord)>) -> bool {
    forall|i: int| 0 <= i < e.len() ==> #[trigger] session_ok(e[i].0@, e[i].1)
}

fn sessions_valid(entries: &Vec<(String, SessionRecord)>) -> (r: bool)
    ensures
        r == all_sessions_ok(entries@),
{
    let mut i: usize = 0;
    while i < entries.len()
        invariant
            i <= entries@.len(),
            forall|j: int| 0 <= j < i ==> #[trigger] session_ok(entries@[j].0@, entries@[j].1),
        decreases entries.len() - i,
    {
        let entry = &entries[i];
        proof {
            assert(*entry == entries@[i as int]);
        }
        if validate_session(entry.0.as_str(), &entry.1).is_err() {
            return false;
        }
        i += 1;
    }
    true
}

pub open spec fn all_slots_ok(e: Seq<(String, SlotRecord)>) -> bool {
    forall|i: int| 0 <= i < e.len() ==> #[trigger] slot_ok(e[i].0@, e[i].1)
}

fn slots_valid(entries: &Vec<(String, SlotRecord)>) -> (r: bool)
    ensures
        r == all_slots_ok(entries@),
{
    let mut i: usize = 0;
    while i < entries.len()
        invariant
            i <= entries@.len(),
            forall|j: int| 0 <= j < i ==> #[trigger] slot_ok(entries@[j].0@, entries@[j].1),
        decreases entries.len() - i,
    {
        let entry = &entries[i];
        proof {
            assert(*entry == entries@[i as int]);
        }
        if validate_slot(entry.0.as_str(), &entry.1).is_err() {
            return false;
        }
        i += 1;
    }
    true
}

pub open spec fn all_allocator_ok(e: Seq<(String, AllocatorRecord)>) -> bool {
    forall|i: int| 0 <= i < e.len() ==> #[trigger] allocator_ok(e[i].0@, e[i].1)
}

fn allocator_valid(entries: &Vec<(String, AllocatorRecord)>) -> (r: bool)
    ensures
        r == all_allocator_ok(entries@),
{
    let mut i: usize = 0;
    while i < entries.len()
        invariant
            i <= entries@.len(),
            forall|j: int| 0 <= j < i ==> #[trigger] allocator_ok(entries@[j].0@, entries@[j].1),
        decreases entries.len() - i,
    {
        let entry = &entries[i];
        proof {
            assert(*entry == entries@[i as int]);
        }
        if validate_allocator(entry.0.as_str(), &entry.1).is_err() {
            return false;
        }
        i += 1;
    }
    true
}

pub open spec fn all_artifact_claims_ok(e: Seq<(String, ArtifactClaimRecord)>) -> bool {
    forall|i: int| 0 <= i < e.len() ==> #[trigger] artifact_claim_ok(e[i].0@, e[i].1)
}

fn artifact_claims_valid(entries: &Vec<(String, ArtifactClaimRecord)>) -> (r: bool)
    ensures
        r == all_artifact_claims_ok(entries@),
{
    let mut i: usize = 0;
    while i < entries.len()
        invariant
            i <= entries@.len(),
            forall|j: int| 0 <= j < i ==> #[trigger] artifact_claim_ok(entries@[j].0@, entries@[j].1),
        decreases entries.len() - i,
    {
        let entry = &entries[i];
        proof {
            assert(*entry == entries@[i as int]);
        }
        if validate_artifact_claim(entry.0.as_str(), &entry.1).is_err() {
            return false;
        }
        i += 1;
    }
    true
}

pub open spec fn all_releases_ok(e: Seq<(String, ReleaseRecord)>) -> bool {
    forall|i: int| 0 <= i < e.len() ==> #[trigger] release_ok(e[i].0@, e[i].1)
}

fn releases_valid(entries: &Vec<(String, ReleaseRecord)>) -> (r: bool)
    ensures
        r == all_releases_ok(entries@),
{
    let mut i: usize = 0;
    while i < entries.len()
        invariant
            i <= entries@.len(),
            forall|j: int| 0 <= j < i ==> #[trigger] release_ok(entries@[j].0@, entries@[j].1),
        decreases entries.len() - i,
    {
        let entry = &entries[i];
        proof {
            assert(*entry == entries@[i as int]);
        }
        if validate_release(entry.0.as_str(), &entry.1).is_err() {
            return false;
        }
        i += 1;
    }
    true
}

pub open spec fn all_qa_counters_ok(e: Seq<(String, QaCounterRecord)>) -> bool {
    forall|i: int| 0 <= i < e.len() ==> #[trigger] qa_ok(e[i].0@, e[i].1)
}

fn qa_counters_valid(entries: &Vec<(String, QaCounterRecord)>) -> (r: bool)
    ensures
        r == all_qa_counters_ok(entries@),
{
    let mut i: usize = 0;
    while i < entries.len()
        invariant
            i <= entries@.len(),
            forall|j: int| 0 <= j < i ==> #[trigger] qa_ok(entries@[j].0@, entries@[j].1),
        decreases entries.len() - i,
    {
        let entry = &entries[i];
        proof {
            assert(*entry == entries@[i as int]);
        }
        if validate_qa(entry.0.as_str(), &entry.1).is_err() {
            return false;
        }
        i += 1;
    }
    true
}

pub open spec fn all_cas_ok(projection: Seq<char>, e: Seq<(String, CasRecord)>) -> bool {
    forall|i: int| 0 <= i < e.len() ==> #[trigger] cas_ok(projection, e[i].0@, e[i].1)
}

fn cas_entries_valid(projection: &str, entries: &Vec<(String, CasRecord)>) -> (r: bool)
    requires
        projection@ == "claims"@ || projection@ == "leases"@,
    ensures
        r == all_cas_ok(projection@, entries@),
{
    let mut i: usize = 0;
    while i < entries.len()
        invariant
            projection@ == "claims"@ || projection@ == "leases"@,
            i <= entries@.len(),
            forall|j: int| 0 <= j < i ==> #[trigger] cas_ok(projection@, entries@[j].0@, entries@[j].1),
        decreases entries.len() - i,
    {
        let entry = &entries[i];
        proof {
            assert(*entry == entries@[i as int]);
        }
        if validate_cas(projection, entry.0.as_str(), &entry.1).is_err() {
            return false;
        }
        i += 1;
    }
    true
}

/// The refusal of the first runtime-owner entry from `i` on that is refused.
pub open spec fn owners_error_from(e: Seq<(String, RuntimeOwnerRecord)>, i: int) -> Option<Seq<char>>
    decreases e.len() - i,
{
    if i < 0 || i >= e.len() {
        None
    } else if owner_error(e[i].0@, e[i].1) is Some {
        owner_error(e[i].0@, e[i].1)
    } else {
        owners_error_from(e, i + 1)
    }
}

fn owners_valid(entries: &Vec<(String, RuntimeOwnerRecord)>) -> (r: Result<(), ProjectionContractError>)
    ensures
        error_result(r, owners_error_from(entries@, 0)),
{
    let mut i: usize = 0;
    while i < entries.len()
        invariant
            i <= entries@.len(),
            owners_error_from(entries@, 0) == owners_error_from(entries@, i as int),
        decreases entries.len() - i,
    {
        let entry = &entries[i];
        proof {
            assert(*entry == entries@[i as int]);
        }
        match validate_owner(entry.0.as_str(), &entry.1) {
            Ok(_) => {},
            Err(e) => return Err(e),
        }
        i += 1;
    }
    Ok(())
}

/// The state's own fields: schema, digest, and a last event exactly when it
/// has a creation time.
pub open spec fn state_metadata_ok(s: ProjectionState) -> bool {
    &&& s.schema_version@ == PROJECTION_SCHEMA@
    &&& is_h256(s.projection_digest@)
    &&& (s.last_event_id is None) == (s.last_event_created_at_ms == 0)
    &&& opt_event_id_ok(s.last_event_id)
    &&& (s.last_event_created_at_ms != 0 ==> is_timestamp_ms(s.last_event_created_at_ms))
}

/// Why a projection state is refused, if it is: its own fields first, then
/// the projections in the order requests, sessions, slots, allocator, claims,
/// leases, runtime owners, artifact claims, releases, QA counters.
pub open spec fn state_error(s: ProjectionState) -> Option<Seq<char>> {
    if !state_metadata_ok(s) {
        Some("ProjectionState metadata"@)
    } else if !all_requests_ok(s.requests@) {
        Some("RequestRecord"@)
    } else if !all_sessions_ok(s.sessions@) {
        Some("SessionRecord"@)
    } else if !all_slots_ok(s.slots@) {
        Some("SlotRecord"@)
    } else if !all_allocator_ok(s.allocator@) {
        Some("AllocatorRecord"@)
    } else if !all_cas_ok("claims"@, s.claims@) {
        Some("CasRecord"@)
    } else if !all_cas_ok("leases"@, s.leases@) {
        Some("CasRecord"@)
    } else if owners_error_from(s.runtime_owners@, 0) is Some {
        owners_error_from(s.runtime_owners@, 0)
    } else if !all_artifact_claims_ok(s.artifact_claims@) {
        Some("ArtifactClaimRecord"@)
    } else if !all_releases_ok(s.releases@) {
        Some("ReleaseRecord"@)
    } else if !all_qa_counters_ok(s.qa_counters@) {
        Some("QaCounterRecord"@)
    } else {
        None
    }
}

impl ProjectionState {
    pub fn validate(&self) -> (r: Result<(), ProjectionContractError>)
        ensures
            error_result(r, state_error(*self)),
    {
        let created = self.last_event_created_at_ms;
        let metadata_ok = str_eq(self.schema_version.as_str(), PROJECTION_SCHEMA) && validate_h256(
            self.projection_digest.as_str(),
        ).is_ok() && self.last_event_id.is_none() == (created == 0) && opt_event_id_valid(
            &self.last_event_id,
        ) && (created == 0 || validate_timestamp_ms(created).is_ok());
        if !metadata_ok {
            return Err(invalid("ProjectionState metadata"));
        }
        if !requests_valid(&self.requests) {
            return Err(invalid("RequestRecord"));
        }
        if !sessions_valid(&self.sessions) {
            return Err(invalid("SessionRecord"));
        }
        if !slots_valid(&self.slots) {
            return Err(invalid("SlotRecord"));
        }
        if !allocator_valid(&self.allocator) {
            return Err(invalid("AllocatorRecord"));
        }
        proof {
            reveal_strlit("claims");
            reveal_strlit("leases");
        }
        if !cas_entries_valid("claims", &self.claims) {
            return Err(invalid("CasRecord"));
        }
        if !cas_entries_valid("leases", &self.leases) {
            return Err(invalid("CasRecord"));
        }
        match owners_valid(&self.runtime_owners) {
            Ok(_) => {},
            Err(e) => return Err(e),
        }
        if !artifact_claims_valid(&self.artifact_claims) {
            return Err(invalid("ArtifactClaimRecord"));
        }
        if !releases_valid(&self.releases) {
            return Err(invalid("ReleaseRecord"));
        }
        if !qa_counters_valid(&self.qa_counters) {
            return Err(invalid("QaCounterRecord"));
        }
        Ok(())
    }
}

} // verus!
