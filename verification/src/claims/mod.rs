pub mod renewal;
pub mod request;
pub mod session_operation;

use vstd::prelude::*;

use crate::contracts::events::Writer;
use crate::contracts::ids::{
    h256, is_h256, is_prefixed_hex, sha256_hex, sha256_hex_of, validate_claim_id, validate_event_id,
    validate_h256, validate_lease_id, validate_owner_id,
};
use crate::contracts::projection::CasRecord;
use crate::journal::canonical::{
    canonical_object, canonical_object_text, scalars_view, CanonicalScalar, ScalarView,
};
use crate::text::{concat2, push_char, str_eq};

verus! {

pub const RESOURCE_TTL_MS: u64 = 300_000;

pub const RENEW_CADENCE_MS: u64 = 100_000;

/// The kinds of compare-and-swap resources.
#[derive(Clone, Copy, Debug, PartialEq, Eq, Structural)]
pub enum CasKind {
    RequestClaim,
    SessionOperationClaim,
    SlotLease,
    RuntimeOwner,
}

pub open spec fn record_kind_str(k: CasKind) -> Seq<char> {
    match k {
        CasKind::RequestClaim | CasKind::SessionOperationClaim => "claim"@,
        CasKind::SlotLease => "lease"@,
        CasKind::RuntimeOwner => "runtime_owner"@,
    }
}

impl CasKind {
    pub fn record_kind(self) -> (r: &'static str)
        ensures
            r@ == record_kind_str(self),
    {
        match self {
            CasKind::RequestClaim | CasKind::SessionOperationClaim => "claim",
            CasKind::SlotLease => "lease",
            CasKind::RuntimeOwner => "runtime_owner",
        }
    }
}

#[derive(Clone, Debug, PartialEq, Eq)]
pub enum CasError {
    SubjectConflict(String),
    Inactive,
    GenerationMismatch,
    Expired,
    FencingMismatch,
    Invalid(&'static str),
}

#[derive(Clone, Debug)]
pub struct GrantInput {
    pub id: String,
    pub kind: CasKind,
    pub subject_id: String,
    pub owner: Writer,
    pub generation: u16,
    pub fencing_token_sha256: Option<String>,
    pub now_ms: u64,
    pub event_id: String,
}

/// The identifier shape of each resource kind.
pub open spec fn id_valid_for(kind: CasKind, id: Seq<char>) -> bool {
    match kind {
        CasKind::RequestClaim | CasKind::SessionOperationClaim => is_prefixed_hex(
            id,
            "claim_"@,
            64,
        ),
        CasKind::SlotLease => is_prefixed_hex(id, "lease_"@, 64),
        CasKind::RuntimeOwner => is_prefixed_hex(id, "owner_"@, 64),
    }
}

pub open spec fn is_event_id(s: Seq<char>) -> bool {
    is_prefixed_hex(s, "evt_"@, 64)
}

/// The error of `grant`, if any.
pub open spec fn grant_error(input: GrantInput) -> Option<&'static str> {
    if !id_valid_for(input.kind, input.id@) || input.generation == 0 || input.now_ms == 0
        || !is_event_id(input.event_id@) {
        Some("grant identity/time")
    } else if input.fencing_token_sha256 matches Some(v) && !is_h256(v@) {
        Some("fencingTokenSha256")
    } else {
        None
    }
}

/// The active record that a grant of `input` creates.
pub open spec fn granted_record(r: CasRecord, input: GrantInput) -> bool {
    &&& r.id == input.id
    &&& r.kind@ == record_kind_str(input.kind)
    &&& r.subject_id == input.subject_id
    &&& r.owner == input.owner
    &&& r.generation == input.generation
    &&& r.renewal_revision == 1
    &&& r.fencing_token_sha256 == input.fencing_token_sha256
    &&& r.granted_at_ms == input.now_ms
    &&& r.renew_at_ms == input.now_ms + RENEW_CADENCE_MS
    &&& r.expires_at_ms == input.now_ms + RESOURCE_TTL_MS
    &&& r.status@ == "active"@
    &&& r.released_at_ms is None
    &&& r.release_event_id is None
    &&& r.last_event_id == input.event_id
}

/// Creates the active record of a resource grant.
pub fn grant(input: GrantInput) -> (r: Result<CasRecord, CasError>)
    requires
        input.now_ms <= u64::MAX - RESOURCE_TTL_MS,
    ensures
        match grant_error(input) {
            Some(m) => r == Err::<CasRecord, CasError>(CasError::Invalid(m)),
            None => r matches Ok(record) && granted_record(record, input),
        },
{
    let id_valid = match input.kind {
        CasKind::RequestClaim | CasKind::SessionOperationClaim => validate_claim_id(
            input.id.as_str(),
        ),
        CasKind::SlotLease => validate_lease_id(input.id.as_str()),
        CasKind::RuntimeOwner => validate_owner_id(input.id.as_str()),
    };
    if id_valid.is_err() || input.generation == 0 || input.now_ms == 0 || validate_event_id(
        input.event_id.as_str(),
    ).is_err() {
        return Err(CasError::Invalid("grant identity/time"));
    }
    let fencing_bad = match &input.fencing_token_sha256 {
        Some(v) => validate_h256(v.as_str()).is_err(),
        None => false,
    };
    if fencing_bad {
        return Err(CasError::Invalid("fencingTokenSha256"));
    }
    let kind = input.kind.record_kind().to_owned();
    Ok(
        CasRecord {
            id: input.id,
            kind,
            subject_id: input.subject_id,
            owner: input.owner,
            generation: input.generation,
            renewal_revision: 1,
            fencing_token_sha256: input.fencing_token_sha256,
            granted_at_ms: input.now_ms,
            renew_at_ms: input.now_ms + RENEW_CADENCE_MS,
            expires_at_ms: input.now_ms + RESOURCE_TTL_MS,
            status: "active".to_owned(),
            released_at_ms: None,
            release_event_id: None,
            last_event_id: input.event_id,
        },
    )
}

/// `record` is the first (generation 1) claim `id` on `subject`, fenced by
/// `token`, granted at `now_ms` by `event_id`.
pub open spec fn first_claim(
    record: CasRecord,
    id: Seq<char>,
    subject: Seq<char>,
    owner: Writer,
    token: Seq<char>,
    now_ms: u64,
    event_id: String,
) -> bool {
    &&& record.id@ == id
    &&& record.kind@ == "claim"@
    &&& record.subject_id@ == subject
    &&& record.owner == owner
    &&& record.generation == 1
    &&& record.renewal_revision == 1
    &&& record.fencing_token_sha256 is Some
    &&& record.fencing_token_sha256.unwrap()@ == fencing_hash_of(token)
    &&& record.granted_at_ms == now_ms
    &&& record.renew_at_ms == now_ms + RENEW_CADENCE_MS
    &&& record.expires_at_ms == now_ms + RESOURCE_TTL_MS
    &&& record.status@ == "active"@
    &&& record.released_at_ms is None
    &&& record.release_event_id is None
    &&& record.last_event_id == event_id
}

/// Some record holds `subject` and is active.
pub open spec fn subject_active(records: Seq<CasRecord>, subject: Seq<char>) -> bool {
    exists|i: int|
        0 <= i < records.len() && (#[trigger] records[i]).subject_id@ == subject
            && records[i].status@ == "active"@
}

/// Refuses a subject that an active record already holds.
pub fn ensure_subject_available(records: &Vec<CasRecord>, subject_id: &str) -> (r: Result<
    (),
    CasError,
>)
    ensures
        subject_active(records@, subject_id@) ==> (r matches Err(CasError::SubjectConflict(s))
            && s@ == subject_id@),
        !subject_active(records@, subject_id@) ==> r is Ok,
{
    let mut i: usize = 0;
    while i < records.len()
        invariant
            i <= records@.len(),
            forall|j: int|
                0 <= j < i ==> !((#[trigger] records@[j]).subject_id@ == subject_id@
                    && records@[j].status@ == "active"@),
        decreases records.len() - i,
    {
        let record = &records[i];
        if str_eq(record.subject_id.as_str(), subject_id) && str_eq(
            record.status.as_str(),
            "active",
        ) {
            assert(records@[i as int].subject_id@ == subject_id@);
            return Err(CasError::SubjectConflict(subject_id.to_owned()));
        }
        i += 1;
    }
    Ok(())
}

/// The stored digest of a fencing token.
pub open spec fn fencing_hash_of(token: Seq<char>) -> Seq<char> {
    "sha256:"@ + sha256_hex_of(vstd::utf8::encode_utf8(token))
}

pub fn fencing_hash(token: &str) -> (r: String)
    ensures
        r@ == fencing_hash_of(token@),
        is_h256(r@),
{
    h256(token.as_bytes())
}

/// The identifier `prefix` + digest of the compact JSON object of a preimage
/// and a newline.
pub open spec fn object_id_of(prefix: Seq<char>, keys: Seq<Seq<char>>, values: Seq<ScalarView>) -> Seq<
    char,
> {
    prefix + sha256_hex_of(vstd::utf8::encode_utf8(canonical_object(keys, values) + seq!['\n']))
}

/// Derives an identifier from a preimage object whose members are given in
/// key order.
pub fn object_id(prefix: &str, keys: &Vec<&str>, values: &Vec<CanonicalScalar>) -> (r: String)
    requires
        keys@.len() == values@.len(),
    ensures
        r@ == object_id_of(prefix@, keys@.map_values(|k: &str| k@), scalars_view(values@)),
        is_prefixed_hex(r@, prefix@, 64),
{
    let mut text = canonical_object_text(keys, values);
    push_char(&mut text, '\n');
    let ghost body = canonical_object(keys@.map_values(|k: &str| k@), scalars_view(values@));
    assert(text@ =~= body + seq!['\n']);
    let t = text.as_str();
    let hex = sha256_hex(t.as_bytes());
    let r = concat2(prefix, hex.as_str());
    proof {
        assert(r@.subrange(0, prefix@.len() as int) =~= prefix@);
        assert(r@.skip(prefix@.len() as int) =~= hex@);
    }
    r
}

} // verus!
