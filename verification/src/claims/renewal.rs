use vstd::prelude::*;

use crate::contracts::ids::validate_event_id;
use crate::contracts::projection::CasRecord;
use crate::text::str_eq;

use super::{fencing_hash, granted_record, subject_active, GrantInput, fencing_hash_of, is_event_id, CasError, RENEW_CADENCE_MS, RESOURCE_TTL_MS};

verus! {

/// The error of `verify_active`, if any: inactive, generation mismatch,
/// a renewal clock below the cadence, a clock before the lineage start,
/// expiry, then a fencing token that is absent or does not match.
pub open spec fn active_error(
    record: CasRecord,
    generation: u16,
    fencing_token: Option<Seq<char>>,
    now_ms: u64,
) -> Option<CasError> {
    if record.status@ != "active"@ {
        Some(CasError::Inactive)
    } else if record.generation != generation {
        Some(CasError::GenerationMismatch)
    } else if record.renew_at_ms < RENEW_CADENCE_MS {
        Some(CasError::Invalid("renewal clock"))
    } else if now_ms < record.renew_at_ms - RENEW_CADENCE_MS {
        Some(CasError::Invalid("clock reversal"))
    } else if now_ms >= record.expires_at_ms {
        Some(CasError::Expired)
    } else if !(record.fencing_token_sha256 matches Some(expected) && fencing_token matches Some(
        token,
    ) && expected@ == fencing_hash_of(token)) {
        Some(CasError::FencingMismatch)
    } else {
        None
    }
}

pub open spec fn opt_view(t: Option<&str>) -> Option<Seq<char>> {
    match t {
        Some(s) => Some(s@),
        None => None,
    }
}

/// Checks that `record` is active for `generation` at `now_ms` and that
/// `fencing_token` matches its stored digest.
pub fn verify_active(
    record: &CasRecord,
    generation: u16,
    fencing_token: Option<&str>,
    now_ms: u64,
) -> (r: Result<(), CasError>)
    ensures
        match active_error(*record, generation, opt_view(fencing_token), now_ms) {
            Some(e) => r == Err::<(), CasError>(e),
            None => r is Ok,
        },
{
    if !str_eq(record.status.as_str(), "active") {
        return Err(CasError::Inactive);
    }
    if record.generation != generation {
        return Err(CasError::GenerationMismatch);
    }
    let lineage_start_ms = match record.renew_at_ms.checked_sub(RENEW_CADENCE_MS) {
        Some(v) => v,
        None => {
            return Err(CasError::Invalid("renewal clock"));
        },
    };
    if now_ms < lineage_start_ms {
        return Err(CasError::Invalid("clock reversal"));
    }
    if now_ms >= record.expires_at_ms {
        return Err(CasError::Expired);
    }
    match (&record.fencing_token_sha256, fencing_token) {
        (Some(expected), Some(token)) => {
            let hashed = fencing_hash(token);
            if str_eq(expected.as_str(), hashed.as_str()) {
                Ok(())
            } else {
                Err(CasError::FencingMismatch)
            }
        },
        _ => Err(CasError::FencingMismatch),
    }
}

/// The record after a renewal at `renewed_at_ms` by event `event_id`.
pub open spec fn renewed_record(r: CasRecord, old: CasRecord, renewed_at_ms: u64, event_id: String) -> bool {
    &&& r == CasRecord {
        renewal_revision: (old.renewal_revision + 1) as u16,
        renew_at_ms: (renewed_at_ms + RENEW_CADENCE_MS) as u64,
        expires_at_ms: (renewed_at_ms + RESOURCE_TTL_MS) as u64,
        last_event_id: event_id,
        ..old
    }
}

/// Renews an active record: one more revision and a fresh window.
pub fn renew(
    record: &CasRecord,
    generation: u16,
    fencing_token: Option<&str>,
    renewed_at_ms: u64,
    event_id: String,
) -> (r: Result<CasRecord, CasError>)
    requires
        renewed_at_ms <= u64::MAX - RESOURCE_TTL_MS,
    ensures
        !is_event_id(event_id@) ==> r == Err::<CasRecord, CasError>(
            CasError::Invalid("renewal eventId"),
        ),
        is_event_id(event_id@) ==> match active_error(
            *record,
            generation,
            opt_view(fencing_token),
            renewed_at_ms,
        ) {
            Some(e) => r == Err::<CasRecord, CasError>(e),
            None => if record.renewal_revision == u16::MAX {
                r == Err::<CasRecord, CasError>(CasError::Invalid("renewalRevision"))
            } else {
                r matches Ok(n) && renewed_record(n, *record, renewed_at_ms, event_id)
            },
        },
{
    if validate_event_id(event_id.as_str()).is_err() {
        return Err(CasError::Invalid("renewal eventId"));
    }
    verify_active(record, generation, fencing_token, renewed_at_ms)?;
    let mut renewed = record.copy();
    assert(renewed == *record);
    renewed.renewal_revision = match renewed.renewal_revision.checked_add(1) {
        Some(v) => v,
        None => {
            return Err(CasError::Invalid("renewalRevision"));
        },
    };
    renewed.renew_at_ms = renewed_at_ms + RENEW_CADENCE_MS;
    renewed.expires_at_ms = renewed_at_ms + RESOURCE_TTL_MS;
    renewed.last_event_id = event_id;
    Ok(renewed)
}

/// The record after a release at `released_at_ms` by event `event_id`.
pub open spec fn released_record(r: CasRecord, old: CasRecord, released_at_ms: u64, event_id: String) -> bool {
    &&& r.status@ == "released"@
    &&& r.released_at_ms == Some(released_at_ms)
    &&& r.release_event_id matches Some(e) && e@ == event_id@
    &&& r.last_event_id == event_id
    &&& r == CasRecord {
        status: r.status,
        released_at_ms: r.released_at_ms,
        release_event_id: r.release_event_id,
        last_event_id: r.last_event_id,
        ..old
    }
}

/// Releases an active record; it is checked as active one millisecond
/// before the release time.
pub fn release(
    record: &CasRecord,
    generation: u16,
    fencing_token: Option<&str>,
    released_at_ms: u64,
    release_event_id: String,
) -> (r: Result<CasRecord, CasError>)
    ensures
        (!is_event_id(release_event_id@) || released_at_ms == 0) ==> r == Err::<CasRecord, CasError>(
            CasError::Invalid("release event/time"),
        ),
        (is_event_id(release_event_id@) && released_at_ms != 0) ==> match active_error(
            *record,
            generation,
            opt_view(fencing_token),
            (released_at_ms - 1) as u64,
        ) {
            Some(e) => r == Err::<CasRecord, CasError>(e),
            None => r matches Ok(n) && released_record(n, *record, released_at_ms, release_event_id),
        },
{
    if validate_event_id(release_event_id.as_str()).is_err() || released_at_ms == 0 {
        return Err(CasError::Invalid("release event/time"));
    }
    verify_active(record, generation, fencing_token, released_at_ms - 1)?;
    let mut released = record.copy();
    assert(released == *record);
    released.status = "released".to_owned();
    released.released_at_ms = Some(released_at_ms);
    released.release_event_id = Some(release_event_id.clone());
    released.last_event_id = release_event_id;
    Ok(released)
}

/// A released record is never active again: every check of it fails as
/// inactive.
pub proof fn released_is_inactive(
    r: CasRecord,
    old: CasRecord,
    released_at_ms: u64,
    event_id: String,
    generation: u16,
    token: Option<Seq<char>>,
    now_ms: u64,
)
    requires
        released_record(r, old, released_at_ms, event_id),
    ensures
        active_error(r, generation, token, now_ms) == Some(CasError::Inactive),
{
    reveal_strlit("released");
    reveal_strlit("active");
    assert("released"@.len() == 8);
    assert("active"@.len() == 6);
}

/// A renewed record keeps its identity, subject, owner, generation, status and
/// fencing digest, and accepts the same holder for a full window from the
/// renewal time.
pub proof fn renewal_keeps_holder(
    n: CasRecord,
    old: CasRecord,
    renewed_at_ms: u64,
    event_id: String,
    generation: u16,
    token: Option<Seq<char>>,
    now_ms: u64,
)
    requires
        renewed_at_ms <= u64::MAX - RESOURCE_TTL_MS,
        old.renewal_revision < u16::MAX,
        renewed_record(n, old, renewed_at_ms, event_id),
        active_error(old, generation, token, renewed_at_ms) is None,
        renewed_at_ms <= now_ms < renewed_at_ms + RESOURCE_TTL_MS,
    ensures
        n.id == old.id && n.kind == old.kind && n.subject_id == old.subject_id && n.owner == old.owner,
        n.generation == old.generation && n.status == old.status,
        n.fencing_token_sha256 == old.fencing_token_sha256,
        n.renewal_revision == old.renewal_revision + 1,
        active_error(n, generation, token, now_ms) is None,
{
}

/// A granted resource accepts its holder (same generation, the token whose
/// digest it stores) from the grant time until it expires.
pub proof fn grant_is_active_for_holder(record: CasRecord, input: GrantInput, token: Seq<char>, now_ms: u64)
    requires
        input.now_ms <= u64::MAX - RESOURCE_TTL_MS,
        granted_record(record, input),
        input.fencing_token_sha256 matches Some(f) && f@ == fencing_hash_of(token),
        input.now_ms <= now_ms < input.now_ms + RESOURCE_TTL_MS,
    ensures
        active_error(record, input.generation, Some(token), now_ms) is None,
{
}

/// Once a granted record is stored, its subject is no longer available to
/// another grant.
pub proof fn grant_blocks_subject(existing: Seq<CasRecord>, record: CasRecord, input: GrantInput)
    requires
        granted_record(record, input),
    ensures
        subject_active(existing.push(record), input.subject_id@),
{
    assert(existing.push(record)[existing.len() as int] == record);
}

} // verus!
