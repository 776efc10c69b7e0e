use vstd::prelude::*;

use crate::contracts::events::Writer;
use crate::contracts::ids::{
    is_general_id, is_session_id, validate_operation_id, validate_session_id,
};
use crate::contracts::projection::CasRecord;
use crate::journal::canonical::{CanonicalScalar, ScalarView};
use crate::text::str_eq;

use super::request::{fencing_token_ok, fencing_token_valid};
use super::{
    ensure_subject_available, fencing_hash, fencing_hash_of, grant, is_event_id, object_id,
    object_id_of, subject_active, CasError, CasKind, GrantInput, RESOURCE_TTL_MS,
};

verus! {

pub struct SessionOperationClaimInput<'a> {
    pub session_id: &'a str,
    pub operation_id: &'a str,
    pub operation_kind: &'a str,
    pub fencing_token: &'a str,
    pub owner: Writer,
    pub now_ms: u64,
    pub event_id: String,
}

pub open spec fn is_operation_kind(s: Seq<char>) -> bool {
    s == "resume"@ || s == "show"@ || s == "download"@ || s == "poll"@
}

fn operation_kind_ok(s: &str) -> (r: bool)
    ensures
        r == is_operation_kind(s@),
{
    str_eq(s, "resume") || str_eq(s, "show") || str_eq(s, "download") || str_eq(s, "poll")
}

/// The identifier of a session-operation claim.
pub open spec fn session_claim_id_of(
    session_id: Seq<char>,
    operation_id: Seq<char>,
    operation_kind: Seq<char>,
    generation: u16,
) -> Seq<char> {
    object_id_of(
        "claim_"@,
        seq!["generation"@, "operationId"@, "operationKind"@, "sessionId"@],
        seq![
            ScalarView::Number(generation as nat),
            ScalarView::Text(operation_id),
            ScalarView::Text(operation_kind),
            ScalarView::Text(session_id),
        ],
    )
}

pub fn derive_session_operation_claim_id(
    session_id: &str,
    operation_id: &str,
    operation_kind: &str,
    generation: u16,
) -> (r: Result<String, CasError>)
    ensures
        !(is_session_id(session_id@) && is_general_id(operation_id@) && is_operation_kind(
            operation_kind@,
        ) && generation != 0) ==> r == Err::<String, CasError>(CasError::Invalid("operationKind")),
        (is_session_id(session_id@) && is_general_id(operation_id@) && is_operation_kind(
            operation_kind@,
        ) && generation != 0) ==> (r matches Ok(id) && id@ == session_claim_id_of(
            session_id@,
            operation_id@,
            operation_kind@,
            generation,
        ) && crate::contracts::ids::is_prefixed_hex(id@, "claim_"@, 64)),
{
    if validate_session_id(session_id).is_err() || validate_operation_id(operation_id).is_err()
        || !operation_kind_ok(operation_kind) || generation == 0 {
        return Err(CasError::Invalid("operationKind"));
    }
    let keys = vec!["generation", "operationId", "operationKind", "sessionId"];
    let values = vec![
        CanonicalScalar::Number(generation as u64),
        CanonicalScalar::Text(operation_id.to_owned()),
        CanonicalScalar::Text(operation_kind.to_owned()),
        CanonicalScalar::Text(session_id.to_owned()),
    ];
    proof {
        assert(keys@.map_values(|k: &str| k@) =~= seq![
            "generation"@,
            "operationId"@,
            "operationKind"@,
            "sessionId"@,
        ]);
        assert(crate::journal::canonical::scalars_view(values@) =~= seq![
            ScalarView::Number(generation as nat),
            ScalarView::Text(operation_id@),
            ScalarView::Text(operation_kind@),
            ScalarView::Text(session_id@),
        ]);
    }
    Ok(object_id("claim_", &keys, &values))
}

/// Grants the first claim of a session operation, unless the input is
/// invalid or an active record already holds the session.
pub fn grant_session_operation_claim(existing: &Vec<CasRecord>, input: SessionOperationClaimInput<'_>) -> (r:
    Result<CasRecord, CasError>)
    requires
        input.now_ms <= u64::MAX - RESOURCE_TTL_MS,
    ensures
        !(is_session_id(input.session_id@) && is_general_id(input.operation_id@)
            && fencing_token_ok(input.fencing_token@) && is_operation_kind(
            input.operation_kind@,
        )) ==> r == Err::<CasRecord, CasError>(CasError::Invalid("operationKind")),
        (is_session_id(input.session_id@) && is_general_id(input.operation_id@)
            && fencing_token_ok(input.fencing_token@) && is_operation_kind(
            input.operation_kind@,
        )) ==> {
            if subject_active(existing@, input.session_id@) {
                r matches Err(CasError::SubjectConflict(s)) && s@ == input.session_id@
            } else if input.now_ms == 0 || !is_event_id(input.event_id@) {
                r == Err::<CasRecord, CasError>(CasError::Invalid("grant identity/time"))
            } else {
                r matches Ok(record) && super::first_claim(record, session_claim_id_of(input.session_id@, input.operation_id@, input.operation_kind@, 1), input.session_id@, input.owner, input.fencing_token@, input.now_ms, input.event_id)
            }
        },
{
    if validate_session_id(input.session_id).is_err() || validate_operation_id(
        input.operation_id,
    ).is_err() || !fencing_token_valid(input.fencing_token) || !operation_kind_ok(
        input.operation_kind,
    ) {
        return Err(CasError::Invalid("operationKind"));
    }
    ensure_subject_available(existing, input.session_id)?;
    let id = match derive_session_operation_claim_id(
        input.session_id,
        input.operation_id,
        input.operation_kind,
        1,
    ) {
        Ok(id) => id,
        Err(e) => {
            return Err(e);
        },
    };
    let grant_input = GrantInput {
        id,
        kind: CasKind::SessionOperationClaim,
        subject_id: input.session_id.to_owned(),
        owner: input.owner,
        generation: 1,
        fencing_token_sha256: Some(fencing_hash(input.fencing_token)),
        now_ms: input.now_ms,
        event_id: input.event_id,
    };
    grant(grant_input)
}

} // verus!
