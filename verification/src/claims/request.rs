use vstd::prelude::*;

use crate::contracts::events::Writer;
use crate::contracts::ids::{is_general_id, is_prefixed_hex, validate_operation_id, validate_request_id};
use crate::contracts::projection::CasRecord;
use crate::journal::canonical::{CanonicalScalar, ScalarView};
use crate::text::{contains_char, has_char, utf8_len};

use super::{
    ensure_subject_available, fencing_hash, fencing_hash_of, grant, granted_record, is_event_id,
    object_id, object_id_of, subject_active, CasError, CasKind, GrantInput, RESOURCE_TTL_MS,
};

verus! {

/// A fencing token: 1..=4096 UTF-8 bytes without NUL.
pub open spec fn fencing_token_ok(token: Seq<char>) -> bool {
    token.len() > 0 && utf8_len(token) <= 4096 && !has_char(token, '\0')
}

pub fn fencing_token_valid(token: &str) -> (r: bool)
    ensures
        r == fencing_token_ok(token@),
{
    !token.is_empty() && token.as_bytes().len() <= 4096 && !contains_char(token, '\0')
}

/// The identifier of the first request claim of `request_id` by `operation_id`.
pub open spec fn request_claim_id_of(request_id: Seq<char>, operation_id: Seq<char>) -> Seq<char> {
    object_id_of(
        "claim_"@,
        seq!["generation"@, "operationId"@, "requestId"@],
        seq![ScalarView::Number(1), ScalarView::Text(operation_id), ScalarView::Text(request_id)],
    )
}

/// Grants the first claim on a request, unless the input is invalid or an
/// active record already holds the request.
pub fn grant_request_claim(
    existing: &Vec<CasRecord>,
    request_id: &str,
    operation_id: &str,
    fencing_token: &str,
    owner: Writer,
    now_ms: u64,
    event_id: String,
) -> (r: Result<CasRecord, CasError>)
    requires
        now_ms <= u64::MAX - RESOURCE_TTL_MS,
    ensures
        !(is_general_id(request_id@) && is_general_id(operation_id@) && fencing_token_ok(
            fencing_token@,
        )) ==> r == Err::<CasRecord, CasError>(CasError::Invalid("request claim input")),
        (is_general_id(request_id@) && is_general_id(operation_id@) && fencing_token_ok(
            fencing_token@,
        )) ==> {
            if subject_active(existing@, request_id@) {
                r matches Err(CasError::SubjectConflict(s)) && s@ == request_id@
            } else if now_ms == 0 || !is_event_id(event_id@) {
                r == Err::<CasRecord, CasError>(CasError::Invalid("grant identity/time"))
            } else {
                r matches Ok(record) && super::first_claim(record, request_claim_id_of(request_id@, operation_id@), request_id@, owner, fencing_token@, now_ms, event_id)
            }
        },
        r matches Ok(record) ==> is_prefixed_hex(record.id@, "claim_"@, 64),
{
    if validate_request_id(request_id).is_err() || validate_operation_id(operation_id).is_err()
        || !fencing_token_valid(fencing_token) {
        return Err(CasError::Invalid("request claim input"));
    }
    ensure_subject_available(existing, request_id)?;
    let keys = vec!["generation", "operationId", "requestId"];
    let values = vec![
        CanonicalScalar::Number(1),
        CanonicalScalar::Text(operation_id.to_owned()),
        CanonicalScalar::Text(request_id.to_owned()),
    ];
    proof {
        assert(keys@.map_values(|k: &str| k@) =~= seq!["generation"@, "operationId"@, "requestId"@]);
        assert(crate::journal::canonical::scalars_view(values@) =~= seq![
            ScalarView::Number(1),
            ScalarView::Text(operation_id@),
            ScalarView::Text(request_id@),
        ]);
        reveal_strlit("claim_");
    }
    let id = object_id("claim_", &keys, &values);
    let input = GrantInput {
        id,
        kind: CasKind::RequestClaim,
        subject_id: request_id.to_owned(),
        owner,
        generation: 1,
        fencing_token_sha256: Some(fencing_hash(fencing_token)),
        now_ms,
        event_id,
    };
    grant(input)
}

} // verus!
