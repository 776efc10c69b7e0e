use vstd::prelude::*;

use crate::contracts::projection::AllocatorRecord;

use super::cursors::{advance, advanced, candidate_matches, cursors_valid, Candidate};

verus! {

/// Why a scan skipped a candidate slot.
#[derive(Clone, Copy, Debug, PartialEq, Eq, Structural)]
pub enum SkipReason {
    Leased,
    ClaimActive,
    Cooldown,
    RuntimeOwned,
    HealthBlocked,
    StateInvalid,
}

pub open spec fn skip_reason_str(r: SkipReason) -> Seq<char> {
    match r {
        SkipReason::Leased => "leased"@,
        SkipReason::ClaimActive => "claim_active"@,
        SkipReason::Cooldown => "cooldown"@,
        SkipReason::RuntimeOwned => "runtime_owned"@,
        SkipReason::HealthBlocked => "health_blocked"@,
        SkipReason::StateInvalid => "state_invalid"@,
    }
}

impl SkipReason {
    pub fn as_str(self) -> (r: &'static str)
        ensures
            r@ == skip_reason_str(self),
    {
        match self {
            SkipReason::Leased => "leased",
            SkipReason::ClaimActive => "claim_active",
            SkipReason::Cooldown => "cooldown",
            SkipReason::RuntimeOwned => "runtime_owned",
            SkipReason::HealthBlocked => "health_blocked",
            SkipReason::StateInvalid => "state_invalid",
        }
    }
}

/// One candidate that a scan looked at.
#[derive(Clone, Debug, PartialEq, Eq)]
pub struct Observation {
    pub scan_ordinal: u8,
    pub cohort: String,
    pub slot_id: String,
    pub cohort_cursor_before: u8,
    pub within_cursor_before: u8,
    pub decision: &'static str,
    pub skip_reason: Option<SkipReason>,
}

#[derive(Clone, Debug, PartialEq, Eq)]
pub struct ScanResult {
    pub observations: Vec<Observation>,
    pub granted_slot_id: Option<String>,
}

#[derive(Clone, Debug, PartialEq, Eq)]
pub enum ScanError {
    Predicate(String),
}

/// The allocator record after `k` steps of a scan that starts from `r`.
pub open spec fn record_after(r: AllocatorRecord, k: nat) -> AllocatorRecord
    decreases k,
{
    if k == 0 {
        r
    } else {
        advanced(record_after(r, (k - 1) as nat), (k - 1) as u8)
    }
}

pub open spec fn decision_of(skip: Option<SkipReason>) -> Seq<char> {
    if skip is None {
        "grantable"@
    } else {
        "skip"@
    }
}

/// Observation `o` records step `k` of a scan from `r`, with a classification
/// that `classify` may give for its slot.
pub open spec fn observation_ok<F: Fn(&str) -> Result<Option<SkipReason>, String>>(
    o: Observation,
    r: AllocatorRecord,
    k: nat,
    classify: F,
) -> bool {
    let before = record_after(r, k);
    let i = before.cohort_cursor as int;
    &&& o.scan_ordinal == k
    &&& o.cohort@ == super::cohort_name(i)
    &&& o.slot_id@ == super::cohort_slot(
        i,
        super::cursors::within_of(before.within_cursors, i) as int,
    )
    &&& o.cohort_cursor_before == before.cohort_cursor
    &&& o.within_cursor_before == super::cursors::within_of(before.within_cursors, i)
    &&& o.decision@ == decision_of(o.skip_reason)
    &&& exists|x: &str| x@ == o.slot_id@ && #[trigger] call_ensures(classify, (x,), Ok(o.skip_reason))
}

/// A scan from `start` that ended in `end` produced `res`.
pub open spec fn scan_result_ok<F: Fn(&str) -> Result<Option<SkipReason>, String>>(
    res: ScanResult,
    start: AllocatorRecord,
    end: AllocatorRecord,
    classify: F,
) -> bool {
    let n = res.observations@.len();
    &&& 1 <= n <= 10
    &&& end == record_after(start, n)
    &&& forall|k: int|
        0 <= k < n ==> observation_ok(#[trigger] res.observations@[k], start, k as nat, classify)
    &&& forall|k: int| 0 <= k < n - 1 ==> (#[trigger] res.observations@[k]).skip_reason is Some
    &&& (res.granted_slot_id is Some <==> res.observations@[n - 1].skip_reason is None)
    &&& (res.granted_slot_id matches Some(g) ==> g@ == res.observations@[n - 1].slot_id@)
    &&& (res.granted_slot_id is None ==> n == 10)
}

/// `classify` may fail with `m` for some slot.
pub open spec fn predicate_failed<F: Fn(&str) -> Result<Option<SkipReason>, String>>(
    classify: F,
    m: String,
) -> bool {
    exists|x: &str| #[trigger] call_ensures(classify, (x,), Err(m))
}

proof fn record_after_valid(r: AllocatorRecord, k: nat)
    requires
        cursors_valid(r),
    ensures
        cursors_valid(record_after(r, k)),
    decreases k,
{
    if k > 0 {
        record_after_valid(r, (k - 1) as nat);
    }
}

/// Scans at most ten candidates in round-robin order and grants the first one
/// that `classify` does not skip.
pub fn scan<F: Fn(&str) -> Result<Option<SkipReason>, String>>(
    record: &mut AllocatorRecord,
    classify: F,
) -> (r: Result<ScanResult, ScanError>)
    requires
        cursors_valid(*old(record)),
        forall|x: &str| #[trigger] classify.requires((x,)),
    ensures
        r matches Ok(res) ==> scan_result_ok(res, *old(record), *final(record), classify),
        r matches Err(ScanError::Predicate(m)) ==> predicate_failed(classify, m),
{
    let ghost start = *record;
    let mut observations: Vec<Observation> = Vec::new();
    let mut scan_ordinal: u8 = 0;
    while scan_ordinal < 10
        invariant
            scan_ordinal <= 10,
            start == *old(record),
            forall|x: &str| #[trigger] classify.requires((x,)),
            cursors_valid(start),
            observations@.len() == scan_ordinal,
            *record == record_after(start, scan_ordinal as nat),
            forall|k: int|
                0 <= k < scan_ordinal ==> observation_ok(
                    #[trigger] observations@[k],
                    start,
                    k as nat,
                    classify,
                ),
            forall|k: int| 0 <= k < scan_ordinal ==> (#[trigger] observations@[k]).skip_reason is Some,
        decreases 10 - scan_ordinal,
    {
        proof {
            record_after_valid(start, scan_ordinal as nat);
        }
        let candidate: Candidate = advance(record, scan_ordinal);
        let slot_text = candidate.slot_id.as_str();
        let verdict = classify(slot_text);
        assert(call_ensures(classify, (slot_text,), verdict));
        let skip_reason = match verdict {
            Ok(v) => v,
            Err(m) => {
                assert(call_ensures(classify, (slot_text,), Err::<Option<SkipReason>, String>(m)));
                assert(predicate_failed(classify, m));
                return Err(ScanError::Predicate(m));
            },
        };
        assert(call_ensures(classify, (slot_text,), Ok::<Option<SkipReason>, String>(skip_reason)));
        let granted = skip_reason.is_none();
        let decision = if granted {
            "grantable"
        } else {
            "skip"
        };
        let observation = Observation {
            scan_ordinal,
            cohort: candidate.cohort,
            slot_id: candidate.slot_id.clone(),
            cohort_cursor_before: candidate.cohort_cursor_before,
            within_cursor_before: candidate.within_cursor_before,
            decision,
            skip_reason,
        };
        proof {
            assert(observation.slot_id@ == candidate.slot_id@);
            assert(observation_ok(observation, start, scan_ordinal as nat, classify));
        }
        observations.push(observation);
        if granted {
            let res = ScanResult { observations, granted_slot_id: Some(candidate.slot_id) };
            assert(res.observations@[scan_ordinal as int] == observation);
            assert(forall|k: int|
                0 <= k < scan_ordinal ==> res.observations@[k] == observations@[k]);
            let ghost n = res.observations@.len();
            assert(n == scan_ordinal + 1);
            assert(forall|k: int|
                0 <= k < n ==> observation_ok(
                    #[trigger] res.observations@[k],
                    start,
                    k as nat,
                    classify,
                ));
            assert(forall|k: int| 0 <= k < n - 1 ==> (#[trigger] res.observations@[k]).skip_reason is Some);
            assert(scan_result_ok(res, start, *record, classify));
            return Ok(res);
        }
        scan_ordinal += 1;
    }
    let res = ScanResult { observations, granted_slot_id: None };
    assert(scan_result_ok(res, start, *record, classify));
    Ok(res)
}

} // verus!
