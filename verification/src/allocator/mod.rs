pub mod cursors;
pub mod health;
pub mod scan;

use vstd::prelude::*;

use crate::contracts::projection::{lookup, CasRecord, ProjectionState, RuntimeOwnerRecord};
use crate::text::str_eq;
use scan::SkipReason;

verus! {

/// The cohorts, in scan order.
pub const COHORT_ORDER: [&'static str; 3] = ["cohort-a", "cohort-b", "cohort-c"];

/// The slots of each cohort, in order.
pub const COHORT_A_SLOTS: [&'static str; 3] = ["slot-01", "slot-02", "slot-03"];

pub const COHORT_B_SLOTS: [&'static str; 4] = ["slot-04", "slot-05", "slot-06", "slot-07"];

pub const COHORT_C_SLOTS: [&'static str; 3] = ["slot-08", "slot-09", "slot-10"];

/// Every slot, in order.
pub const CANONICAL_SLOTS: [&'static str; 10] = [
    "slot-01",
    "slot-02",
    "slot-03",
    "slot-04",
    "slot-05",
    "slot-06",
    "slot-07",
    "slot-08",
    "slot-09",
    "slot-10",
];

/// The cohorts in scan order.
pub open spec fn cohort_name(i: int) -> Seq<char> {
    if i == 0 {
        "cohort-a"@
    } else if i == 1 {
        "cohort-b"@
    } else {
        "cohort-c"@
    }
}

/// Number of slots of each cohort: 3, 4 and 3.
pub open spec fn cohort_size(i: int) -> int {
    if i == 1 {
        4
    } else {
        3
    }
}

/// Number of the first slot of each cohort.
pub open spec fn cohort_first_slot(i: int) -> int {
    if i == 0 {
        1
    } else if i == 1 {
        4
    } else {
        8
    }
}

/// Canonical slot names `slot-01` to `slot-10`.
pub open spec fn slot_name(n: int) -> Seq<char> {
    if n == 1 {
        "slot-01"@
    } else if n == 2 {
        "slot-02"@
    } else if n == 3 {
        "slot-03"@
    } else if n == 4 {
        "slot-04"@
    } else if n == 5 {
        "slot-05"@
    } else if n == 6 {
        "slot-06"@
    } else if n == 7 {
        "slot-07"@
    } else if n == 8 {
        "slot-08"@
    } else if n == 9 {
        "slot-09"@
    } else {
        "slot-10"@
    }
}

/// The `j`-th slot of cohort `i`.
pub open spec fn cohort_slot(i: int, j: int) -> Seq<char> {
    slot_name(cohort_first_slot(i) + j)
}

pub open spec fn cohort_index(c: Seq<char>) -> int {
    if c == "cohort-a"@ {
        0
    } else if c == "cohort-b"@ {
        1
    } else {
        2
    }
}

/// The slots of a cohort, in order, or `None` for an unknown cohort.
pub open spec fn slots_of_spec(c: Seq<char>) -> Option<Seq<Seq<char>>> {
    if c == "cohort-a"@ || c == "cohort-b"@ || c == "cohort-c"@ {
        let i = cohort_index(c);
        Some(Seq::new(cohort_size(i) as nat, |j: int| cohort_slot(i, j)))
    } else {
        None
    }
}

/// The cohort that holds a slot, or `None` for an unknown slot.
pub open spec fn cohort_of_spec(s: Seq<char>) -> Option<Seq<char>> {
    if s == slot_name(1) || s == slot_name(2) || s == slot_name(3) {
        Some("cohort-a"@)
    } else if s == slot_name(4) || s == slot_name(5) || s == slot_name(6) || s == slot_name(7) {
        Some("cohort-b"@)
    } else if s == slot_name(8) || s == slot_name(9) || s == slot_name(10) {
        Some("cohort-c"@)
    } else {
        None
    }
}

/// The digits that tell the canonical slot names apart.
proof fn lemma_slot_name_digits()
    ensures
        forall|n: int| 1 <= n <= 10 ==> (#[trigger] slot_name(n)).len() == 7,
        forall|a: int, b: int|
            1 <= a <= 10 && 1 <= b <= 10 && a != b ==> #[trigger] slot_name(a) != #[trigger] slot_name(b),
{
    reveal_strlit("slot-01");
    reveal_strlit("slot-02");
    reveal_strlit("slot-03");
    reveal_strlit("slot-04");
    reveal_strlit("slot-05");
    reveal_strlit("slot-06");
    reveal_strlit("slot-07");
    reveal_strlit("slot-08");
    reveal_strlit("slot-09");
    reveal_strlit("slot-10");
    assert(slot_name(1).len() == 7 && slot_name(1)[5] == '0' && slot_name(1)[6] == '1');
    assert(slot_name(2).len() == 7 && slot_name(2)[5] == '0' && slot_name(2)[6] == '2');
    assert(slot_name(3).len() == 7 && slot_name(3)[5] == '0' && slot_name(3)[6] == '3');
    assert(slot_name(4).len() == 7 && slot_name(4)[5] == '0' && slot_name(4)[6] == '4');
    assert(slot_name(5).len() == 7 && slot_name(5)[5] == '0' && slot_name(5)[6] == '5');
    assert(slot_name(6).len() == 7 && slot_name(6)[5] == '0' && slot_name(6)[6] == '6');
    assert(slot_name(7).len() == 7 && slot_name(7)[5] == '0' && slot_name(7)[6] == '7');
    assert(slot_name(8).len() == 7 && slot_name(8)[5] == '0' && slot_name(8)[6] == '8');
    assert(slot_name(9).len() == 7 && slot_name(9)[5] == '0' && slot_name(9)[6] == '9');
    assert(slot_name(10).len() == 7 && slot_name(10)[5] == '1' && slot_name(10)[6] == '0');
    assert forall|a: int, b: int|
        1 <= a <= 10 && 1 <= b <= 10 && a != b implies #[trigger] slot_name(a) != #[trigger] slot_name(
            b,
        ) by {
        if slot_name(a) == slot_name(b) {
            assert(slot_name(a)[5] == slot_name(b)[5]);
            assert(slot_name(a)[6] == slot_name(b)[6]);
        }
    }
}

proof fn lemma_cohort_names()
    ensures
        "cohort-a"@ != "cohort-b"@,
        "cohort-a"@ != "cohort-c"@,
        "cohort-b"@ != "cohort-c"@,
{
    reveal_strlit("cohort-a");
    reveal_strlit("cohort-b");
    reveal_strlit("cohort-c");
    assert("cohort-a"@[7] == 'a' && "cohort-b"@[7] == 'b' && "cohort-c"@[7] == 'c');
}

/// A slot belongs to a cohort exactly when the cohort lists it: `cohort_of`
/// and `slots_of` describe the same partition of the ten slots.
pub proof fn cohort_membership_agrees(slot: Seq<char>, cohort: Seq<char>)
    ensures
        cohort_of_spec(slot) == Some(cohort) <==> (slots_of_spec(cohort) matches Some(slots)
            && slots.contains(slot)),
{
    lemma_slot_name_digits();
    lemma_cohort_names();
    let i = cohort_index(cohort);
    if cohort_of_spec(slot) == Some(cohort) {
        let n: int = if slot == slot_name(1) {
            1
        } else if slot == slot_name(2) {
            2
        } else if slot == slot_name(3) {
            3
        } else if slot == slot_name(4) {
            4
        } else if slot == slot_name(5) {
            5
        } else if slot == slot_name(6) {
            6
        } else if slot == slot_name(7) {
            7
        } else if slot == slot_name(8) {
            8
        } else if slot == slot_name(9) {
            9
        } else {
            10
        };
        let slots = slots_of_spec(cohort)->0;
        let j = n - cohort_first_slot(i);
        assert(slots[j] == slot);
    }
    if slots_of_spec(cohort) is Some && slots_of_spec(cohort)->0.contains(slot) {
        let slots = slots_of_spec(cohort)->0;
        let j = choose|j: int| 0 <= j < slots.len() && slots[j] == slot;
        assert(slot == slot_name(cohort_first_slot(i) + j));
    }
}

pub open spec fn strs_view(v: Seq<&'static str>) -> Seq<Seq<char>> {
    v.map_values(|x: &'static str| x@)
}

pub fn slots_of(cohort: &str) -> (r: Option<Vec<&'static str>>)
    ensures
        r is Some <==> slots_of_spec(cohort@) is Some,
        r matches Some(v) ==> strs_view(v@) == slots_of_spec(cohort@).unwrap(),
{
    if str_eq(cohort, "cohort-a") {
        let v = vec!["slot-01", "slot-02", "slot-03"];
        assert(strs_view(v@) =~= slots_of_spec(cohort@).unwrap());
        Some(v)
    } else if str_eq(cohort, "cohort-b") {
        let v = vec!["slot-04", "slot-05", "slot-06", "slot-07"];
        assert(strs_view(v@) =~= slots_of_spec(cohort@).unwrap());
        Some(v)
    } else if str_eq(cohort, "cohort-c") {
        let v = vec!["slot-08", "slot-09", "slot-10"];
        assert(strs_view(v@) =~= slots_of_spec(cohort@).unwrap());
        Some(v)
    } else {
        None
    }
}

pub fn cohort_of(slot_id: &str) -> (r: Option<&'static str>)
    ensures
        r is Some <==> cohort_of_spec(slot_id@) is Some,
        r matches Some(c) ==> c@ == cohort_of_spec(slot_id@).unwrap(),
{
    if str_eq(slot_id, "slot-01") || str_eq(slot_id, "slot-02") || str_eq(slot_id, "slot-03") {
        Some("cohort-a")
    } else if str_eq(slot_id, "slot-04") || str_eq(slot_id, "slot-05") || str_eq(slot_id, "slot-06")
        || str_eq(slot_id, "slot-07") {
        Some("cohort-b")
    } else if str_eq(slot_id, "slot-08") || str_eq(slot_id, "slot-09") || str_eq(
        slot_id,
        "slot-10",
    ) {
        Some("cohort-c")
    } else {
        None
    }
}

/// Some record of `entries` holds `subject` and is active.
pub open spec fn active_for(entries: Seq<(String, CasRecord)>, subject: Seq<char>) -> bool {
    exists|i: int|
        0 <= i < entries.len() && (#[trigger] entries[i]).1.subject_id@ == subject
            && entries[i].1.status@ == "active"@
}

pub open spec fn owner_active_for(entries: Seq<(String, RuntimeOwnerRecord)>, subject: Seq<char>) -> bool {
    exists|i: int|
        0 <= i < entries.len() && (#[trigger] entries[i]).1.cas.subject_id@ == subject
            && entries[i].1.cas.status@ == "active"@
}

/// Why a slot is skipped by an allocation scan at `now_ms`, if it is.
pub open spec fn classify_spec(state: ProjectionState, slot: Seq<char>, now_ms: u64) -> Option<
    SkipReason,
> {
    if cohort_of_spec(slot) is None {
        Some(SkipReason::StateInvalid)
    } else if active_for(state.leases@, slot) {
        Some(SkipReason::Leased)
    } else if owner_active_for(state.runtime_owners@, slot) {
        Some(SkipReason::RuntimeOwned)
    } else {
        match lookup(state.slots@, slot) {
            Some(record) => {
                if record.cooldown_until_ms matches Some(until) && until > now_ms {
                    Some(SkipReason::Cooldown)
                } else if !record.allocatable && !record.standby {
                    Some(SkipReason::HealthBlocked)
                } else {
                    None
                }
            },
            None => None,
        }
    }
}

fn any_active(entries: &Vec<(String, CasRecord)>, subject: &str) -> (r: bool)
    ensures
        r == active_for(entries@, subject@),
{
    let mut i: usize = 0;
    while i < entries.len()
        invariant
            i <= entries@.len(),
            forall|j: int|
                0 <= j < i ==> !((#[trigger] entries@[j]).1.subject_id@ == subject@
                    && entries@[j].1.status@ == "active"@),
        decreases entries.len() - i,
    {
        let record = &entries[i].1;
        if str_eq(record.subject_id.as_str(), subject) && str_eq(record.status.as_str(), "active") {
            assert(entries@[i as int].1.subject_id@ == subject@);
            return true;
        }
        i += 1;
    }
    false
}

fn any_owner_active(entries: &Vec<(String, RuntimeOwnerRecord)>, subject: &str) -> (r: bool)
    ensures
        r == owner_active_for(entries@, subject@),
{
    let mut i: usize = 0;
    while i < entries.len()
        invariant
            i <= entries@.len(),
            forall|j: int|
                0 <= j < i ==> !((#[trigger] entries@[j]).1.cas.subject_id@ == subject@
                    && entries@[j].1.cas.status@ == "active"@),
        decreases entries.len() - i,
    {
        let record = &entries[i].1.cas;
        if str_eq(record.subject_id.as_str(), subject) && str_eq(record.status.as_str(), "active") {
            assert(entries@[i as int].1.cas.subject_id@ == subject@);
            return true;
        }
        i += 1;
    }
    false
}

/// Classifies a slot for allocation against the projected state.
pub fn classify_slot(state: &ProjectionState, slot_id: &str, now_ms: u64) -> (r: Result<
    Option<SkipReason>,
    String,
>)
    ensures
        r == Ok::<Option<SkipReason>, String>(classify_spec(*state, slot_id@, now_ms)),
{
    if cohort_of(slot_id).is_none() {
        return Ok(Some(SkipReason::StateInvalid));
    }
    if any_active(&state.leases, slot_id) {
        return Ok(Some(SkipReason::Leased));
    }
    if any_owner_active(&state.runtime_owners, slot_id) {
        return Ok(Some(SkipReason::RuntimeOwned));
    }
    match crate::contracts::projection::get_entry(&state.slots, slot_id) {
        Some(slot) => {
            let cooling = match slot.cooldown_until_ms {
                Some(until) => until > now_ms,
                None => false,
            };
            if cooling {
                return Ok(Some(SkipReason::Cooldown));
            }
            if !slot.allocatable && !slot.standby {
                return Ok(Some(SkipReason::HealthBlocked));
            }
            Ok(None)
        },
        None => Ok(None),
    }
}

/// A slot that is not leased or runtime-owned and whose record is still
/// cooling down at `now_ms` is skipped for its cooldown.
pub proof fn cooling_slot_is_skipped(state: ProjectionState, slot: Seq<char>, now_ms: u64)
    requires
        cohort_of_spec(slot) is Some,
        forall|i: int|
            0 <= i < state.leases@.len() && (#[trigger] state.leases@[i]).1.subject_id@ == slot
                ==> state.leases@[i].1.status@ != "active"@,
        forall|i: int|
            0 <= i < state.runtime_owners@.len() && (#[trigger] state.runtime_owners@[i]).1.cas.subject_id@
                == slot ==> state.runtime_owners@[i].1.cas.status@ != "active"@,
        lookup(state.slots@, slot) matches Some(record) && record.cooldown_until_ms matches Some(until)
            && until > now_ms,
    ensures
        classify_spec(state, slot, now_ms) == Some(SkipReason::Cooldown),
{
}

/// A slot the scan may grant is a known slot that no active lease or runtime
/// owner holds, and whose record, if any, is past its cooldown and either
/// allocatable or on standby.
pub proof fn grantable_slot_is_free(state: ProjectionState, slot: Seq<char>, now_ms: u64)
    requires
        classify_spec(state, slot, now_ms) is None,
    ensures
        cohort_of_spec(slot) is Some,
        forall|i: int|
            0 <= i < state.leases@.len() && (#[trigger] state.leases@[i]).1.subject_id@ == slot
                ==> state.leases@[i].1.status@ != "active"@,
        forall|i: int|
            0 <= i < state.runtime_owners@.len() && (#[trigger] state.runtime_owners@[i]).1.cas.subject_id@
                == slot ==> state.runtime_owners@[i].1.cas.status@ != "active"@,
        lookup(state.slots@, slot) matches Some(record) ==> (record.cooldown_until_ms matches Some(
            until,
        ) ==> until <= now_ms) && (record.allocatable || record.standby),
{
}

/// Why a scan skips a slot, in order of precedence: an unknown slot is
/// invalid; a slot with an active lease is leased; else one with an active
/// runtime owner is runtime-owned; else a record that is neither
/// allocatable nor on standby, past its cooldown, is health-blocked.
pub proof fn skip_reasons_in_order(state: ProjectionState, slot: Seq<char>, now_ms: u64)
    ensures
        cohort_of_spec(slot) is None ==> classify_spec(state, slot, now_ms) == Some(
            SkipReason::StateInvalid,
        ),
        cohort_of_spec(slot) is Some && (exists|i: int|
            0 <= i < state.leases@.len() && (#[trigger] state.leases@[i]).1.subject_id@ == slot
                && state.leases@[i].1.status@ == "active"@) ==> classify_spec(state, slot, now_ms)
            == Some(SkipReason::Leased),
        cohort_of_spec(slot) is Some && !active_for(state.leases@, slot) && (exists|i: int|
            0 <= i < state.runtime_owners@.len() && (#[trigger] state.runtime_owners@[i]).1.cas.subject_id@
                == slot && state.runtime_owners@[i].1.cas.status@ == "active"@) ==> classify_spec(
            state,
            slot,
            now_ms,
        ) == Some(SkipReason::RuntimeOwned),
{
}

} // verus!
