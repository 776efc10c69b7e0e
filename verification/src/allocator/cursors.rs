use vstd::prelude::*;

use crate::contracts::projection::{AllocatorRecord, WithinCursors};

use super::{cohort_name, cohort_size, cohort_slot, slots_of, slots_of_spec};

verus! {

/// The next candidate of an allocation scan.
#[derive(Clone, Debug, PartialEq, Eq)]
pub struct Candidate {
    pub cohort: String,
    pub slot_id: String,
    pub cohort_cursor_before: u8,
    pub within_cursor_before: u8,
}

/// The within-cohort cursor of cohort `i`.
pub open spec fn within_of(w: WithinCursors, i: int) -> u8 {
    if i == 0 {
        w.cohort_a
    } else if i == 1 {
        w.cohort_b
    } else {
        w.cohort_c
    }
}

pub open spec fn with_within(w: WithinCursors, i: int, v: u8) -> WithinCursors {
    if i == 0 {
        WithinCursors { cohort_a: v, ..w }
    } else if i == 1 {
        WithinCursors { cohort_b: v, ..w }
    } else {
        WithinCursors { cohort_c: v, ..w }
    }
}

/// Every cursor points inside its cohort (the allocator record's contract).
pub open spec fn cursors_valid(r: AllocatorRecord) -> bool {
    &&& r.cohort_cursor < 3
    &&& r.within_cursors.cohort_a < 3
    &&& r.within_cursors.cohort_b < 4
    &&& r.within_cursors.cohort_c < 3
}

/// The cursor that `advance` reads is inside its cohort.
pub open spec fn can_advance(r: AllocatorRecord) -> bool {
    r.cohort_cursor < 3 && within_of(r.within_cursors, r.cohort_cursor as int) < cohort_size(
        r.cohort_cursor as int,
    )
}

/// The record after one step of the scan.
pub open spec fn advanced(r: AllocatorRecord, scan_ordinal: u8) -> AllocatorRecord {
    let i = r.cohort_cursor as int;
    let w = within_of(r.within_cursors, i);
    AllocatorRecord {
        cohort_cursor: ((r.cohort_cursor + 1) % 3) as u8,
        within_cursors: with_within(r.within_cursors, i, ((w + 1) % cohort_size(i)) as u8),
        last_scan_ordinal: Some(scan_ordinal),
        last_event_id: r.last_event_id,
    }
}

/// The candidate that one step of the scan yields from `r`.
pub open spec fn candidate_matches(c: Candidate, r: AllocatorRecord) -> bool {
    let i = r.cohort_cursor as int;
    let w = within_of(r.within_cursors, i);
    &&& c.cohort@ == cohort_name(i)
    &&& c.slot_id@ == cohort_slot(i, w as int)
    &&& c.cohort_cursor_before == r.cohort_cursor
    &&& c.within_cursor_before == w
}

impl AllocatorRecord {
    /// An allocator record with every cursor at zero and no scan yet.
    pub fn zeroed(last_event_id: String) -> (r: Self)
        ensures
            r.cohort_cursor == 0,
            r.within_cursors == (WithinCursors { cohort_a: 0, cohort_b: 0, cohort_c: 0 }),
            r.last_scan_ordinal is None,
            r.last_event_id == last_event_id,
            cursors_valid(r),
    {
        AllocatorRecord {
            cohort_cursor: 0,
            within_cursors: WithinCursors { cohort_a: 0, cohort_b: 0, cohort_c: 0 },
            last_scan_ordinal: None,
            last_event_id,
        }
    }
}

fn cursor(record: &AllocatorRecord, cohort: u8) -> (r: u8)
    requires
        cohort < 3,
    ensures
        r == within_of(record.within_cursors, cohort as int),
{
    if cohort == 0 {
        record.within_cursors.cohort_a
    } else if cohort == 1 {
        record.within_cursors.cohort_b
    } else {
        record.within_cursors.cohort_c
    }
}

fn set_cursor(record: &mut AllocatorRecord, cohort: u8, value: u8)
    requires
        cohort < 3,
    ensures
        final(record).within_cursors == with_within(old(record).within_cursors, cohort as int, value),
        final(record).cohort_cursor == old(record).cohort_cursor,
        final(record).last_scan_ordinal == old(record).last_scan_ordinal,
        final(record).last_event_id == old(record).last_event_id,
{
    if cohort == 0 {
        record.within_cursors.cohort_a = value;
    } else if cohort == 1 {
        record.within_cursors.cohort_b = value;
    } else {
        record.within_cursors.cohort_c = value;
    }
}

fn cohort_literal(i: u8) -> (r: &'static str)
    requires
        i < 3,
    ensures
        r@ == cohort_name(i as int),
{
    if i == 0 {
        "cohort-a"
    } else if i == 1 {
        "cohort-b"
    } else {
        "cohort-c"
    }
}

/// Takes the slot under the current cohort's cursor, then moves that cursor
/// and the cohort cursor one step on (round robin).
pub fn advance(record: &mut AllocatorRecord, scan_ordinal: u8) -> (c: Candidate)
    requires
        can_advance(*old(record)),
    ensures
        *final(record) == advanced(*old(record), scan_ordinal),
        candidate_matches(c, *old(record)),
{
    let cohort_cursor_before = record.cohort_cursor;
    let cohort = cohort_literal(record.cohort_cursor);
    let within_cursor_before = cursor(record, record.cohort_cursor);
    let slots = match slots_of(cohort) {
        Some(v) => v,
        None => {
            proof {
                reveal_strlit("cohort-a");
                reveal_strlit("cohort-b");
                reveal_strlit("cohort-c");
            }
            assert(false);
            Vec::new()
        },
    };
    proof {
        reveal_strlit("cohort-a");
        reveal_strlit("cohort-b");
        reveal_strlit("cohort-c");
        assert("cohort-a"@.len() == 8 && "cohort-b"@.len() == 8 && "cohort-c"@.len() == 8);
        assert("cohort-a"@[7] != "cohort-b"@[7]);
        assert("cohort-a"@[7] != "cohort-c"@[7]);
        assert("cohort-b"@[7] != "cohort-c"@[7]);
        assert(super::cohort_index(cohort@) == cohort_cursor_before as int);
        assert(slots_of_spec(cohort@) is Some);
        assert(super::strs_view(slots@).len() == slots@.len());
        assert(slots@.len() == cohort_size(cohort_cursor_before as int));
    }
    let slot_id = slots[within_cursor_before as usize];
    assert(super::strs_view(slots@)[within_cursor_before as int] == slot_id@);
    assert(slot_id@ == cohort_slot(cohort_cursor_before as int, within_cursor_before as int));
    let len = slots.len();
    let next = ((within_cursor_before as usize + 1) % len) as u8;
    set_cursor(record, cohort_cursor_before, next);
    record.cohort_cursor = (record.cohort_cursor + 1) % 3;
    record.last_scan_ordinal = Some(scan_ordinal);
    Candidate {
        cohort: cohort.to_owned(),
        slot_id: slot_id.to_owned(),
        cohort_cursor_before,
        within_cursor_before,
    }
}

/// Every step of the scan keeps the cursors inside their cohorts.
pub proof fn advance_keeps_cursors_valid(r: AllocatorRecord, scan_ordinal: u8)
    requires
        cursors_valid(r),
    ensures
        can_advance(r),
        cursors_valid(advanced(r, scan_ordinal)),
{
}

/// Three steps of the scan visit each cohort once: the cohort cursor comes
/// back to where it was, and each cohort's own cursor has moved on by one
/// slot, wrapping at the end of the cohort.
pub proof fn three_steps_visit_each_cohort(r: AllocatorRecord, a: u8, b: u8, c: u8)
    requires
        cursors_valid(r),
    ensures
        advanced(advanced(advanced(r, a), b), c).cohort_cursor == r.cohort_cursor,
        advanced(advanced(advanced(r, a), b), c).within_cursors.cohort_a == (
        r.within_cursors.cohort_a + 1) % 3,
        advanced(advanced(advanced(r, a), b), c).within_cursors.cohort_b == (
        r.within_cursors.cohort_b + 1) % 4,
        advanced(advanced(advanced(r, a), b), c).within_cursors.cohort_c == (
        r.within_cursors.cohort_c + 1) % 3,
{
}

} // verus!
