use gpt_webai_lifecycle::allocator::{
    cohort_of, slots_of, CANONICAL_SLOTS, COHORT_A_SLOTS, COHORT_B_SLOTS, COHORT_C_SLOTS,
    COHORT_ORDER,
};
use gpt_webai_lifecycle::contracts::ids::validate_slot_id;

#[test]
fn slot_ids_parse_their_number_as_a_byte() {
    for s in CANONICAL_SLOTS {
        assert!(validate_slot_id(s).is_ok(), "{s}");
    }
    assert!(validate_slot_id("slot-+1").is_ok());
    assert!(validate_slot_id("slot-+9").is_ok());
    for s in ["slot-00", "slot-11", "slot-1", "slot-010", "slot--1", "slot-+0", "lot-01"] {
        assert!(validate_slot_id(s).is_err(), "{s}");
    }
}

#[test]
fn the_cohort_tables_agree_with_the_lookups() {
    let tables: [&[&str]; 3] = [&COHORT_A_SLOTS, &COHORT_B_SLOTS, &COHORT_C_SLOTS];
    let mut all = Vec::new();
    for (cohort, table) in COHORT_ORDER.iter().zip(tables) {
        let listed: Vec<String> = slots_of(cohort).unwrap().iter().map(|s| s.to_string()).collect();
        assert_eq!(listed, table.iter().map(|s| s.to_string()).collect::<Vec<_>>());
        for slot in table {
            assert_eq!(cohort_of(slot).map(|c| c.to_string()), Some(cohort.to_string()));
            all.push(*slot);
        }
    }
    assert_eq!(all, CANONICAL_SLOTS.to_vec());
}
