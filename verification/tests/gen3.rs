use rng_tools::gen3::{EncounterSlot, Gen3Method, SlotTable};

const SLOTS: [EncounterSlot; 12] = [
    EncounterSlot::Slot0,
    EncounterSlot::Slot1,
    EncounterSlot::Slot2,
    EncounterSlot::Slot3,
    EncounterSlot::Slot4,
    EncounterSlot::Slot5,
    EncounterSlot::Slot6,
    EncounterSlot::Slot7,
    EncounterSlot::Slot8,
    EncounterSlot::Slot9,
    EncounterSlot::Slot10,
    EncounterSlot::Slot11,
];

#[test]
fn land_slots_by_selector() {
    let bounds = [20u8, 40, 50, 60, 70, 80, 85, 90, 94, 98, 99, 100];
    let mut low = 0u8;
    for (i, high) in bounds.iter().enumerate() {
        assert_eq!(EncounterSlot::from_rand(low), SLOTS[i]);
        assert_eq!(EncounterSlot::from_rand(high - 1), SLOTS[i]);
        low = *high;
    }
    assert_eq!(EncounterSlot::from_rand(100), EncounterSlot::Slot11);
    assert_eq!(EncounterSlot::from_rand(255), EncounterSlot::Slot11);
}

#[test]
fn the_land_table_agrees_with_the_land_slots() {
    let table = SlotTable::land();
    assert_eq!(table.bounds, vec![20, 40, 50, 60, 70, 80, 85, 90, 94, 98, 99, 100]);
    for rand in 0..=255u8 {
        assert_eq!(table.slot_for(rand), EncounterSlot::from_rand(rand));
    }
}

#[test]
fn another_table_gives_other_slots() {
    let table = SlotTable { bounds: vec![50, 60, 70, 80, 90, 95, 96, 97, 98, 99, 100, 100] };
    assert_eq!(table.slot_for(0), EncounterSlot::Slot0);
    assert_eq!(table.slot_for(49), EncounterSlot::Slot0);
    assert_eq!(table.slot_for(50), EncounterSlot::Slot1);
    assert_eq!(table.slot_for(95), EncounterSlot::Slot6);
    assert_eq!(table.slot_for(99), EncounterSlot::Slot10);
    assert_eq!(table.slot_for(100), EncounterSlot::Slot11);
}

#[test]
fn short_and_long_tables() {
    let empty = SlotTable { bounds: vec![] };
    assert_eq!(empty.slot_for(0), EncounterSlot::Slot0);
    assert_eq!(empty.slot_for(99), EncounterSlot::Slot0);
    let short = SlotTable { bounds: vec![60, 90] };
    assert_eq!(short.slot_for(59), EncounterSlot::Slot0);
    assert_eq!(short.slot_for(60), EncounterSlot::Slot1);
    assert_eq!(short.slot_for(90), EncounterSlot::Slot2);
    let long = SlotTable { bounds: vec![1, 2, 3, 4, 5, 6, 7, 8, 9, 10, 11, 12, 13, 14] };
    assert_eq!(long.slot_for(10), EncounterSlot::Slot10);
    assert_eq!(long.slot_for(11), EncounterSlot::Slot11);
    assert_eq!(long.slot_for(13), EncounterSlot::Slot11);
    assert_eq!(long.slot_for(200), EncounterSlot::Slot11);
    // the first bound above the selector counts, even if a later one lies lower
    let unordered = SlotTable { bounds: vec![10, 5, 100] };
    assert_eq!(unordered.slot_for(7), EncounterSlot::Slot0);
    assert_eq!(unordered.slot_for(10), EncounterSlot::Slot2);
}

#[test]
fn slots_by_number() {
    for (i, slot) in SLOTS.iter().enumerate() {
        assert_eq!(EncounterSlot::from_index(i), *slot);
    }
    assert_eq!(EncounterSlot::from_index(12), EncounterSlot::Slot11);
    assert_eq!(EncounterSlot::from_index(usize::MAX), EncounterSlot::Slot11);
}

#[test]
fn slot_filter() {
    for slot in SLOTS {
        assert!(EncounterSlot::passes_filter(&None, slot));
        assert!(!EncounterSlot::passes_filter(&Some(vec![]), slot));
    }
    let list = Some(vec![EncounterSlot::Slot4, EncounterSlot::Slot5, EncounterSlot::Slot4]);
    assert!(EncounterSlot::passes_filter(&list, EncounterSlot::Slot4));
    assert!(EncounterSlot::passes_filter(&list, EncounterSlot::Slot5));
    assert!(!EncounterSlot::passes_filter(&list, EncounterSlot::Slot3));
    assert!(!EncounterSlot::passes_filter(&list, EncounterSlot::Slot11));
}

#[test]
fn method_lists() {
    let methods = vec![Gen3Method::Wild1, Gen3Method::Wild4];
    assert!(Gen3Method::Wild1.is_in(&methods));
    assert!(Gen3Method::Wild4.is_in(&methods));
    assert!(!Gen3Method::Wild2.is_in(&methods));
    assert!(!Gen3Method::Wild3.is_in(&methods));
    assert!(!Gen3Method::Wild5.is_in(&methods));
    assert!(!Gen3Method::Wild1.is_in(&vec![]));
}
