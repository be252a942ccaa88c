use aura_consensus::slots::{
    deadline_at, slot_index_at, slot_window_at, DEFAULT_ATTEMPT_BUDGET_MS,
    DEFAULT_SLOT_DURATION_MS,
};

#[test]
fn default_cadence_example() {
    // D = 12000 ms, T = 36005 ms: the fourth slot, deadline 500 ms out.
    let window = slot_window_at(36005, DEFAULT_SLOT_DURATION_MS, DEFAULT_ATTEMPT_BUDGET_MS);
    assert_eq!(window.slot_index, 3);
    assert_eq!(window.timestamp_ms, 36005);
    assert_eq!(window.deadline_ms, 36505);
}

#[test]
fn slot_index_is_floor_division() {
    assert_eq!(slot_index_at(0, 12000), 0);
    assert_eq!(slot_index_at(11999, 12000), 0);
    assert_eq!(slot_index_at(12000, 12000), 1);
    assert_eq!(slot_index_at(36005, 12000), 3);
    assert_eq!(slot_index_at(47999, 12000), 3);
    assert_eq!(slot_index_at(48000, 12000), 4);
}

#[test]
fn slot_index_does_not_decrease_with_time() {
    let mut previous: u64 = 0;
    let mut t: u64 = 0;
    while t < 100000 {
        let index = slot_index_at(t, 7000);
        assert!(index >= previous);
        previous = index;
        t += 501;
    }
}

#[test]
fn deadline_is_start_plus_budget() {
    assert_eq!(deadline_at(36005, 500), 36505);
    assert_eq!(deadline_at(0, 500), 500);
    assert_eq!(deadline_at(u64::MAX - 500, 500), u64::MAX);
}

#[test]
fn deadline_ignores_slot_duration() {
    let short_slots = slot_window_at(36005, 1, 500);
    let long_slots = slot_window_at(36005, 1_000_000, 500);
    assert_eq!(short_slots.deadline_ms, long_slots.deadline_ms);
    assert_eq!(short_slots.timestamp_ms, long_slots.timestamp_ms);
    assert_ne!(short_slots.slot_index, long_slots.slot_index);
}
