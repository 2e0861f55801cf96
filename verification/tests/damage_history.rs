use mutter::damage_history::{step_damage_index, DamageHistory, DAMAGE_HISTORY_LENGTH};
use mutter::viewport_info::Rectangle;

#[test]
fn new_starts_empty() {
    let h = DamageHistory::<Rectangle>::new();
    for age in 1..DAMAGE_HISTORY_LENGTH as i32 {
        assert!(!h.is_age_valid(age), "age {} should be invalid", age);
    }
}

#[test]
fn step_damage_index_wraps_negative() {
    assert_eq!(step_damage_index(0, -1), 15);
    assert_eq!(step_damage_index(3, -4), 15);
    assert_eq!(step_damage_index(0, 1), 1);
    assert_eq!(step_damage_index(15, 1), 0);
}

#[test]
fn record_then_step_then_lookup() {
    let mut h = DamageHistory::new();
    let r1 = Rectangle::new(0, 0, 10, 10);
    h.record(&r1);
    h.step();
    assert!(h.is_age_valid(1));
    assert_eq!(h.lookup(1), Some(&Rectangle::new(0, 0, 10, 10)));
}

#[test]
fn record_overwrites_current_slot() {
    let mut h = DamageHistory::new();
    h.record(&Rectangle::new(0, 0, 10, 10));
    h.record(&Rectangle::new(5, 5, 20, 20));
    assert_eq!(h.lookup(0), Some(&Rectangle::new(5, 5, 20, 20)));
}

#[test]
fn ring_wraps_after_length_steps() {
    let mut h = DamageHistory::new();
    for i in 0..DAMAGE_HISTORY_LENGTH {
        h.record(&Rectangle::new(i as i32, 0, 1, 1));
        h.step();
    }
    assert_eq!(
        h.lookup(1),
        Some(&Rectangle::new((DAMAGE_HISTORY_LENGTH - 1) as i32, 0, 1, 1))
    );
    assert!(!h.is_age_valid(DAMAGE_HISTORY_LENGTH as i32));
    assert!(!h.is_age_valid(0));
}

#[test]
fn step_index_handles_large_and_extreme_inputs() {
    assert_eq!(step_damage_index(usize::MAX, 1), 0);
    assert_eq!(step_damage_index(0, i32::MIN), 0);
    assert_eq!(step_damage_index(5, i32::MAX), (5 + (i32::MAX as usize)) % 16);
    assert_eq!(step_damage_index(7, -16), 7);
}
