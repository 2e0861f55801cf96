use mutter::interval_progress::{ProgressRegistry, LINEAR_PROGRESS};

#[test]
fn register_lookup_and_replace() {
    let mut reg = ProgressRegistry::new();
    assert_eq!(reg.lookup_progress_func(7), None);
    reg.register_progress_func(7, 3);
    assert_eq!(reg.lookup_progress_func(7), Some(3));
    reg.register_progress_func(7, 4);
    assert_eq!(reg.lookup_progress_func(7), Some(4));
    reg.register_progress_func(8, 5);
    assert_eq!(reg.lookup_progress_func(7), Some(4));
    assert_eq!(reg.lookup_progress_func(8), Some(5));
}

#[test]
fn unknown_type_falls_back_to_linear() {
    let mut reg = ProgressRegistry::new();
    assert_eq!(reg.run_progress_func(1), LINEAR_PROGRESS);
    reg.register_progress_func(1, 9);
    assert_eq!(reg.run_progress_func(1), 9);
}

#[test]
fn full_registry_drops_new_types_but_replaces_known_ones() {
    let mut reg = ProgressRegistry::new();
    for k in 0..256u64 {
        reg.register_progress_func(k, k + 1);
    }
    reg.register_progress_func(1000, 1);
    assert_eq!(reg.lookup_progress_func(1000), None);
    reg.register_progress_func(5, 77);
    assert_eq!(reg.lookup_progress_func(5), Some(77));
    assert_eq!(reg.lookup_progress_func(255), Some(256));
}
