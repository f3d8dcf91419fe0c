use gradewise_backend::AppState;

#[test]
fn in_memory_counter_starts_at_zero_and_counts_up() {
    let mut state = AppState::new();
    assert_eq!(state.current(), 0);
    assert_eq!(state.increment(), 1);
    assert_eq!(state.increment(), 2);
    assert_eq!(state.current(), 2);
}
