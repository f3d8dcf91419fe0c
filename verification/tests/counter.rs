use gradewise_backend::counter::{CounterOp, CounterServiceServer, CounterStore};

#[test]
fn round_trip_increment_then_get() {
    let server = CounterServiceServer;
    let mut store = CounterStore::new();
    let key = String::from("default");
    assert_eq!(server.increment(&mut store, &key), 1);
    assert_eq!(server.get_count(&store, &key), 1);
}

#[test]
fn reset_then_add_ten() {
    let server = CounterServiceServer;
    let mut store = CounterStore::new();
    let key = String::from("default");
    server.increment(&mut store, &key);
    server.increment(&mut store, &key);
    server.reset(&mut store, &key);
    assert_eq!(server.add(&mut store, &key, 10), 10);
    assert_eq!(server.get_count(&store, &key), 10);
}

#[test]
fn sequential_ops_sum_in_completion_order() {
    let server = CounterServiceServer;
    let mut store = CounterStore::new();
    let key = String::from("k");
    assert_eq!(server.increment(&mut store, &key), 1);
    assert_eq!(server.increment(&mut store, &key), 2);
    assert_eq!(server.decrement(&mut store, &key), 1);
    assert_eq!(server.add(&mut store, &key, 5), 6);
    assert_eq!(server.get_count(&store, &key), 6);
}

#[test]
fn reset_discards_what_came_before() {
    let server = CounterServiceServer;
    let mut store = CounterStore::new();
    let key = String::from("k");
    server.add(&mut store, &key, 41);
    server.increment(&mut store, &key);
    server.reset(&mut store, &key);
    assert_eq!(server.add(&mut store, &key, 2), 2);
    assert_eq!(server.decrement(&mut store, &key), 1);
    assert_eq!(server.get_count(&store, &key), 1);
}

#[test]
fn n_increments_count_exactly_n() {
    let server = CounterServiceServer;
    let mut store = CounterStore::new();
    let key = String::from("shared-key");
    for _ in 0..25 {
        server.increment(&mut store, &key);
    }
    assert_eq!(server.get_count(&store, &key), 25);
}

#[test]
fn distinct_keys_are_independent() {
    let server = CounterServiceServer;
    let mut store = CounterStore::new();
    let a = String::from("a");
    let b = String::from("b");
    let untouched = String::from("c");
    server.increment(&mut store, &a);
    server.increment(&mut store, &a);
    server.increment(&mut store, &a);
    server.add(&mut store, &b, 10);
    assert_eq!(server.get_count(&store, &a), 3);
    assert_eq!(server.get_count(&store, &b), 10);
    assert_eq!(server.get_count(&store, &untouched), 0);
}

#[test]
fn keys_are_byte_exact() {
    let server = CounterServiceServer;
    let mut store = CounterStore::new();
    let lower = String::from("key");
    let upper = String::from("KEY");
    server.add(&mut store, &lower, 7);
    assert_eq!(server.get_count(&store, &upper), 0);
}

#[test]
fn absent_slot_defaults_to_zero() {
    let server = CounterServiceServer;
    let mut store = CounterStore::new();
    let key = String::from("fresh");
    assert_eq!(server.get_count(&store, &key), 0);
    assert_eq!(server.decrement(&mut store, &key), -1);
}

#[test]
fn store_get_reads_what_set_wrote() {
    let mut store = CounterStore::new();
    let key = String::from("slot");
    assert_eq!(store.get(&key), None);
    store.set(&key, 42);
    assert_eq!(store.get(&key), Some(42));
    store.set(&key, -3);
    assert_eq!(store.get(&key), Some(-3));
}

#[test]
fn apply_dispatches_every_operation() {
    let server = CounterServiceServer;
    let mut store = CounterStore::new();
    let key = String::from("k");
    assert_eq!(server.apply(&mut store, &key, CounterOp::Increment), 1);
    assert_eq!(server.apply(&mut store, &key, CounterOp::Add(9)), 10);
    assert_eq!(server.apply(&mut store, &key, CounterOp::Decrement), 9);
    assert_eq!(server.apply(&mut store, &key, CounterOp::Reset), 0);
    assert_eq!(server.get_count(&store, &key), 0);
}

#[test]
fn a_run_of_ops_lands_on_the_sum_since_the_last_reset() {
    let server = CounterServiceServer;
    let mut store = CounterStore::new();
    let key = String::from("k");
    let ops = vec![
        CounterOp::Increment,
        CounterOp::Add(5),
        CounterOp::Decrement,
        CounterOp::Reset,
        CounterOp::Add(3),
        CounterOp::Increment,
    ];
    server.run_exclusive(&mut store, &key, &ops);
    assert_eq!(server.get_count(&store, &key), 4);
}

#[test]
fn add_reaches_the_largest_count() {
    let server = CounterServiceServer;
    let mut store = CounterStore::new();
    let key = String::from("k");
    assert_eq!(server.add(&mut store, &key, i64::MAX), i64::MAX);
    assert_eq!(server.get_count(&store, &key), i64::MAX);
}
