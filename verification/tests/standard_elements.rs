use gt6n::standard_elements::{
    exponential_approach, mul_div_scale, multiple_on_change, Shared, SCALE,
};

#[test]
fn exponential_approach_halves_the_distance() {
    // factor of one half: the value moves half way to the target
    assert_eq!(exponential_approach(0, 500_000, 1_000_000), 500_000);
    assert_eq!(exponential_approach(500_000, 500_000, 1_000_000), 750_000);
}

#[test]
fn exponential_approach_is_idempotent_at_target() {
    // at the target it stays exactly at the target, for any factor
    assert_eq!(exponential_approach(123_456, 0, 123_456), 123_456);
    assert_eq!(exponential_approach(123_456, 1, 123_456), 123_456);
    assert_eq!(exponential_approach(123_456, SCALE, 123_456), 123_456);
    assert_eq!(exponential_approach(-987_654, 777, -987_654), -987_654);
}

#[test]
fn exponential_approach_never_overshoots() {
    // any positive factor makes strict progress and never crosses the target
    let mut v: i64 = 0;
    let target: i64 = 10;
    for _ in 0..20 {
        let next = exponential_approach(v, 1, target);
        if v != target {
            assert!((next - target).abs() < (v - target).abs());
        }
        assert!(next <= target);
        v = next;
    }
    assert_eq!(v, 10);

    // from above, symmetric
    assert_eq!(exponential_approach(10, 500_000, -10), 0);
    // a full factor lands exactly on the target
    assert_eq!(exponential_approach(-333, SCALE, 42), 42);
}

#[test]
fn exponential_approach_minimal_step() {
    // even a tiny factor moves at least one count toward the target
    assert_eq!(exponential_approach(0, 1, 10), 1);
}

#[test]
fn mul_div_scale_exact_cases() {
    assert_eq!(mul_div_scale(500_000, 2_000_000), 1_000_000);
    assert_eq!(mul_div_scale(-500_000, 2_000_000), -1_000_000);
    assert_eq!(mul_div_scale(123, 0), 0);
    // a coefficient of exactly one unit returns the operand
    assert_eq!(mul_div_scale(-765_432, SCALE), -765_432);
}

#[test]
fn shared_set_bumps_the_version() {
    let mut c: Shared<i64> = Shared::new(5);
    assert_eq!(c.get(), 5);
    let v0 = c.version();
    c.set(5);
    // an unconditional commit notifies even without a value change
    assert_ne!(c.version(), v0);
    assert!(c.has_changed(v0));
}

#[test]
fn shared_set_only_on_change_coalesces() {
    let mut c: Shared<i64> = Shared::new(5);
    let v0 = c.version();
    c.set_only_on_change(5);
    assert_eq!(c.version(), v0);
    c.set_only_on_change(6);
    assert_ne!(c.version(), v0);
    assert_eq!(c.get(), 6);
}

#[test]
fn shared_switch_gates_the_value() {
    let c: Shared<i64> = Shared::new(700_000);
    assert_eq!(c.switch(true), 700_000);
    assert_eq!(c.switch(false), 0);
}

#[test]
fn test_on_change_callback() {
    // every commit is seen once by an observer that polls after each one
    let mut shared: Shared<String> = Shared::new(String::from("test"));
    let mut counter: usize = 0;
    let mut last_seen = shared.version();

    for value in ["test1", "test2", "test3"] {
        shared.set(String::from(value));
        if shared.has_changed(last_seen) {
            counter += 1;
            last_seen = shared.version();
        }
    }

    assert_eq!(counter, 3);
    assert_eq!(shared.borrow(), "test3");
}

#[test]
fn multiple_on_change_fires_when_any_input_committed() {
    assert!(!multiple_on_change(&vec![], &vec![]));
    assert!(!multiple_on_change(&vec![1, 2], &vec![1, 2]));
    assert!(multiple_on_change(&vec![1, 3], &vec![1, 2]));
    assert!(multiple_on_change(&vec![9, 2], &vec![1, 2]));
}
