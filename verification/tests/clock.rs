use shader_toy::clock::{next_reading, Clock};

#[test]
fn clock_starts_near_zero_and_does_not_go_back() {
    let mut clock = Clock::start();
    let first = clock.nanos();
    assert!(first < 10_000_000_000);
    let mut last = first;
    for _ in 0..1000 {
        let now = clock.nanos();
        assert!(now >= last);
        last = now;
    }
}

#[test]
fn reading_is_the_elapsed_time_where_it_has_not_gone_back() {
    assert_eq!(next_reading(0, 0), 0);
    assert_eq!(next_reading(0, 17), 17);
    assert_eq!(next_reading(17, 17), 17);
    assert_eq!(next_reading(17, 250), 250);
    assert_eq!(next_reading(0, u64::MAX as u128), u64::MAX);
}

#[test]
fn reading_never_goes_back() {
    assert_eq!(next_reading(250, 17), 250);
    assert_eq!(next_reading(u64::MAX, 0), u64::MAX);
    assert_eq!(next_reading(1, 0), 1);
}

#[test]
fn reading_that_does_not_fit_is_held_at_the_largest_value() {
    assert_eq!(next_reading(0, u64::MAX as u128 + 1), u64::MAX);
    assert_eq!(next_reading(5, u128::MAX), u64::MAX);
}
