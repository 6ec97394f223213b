use smart_refresh::clock::millis_held;
use smart_refresh::clock::Clock;

#[test]
fn millis_fit_or_are_held_at_the_top() {
    assert_eq!(millis_held(0), 0);
    assert_eq!(millis_held(1500), 1500);
    assert_eq!(millis_held(u64::MAX as u128), u64::MAX);
    assert_eq!(millis_held(u64::MAX as u128 + 1), u64::MAX);
    assert_eq!(millis_held(u128::MAX), u64::MAX);
}

#[test]
fn clock_readings_do_not_go_back() {
    let clock = Clock::start();
    let first = clock.now_ms();
    let second = clock.now_ms();
    assert!(first < 60_000);
    assert!(second >= first);
}
