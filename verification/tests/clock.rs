use almagro::event::{poll_timeout, tick_due, TICK_MILLIS};

#[test]
fn a_tick_lasts_a_quarter_of_a_second() {
    assert_eq!(TICK_MILLIS, 250);
}

#[test]
fn the_poller_waits_for_what_is_left_of_the_tick() {
    assert_eq!(poll_timeout(0), 250);
    assert_eq!(poll_timeout(1), 249);
    assert_eq!(poll_timeout(100), 150);
    assert_eq!(poll_timeout(249), 1);
    assert_eq!(poll_timeout(250), 0);
}

#[test]
fn an_overdue_poller_waits_a_whole_tick() {
    assert_eq!(poll_timeout(251), 250);
    assert_eq!(poll_timeout(10_000), 250);
    assert_eq!(poll_timeout(u64::MAX), 250);
}

#[test]
fn a_tick_is_due_once_its_time_has_passed() {
    assert!(!tick_due(0));
    assert!(!tick_due(249));
    assert!(tick_due(250));
    assert!(tick_due(251));
    assert!(tick_due(u64::MAX));
}
