use zombie_survival::timer::Timer;

#[test]
fn nonrepeating_timer_finishes_at_duration() {
    let mut t = Timer::from_millis(250, false);
    assert!(!t.finished());
    t.tick(100);
    assert!(!t.finished());
    t.tick(149);
    assert!(!t.finished());
    t.tick(1);
    assert!(t.finished());
    assert_eq!(t.elapsed_millis(), 250);
}

#[test]
fn nonrepeating_timer_stays_finished_without_reset() {
    let mut t = Timer::from_millis(100, false);
    t.tick(300);
    assert!(t.finished());
    // Elapsed clamps at the duration.
    assert_eq!(t.elapsed_millis(), 100);
    t.tick(50);
    assert!(t.finished());
    t.tick(0);
    assert!(t.finished());
    t.reset();
    assert!(!t.finished());
    assert_eq!(t.elapsed_millis(), 0);
}

#[test]
fn repeating_timer_fires_exactly_once_per_wrap() {
    // Duration D ticked by D + epsilon: finished exactly on that tick,
    // and the carry makes the elapsed fraction epsilon / D.
    let mut t = Timer::from_millis(3000, true);
    t.tick(3100);
    assert!(t.finished());
    assert_eq!(t.elapsed_millis(), 100);
    assert_eq!(t.duration_millis(), 3000);
    t.tick(100);
    assert!(!t.finished());
    assert_eq!(t.elapsed_millis(), 200);
}

#[test]
fn repeating_timer_carries_remainder_over_multiple_wraps() {
    // A tick longer than a full duration still reports finished at
    // most once and keeps the remainder modulo the duration.
    let mut t = Timer::from_millis(100, true);
    t.tick(250);
    assert!(t.finished());
    assert_eq!(t.elapsed_millis(), 50);
    t.tick(49);
    assert!(!t.finished());
    assert_eq!(t.elapsed_millis(), 99);
    t.tick(1);
    assert!(t.finished());
    assert_eq!(t.elapsed_millis(), 0);
}

#[test]
fn repeating_timer_percent_stays_below_one() {
    let mut t = Timer::from_millis(80, true);
    for _ in 0..25 {
        t.tick(33);
        assert!(t.elapsed_millis() < t.duration_millis());
    }
}

#[test]
fn percent_scaled_is_the_elapsed_fraction() {
    let mut t = Timer::from_millis(3000, true);
    t.tick(3100);
    // Carry 100 out of 3000: 3 percent, 33 permille, rounded down.
    assert_eq!(t.percent_scaled(100), 3);
    assert_eq!(t.percent_scaled(1000), 33);
    assert_eq!(t.percent_scaled(3000), 100);
    let mut n = Timer::from_millis(100, false);
    n.tick(250);
    // A finished non-repeating timer sits at the full fraction.
    assert_eq!(n.percent_scaled(100), 100);
}
