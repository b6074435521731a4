use led_watchdog::{WatchdogController, WatchdogState, FEED_PERIOD_MS, WATCHDOG_TIMEOUT_MS};

#[test]
fn new_watchdog_is_unarmed() {
    let wd = WatchdogController::new();
    assert_eq!(wd.state, WatchdogState::Unarmed);
}

#[test]
fn start_arms_with_full_countdown() {
    let mut wd = WatchdogController::new();
    wd.start(1050, 0);
    assert_eq!(wd.state, WatchdogState::Armed { timeout_ms: 1050, last_feed_ms: 0 });
    assert_eq!(wd.countdown(0), 1050);
    assert_eq!(wd.countdown(300), 750);
}

#[test]
fn feeding_every_period_never_resets() {
    let mut wd = WatchdogController::new();
    wd.start(WATCHDOG_TIMEOUT_MS, 0);
    let mut now = 0u64;
    for _ in 0..100 {
        wd.feed(now);
        assert!(!wd.observe(now + WATCHDOG_TIMEOUT_MS));
        now += FEED_PERIOD_MS;
    }
    assert_eq!(wd.state, WatchdogState::Armed { timeout_ms: 1050, last_feed_ms: 99 * 750 });
}

#[test]
fn feed_exactly_at_timeout_keeps_alive() {
    let mut wd = WatchdogController::new();
    wd.start(1050, 0);
    wd.feed(1050);
    assert_eq!(wd.state, WatchdogState::Armed { timeout_ms: 1050, last_feed_ms: 1050 });
}

#[test]
fn starving_resets_after_timeout() {
    let mut wd = WatchdogController::new();
    wd.start(1050, 0);
    wd.feed(750);
    assert!(!wd.observe(1800));
    assert!(wd.observe(1801));
    assert_eq!(wd.state, WatchdogState::Reset);
    wd.feed(1802);
    assert_eq!(wd.state, WatchdogState::Reset);
}

#[test]
fn late_feed_does_not_revive() {
    let mut wd = WatchdogController::new();
    wd.start(1050, 100);
    wd.feed(1151);
    assert_eq!(wd.state, WatchdogState::Reset);
    assert_eq!(wd.countdown(2000), 0);
}

#[test]
fn repeated_feeds_restore_full_timeout() {
    let mut wd = WatchdogController::new();
    wd.start(1050, 0);
    for t in [10u64, 20, 20, 20, 500, 500] {
        wd.feed(t);
        assert_eq!(wd.countdown(t), 1050);
    }
    assert_eq!(wd.countdown(600), 950);
}
