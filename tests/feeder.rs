use led_watchdog::{
    feed_watchdog, on_poll, Feeder, FeederStep, ReceiveError, SignalChannel, TerminationToken, WatchdogController,
    WatchdogState, FEED_PERIOD_MS, WATCHDOG_TIMEOUT_MS,
};

#[test]
fn poll_outcomes_decide_the_step() {
    assert_eq!(on_poll(Ok(TerminationToken::Stop)), FeederStep::Exit);
    assert_eq!(on_poll(Err(ReceiveError::Empty)), FeederStep::Continue);
}

#[test]
fn empty_poll_keeps_running() {
    let mut f = Feeder::new(FEED_PERIOD_MS);
    let mut c = SignalChannel::new();
    for _ in 0..10 {
        assert_eq!(f.poll(&mut c), FeederStep::Continue);
        assert!(f.running);
    }
}

#[test]
fn token_stops_feeder_and_is_consumed() {
    let mut f = Feeder::new(FEED_PERIOD_MS);
    let mut c = SignalChannel::new();
    c.try_send(TerminationToken::Stop).unwrap();
    assert_eq!(f.poll(&mut c), FeederStep::Exit);
    assert!(!f.running);
    assert!(c.is_empty());
}

fn armed() -> WatchdogController {
    let mut wd = WatchdogController::new();
    wd.start(WATCHDOG_TIMEOUT_MS, 0);
    wd
}

#[test]
fn single_token_observed_once_at_its_poll() {
    let mut f = Feeder::new(FEED_PERIOD_MS);
    let mut c = SignalChannel::new();
    let mut wd = armed();
    let mut sends = vec![false; 20];
    sends[16] = true;
    let r = feed_watchdog(&mut f, &mut c, &mut wd, 0, &sends);
    assert_eq!(r, Some(16));
    assert!(!f.running);
    assert!(c.is_empty());
    assert_eq!(wd.state, WatchdogState::Armed { timeout_ms: 1050, last_feed_ms: 16 * 750 });
    assert!(!wd.observe(16 * 750 + 1050));
    assert!(wd.observe(16 * 750 + 1051));
}

#[test]
fn no_token_feeds_throughout() {
    let mut f = Feeder::new(FEED_PERIOD_MS);
    let mut c = SignalChannel::new();
    let mut wd = armed();
    let sends = vec![false; 8];
    assert_eq!(feed_watchdog(&mut f, &mut c, &mut wd, 0, &sends), None);
    assert!(f.running);
    assert_eq!(wd.state, WatchdogState::Armed { timeout_ms: 1050, last_feed_ms: 7 * 750 });
}

#[test]
fn token_already_queued_stops_at_first_poll() {
    let mut f = Feeder::new(FEED_PERIOD_MS);
    let mut c = SignalChannel::new();
    c.try_send(TerminationToken::Stop).unwrap();
    let mut wd = armed();
    let sends = vec![false, true, false];
    assert_eq!(feed_watchdog(&mut f, &mut c, &mut wd, 0, &sends), Some(0));
    assert_eq!(wd.state, WatchdogState::Armed { timeout_ms: 1050, last_feed_ms: 0 });
}

#[test]
fn empty_schedule_leaves_everything() {
    let mut f = Feeder::new(FEED_PERIOD_MS);
    let mut c = SignalChannel::new();
    let mut wd = armed();
    assert_eq!(feed_watchdog(&mut f, &mut c, &mut wd, 0, &Vec::new()), None);
    assert_eq!(wd.state, WatchdogState::Armed { timeout_ms: 1050, last_feed_ms: 0 });
}
