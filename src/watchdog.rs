use vstd::prelude::*;

verus! {

/// Lifecycle of the hardware watchdog, on a millisecond clock.
///
/// `Armed` counts down from `timeout_ms` starting at `last_feed_ms`; the
/// countdown runs out at `last_feed_ms + timeout_ms`, and any instant after
/// that finds the processor reset. `Reset` is terminal.
#[derive(Clone, Copy, Debug, PartialEq, Eq, Structural)]
pub enum WatchdogState {
    Unarmed,
    Armed { timeout_ms: u64, last_feed_ms: u64 },
    Reset,
}

/// The instant at which an armed watchdog's countdown reaches zero.
pub open spec fn expiry(timeout_ms: u64, last_feed_ms: u64) -> int {
    last_feed_ms + timeout_ms
}

/// The state seen at instant `now`: an armed watchdog whose countdown ran out
/// before `now` has reset the processor.
pub open spec fn observe_spec(s: WatchdogState, now: u64) -> WatchdogState {
    match s {
        WatchdogState::Armed { timeout_ms, last_feed_ms } => if now > expiry(timeout_ms, last_feed_ms) {
            WatchdogState::Reset
        } else {
            s
        },
        _ => s,
    }
}

/// Feeding at `now`: too late once the countdown ran out, else it restarts the
/// countdown from the full timeout.
pub open spec fn feed_spec(s: WatchdogState, now: u64) -> WatchdogState {
    match observe_spec(s, now) {
        WatchdogState::Armed { timeout_ms, last_feed_ms } => WatchdogState::Armed {
            timeout_ms,
            last_feed_ms: now,
        },
        other => other,
    }
}

/// Feeding at each instant of `feeds` in turn.
pub open spec fn feed_all(s: WatchdogState, feeds: Seq<u64>) -> WatchdogState
    decreases feeds.len(),
{
    if feeds.len() == 0 {
        s
    } else {
        feed_all(feed_spec(s, feeds[0]), feeds.drop_first())
    }
}

/// Milliseconds left on the countdown at `now`, for an armed watchdog.
pub open spec fn countdown_spec(s: WatchdogState, now: u64) -> int {
    match s {
        WatchdogState::Armed { timeout_ms, last_feed_ms } => expiry(timeout_ms, last_feed_ms) - now,
        _ => 0,
    }
}

/// Each instant of `feeds` comes no earlier than the one before it (`start_ms`
/// for the first) and at most `timeout_ms` after it.
pub open spec fn feeds_in_time(timeout_ms: u64, start_ms: u64, feeds: Seq<u64>) -> bool {
    forall|i: int|
        #![trigger feeds[i]]
        0 <= i < feeds.len() ==> {
            let prev = if i == 0 { start_ms } else { feeds[i - 1] };
            prev <= feeds[i] && feeds[i] <= prev + timeout_ms
        }
}

/// The instant of the last feed: `start_ms` when there was none.
pub open spec fn last_feed(start_ms: u64, feeds: Seq<u64>) -> u64 {
    if feeds.len() == 0 {
        start_ms
    } else {
        feeds.last()
    }
}

/// Liveness: a watchdog armed at `start_ms` and fed at intervals no longer than
/// its timeout is never reset; after the feeds it is armed with the last feed,
/// and stays so at every instant up to the end of that countdown.
pub proof fn lemma_liveness(timeout_ms: u64, start_ms: u64, feeds: Seq<u64>)
    requires
        feeds_in_time(timeout_ms, start_ms, feeds),
    ensures
        feed_all(WatchdogState::Armed { timeout_ms, last_feed_ms: start_ms }, feeds)
            == (WatchdogState::Armed { timeout_ms, last_feed_ms: last_feed(start_ms, feeds) }),
        forall|t: u64|
            t <= expiry(timeout_ms, last_feed(start_ms, feeds)) ==> observe_spec(
                feed_all(WatchdogState::Armed { timeout_ms, last_feed_ms: start_ms }, feeds),
                t,
            ) != WatchdogState::Reset,
    decreases feeds.len(),
{
    if feeds.len() > 0 {
        let rest = feeds.drop_first();
        assert(feeds[0] <= start_ms + timeout_ms);
        assert(feeds_in_time(timeout_ms, feeds[0], rest)) by {
            assert forall|i: int| 0 <= i < rest.len() implies {
                let prev = if i == 0 { feeds[0] } else { rest[i - 1] };
                prev <= #[trigger] rest[i] && rest[i] <= prev + timeout_ms
            } by {
                assert(rest[i] == feeds[i + 1]);
            }
        }
        lemma_liveness(timeout_ms, feeds[0], rest);
        if rest.len() > 0 {
            assert(rest.last() == feeds.last());
        }
    }
}

/// Liveness at every step: no prefix of a schedule of timely feeds leaves the
/// watchdog reset.
pub proof fn lemma_never_reset_while_fed(timeout_ms: u64, start_ms: u64, feeds: Seq<u64>)
    requires
        feeds_in_time(timeout_ms, start_ms, feeds),
    ensures
        forall|k: int|
            0 <= k <= feeds.len() ==> #[trigger] feed_all(
                WatchdogState::Armed { timeout_ms, last_feed_ms: start_ms },
                feeds.take(k),
            ) != WatchdogState::Reset,
{
    assert forall|k: int| 0 <= k <= feeds.len() implies #[trigger] feed_all(
        WatchdogState::Armed { timeout_ms, last_feed_ms: start_ms },
        feeds.take(k),
    ) != WatchdogState::Reset by {
        let p = feeds.take(k);
        assert(feeds_in_time(timeout_ms, start_ms, p)) by {
            assert forall|i: int| 0 <= i < p.len() implies {
                let prev = if i == 0 { start_ms } else { p[i - 1] };
                prev <= #[trigger] p[i] && p[i] <= prev + timeout_ms
            } by {
                assert(p[i] == feeds[i]);
                if i > 0 {
                    assert(p[i - 1] == feeds[i - 1]);
                }
            }
        }
        lemma_liveness(timeout_ms, start_ms, p);
    }
}

/// Termination: once feeding stops, the watchdog last fed at `last_feed_ms` is
/// found reset at every instant later than `last_feed_ms + timeout_ms`, and at
/// no instant before that.
pub proof fn lemma_termination(timeout_ms: u64, last_feed_ms: u64, now: u64)
    ensures
        (observe_spec(WatchdogState::Armed { timeout_ms, last_feed_ms }, now) == WatchdogState::Reset)
            <==> now > last_feed_ms + timeout_ms,
        now > last_feed_ms + timeout_ms ==> feed_spec(WatchdogState::Armed { timeout_ms, last_feed_ms }, now)
            == WatchdogState::Reset,
{
}

/// Feeding is idempotent: a feed before the countdown runs out sets it back to
/// the full timeout, however many feeds came before; feeding twice at one
/// instant is feeding once.
pub proof fn lemma_feed_restores_timeout(timeout_ms: u64, start_ms: u64, feeds: Seq<u64>)
    requires
        feeds_in_time(timeout_ms, start_ms, feeds),
        feeds.len() > 0,
    ensures
        countdown_spec(
            feed_all(WatchdogState::Armed { timeout_ms, last_feed_ms: start_ms }, feeds),
            feeds.last(),
        ) == timeout_ms,
        feed_spec(
            feed_all(WatchdogState::Armed { timeout_ms, last_feed_ms: start_ms }, feeds),
            feeds.last(),
        ) == feed_all(WatchdogState::Armed { timeout_ms, last_feed_ms: start_ms }, feeds),
{
    lemma_liveness(timeout_ms, start_ms, feeds);
}

/// Software model of the watchdog controller, driven by the caller's clock.
pub struct WatchdogController {
    pub state: WatchdogState,
}

impl WatchdogController {
    /// The countdown's end fits the clock, and feeds never come from the past.
    pub open spec fn wf(&self) -> bool {
        match self.state {
            WatchdogState::Armed { timeout_ms, last_feed_ms } => expiry(timeout_ms, last_feed_ms) <= u64::MAX,
            _ => true,
        }
    }

    /// A watchdog that has not been started.
    pub fn new() -> (r: WatchdogController)
        ensures
            r.state == WatchdogState::Unarmed,
            r.wf(),
    {
        WatchdogController { state: WatchdogState::Unarmed }
    }

    /// Arms the watchdog at `now_ms`; from then on it must be fed at most
    /// `timeout_ms` after each feed. Only an unarmed watchdog can be started.
    pub fn start(&mut self, timeout_ms: u64, now_ms: u64)
        requires
            old(self).state == WatchdogState::Unarmed,
            now_ms + timeout_ms <= u64::MAX,
        ensures
            final(self).state == (WatchdogState::Armed { timeout_ms, last_feed_ms: now_ms }),
            final(self).wf(),
    {
        self.state = WatchdogState::Armed { timeout_ms, last_feed_ms: now_ms };
    }

    /// Brings the model to instant `now_ms`, resetting it if the countdown ran
    /// out; returns whether the processor has been reset.
    pub fn observe(&mut self, now_ms: u64) -> (r: bool)
        requires
            old(self).wf(),
        ensures
            final(self).state == observe_spec(old(self).state, now_ms),
            final(self).wf(),
            r == (final(self).state == WatchdogState::Reset),
    {
        match self.state {
            WatchdogState::Armed { timeout_ms, last_feed_ms } => {
                if now_ms > last_feed_ms + timeout_ms {
                    self.state = WatchdogState::Reset;
                }
            },
            _ => {},
        }
        match self.state {
            WatchdogState::Reset => true,
            _ => false,
        }
    }

    /// Feeds the watchdog at `now_ms`: the countdown starts again from the full
    /// timeout, unless it had already run out. The watchdog must have been started.
    pub fn feed(&mut self, now_ms: u64)
        requires
            old(self).wf(),
            old(self).state != WatchdogState::Unarmed,
            old(self).state matches WatchdogState::Armed { timeout_ms, last_feed_ms }
                ==> last_feed_ms <= now_ms && now_ms + timeout_ms <= u64::MAX,
        ensures
            final(self).state == feed_spec(old(self).state, now_ms),
            final(self).wf(),
    {
        self.observe(now_ms);
        match self.state {
            WatchdogState::Armed { timeout_ms, last_feed_ms: _ } => {
                self.state = WatchdogState::Armed { timeout_ms, last_feed_ms: now_ms };
            },
            _ => {},
        }
    }

    /// Milliseconds left before the countdown runs out, for an armed watchdog
    /// observed at `now_ms`; zero otherwise.
    pub fn countdown(&self, now_ms: u64) -> (r: u64)
        requires
            self.wf(),
            self.state matches WatchdogState::Armed { timeout_ms, last_feed_ms }
                ==> now_ms <= expiry(timeout_ms, last_feed_ms),
        ensures
            r == countdown_spec(self.state, now_ms),
    {
        match self.state {
            WatchdogState::Armed { timeout_ms, last_feed_ms } => last_feed_ms + timeout_ms - now_ms,
            _ => 0,
        }
    }
}

} // verus!
