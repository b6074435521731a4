use vstd::prelude::*;
use crate::channel::{ReceiveError, SignalChannel, TerminationToken, CHANNEL_CAPACITY, queued_tokens};
use crate::watchdog::{WatchdogController, WatchdogState};

verus! {

/// How often the feeder feeds the watchdog.
pub const FEED_PERIOD_MS: u64 = 750;

/// Watchdog timeout the demonstration arms; comfortably above `FEED_PERIOD_MS`.
pub const WATCHDOG_TIMEOUT_MS: u64 = 1050;

/// What the feeder does after one poll of the channel.
#[derive(Clone, Copy, Debug, PartialEq, Eq, Structural)]
pub enum FeederStep {
    /// Keep looping: feed, sleep a period, poll again.
    Continue,
    /// A stop was requested: leave the loop and stop feeding.
    Exit,
}

/// A token ends the loop; an empty poll is the normal steady state.
pub open spec fn step_for(r: Result<TerminationToken, ReceiveError>) -> FeederStep {
    match r {
        Ok(_) => FeederStep::Exit,
        Err(_) => FeederStep::Continue,
    }
}

/// Decides the feeder's next step from the outcome of one `try_receive`.
pub fn on_poll(r: Result<TerminationToken, ReceiveError>) -> (s: FeederStep)
    ensures
        s == step_for(r),
{
    match r {
        Ok(_) => FeederStep::Exit,
        Err(_) => FeederStep::Continue,
    }
}

/// Index of the poll at which the feeder leaves its loop, when `queued` tokens
/// wait at the start and `sends[i]` tells whether a token is sent during the
/// sleep before poll `i`; `None` when no poll among them finds a token.
pub open spec fn exit_poll(queued: nat, sends: Seq<bool>) -> Option<nat>
    decreases sends.len(),
{
    if sends.len() == 0 {
        None
    } else if queued > 0 || sends[0] {
        Some(0)
    } else {
        match exit_poll(0, sends.drop_first()) {
            Some(k) => Some(k + 1),
            None => None,
        }
    }
}

/// Single delivery: when exactly one token is sent, during the sleep before
/// poll `j`, on a channel that starts empty, the feeder observes exactly one
/// stop, at poll `j`: no earlier poll sees a stop and none is missed.
pub proof fn lemma_single_delivery(sends: Seq<bool>, j: int)
    requires
        0 <= j < sends.len(),
        sends[j],
        forall|i: int| 0 <= i < sends.len() && i != j ==> !#[trigger] sends[i],
    ensures
        exit_poll(0, sends) == Some(j as nat),
    decreases sends.len(),
{
    if j > 0 {
        let rest = sends.drop_first();
        assert(!sends[0]);
        assert forall|i: int| 0 <= i < rest.len() && i != j - 1 implies !#[trigger] rest[i] by {
            assert(rest[i] == sends[i + 1]);
        }
        lemma_single_delivery(rest, j - 1);
    }
}

/// Without a token among `sends`, on a channel that starts empty, the feeder
/// never leaves its loop.
pub proof fn lemma_no_token_no_exit(sends: Seq<bool>)
    requires
        forall|i: int| 0 <= i < sends.len() ==> !#[trigger] sends[i],
    ensures
        exit_poll(0, sends) == None::<nat>,
    decreases sends.len(),
{
    if sends.len() > 0 {
        let rest = sends.drop_first();
        assert forall|i: int| 0 <= i < rest.len() implies !#[trigger] rest[i] by {
            assert(rest[i] == sends[i + 1]);
        }
        lemma_no_token_no_exit(rest);
    }
}

/// `after` is `before` with its countdown restarted at instant `t`: the same
/// timeout, last fed at `t`.
pub open spec fn fed_last_at(before: WatchdogController, after: WatchdogController, t: int) -> bool {
    before.state matches WatchdogState::Armed { timeout_ms, last_feed_ms: _ }
        && after.state matches WatchdogState::Armed { timeout_ms: t2, last_feed_ms: l2 }
        && t2 == timeout_ms && l2 == t
}

/// The feeder task's loop state.
pub struct Feeder {
    pub period_ms: u64,
    pub running: bool,
}

impl Feeder {
    /// A running feeder that feeds every `period_ms`.
    pub fn new(period_ms: u64) -> (r: Feeder)
        ensures
            r.period_ms == period_ms,
            r.running,
    {
        Feeder { period_ms, running: true }
    }

    /// One non-blocking poll of the channel: a queued token is consumed and
    /// ends the loop; an empty channel leaves everything as it was.
    pub fn poll(&mut self, chan: &mut SignalChannel) -> (s: FeederStep)
        requires
            old(self).running,
            old(chan).wf(),
        ensures
            final(chan).wf(),
            final(self).period_ms == old(self).period_ms,
            final(self).running == (s == FeederStep::Continue),
            (s == FeederStep::Exit) == (queued_tokens(*old(chan)).len() > 0),
            s == FeederStep::Exit ==> queued_tokens(*final(chan)) == queued_tokens(*old(chan)).drop_first(),
            s == FeederStep::Continue ==> queued_tokens(*final(chan)) == queued_tokens(*old(chan)),
    {
        let r = chan.try_receive();
        let s = on_poll(r);
        if s == FeederStep::Exit {
            self.running = false;
        }
        s
    }
}

/// Runs the feeder task on a simulated millisecond clock starting at
/// `start_ms`: each round feeds `wd`, sleeps one period (during which the
/// sequencer sends a token when `sends[i]`), then polls `chan`. Returns the
/// index of the poll that ended the loop, or `None` if every poll was empty.
pub fn feed_watchdog(
    feeder: &mut Feeder,
    chan: &mut SignalChannel,
    wd: &mut WatchdogController,
    start_ms: u64,
    sends: &Vec<bool>,
) -> (r: Option<u64>)
    requires
        old(feeder).running,
        old(chan).wf(),
        queued_tokens(*old(chan)).len() < CHANNEL_CAPACITY,
        old(wd).state matches WatchdogState::Armed { timeout_ms, last_feed_ms }
            ==> last_feed_ms <= start_ms && start_ms <= last_feed_ms + timeout_ms
                && old(feeder).period_ms <= timeout_ms
                && start_ms + sends@.len() * old(feeder).period_ms + timeout_ms <= u64::MAX,
        old(wd).state is Armed,
        old(wd).wf(),
    ensures
        final(wd).wf(),
        final(chan).wf(),
        final(feeder).period_ms == old(feeder).period_ms,
        r matches Some(k) ==> exit_poll(queued_tokens(*old(chan)).len(), sends@) == Some(k as nat),
        r is None ==> exit_poll(queued_tokens(*old(chan)).len(), sends@) == None::<nat>,
        final(feeder).running == (r is None),
        r matches Some(k) ==> queued_tokens(*final(chan)).len()
            == queued_tokens(*old(chan)).len() + (if sends@[k as int] { 1int } else { 0 }) - 1,
        r is None ==> queued_tokens(*final(chan)).len() == queued_tokens(*old(chan)).len(),
        r matches Some(k) ==> fed_last_at(*old(wd), *final(wd), start_ms + k * old(feeder).period_ms),
        (r is None && sends@.len() > 0) ==> fed_last_at(
            *old(wd),
            *final(wd),
            start_ms + (sends@.len() - 1) * old(feeder).period_ms,
        ),
        (r is None && sends@.len() == 0) ==> *final(wd) == *old(wd),
{
    let ghost timeout = match wd.state {
        WatchdogState::Armed { timeout_ms, last_feed_ms: _ } => timeout_ms,
        _ => 0,
    };
    let ghost q0 = queued_tokens(*chan).len();
    let ghost period = feeder.period_ms;
    let ghost n = sends@.len();
    let mut now: u64 = start_ms;
    let mut i: usize = 0;
    while i < sends.len()
        invariant
            0 <= i <= sends@.len(),
            n == sends@.len(),
            period == old(feeder).period_ms,
            q0 == queued_tokens(*old(chan)).len(),
            old(wd).state matches WatchdogState::Armed { timeout_ms, last_feed_ms: _ } && timeout_ms == timeout,
            feeder.running,
            feeder.period_ms == period,
            chan.wf(),
            wd.wf(),
            period <= timeout,
            start_ms + n * period + timeout <= u64::MAX,
            now == start_ms + i * period,
            i == 0 ==> queued_tokens(*chan).len() == q0 && q0 < CHANNEL_CAPACITY,
            i > 0 ==> queued_tokens(*chan).len() == 0 && q0 == 0,
            i > 0 ==> forall|m: int| 0 <= m < i ==> !#[trigger] sends@[m],
            exit_poll(q0, sends@) == exit_poll_from(q0, sends@, i as nat),
            i == 0 ==> (wd.state matches WatchdogState::Armed { timeout_ms, last_feed_ms }
                && timeout_ms == timeout && last_feed_ms <= start_ms && start_ms <= last_feed_ms + timeout_ms),
            i == 0 ==> *wd == *old(wd),
            i > 0 ==> fed_last_at(*old(wd), *wd, start_ms + (i - 1) * period),
        decreases sends@.len() - i,
    {
        proof {
            assert(i * period <= n * period) by (nonlinear_arith)
                requires i <= n;
            assert((i + 1) * period == i * period + period) by (nonlinear_arith);
            assert((i + 1) * period <= n * period) by (nonlinear_arith)
                requires i < n;
            if i > 0 {
                assert((i - 1) * period + period == i * period) by (nonlinear_arith)
                    requires i > 0;
            }
        }
        wd.feed(now);
        now = now + feeder.period_ms;
        if sends[i] {
            let _ = chan.try_send(TerminationToken::Stop);
        }
        let s = feeder.poll(chan);
        if s == FeederStep::Exit {
            proof {
                lemma_exit_poll_from_here(q0, sends@, i as nat);
            }
            return Some(i as u64);
        }
        proof {
            lemma_exit_poll_from_step(q0, sends@, i as nat);
        }
        i = i + 1;
    }
    proof {
        lemma_exit_poll_from_end(q0, sends@);
    }
    None
}

/// `exit_poll` of the whole schedule, knowing that the polls before `i` were empty.
pub open spec fn exit_poll_from(queued: nat, sends: Seq<bool>, i: nat) -> Option<nat> {
    if i == 0 {
        exit_poll(queued, sends)
    } else {
        match exit_poll(0, sends.subrange(i as int, sends.len() as int)) {
            Some(k) => Some(k + i),
            None => None,
        }
    }
}

proof fn lemma_exit_poll_from_here(queued: nat, sends: Seq<bool>, i: nat)
    requires
        i < sends.len(),
        i > 0 ==> queued == 0,
        queued > 0 || sends[i as int],
    ensures
        exit_poll_from(queued, sends, i) == Some(i),
{
    if i > 0 {
        let rest = sends.subrange(i as int, sends.len() as int);
        assert(rest[0] == sends[i as int]);
    }
}

proof fn lemma_exit_poll_from_step(queued: nat, sends: Seq<bool>, i: nat)
    requires
        i < sends.len(),
        i > 0 ==> queued == 0,
        queued == 0,
        !sends[i as int],
    ensures
        exit_poll_from(queued, sends, i) == exit_poll_from(queued, sends, i + 1),
{
    let rest = sends.subrange(i as int, sends.len() as int);
    assert(rest[0] == sends[i as int]);
    assert(rest.drop_first() =~= sends.subrange(i + 1 as int, sends.len() as int));
}

proof fn lemma_exit_poll_from_end(queued: nat, sends: Seq<bool>)
    requires
        sends.len() > 0 ==> queued == 0,
    ensures
        exit_poll_from(queued, sends, sends.len()) == None::<nat>,
{
    if sends.len() > 0 {
        assert(sends.subrange(sends.len() as int, sends.len() as int).len() == 0);
    }
}

} // verus!
