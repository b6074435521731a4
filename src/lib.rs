//! Decision logic of a two-task LED and watchdog demonstration: a one-shot
//! termination channel, a model of the hardware watchdog, the feeder task's
//! polling policy and the LED sequencer's fixed colour script.

mod channel;
mod watchdog;
mod feeder;
mod script;

pub use channel::{ReceiveError, SendError, SignalChannel, TerminationToken, CHANNEL_CAPACITY, queued_tokens};
pub use watchdog::{WatchdogController, WatchdogState, expiry, observe_spec, feed_spec, feed_all, countdown_spec, feeds_in_time, last_feed, lemma_liveness, lemma_never_reset_while_fed, lemma_termination, lemma_feed_restores_timeout};
pub use feeder::{Feeder, FeederStep, FEED_PERIOD_MS, WATCHDOG_TIMEOUT_MS, on_poll, step_for, exit_poll, exit_poll_from, fed_last_at, feed_watchdog, lemma_single_delivery, lemma_no_token_no_exit};
pub use script::{
    Rgb, Sequencer, SequencerAction, action_at, action_at_pos, blue, clock_before, green, lemma_action_step,
    lemma_send_once, off, pos_after, red, script_len, send_time, steps_to_write, timeline, white, write_color,
    write_time, writes_before,
};
