use vstd::prelude::*;
use embassy_sync::blocking_mutex::raw::NoopRawMutex;
use embassy_sync::channel::{Channel, TryReceiveError, TrySendError};

verus! {

/// Number of tokens the channel buffers before `try_send` reports it full.
pub const CHANNEL_CAPACITY: usize = 64;

/// The one message kind the channel carries: "stop requested".
#[derive(Clone, Copy, Debug, PartialEq, Eq, Structural)]
pub enum TerminationToken {
    Stop,
}

/// `try_send` found the channel holding `CHANNEL_CAPACITY` tokens already.
#[derive(Clone, Copy, Debug, PartialEq, Eq, Structural)]
pub enum SendError {
    Full,
}

/// `try_receive` found no token queued.
#[derive(Clone, Copy, Debug, PartialEq, Eq, Structural)]
pub enum ReceiveError {
    Empty,
}

#[verifier::external_type_specification]
#[verifier::external_body]
pub struct ExTryReceiveError(TryReceiveError);

#[verifier::external_type_specification]
#[verifier::external_body]
#[verifier::reject_recursive_types(T)]
pub struct ExTrySendError<T>(TrySendError<T>);

/// A bounded FIFO of termination tokens shared by the sequencer and the feeder.
/// Its contents are seen through `queued_tokens`.
#[verifier::external_body]
pub struct SignalChannel {
    inner: Channel<NoopRawMutex, TerminationToken, CHANNEL_CAPACITY>,
}

/// The tokens queued in the channel, oldest first.
pub uninterp spec fn queued_tokens(c: SignalChannel) -> Seq<TerminationToken>;

impl SignalChannel {
    /// Relies on embassy_sync's `Channel::new`: a new channel holds no message.
    #[verifier::external_body]
    fn raw_new() -> (r: SignalChannel)
        ensures
            queued_tokens(r) == Seq::<TerminationToken>::empty(),
    {
        SignalChannel { inner: Channel::new() }
    }

    /// An empty channel.
    pub fn new() -> (r: SignalChannel)
        ensures
            queued_tokens(r) == Seq::<TerminationToken>::empty(),
            r.wf(),
    {
        SignalChannel::raw_new()
    }

    /// Relies on embassy_sync's `Channel::try_send`: the message is pushed at the
    /// back when fewer than `N` are queued, else it is handed back and nothing changes.
    #[verifier::external_body]
    fn raw_try_send(&mut self, t: TerminationToken) -> (r: Result<(), TrySendError<TerminationToken>>)
        requires
            queued_tokens(*old(self)).len() <= CHANNEL_CAPACITY,
        ensures
            queued_tokens(*old(self)).len() < CHANNEL_CAPACITY ==> r is Ok
                && queued_tokens(*final(self)) == queued_tokens(*old(self)).push(t),
            queued_tokens(*old(self)).len() == CHANNEL_CAPACITY ==> r is Err
                && queued_tokens(*final(self)) == queued_tokens(*old(self)),
    {
        self.inner.try_send(t)
    }

    /// Relies on embassy_sync's `Channel::try_receive`: it pops the front message,
    /// or reports the channel empty and changes nothing.
    #[verifier::external_body]
    fn raw_try_receive(&mut self) -> (r: Result<TerminationToken, TryReceiveError>)
        requires
            queued_tokens(*old(self)).len() <= CHANNEL_CAPACITY,
        ensures
            queued_tokens(*old(self)).len() > 0 ==> r == Ok::<TerminationToken, TryReceiveError>(queued_tokens(*old(self))[0])
                && queued_tokens(*final(self)) == queued_tokens(*old(self)).drop_first(),
            queued_tokens(*old(self)).len() == 0 ==> r is Err
                && queued_tokens(*final(self)) == queued_tokens(*old(self)),
    {
        self.inner.try_receive()
    }

    /// Relies on embassy_sync's `Channel::len`: the number of queued messages.
    #[verifier::external_body]
    fn raw_len(&self) -> (r: usize)
        ensures
            r == queued_tokens(*self).len(),
    {
        self.inner.len()
    }

    /// The channel never holds more than `CHANNEL_CAPACITY` tokens.
    pub open spec fn wf(&self) -> bool {
        queued_tokens(*self).len() <= CHANNEL_CAPACITY
    }

    /// Queues `t` without blocking; a full channel rejects it and is left as it was.
    pub fn try_send(&mut self, t: TerminationToken) -> (r: Result<(), SendError>)
        requires
            old(self).wf(),
        ensures
            final(self).wf(),
            queued_tokens(*old(self)).len() < CHANNEL_CAPACITY ==> r == Ok::<(), SendError>(())
                && queued_tokens(*final(self)) == queued_tokens(*old(self)).push(t),
            queued_tokens(*old(self)).len() == CHANNEL_CAPACITY ==> r == Err::<(), SendError>(SendError::Full)
                && queued_tokens(*final(self)) == queued_tokens(*old(self)),
    {
        match self.raw_try_send(t) {
            Ok(()) => Ok(()),
            Err(_) => Err(SendError::Full),
        }
    }

    /// Takes the oldest queued token without blocking, or reports the channel empty.
    pub fn try_receive(&mut self) -> (r: Result<TerminationToken, ReceiveError>)
        requires
            old(self).wf(),
        ensures
            final(self).wf(),
            queued_tokens(*old(self)).len() > 0 ==> r == Ok::<TerminationToken, ReceiveError>(queued_tokens(*old(self))[0])
                && queued_tokens(*final(self)) == queued_tokens(*old(self)).drop_first(),
            queued_tokens(*old(self)).len() == 0 ==> r == Err::<TerminationToken, ReceiveError>(ReceiveError::Empty)
                && queued_tokens(*final(self)) == queued_tokens(*old(self)),
    {
        match self.raw_try_receive() {
            Ok(t) => Ok(t),
            Err(_) => Err(ReceiveError::Empty),
        }
    }

    /// Number of tokens queued.
    pub fn len(&self) -> (r: usize)
        ensures
            r == queued_tokens(*self).len(),
    {
        self.raw_len()
    }

    /// Whether no token is queued.
    pub fn is_empty(&self) -> (r: bool)
        ensures
            r == (queued_tokens(*self).len() == 0),
    {
        self.raw_len() == 0
    }
}

} // verus!
