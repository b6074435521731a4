use led_watchdog::{ReceiveError, SendError, SignalChannel, TerminationToken, CHANNEL_CAPACITY};

#[test]
fn new_channel_is_empty() {
    let c = SignalChannel::new();
    assert_eq!(c.len(), 0);
    assert!(c.is_empty());
}

#[test]
fn try_receive_on_empty_channel_reports_empty() {
    let mut c = SignalChannel::new();
    assert_eq!(c.try_receive(), Err(ReceiveError::Empty));
    assert_eq!(c.try_receive(), Err(ReceiveError::Empty));
    assert!(c.is_empty());
}

#[test]
fn sent_token_is_received_once() {
    let mut c = SignalChannel::new();
    assert_eq!(c.try_send(TerminationToken::Stop), Ok(()));
    assert_eq!(c.len(), 1);
    assert!(!c.is_empty());
    assert_eq!(c.try_receive(), Ok(TerminationToken::Stop));
    assert_eq!(c.try_receive(), Err(ReceiveError::Empty));
    assert_eq!(c.len(), 0);
}

#[test]
fn full_channel_rejects_send() {
    let mut c = SignalChannel::new();
    for _ in 0..CHANNEL_CAPACITY {
        assert_eq!(c.try_send(TerminationToken::Stop), Ok(()));
    }
    assert_eq!(c.len(), CHANNEL_CAPACITY);
    assert_eq!(c.try_send(TerminationToken::Stop), Err(SendError::Full));
    assert_eq!(c.len(), CHANNEL_CAPACITY);
    assert_eq!(c.try_receive(), Ok(TerminationToken::Stop));
    assert_eq!(c.len(), CHANNEL_CAPACITY - 1);
    assert_eq!(c.try_send(TerminationToken::Stop), Ok(()));
}
