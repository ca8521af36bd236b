use shared_prims::channel::Channel;
use shared_prims::errors::TryRecvError;

#[test]
fn three_sends_are_received_in_order_then_disconnected() {
    let mut channel: Channel<i32> = Channel::new();
    assert!(channel.send(1).is_ok());
    assert!(channel.send(2).is_ok());
    assert!(channel.send(3).is_ok());
    assert_eq!(channel.recv().ok(), Some(1));
    assert_eq!(channel.recv().ok(), Some(2));
    assert_eq!(channel.recv().ok(), Some(3));
    channel.drop_sender();
    assert!(channel.is_closed());
    // Drained and closed: a further receive reports the disconnection.
    assert!(channel.recv().is_err());
}

#[test]
fn try_recv_distinguishes_waiting_from_disconnection() {
    let mut channel: Channel<u8> = Channel::new();
    assert_eq!(channel.try_recv(), Err(TryRecvError::WouldBlock));
    assert!(channel.send(9).is_ok());
    assert_eq!(channel.try_recv(), Ok(9));
    channel.drop_sender();
    assert_eq!(channel.try_recv(), Err(TryRecvError::Disconnected));
}

#[test]
fn queued_items_survive_the_last_sender() {
    let mut channel: Channel<&'static str> = Channel::new();
    assert!(channel.send("first").is_ok());
    assert!(channel.send("second").is_ok());
    channel.drop_sender();
    // The queue is drained before the disconnection is reported.
    assert_eq!(channel.recv().ok(), Some("first"));
    assert_eq!(channel.recv().ok(), Some("second"));
    assert!(channel.recv().is_err());
}

#[test]
fn sending_fails_once_the_receiver_is_gone() {
    let mut channel: Channel<u64> = Channel::new();
    assert!(channel.send(5).is_ok());
    channel.drop_receiver();
    assert!(channel.send(6).is_err());
    assert_eq!(channel.pending(), 1);
}

#[test]
fn draining_a_closed_channel_yields_everything_in_order() {
    let mut channel: Channel<u32> = Channel::new();
    for item in [4, 5, 6] {
        assert!(channel.send(item).is_ok());
    }
    channel.drop_sender();
    assert_eq!(channel.drain(), vec![4, 5, 6]);
    assert_eq!(channel.pending(), 0);
    assert!(channel.recv().is_err());
}

#[test]
fn cloned_senders_keep_the_channel_open() {
    let mut channel: Channel<u16> = Channel::new();
    channel.clone_sender();
    channel.clone_sender();
    channel.drop_sender();
    channel.drop_sender();
    assert!(!channel.is_closed());
    assert!(channel.send(1).is_ok());
    channel.drop_sender();
    assert!(channel.is_closed());
    assert_eq!(channel.try_recv(), Ok(1));
    assert_eq!(channel.try_recv(), Err(TryRecvError::Disconnected));
}
