use shared_data::SharedChannel;

#[test]
fn test_channels() {
    // A capacity-one ring that is forced to grow on the third send.
    let mut channel: SharedChannel<u64> = SharedChannel::try_new(1).unwrap();
    assert!(channel.try_send(5).is_ok());
    assert_eq!(channel.try_peek(), Some(&5));
    assert_eq!(channel.try_recv(), Some(5));
    assert!(channel.try_send(37).is_ok());
    assert!(channel.try_send(2).is_ok());
    assert_eq!(channel.try_peek(), Some(&37));
    assert_eq!(channel.try_recv(), Some(37));
    assert_eq!(channel.try_peek(), Some(&2));
    assert_eq!(channel.try_recv(), Some(2));
    assert!(channel.try_recv().is_none());
}

#[test]
fn test_recv_empty_idempotent() {
    let mut channel: SharedChannel<u64> = SharedChannel::try_new(4).unwrap();
    assert!(channel.try_recv().is_none());
    assert!(channel.try_recv().is_none());
    assert!(channel.try_peek().is_none());
    // The drained channel still works as before.
    assert!(channel.try_send(9).is_ok());
    assert_eq!(channel.try_recv(), Some(9));
    assert!(channel.try_recv().is_none());
}

#[test]
fn test_channel_delivery_exact() {
    // A single producer sends a thousand values through a channel
    // that must grow repeatedly; the receiver sees each exactly once,
    // in order, and then nothing.
    let mut channel: SharedChannel<u64> = SharedChannel::try_new(1).unwrap();
    for i in 0..1000u64 {
        assert!(channel.try_send(i).is_ok());
    }
    for i in 0..1000u64 {
        assert_eq!(channel.try_recv(), Some(i));
    }
    assert!(channel.try_recv().is_none());
}

#[test]
fn test_channel_interleaved() {
    let mut channel: SharedChannel<u64> = SharedChannel::try_new(2).unwrap();
    let mut next_send: u64 = 0;
    let mut next_recv: u64 = 0;
    // Interleave bursts of sends and receives so the windows wrap.
    for round in 0..50u64 {
        let burst = 1 + (round % 3);
        for _ in 0..burst {
            assert!(channel.try_send(next_send).is_ok());
            next_send += 1;
        }
        for _ in 0..(burst - round % 2) {
            if next_recv < next_send {
                assert_eq!(channel.try_recv(), Some(next_recv));
                next_recv += 1;
            }
        }
    }
    while next_recv < next_send {
        assert_eq!(channel.try_recv(), Some(next_recv));
        next_recv += 1;
    }
    assert!(channel.try_recv().is_none());
}
