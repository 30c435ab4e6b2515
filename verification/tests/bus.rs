use neo::channel::Bus;
use neo::channel::NUM_QUEUES;
use neo::channel::Q_SIZE;
use neo::msg::Msg;
use neo::queue::FixedQueue;

#[test]
fn queue_overflow_keeps_first_n_in_fifo_order() {
    // Pushing N+1 items into a capacity-N queue retains the first N and
    // silently drops the last.
    let n = 3;
    let mut q = FixedQueue::new(n);
    q.push(Msg::Keyboard { key: 'a' });
    q.push(Msg::Keyboard { key: 'b' });
    q.push(Msg::Keyboard { key: 'c' });
    q.push(Msg::Keyboard { key: 'd' });
    assert_eq!(q.len(), n);
    assert_eq!(q.pop(), Msg::Keyboard { key: 'a' });
    assert_eq!(q.pop(), Msg::Keyboard { key: 'b' });
    assert_eq!(q.pop(), Msg::Keyboard { key: 'c' });
    assert!(q.is_empty());
}

#[test]
fn queue_pop_empty_returns_sentinel_and_changes_nothing() {
    let mut q = FixedQueue::new(4);
    assert_eq!(q.pop(), Msg::Empty);
    assert_eq!(q.len(), 0);
    q.push(Msg::PttButton(true));
    assert_eq!(q.pop(), Msg::PttButton(true));
    assert_eq!(q.pop(), Msg::Empty);
    assert_eq!(q.len(), 0);
}

#[test]
fn channel_pool_exhaustion_fails_on_exactly_the_extra_request() {
    let mut bus = Bus::new();
    for _ in 0..NUM_QUEUES {
        assert!(bus.channel().is_ok());
    }
    assert!(bus.channel().is_err());
}

#[test]
fn channel_send_recv_fifo() {
    let mut bus = Bus::new();
    let (sender, receiver) = bus.channel().unwrap();
    sender.send(&mut bus, Msg::Keyboard { key: 'x' });
    sender.send(&mut bus, Msg::PttButton(false));
    assert_eq!(receiver.recv(&mut bus), Msg::Keyboard { key: 'x' });
    assert_eq!(receiver.recv(&mut bus), Msg::PttButton(false));
    assert_eq!(receiver.recv(&mut bus), Msg::Empty);
}

#[test]
fn channel_queue_drops_on_overflow() {
    let mut bus = Bus::new();
    let (sender, receiver) = bus.channel().unwrap();
    for i in 0..(Q_SIZE + 2) {
        let key = (b'a' + (i as u8)) as char;
        sender.send(&mut bus, Msg::Keyboard { key });
    }
    for i in 0..Q_SIZE {
        let key = (b'a' + (i as u8)) as char;
        assert_eq!(receiver.recv(&mut bus), Msg::Keyboard { key });
    }
    assert_eq!(receiver.recv(&mut bus), Msg::Empty);
}
