use std::collections::VecDeque;

use rust_irc::channels::{FakeChannelReceiver, ReceiverWrapper};

#[test]
fn fake_receiver_hands_out_values_in_order_and_counts() {
    let mut queue = VecDeque::new();
    queue.push_back(1u8);
    queue.push_back(2u8);
    let mut rx = FakeChannelReceiver { faked_messages: Box::new(queue), receive_count: 0 };
    assert_eq!(Some(1), rx.receive());
    assert_eq!(Some(2), rx.receive());
    assert_eq!(None, rx.receive());
    assert_eq!(3, rx.receive_count);
}
