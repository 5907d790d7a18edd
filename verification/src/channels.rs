//! Receiving values from a channel, and a stand-in receiver that hands out
//! prepared values.

use vstd::prelude::*;
use std::collections::VecDeque;

verus! {

/// Something values of type `T` can be received from, one at a time.
pub trait ReceiverWrapper<T> {
    /// Whether a value can be asked for now.
    spec fn can_receive(&self) -> bool;

    /// The next value, or `None` when there will be no more.
    fn receive(&mut self) -> (r: Option<T>)
        requires
            old(self).can_receive();
}

/// A receiver that hands out the values it was given, in order, and
/// counts how often it was asked.
pub struct FakeChannelReceiver<T> where T: Send + Sync {
    pub faked_messages: Box<VecDeque<T>>,
    pub receive_count: i32,
}

impl<T> ReceiverWrapper<T> for FakeChannelReceiver<T> where T: Send + Sync {
    /// The count of requests can still go up by one.
    open spec fn can_receive(&self) -> bool {
        self.receive_count < i32::MAX
    }

    fn receive(&mut self) -> (r: Option<T>)
        ensures
            final(self).receive_count == old(self).receive_count + 1,
            old(self).faked_messages@.len() == 0 ==> r is None && final(self).faked_messages@ == old(self).faked_messages@,
            old(self).faked_messages@.len() > 0 ==> r == Some(old(self).faked_messages@[0])
                && final(self).faked_messages@ == old(self).faked_messages@.drop_first(),
    {
        self.receive_count = self.receive_count + 1;
        self.faked_messages.pop_front()
    }
}

} // verus!
