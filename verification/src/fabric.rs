//! Bounded, directional queues linking producer and consumer tasks.
//!
//! Each queue is a capacity-one FIFO: at most one message is in flight,
//! which bounds memory and throttles a producer that outruns its consumer.
//! A full queue rejects a send until the pending message is received; the
//! caller's scheduler loop retries, which is the suspension the fabric
//! promises. Separate queues are used per direction so one direction never
//! blocks the other.

use vstd::prelude::*;

use crate::message::Message;
use crate::message::MessageModel;

verus! {

/// Capacity of every fabric queue: one undelivered message.
pub const QUEUE_CAPACITY: usize = 1;

/// A bounded FIFO queue of messages, safe for cross-core sharing.
#[verifier::external_body]
pub struct BoundedQueue {
    inner: embassy_sync::channel::Channel<
        embassy_sync::blocking_mutex::raw::CriticalSectionRawMutex,
        Message,
        1,
    >,
}

/// The messages a queue currently holds, oldest first.
pub uninterp spec fn queue_contents(q: BoundedQueue) -> Seq<MessageModel>;

impl BoundedQueue {
    /// Relies on embassy_sync::channel::Channel::new: a fresh channel
    /// holds no messages.
    #[verifier::external_body]
    pub fn new() -> (q: BoundedQueue)
        ensures
            queue_contents(q) == Seq::<MessageModel>::empty(),
    {
        BoundedQueue { inner: embassy_sync::channel::Channel::new() }
    }

    /// Relies on embassy_sync::channel::Channel::try_send: the message is
    /// appended when a slot is free, and handed back with a full error
    /// otherwise; the queue never exceeds its capacity.
    #[verifier::external_body]
    pub fn try_send(&mut self, message: Message) -> (r: Result<(), Message>)
        ensures
            queue_contents(*final(self)).len() <= QUEUE_CAPACITY,
            queue_contents(*old(self)).len() < QUEUE_CAPACITY ==> {
                &&& r is Ok
                &&& queue_contents(*final(self)) == queue_contents(*old(self)).push(message@)
            },
            queue_contents(*old(self)).len() >= QUEUE_CAPACITY ==> {
                &&& (r matches Err(m) && m@ == message@)
                &&& queue_contents(*final(self)) == queue_contents(*old(self))
            },
    {
        match self.inner.try_send(message) {
            Ok(()) => Ok(()),
            Err(embassy_sync::channel::TrySendError::Full(m)) => Err(m),
        }
    }

    /// Relies on embassy_sync::channel::Channel::try_receive: the oldest
    /// message is removed and returned, or an empty queue reports nothing.
    #[verifier::external_body]
    pub fn try_receive(&mut self) -> (r: Option<Message>)
        ensures
            queue_contents(*old(self)).len() == 0 ==> {
                &&& r is None
                &&& queue_contents(*final(self)) == queue_contents(*old(self))
            },
            queue_contents(*old(self)).len() > 0 ==> {
                &&& (r matches Some(m) && m@ == queue_contents(*old(self)).first())
                &&& queue_contents(*final(self)) == queue_contents(*old(self)).drop_first()
            },
    {
        self.inner.try_receive().ok()
    }

    /// Relies on embassy_sync::channel::Channel::len: the number of
    /// messages currently buffered.
    #[verifier::external_body]
    pub fn len(&self) -> (n: usize)
        ensures
            n == queue_contents(*self).len(),
    {
        self.inner.len()
    }
}

} // verus!
